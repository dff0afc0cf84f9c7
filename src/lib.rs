//! Conversion of numbers, amounts of money, dates, times and measures to Chinese text,
//! in Simplified or Traditional script.
//!
//! Every conversion produces a [Chinese] expression: logograms together with an
//! omissibility flag. The [ChineseFormat] trait states, through a specification
//! function, exactly which expression each value produces; composite values are
//! assembled with [ChineseVec], placeholders and the [Measure] trait.
mod chinese;
mod count;
mod decimal;
mod digit_sequences;
mod financial;
mod fraction;
mod integers;
mod left_padder;
mod measure;
mod placeholders;
mod result;
mod sign;
mod vector;

pub mod currency;
pub mod gregorian;
pub mod length;
pub mod weight;

pub use chinese::{by_variant, literal, rendering, Chinese, ChineseFormat, ChineseView, Variant};
pub use count::{lemma_count_two, lemma_count_zero, liang, Count, CountBase};
pub use decimal::{decimal_chinese, decimal_point, Decimal, IntegerPart};
pub use digit_sequences::{
    decimal_digits, digit_logogram, digits_chinese, digits_of, digits_to_chinese,
};
pub use financial::{Financial, FinancialBase};
pub use fraction::{fraction_chinese, magnitude, Fraction, ZeroDenominator};
pub use integers::{
    integer_rendering, lemma_integer_omissible, minus_sign, numeral, signed_numeral,
};
pub use left_padder::{left_padded, padding_length, LeftPadder};
pub use measure::{lemma_measure_omissible, measured, Measure};
pub use placeholders::{
    lemma_placeholder, placeheld, replace_omissible, EmptyPlaceholder, LingPlaceholder,
};
pub use result::{ascii_digit, decimal_text, error_message, CrateError, CrateResult};
pub use sign::{class_order, sign_class, Sign};
pub use vector::{
    all_omissible, collected, joined, lemma_collect_concat, lemma_collect_empty,
    lemma_collect_omissible, lemma_collect_rendered_push, lemma_collect_single,
    lemma_rendered_concat, lemma_trim_end_idempotent,
    lemma_trim_start_idempotent, rendered, trimmed_end, trimmed_start, views, ChineseVec,
};
