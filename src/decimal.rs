use crate::chinese::{literal, Chinese, ChineseFormat, ChineseView, Variant};
use crate::digit_sequences::{digit_vec, digits_chinese, digits_of, digits_to_chinese};
use crate::integers::integer_rendering;
use crate::vector::{collected, ChineseVec};
use digit_sequence::DigitSequence;
use vstd::prelude::*;

verus! {

/// The integer part of a [Decimal].
pub type IntegerPart = i128;

/// The decimal separator: 点 (Simplified), 點 (Traditional).
pub open spec fn decimal_point(variant: Variant) -> Seq<char> {
    match variant {
        Variant::Simplified => seq!['点'],
        Variant::Traditional => seq!['點'],
    }
}

/// The rendering of a decimal number: the integer part alone when there are no
/// fractional digits, else the integer part, the separator and the digits one by one.
pub open spec fn decimal_chinese(integer: int, fractional: Seq<u8>, variant: Variant) -> ChineseView {
    if fractional.len() == 0 {
        integer_rendering(integer, variant)
    } else {
        collected(
            seq![
                integer_rendering(integer, variant),
                literal(decimal_point(variant)),
                digits_chinese(fractional),
            ],
        )
    }
}

/// Accurate real number: an integer part and any number of fractional digits.
#[derive(Debug, Clone, PartialEq, Eq, PartialOrd, Ord, Hash)]
pub struct Decimal {
    /// The digits before the decimal separator.
    pub integer: IntegerPart,
    /// The digits after the decimal separator.
    pub fractional: DigitSequence,
}

impl ChineseFormat for Decimal {
    open spec fn spec_chinese(&self, variant: Variant) -> ChineseView {
        decimal_chinese(self.integer as int, digits_of(self.fractional), variant)
    }

    fn to_chinese(&self, variant: Variant) -> (r: Chinese) {
        let digits = digit_vec(&self.fractional);
        if digits.len() == 0 {
            self.integer.to_chinese(variant)
        } else {
            proof {
                reveal_strlit("点");
                reveal_strlit("點");
                assert("点"@ =~= seq!['点']);
                assert("點"@ =~= seq!['點']);
            }
            let items = vec![
                self.integer.to_chinese(variant),
                ("点", "點").to_chinese(variant),
                digits_to_chinese(&digits),
            ];
            let parts = ChineseVec::new(items);
            assert(parts@ =~= seq![items@[0]@, items@[1]@, items@[2]@]);
            parts.collect()
        }
    }
}

} // verus!
