use crate::chinese::{push_char, rendering, Chinese, ChineseFormat, ChineseView, Variant};
use digit_sequence::DigitSequence;
use vstd::prelude::*;

verus! {

#[verifier::external_type_specification]
#[verifier::external_body]
pub struct ExDigitSequence(DigitSequence);

/// The digits that a sequence holds, in order.
pub uninterp spec fn digits_of(s: DigitSequence) -> Seq<u8>;

/// Relies on the derived Clone of DigitSequence: the copy holds the same digits.
pub assume_specification[ <DigitSequence as Clone>::clone ](s: &DigitSequence) -> (r: DigitSequence)
    ensures
        digits_of(r) == digits_of(*s),
;

/// The decimal digits of a natural number, most significant first (one digit for zero).
pub open spec fn decimal_digits(n: nat) -> Seq<u8>
    decreases n,
{
    if n < 10 {
        seq![n as u8]
    } else {
        decimal_digits(n / 10).push((n % 10) as u8)
    }
}

/// The Chinese logogram of a decimal digit, from 零 to 九.
pub open spec fn digit_logogram(d: u8) -> char {
    if d == 0 {
        '零'
    } else if d == 1 {
        '一'
    } else if d == 2 {
        '二'
    } else if d == 3 {
        '三'
    } else if d == 4 {
        '四'
    } else if d == 5 {
        '五'
    } else if d == 6 {
        '六'
    } else if d == 7 {
        '七'
    } else if d == 8 {
        '八'
    } else {
        '九'
    }
}

/// The rendering of a digit sequence: one logogram per digit, omissible only when empty.
pub open spec fn digits_chinese(digits: Seq<u8>) -> ChineseView {
    rendering(digits.map_values(|d: u8| digit_logogram(d)), digits.len() == 0)
}

/// Relies on DigitSequence::iter: it yields the digits in order, and every
/// constructor of the type keeps each of them below 10.
#[verifier::external_body]
pub(crate) fn digit_vec(s: &DigitSequence) -> (r: Vec<u8>)
    ensures
        r@ == digits_of(*s),
        forall|i: int| 0 <= i < r@.len() ==> #[trigger] r@[i] < 10,
{
    s.iter().copied().collect()
}

/// Relies on From<u128> for DigitSequence: the decimal digits of the value.
#[verifier::external_body]
pub(crate) fn digit_sequence_of(value: u128) -> (r: DigitSequence)
    ensures
        digits_of(r) == decimal_digits(value as nat),
{
    DigitSequence::from(value)
}

/// Writes the digits with the logograms from 零 to 九.
pub fn digits_to_chinese(digits: &Vec<u8>) -> (r: Chinese)
    ensures
        r@ == digits_chinese(digits@),
{
    let mut logograms = String::new();
    let mut i: usize = 0;
    while i < digits.len()
        invariant
            i <= digits@.len(),
            logograms@ == digits@.take(i as int).map_values(|d: u8| digit_logogram(d)),
        decreases digits@.len() - i,
    {
        let d = digits[i];
        let c = if d == 0 {
            '零'
        } else if d == 1 {
            '一'
        } else if d == 2 {
            '二'
        } else if d == 3 {
            '三'
        } else if d == 4 {
            '四'
        } else if d == 5 {
            '五'
        } else if d == 6 {
            '六'
        } else if d == 7 {
            '七'
        } else if d == 8 {
            '八'
        } else {
            '九'
        };
        push_char(&mut logograms, c);
        i += 1;
        assert(logograms@ =~= digits@.take(i as int).map_values(|d: u8| digit_logogram(d)));
    }
    assert(digits@.take(i as int) =~= digits@);
    Chinese { logograms, omissible: digits.len() == 0 }
}

/// A digit sequence renders digit by digit, from 零 to 九, whatever the script;
/// only the empty sequence is omissible.
impl ChineseFormat for DigitSequence {
    open spec fn spec_chinese(&self, variant: Variant) -> ChineseView {
        digits_chinese(digits_of(*self))
    }

    fn to_chinese(&self, variant: Variant) -> (r: Chinese) {
        let digits = digit_vec(self);
        digits_to_chinese(&digits)
    }
}

} // verus!
