use crate::chinese::{rendering, Chinese, ChineseFormat, ChineseView, Variant};
use chinese_number::{ChineseCase, ChineseVariant};
use vstd::prelude::*;

verus! {

/// The numeral that the ten-thousand grouping gives to a non-negative integer,
/// in the given script and character case (upper case is the anti-fraud set).
pub uninterp spec fn numeral(n: nat, traditional: bool, upper: bool) -> Seq<char>;

/// The minus sign that precedes a negative numeral.
pub open spec fn minus_sign(traditional: bool) -> Seq<char> {
    if traditional {
        seq!['負']
    } else {
        seq!['负']
    }
}

/// The numeral of any integer: the minus sign, if negative, then the numeral of its magnitude.
pub open spec fn signed_numeral(n: int, traditional: bool, upper: bool) -> Seq<char> {
    if n >= 0 {
        numeral(n as nat, traditional, upper)
    } else {
        minus_sign(traditional) + numeral((-n) as nat, traditional, upper)
    }
}

/// The rendering of an integer: 零 for zero, else its numeral; omissible exactly
/// when it is zero.
pub open spec fn integer_rendering(n: int, variant: Variant) -> ChineseView {
    if n == 0 {
        rendering(seq!['零'], true)
    } else {
        rendering(signed_numeral(n, variant == Variant::Traditional, false), false)
    }
}

/// An integer's rendering is omissible exactly when the integer is zero; zero is
/// written 零 and any other integer as its numeral.
pub proof fn lemma_integer_omissible(n: int, variant: Variant)
    ensures
        integer_rendering(n, variant).omissible == (n == 0),
        n == 0 ==> integer_rendering(n, variant).logograms == seq!['零'],
        n != 0 ==> integer_rendering(n, variant).logograms == signed_numeral(
            n,
            variant == Variant::Traditional,
            false,
        ),
{
}

/// Relies on chinese_number::from_u128_to_chinese_ten_thousand: the numeral of
/// a u128, which is 零 for zero.
#[verifier::external_body]
pub(crate) fn unsigned_numeral(n: u128, variant: Variant, upper: bool) -> (r: String)
    ensures
        r@ == numeral(n as nat, variant == Variant::Traditional, upper),
        n == 0 ==> r@ == seq!['零'],
{
    chinese_number::from_u128_to_chinese_ten_thousand(
        match variant {
            Variant::Simplified => ChineseVariant::Simple,
            Variant::Traditional => ChineseVariant::Traditional,
        },
        if upper { ChineseCase::Upper } else { ChineseCase::Lower },
        n,
    )
}

/// Relies on chinese_number::from_i128_to_chinese_ten_thousand: for a negative
/// value, 负 (负 in Simplified, 負 in Traditional) followed by the numeral of the
/// magnitude; otherwise the numeral of the value.
#[verifier::external_body]
pub(crate) fn signed_numeral_text(n: i128, variant: Variant) -> (r: String)
    ensures
        r@ == signed_numeral(n as int, variant == Variant::Traditional, false),
{
    chinese_number::from_i128_to_chinese_ten_thousand(
        match variant {
            Variant::Simplified => ChineseVariant::Simple,
            Variant::Traditional => ChineseVariant::Traditional,
        },
        ChineseCase::Lower,
        n,
    )
}

/// The rendering of an unsigned integer.
fn unsigned_rendering(n: u128, variant: Variant) -> (r: Chinese)
    ensures
        r@ == integer_rendering(n as int, variant),
{
    let logograms = unsigned_numeral(n, variant, false);
    Chinese { logograms, omissible: n == 0 }
}

/// The rendering of a signed integer.
fn signed_rendering(n: i128, variant: Variant) -> (r: Chinese)
    ensures
        r@ == integer_rendering(n as int, variant),
{
    if n == 0 {
        unsigned_rendering(0, variant)
    } else {
        let logograms = signed_numeral_text(n, variant);
        Chinese { logograms, omissible: false }
    }
}

/// A `u8` renders as its numeral; only zero is omissible.
impl ChineseFormat for u8 {
    open spec fn spec_chinese(&self, variant: Variant) -> ChineseView {
        integer_rendering(*self as int, variant)
    }

    fn to_chinese(&self, variant: Variant) -> (r: Chinese) {
        unsigned_rendering(*self as u128, variant)
    }
}

/// A `u16` renders as its numeral; only zero is omissible.
impl ChineseFormat for u16 {
    open spec fn spec_chinese(&self, variant: Variant) -> ChineseView {
        integer_rendering(*self as int, variant)
    }

    fn to_chinese(&self, variant: Variant) -> (r: Chinese) {
        unsigned_rendering(*self as u128, variant)
    }
}

/// A `u32` renders as its numeral; only zero is omissible.
impl ChineseFormat for u32 {
    open spec fn spec_chinese(&self, variant: Variant) -> ChineseView {
        integer_rendering(*self as int, variant)
    }

    fn to_chinese(&self, variant: Variant) -> (r: Chinese) {
        unsigned_rendering(*self as u128, variant)
    }
}

/// A `u64` renders as its numeral; only zero is omissible.
impl ChineseFormat for u64 {
    open spec fn spec_chinese(&self, variant: Variant) -> ChineseView {
        integer_rendering(*self as int, variant)
    }

    fn to_chinese(&self, variant: Variant) -> (r: Chinese) {
        unsigned_rendering(*self as u128, variant)
    }
}

/// A `u128` renders as its numeral; only zero is omissible.
impl ChineseFormat for u128 {
    open spec fn spec_chinese(&self, variant: Variant) -> ChineseView {
        integer_rendering(*self as int, variant)
    }

    fn to_chinese(&self, variant: Variant) -> (r: Chinese) {
        let r = unsigned_rendering(*self, variant);
        assert(r@ == self.spec_chinese(variant));
        r
    }
}

/// An `i8` renders as its numeral, negative ones after the minus sign; only zero is omissible.
impl ChineseFormat for i8 {
    open spec fn spec_chinese(&self, variant: Variant) -> ChineseView {
        integer_rendering(*self as int, variant)
    }

    fn to_chinese(&self, variant: Variant) -> (r: Chinese) {
        signed_rendering(*self as i128, variant)
    }
}

/// An `i16` renders as its numeral, negative ones after the minus sign; only zero is omissible.
impl ChineseFormat for i16 {
    open spec fn spec_chinese(&self, variant: Variant) -> ChineseView {
        integer_rendering(*self as int, variant)
    }

    fn to_chinese(&self, variant: Variant) -> (r: Chinese) {
        signed_rendering(*self as i128, variant)
    }
}

/// An `i32` renders as its numeral, negative ones after the minus sign; only zero is omissible.
impl ChineseFormat for i32 {
    open spec fn spec_chinese(&self, variant: Variant) -> ChineseView {
        integer_rendering(*self as int, variant)
    }

    fn to_chinese(&self, variant: Variant) -> (r: Chinese) {
        signed_rendering(*self as i128, variant)
    }
}

/// An `i64` renders as its numeral, negative ones after the minus sign; only zero is omissible.
impl ChineseFormat for i64 {
    open spec fn spec_chinese(&self, variant: Variant) -> ChineseView {
        integer_rendering(*self as int, variant)
    }

    fn to_chinese(&self, variant: Variant) -> (r: Chinese) {
        signed_rendering(*self as i128, variant)
    }
}

/// An `i128` renders as its numeral, negative ones after the minus sign; only zero is omissible.
impl ChineseFormat for i128 {
    open spec fn spec_chinese(&self, variant: Variant) -> ChineseView {
        integer_rendering(*self as int, variant)
    }

    fn to_chinese(&self, variant: Variant) -> (r: Chinese) {
        signed_rendering(*self as i128, variant)
    }
}

} // verus!
