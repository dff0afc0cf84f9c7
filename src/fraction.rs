use crate::chinese::{literal, rendering, Chinese, ChineseFormat, ChineseView, Variant};
use crate::integers::integer_rendering;
use crate::result::{CrateError, CrateResult};
use crate::sign::Sign;
use crate::vector::{collected, ChineseVec};
use vstd::prelude::*;

verus! {

/// Error for when a denominator is zero.
#[derive(Debug, Clone, Copy, PartialEq, Eq, Structural, PartialOrd, Ord, Hash)]
pub struct ZeroDenominator;

/// The absolute value of an integer.
pub open spec fn magnitude(n: int) -> int {
    if n < 0 {
        -n
    } else {
        n
    }
}

/// The rendering of a fraction: the sign, the denominator, 分之 and the magnitude of
/// the numerator; a zero fraction is an omissible 零, whatever its denominator.
pub open spec fn fraction_chinese(denominator: u128, numerator: i128, variant: Variant) -> ChineseView {
    if numerator != 0 {
        collected(
            seq![
                Sign(numerator).spec_chinese(variant),
                integer_rendering(denominator as int, variant),
                literal(seq!['分', '之']),
                integer_rendering(magnitude(numerator as int), variant),
            ],
        )
    } else {
        rendering(seq!['零'], true)
    }
}

/// A fraction with a non-zero denominator.
#[derive(Debug, Clone, Copy, PartialEq, Eq, Structural, PartialOrd, Ord, Hash)]
pub struct Fraction {
    denominator: u128,
    numerator: i128,
}

impl View for Fraction {
    /// The denominator and the numerator.
    type V = (u128, i128);

    closed spec fn view(&self) -> (u128, i128) {
        (self.denominator, self.numerator)
    }
}

impl Fraction {
    #[verifier::type_invariant]
    spec fn well_formed(&self) -> bool {
        self.denominator != 0
    }

    /// Creates a fraction, the denominator first as in Chinese; fails exactly when it is 0.
    pub fn try_new(denominator: u128, numerator: i128) -> (r: CrateResult<Fraction>)
        ensures
            denominator == 0 ==> r == Err::<Fraction, CrateError>(CrateError::ZeroDenominator),
            denominator != 0 ==> r is Ok && r->Ok_0@ == (denominator, numerator),
    {
        if denominator == 0 {
            Err(CrateError::ZeroDenominator)
        } else {
            Ok(Fraction { denominator, numerator })
        }
    }

    /// The denominator, never zero.
    pub fn denominator(&self) -> (r: u128)
        ensures
            r == self@.0,
            r != 0,
    {
        proof {
            use_type_invariant(self);
        }
        self.denominator
    }

    /// The numerator.
    pub fn numerator(&self) -> (r: i128)
        ensures
            r == self@.1,
    {
        self.numerator
    }
}

impl ChineseFormat for Fraction {
    open spec fn spec_chinese(&self, variant: Variant) -> ChineseView {
        fraction_chinese(self@.0, self@.1, variant)
    }

    fn to_chinese(&self, variant: Variant) -> (r: Chinese) {
        proof {
            reveal_strlit("分之");
            reveal_strlit("零");
            assert("分之"@ =~= seq!['分', '之']);
            assert("零"@ =~= seq!['零']);
        }
        if self.numerator != 0 {
            let magnitude: u128 = if self.numerator < 0 {
                (-(self.numerator + 1)) as u128 + 1
            } else {
                self.numerator as u128
            };
            let items = vec![
                Sign(self.numerator).to_chinese(variant),
                self.denominator.to_chinese(variant),
                "分之".to_chinese(variant),
                magnitude.to_chinese(variant),
            ];
            let parts = ChineseVec::new(items);
            assert(parts@ =~= seq![items@[0]@, items@[1]@, items@[2]@, items@[3]@]);
            parts.collect()
        } else {
            Chinese { logograms: "零".to_owned(), omissible: true }
        }
    }
}

impl From<ZeroDenominator> for CrateError {
    fn from(error: ZeroDenominator) -> CrateError {
        CrateError::ZeroDenominator
    }
}

impl vstd::std_specs::convert::FromSpecImpl<ZeroDenominator> for CrateError {
    open spec fn obeys_from_spec() -> bool {
        true
    }

    open spec fn from_spec(error: ZeroDenominator) -> CrateError {
        CrateError::ZeroDenominator
    }
}

} // verus!
