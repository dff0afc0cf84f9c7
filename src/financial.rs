use crate::chinese::{rendering, Chinese, ChineseFormat, ChineseView, Variant};
use crate::integers::{numeral, unsigned_numeral};
use vstd::prelude::*;

verus! {

/// The integer type on which [Financial] is based.
pub type FinancialBase = u64;

/// Financial number, written with the anti-fraud (upper case) numerals.
#[derive(Debug, Clone, Copy, PartialEq, Eq, Structural, PartialOrd, Ord, Hash)]
pub struct Financial(pub FinancialBase);

/// [Financial] can be compared with its underlying integer.
impl PartialEq<FinancialBase> for Financial {
    fn eq(&self, other: &FinancialBase) -> bool {
        self.0 == *other
    }
}

impl vstd::std_specs::cmp::PartialEqSpecImpl<FinancialBase> for Financial {
    open spec fn obeys_eq_spec() -> bool {
        true
    }

    open spec fn eq_spec(&self, other: &FinancialBase) -> bool {
        self.0 == *other
    }
}

/// [Financial] can be ordered against its underlying integer.
impl PartialOrd<FinancialBase> for Financial {
    fn partial_cmp(&self, other: &FinancialBase) -> Option<core::cmp::Ordering> {
        if self.0 < *other {
            Some(core::cmp::Ordering::Less)
        } else if self.0 == *other {
            Some(core::cmp::Ordering::Equal)
        } else {
            Some(core::cmp::Ordering::Greater)
        }
    }
}

impl vstd::std_specs::cmp::PartialOrdSpecImpl<FinancialBase> for Financial {
    open spec fn obeys_partial_cmp_spec() -> bool {
        true
    }

    open spec fn partial_cmp_spec(&self, other: &FinancialBase) -> Option<core::cmp::Ordering> {
        Some(
            if self.0 < *other {
                core::cmp::Ordering::Less
            } else if self.0 == *other {
                core::cmp::Ordering::Equal
            } else {
                core::cmp::Ordering::Greater
            },
        )
    }
}

impl ChineseFormat for Financial {
    open spec fn spec_chinese(&self, variant: Variant) -> ChineseView {
        if self.0 == 0 {
            rendering(seq!['零'], true)
        } else {
            rendering(numeral(self.0 as nat, variant == Variant::Traditional, true), false)
        }
    }

    fn to_chinese(&self, variant: Variant) -> (r: Chinese) {
        let logograms = unsigned_numeral(self.0 as u128, variant, true);
        Chinese { logograms, omissible: self.0 == 0 }
    }
}

} // verus!
