use crate::chinese::{literal, Chinese, ChineseFormat, ChineseView, Variant};
use crate::integers::minus_sign;
use vstd::prelude::*;

verus! {

/// The sign class of an integer: -1 for negative, 0 for zero, 1 for positive.
pub open spec fn sign_class(n: int) -> int {
    if n < 0 {
        -1
    } else if n == 0 {
        0
    } else {
        1
    }
}

/// Sign of a number: its identity and its order depend on the sign class only.
#[derive(Debug, Clone, Copy)]
pub struct Sign(pub i128);

impl Sign {
    /// The sign class of the underlying value.
    pub fn class(&self) -> (r: i8)
        ensures
            r as int == sign_class(self.0 as int),
    {
        if self.0 < 0 {
            -1
        } else if self.0 == 0 {
            0
        } else {
            1
        }
    }
}

impl PartialEq for Sign {
    fn eq(&self, other: &Sign) -> bool {
        self.class() == other.class()
    }
}

impl vstd::std_specs::cmp::PartialEqSpecImpl for Sign {
    open spec fn obeys_eq_spec() -> bool {
        true
    }

    open spec fn eq_spec(&self, other: &Sign) -> bool {
        sign_class(self.0 as int) == sign_class(other.0 as int)
    }
}

impl Eq for Sign {
}

/// Relies on the Hash impl of i8: it feeds the value to the hasher and always
/// returns; nothing is promised of the hasher's state.
pub assume_specification<H: core::hash::Hasher>[ <i8 as core::hash::Hash>::hash::<H> ](
    value: &i8,
    state: &mut H,
);

/// The hash depends on the sign class only, as equality does.
impl core::hash::Hash for Sign {
    fn hash<H: core::hash::Hasher>(&self, state: &mut H) {
        self.class().hash(state);
    }
}

/// The order of two sign classes: negative, then zero, then positive.
pub open spec fn class_order(a: int, b: int) -> core::cmp::Ordering {
    if a < b {
        core::cmp::Ordering::Less
    } else if a == b {
        core::cmp::Ordering::Equal
    } else {
        core::cmp::Ordering::Greater
    }
}

impl PartialOrd for Sign {
    fn partial_cmp(&self, other: &Sign) -> Option<core::cmp::Ordering> {
        let a = self.class();
        let b = other.class();
        if a < b {
            Some(core::cmp::Ordering::Less)
        } else if a == b {
            Some(core::cmp::Ordering::Equal)
        } else {
            Some(core::cmp::Ordering::Greater)
        }
    }
}

impl vstd::std_specs::cmp::PartialOrdSpecImpl for Sign {
    open spec fn obeys_partial_cmp_spec() -> bool {
        true
    }

    open spec fn partial_cmp_spec(&self, other: &Sign) -> Option<core::cmp::Ordering> {
        Some(class_order(sign_class(self.0 as int), sign_class(other.0 as int)))
    }
}

/// A negative sign renders as 负 (負); zero and positive ones as the empty, omissible string.
impl ChineseFormat for Sign {
    open spec fn spec_chinese(&self, variant: Variant) -> ChineseView {
        if self.0 >= 0 {
            literal(Seq::empty())
        } else {
            literal(minus_sign(variant == Variant::Traditional))
        }
    }

    fn to_chinese(&self, variant: Variant) -> (r: Chinese) {
        if self.0 >= 0 {
            Chinese { logograms: String::new(), omissible: true }
        } else {
            proof {
                reveal_strlit("负");
                reveal_strlit("負");
                assert("负"@ =~= seq!['负']);
                assert("負"@ =~= seq!['負']);
            }
            ("负", "負").to_chinese(variant)
        }
    }
}

} // verus!
