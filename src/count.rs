use crate::chinese::{rendering, Chinese, ChineseFormat, ChineseView, Variant};
use crate::integers::integer_rendering;
use vstd::prelude::*;

verus! {

/// The integer type on which [Count] is based.
pub type CountBase = u128;

/// The irregular form of two used when counting: 两 (Simplified), 兩 (Traditional).
pub open spec fn liang(variant: Variant) -> Seq<char> {
    match variant {
        Variant::Simplified => seq!['两'],
        Variant::Traditional => seq!['兩'],
    }
}

/// Integer quantity expressing the result of a counting process.
///
/// It renders like an unsigned integer, except that two becomes 两 (兩).
#[derive(Debug, Clone, Copy, PartialEq, Eq, Structural, PartialOrd, Ord, Hash)]
pub struct Count(pub CountBase);

/// [Count] can be compared with its underlying integer.
impl PartialEq<CountBase> for Count {
    fn eq(&self, other: &CountBase) -> bool {
        self.0 == *other
    }
}

impl vstd::std_specs::cmp::PartialEqSpecImpl<CountBase> for Count {
    open spec fn obeys_eq_spec() -> bool {
        true
    }

    open spec fn eq_spec(&self, other: &CountBase) -> bool {
        self.0 == *other
    }
}

/// [Count] can be ordered against its underlying integer.
impl PartialOrd<CountBase> for Count {
    fn partial_cmp(&self, other: &CountBase) -> Option<core::cmp::Ordering> {
        if self.0 < *other {
            Some(core::cmp::Ordering::Less)
        } else if self.0 == *other {
            Some(core::cmp::Ordering::Equal)
        } else {
            Some(core::cmp::Ordering::Greater)
        }
    }
}

impl vstd::std_specs::cmp::PartialOrdSpecImpl<CountBase> for Count {
    open spec fn obeys_partial_cmp_spec() -> bool {
        true
    }

    open spec fn partial_cmp_spec(&self, other: &CountBase) -> Option<core::cmp::Ordering> {
        Some(
            if self.0 < *other {
                core::cmp::Ordering::Less
            } else if self.0 == *other {
                core::cmp::Ordering::Equal
            } else {
                core::cmp::Ordering::Greater
            },
        )
    }
}

impl ChineseFormat for Count {
    open spec fn spec_chinese(&self, variant: Variant) -> ChineseView {
        if self.0 == 2 {
            rendering(liang(variant), false)
        } else {
            integer_rendering(self.0 as int, variant)
        }
    }

    fn to_chinese(&self, variant: Variant) -> (r: Chinese) {
        if self.0 == 2 {
            proof {
                reveal_strlit("两");
                reveal_strlit("兩");
            }
            let r = ("两", "兩").to_chinese(variant);
            assert("两"@ =~= seq!['两']);
            assert("兩"@ =~= seq!['兩']);
            r
        } else {
            self.0.to_chinese(variant)
        }
    }
}

/// Two is counted with its irregular form, in both scripts, and is not omissible.
pub proof fn lemma_count_two(variant: Variant)
    ensures
        Count(2).spec_chinese(variant) == rendering(liang(variant), false),
{
}

/// Zero is counted as an omissible 零, in both scripts.
pub proof fn lemma_count_zero(variant: Variant)
    ensures
        Count(0).spec_chinese(variant) == rendering(seq!['零'], true),
{
}

} // verus!
