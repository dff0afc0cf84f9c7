use crate::chinese::{rendering, Chinese, ChineseFormat, ChineseView, Variant};
use vstd::prelude::*;

verus! {

/// A rendering as seen through a placeholder: an omissible rendering has its
/// logograms replaced and stays omissible; any other is kept unchanged.
pub open spec fn placeheld(c: ChineseView, replacement: Seq<char>) -> ChineseView {
    if c.omissible {
        rendering(replacement, true)
    } else {
        c
    }
}

/// Replaces the logograms of an omissible expression, keeping it omissible.
pub fn replace_omissible(c: Chinese, replacement: &str) -> (r: Chinese)
    ensures
        r@ == placeheld(c@, replacement@),
{
    if c.omissible {
        Chinese { logograms: replacement.to_owned(), omissible: true }
    } else {
        c
    }
}

/// Placeholder that writes 零 in lieu of an omissible value.
pub struct LingPlaceholder<'a, T: ChineseFormat>(pub &'a T);

impl<'a, T: ChineseFormat> LingPlaceholder<'a, T> {
    pub fn new(value: &'a T) -> (r: Self)
        ensures
            r.0 == value,
    {
        LingPlaceholder(value)
    }
}

impl<'a, T: ChineseFormat> ChineseFormat for LingPlaceholder<'a, T> {
    open spec fn spec_chinese(&self, variant: Variant) -> ChineseView {
        placeheld(self.0.spec_chinese(variant), seq!['零'])
    }

    fn to_chinese(&self, variant: Variant) -> (r: Chinese) {
        proof {
            reveal_strlit("零");
            assert("零"@ =~= seq!['零']);
        }
        replace_omissible(self.0.to_chinese(variant), "零")
    }
}

/// Placeholder that writes nothing in lieu of an omissible value.
pub struct EmptyPlaceholder<'a, T: ChineseFormat>(pub &'a T);

impl<'a, T: ChineseFormat> EmptyPlaceholder<'a, T> {
    pub fn new(value: &'a T) -> (r: Self)
        ensures
            r.0 == value,
    {
        EmptyPlaceholder(value)
    }
}

impl<'a, T: ChineseFormat> ChineseFormat for EmptyPlaceholder<'a, T> {
    open spec fn spec_chinese(&self, variant: Variant) -> ChineseView {
        placeheld(self.0.spec_chinese(variant), Seq::empty())
    }

    fn to_chinese(&self, variant: Variant) -> (r: Chinese) {
        proof {
            reveal_strlit("");
            assert(""@ =~= Seq::<char>::empty());
        }
        replace_omissible(self.0.to_chinese(variant), "")
    }
}

/// Whatever it wraps, a placeholder gives its replacement for an omissible
/// rendering, still omissible, and any other rendering unchanged.
pub proof fn lemma_placeholder(c: ChineseView, replacement: Seq<char>)
    ensures
        c.omissible ==> placeheld(c, replacement).logograms == replacement && placeheld(
            c,
            replacement,
        ).omissible,
        !c.omissible ==> placeheld(c, replacement) == c,
{
}

} // verus!
