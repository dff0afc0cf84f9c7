use crate::chinese::{push_char, rendering, Chinese, ChineseFormat, ChineseView, Variant};
use vstd::prelude::*;

verus! {

/// The number of padding logograms needed to reach a width.
pub open spec fn padding_length(min_width: usize, length: nat) -> nat {
    if min_width > length {
        (min_width - length) as nat
    } else {
        0
    }
}

/// The rendering of a source padded on the left: the logogram repeated as many times
/// as the source's logograms fall short of the width, then the source's logograms;
/// omissible exactly when the source is.
pub open spec fn left_padded(source: ChineseView, logogram: char, min_width: usize) -> ChineseView {
    rendering(
        Seq::new(padding_length(min_width, source.logograms.len()), |i: int| logogram)
            + source.logograms,
        source.omissible,
    )
}

/// Pads a source by adding the given logogram to its left, up to a minimum width.
pub struct LeftPadder<'a, T: ChineseFormat> {
    pub logogram: char,
    pub min_width: usize,
    pub source: &'a T,
}

impl<'a, T: ChineseFormat> ChineseFormat for LeftPadder<'a, T> {
    open spec fn spec_chinese(&self, variant: Variant) -> ChineseView {
        left_padded(self.source.spec_chinese(variant), self.logogram, self.min_width)
    }

    fn to_chinese(&self, variant: Variant) -> (r: Chinese) {
        let source = self.source.to_chinese(variant);
        let length = source.logograms.as_str().unicode_len();
        let pad: usize = if self.min_width > length {
            self.min_width - length
        } else {
            0
        };
        let mut logograms = String::new();
        let mut i: usize = 0;
        while i < pad
            invariant
                i <= pad,
                logograms@ == Seq::new(i as nat, |j: int| self.logogram),
            decreases pad - i,
        {
            push_char(&mut logograms, self.logogram);
            i += 1;
            assert(logograms@ =~= Seq::new(i as nat, |j: int| self.logogram));
        }
        logograms.append(source.logograms.as_str());
        assert(logograms@ =~= left_padded(source@, self.logogram, self.min_width).logograms);
        Chinese { logograms, omissible: source.omissible }
    }
}

} // verus!
