use vstd::prelude::*;

verus! {

/// The two major Chinese scripts.
#[derive(Debug, Clone, Copy, PartialEq, Eq, Structural, PartialOrd, Ord, Hash)]
pub enum Variant {
    Simplified,
    Traditional,
}

/// Chinese expression: a string of logograms together with its omissibility.
#[derive(Debug, Clone, PartialOrd, Ord, Hash)]
pub struct Chinese {
    /// The sinograms, owned as a String.
    pub logograms: String,
    /// Whether the expression may be elided or replaced in a larger composition,
    /// independently of whether its logograms are empty.
    pub omissible: bool,
}

/// Mathematical model of a [Chinese] expression.
pub struct ChineseView {
    pub logograms: Seq<char>,
    pub omissible: bool,
}

impl View for Chinese {
    type V = ChineseView;

    open spec fn view(&self) -> ChineseView {
        ChineseView { logograms: self.logograms@, omissible: self.omissible }
    }
}

/// The model of a rendering with the given text and flag.
pub open spec fn rendering(logograms: Seq<char>, omissible: bool) -> ChineseView {
    ChineseView { logograms, omissible }
}

impl Chinese {
    /// A copy with the same logograms and flag.
    pub fn duplicate(&self) -> (r: Chinese)
        ensures
            r@ == self@,
    {
        Chinese { logograms: self.logograms.clone(), omissible: self.omissible }
    }
}

impl PartialEq for Chinese {
    fn eq(&self, other: &Chinese) -> bool {
        self.omissible == other.omissible && self.logograms == other.logograms
    }
}

impl vstd::std_specs::cmp::PartialEqSpecImpl for Chinese {
    open spec fn obeys_eq_spec() -> bool {
        true
    }

    open spec fn eq_spec(&self, other: &Chinese) -> bool {
        self@ == other@
    }
}

impl Eq for Chinese {
}

/// A [Chinese] expression equals a string when its logograms do.
impl<'a> PartialEq<&'a str> for Chinese {
    fn eq(&self, other: &&'a str) -> bool {
        let s: &str = *other;
        self.logograms == s.to_owned()
    }
}

impl<'a> vstd::std_specs::cmp::PartialEqSpecImpl<&'a str> for Chinese {
    open spec fn obeys_eq_spec() -> bool {
        true
    }

    open spec fn eq_spec(&self, other: &&'a str) -> bool {
        self.logograms@ == (*other)@
    }
}

/// A [Chinese] expression equals a string when its logograms do.
impl PartialEq<String> for Chinese {
    fn eq(&self, other: &String) -> bool {
        self.logograms == *other
    }
}

impl vstd::std_specs::cmp::PartialEqSpecImpl<String> for Chinese {
    open spec fn obeys_eq_spec() -> bool {
        true
    }

    open spec fn eq_spec(&self, other: &String) -> bool {
        self.logograms@ == other@
    }
}

/// Relies on String::push: appends one character.
#[verifier::external_body]
pub(crate) fn push_char(s: &mut String, c: char)
    ensures
        final(s)@ == old(s)@.push(c),
{
    s.push(c);
}

/// Infallible conversion to [Chinese].
pub trait ChineseFormat {
    /// What the conversion produces, for the given script.
    spec fn spec_chinese(&self, variant: Variant) -> ChineseView;

    fn to_chinese(&self, variant: Variant) -> (r: Chinese)
        ensures
            r@ == self.spec_chinese(variant),
    ;
}

/// The rendering of a literal string: its characters, omissible only when empty.
pub open spec fn literal(s: Seq<char>) -> ChineseView {
    rendering(s, s.len() == 0)
}

/// The text chosen by script: the first for Simplified, the second for Traditional.
pub open spec fn by_variant(variant: Variant, simplified: Seq<char>, traditional: Seq<char>) -> Seq<
    char,
> {
    match variant {
        Variant::Simplified => simplified,
        Variant::Traditional => traditional,
    }
}

/// Any string slice renders as itself, whatever the script.
impl<'a> ChineseFormat for &'a str {
    open spec fn spec_chinese(&self, variant: Variant) -> ChineseView {
        literal((*self)@)
    }

    fn to_chinese(&self, variant: Variant) -> (r: Chinese) {
        let s: &str = *self;
        Chinese { logograms: s.to_owned(), omissible: s.is_empty() }
    }
}

/// An owned string renders as itself, whatever the script.
impl ChineseFormat for String {
    open spec fn spec_chinese(&self, variant: Variant) -> ChineseView {
        literal(self@)
    }

    fn to_chinese(&self, variant: Variant) -> (r: Chinese) {
        Chinese { logograms: self.clone(), omissible: self.as_str().is_empty() }
    }
}

/// `Some` renders as its content; `None` as an empty, omissible expression.
impl<T: ChineseFormat> ChineseFormat for Option<T> {
    open spec fn spec_chinese(&self, variant: Variant) -> ChineseView {
        match self {
            Some(value) => value.spec_chinese(variant),
            None => rendering(Seq::empty(), true),
        }
    }

    fn to_chinese(&self, variant: Variant) -> (r: Chinese) {
        match self {
            Some(value) => value.to_chinese(variant),
            None => Chinese { logograms: String::new(), omissible: true },
        }
    }
}

/// A pair chooses by script: the first element for Simplified,
/// the second for Traditional; the chosen rendering is returned unchanged.
impl<S: ChineseFormat, T: ChineseFormat> ChineseFormat for (S, T) {
    open spec fn spec_chinese(&self, variant: Variant) -> ChineseView {
        match variant {
            Variant::Simplified => self.0.spec_chinese(variant),
            Variant::Traditional => self.1.spec_chinese(variant),
        }
    }

    fn to_chinese(&self, variant: Variant) -> (r: Chinese) {
        match variant {
            Variant::Simplified => self.0.to_chinese(variant),
            Variant::Traditional => self.1.to_chinese(variant),
        }
    }
}

} // verus!
