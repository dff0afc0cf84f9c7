use super::errors::{CentsOutOfRange, DimesOutOfRange};
use super::units::{
    EverydayCent, EverydayDime, EverydayYuan, FinancialCent, FinancialDime, FinancialYuan,
};
use super::CurrencyStyle;
use crate::chinese::{rendering, Chinese, ChineseFormat, ChineseView, Variant};
use crate::count::Count;
use crate::financial::{Financial, FinancialBase};
use crate::placeholders::{placeheld, EmptyPlaceholder, LingPlaceholder};
use crate::result::{CrateError, CrateResult};
use crate::vector::{collected, trimmed_start, ChineseVec};
use vstd::prelude::*;

verus! {

/// The rendering of an amount of yuan in the given style.
pub open spec fn yuan_chinese(value: FinancialBase, style: CurrencyStyle, variant: Variant) -> ChineseView {
    match style {
        CurrencyStyle::Everyday { formal } => EverydayYuan {
            value: Count(value as u128),
            formal,
        }.spec_chinese(variant),
        CurrencyStyle::Financial => FinancialYuan(Financial(value)).spec_chinese(variant),
    }
}

/// The rendering of an amount of dimes in the given style.
pub open spec fn dime_chinese(value: u8, style: CurrencyStyle, variant: Variant) -> ChineseView {
    match style {
        CurrencyStyle::Everyday { formal } => EverydayDime {
            value: Count(value as u128),
            formal,
        }.spec_chinese(variant),
        CurrencyStyle::Financial => FinancialDime(Financial(value as u64)).spec_chinese(variant),
    }
}

/// The rendering of an amount of cents in the given style (one unit in every register).
pub open spec fn cent_chinese(value: u8, style: CurrencyStyle, variant: Variant) -> ChineseView {
    match style {
        CurrencyStyle::Everyday { .. } => EverydayCent(Count(value as u128)).spec_chinese(variant),
        CurrencyStyle::Financial => FinancialCent(Financial(value as u64)).spec_chinese(variant),
    }
}

/// The yuan (元, also named 块) part of a currency amount.
#[derive(Debug, Clone, Copy, PartialEq, Eq, Structural, PartialOrd, Ord, Hash)]
pub struct Yuan {
    pub value: FinancialBase,
    pub style: CurrencyStyle,
}

impl ChineseFormat for Yuan {
    open spec fn spec_chinese(&self, variant: Variant) -> ChineseView {
        yuan_chinese(self.value, self.style, variant)
    }

    fn to_chinese(&self, variant: Variant) -> (r: Chinese) {
        match self.style {
            CurrencyStyle::Everyday { formal } => EverydayYuan {
                value: Count(self.value as u128),
                formal,
            }.to_chinese(variant),
            CurrencyStyle::Financial => FinancialYuan(Financial(self.value)).to_chinese(variant),
        }
    }
}

/// The dime (角, also named 毛) part of a currency amount: between 0 and 9.
#[derive(Debug, Clone, Copy, PartialEq, Eq, Structural, PartialOrd, Ord, Hash)]
pub struct Dime {
    value: u8,
    style: CurrencyStyle,
}

impl View for Dime {
    type V = (u8, CurrencyStyle);

    closed spec fn view(&self) -> (u8, CurrencyStyle) {
        (self.value, self.style)
    }
}

impl Dime {
    #[verifier::type_invariant]
    spec fn well_formed(&self) -> bool {
        self.value < 10
    }

    /// Fails exactly when the value is 10 or more.
    pub fn try_new(value: u8, style: CurrencyStyle) -> (r: Result<Dime, DimesOutOfRange>)
        ensures
            value >= 10 ==> r == Err::<Dime, DimesOutOfRange>(DimesOutOfRange(value)),
            value < 10 ==> r is Ok && r->Ok_0@ == (value, style),
    {
        if value >= 10 {
            return Err(DimesOutOfRange(value));
        }
        Ok(Dime { value, style })
    }

    /// The number of dimes.
    pub fn value(&self) -> (r: u8)
        ensures
            r == self@.0,
            r < 10,
    {
        proof {
            use_type_invariant(self);
        }
        self.value
    }

    /// The currency style.
    pub fn style(&self) -> (r: CurrencyStyle)
        ensures
            r == self@.1,
    {
        self.style
    }
}

impl ChineseFormat for Dime {
    open spec fn spec_chinese(&self, variant: Variant) -> ChineseView {
        dime_chinese(self@.0, self@.1, variant)
    }

    fn to_chinese(&self, variant: Variant) -> (r: Chinese) {
        match self.style {
            CurrencyStyle::Everyday { formal } => EverydayDime {
                value: Count(self.value as u128),
                formal,
            }.to_chinese(variant),
            CurrencyStyle::Financial => FinancialDime(Financial(self.value as u64)).to_chinese(
                variant,
            ),
        }
    }
}

/// The cent (分) part of a currency amount: between 0 and 9.
#[derive(Debug, Clone, Copy, PartialEq, Eq, Structural, PartialOrd, Ord, Hash)]
pub struct Cent {
    value: u8,
    style: CurrencyStyle,
}

impl View for Cent {
    type V = (u8, CurrencyStyle);

    closed spec fn view(&self) -> (u8, CurrencyStyle) {
        (self.value, self.style)
    }
}

impl Cent {
    #[verifier::type_invariant]
    spec fn well_formed(&self) -> bool {
        self.value < 10
    }

    /// Fails exactly when the value is 10 or more.
    pub fn try_new(value: u8, style: CurrencyStyle) -> (r: Result<Cent, CentsOutOfRange>)
        ensures
            value >= 10 ==> r == Err::<Cent, CentsOutOfRange>(CentsOutOfRange(value)),
            value < 10 ==> r is Ok && r->Ok_0@ == (value, style),
    {
        if value >= 10 {
            return Err(CentsOutOfRange(value));
        }
        Ok(Cent { value, style })
    }

    /// The number of cents.
    pub fn value(&self) -> (r: u8)
        ensures
            r == self@.0,
            r < 10,
    {
        proof {
            use_type_invariant(self);
        }
        self.value
    }

    /// The currency style.
    pub fn style(&self) -> (r: CurrencyStyle)
        ensures
            r == self@.1,
    {
        self.style
    }
}

impl ChineseFormat for Cent {
    open spec fn spec_chinese(&self, variant: Variant) -> ChineseView {
        cent_chinese(self@.0, self@.1, variant)
    }

    fn to_chinese(&self, variant: Variant) -> (r: Chinese) {
        match self.style {
            CurrencyStyle::Everyday { .. } => EverydayCent(Count(self.value as u128)).to_chinese(
                variant,
            ),
            CurrencyStyle::Financial => FinancialCent(Financial(self.value as u64)).to_chinese(
                variant,
            ),
        }
    }
}

/// The number of yuan.
impl From<Yuan> for FinancialBase {
    fn from(yuan: Yuan) -> FinancialBase {
        yuan.value
    }
}

impl vstd::std_specs::convert::FromSpecImpl<Yuan> for FinancialBase {
    open spec fn obeys_from_spec() -> bool {
        true
    }

    open spec fn from_spec(yuan: Yuan) -> FinancialBase {
        yuan.value
    }
}

/// The number of dimes.
impl From<Dime> for u8 {
    fn from(dime: Dime) -> u8 {
        dime.value
    }
}

impl vstd::std_specs::convert::FromSpecImpl<Dime> for u8 {
    open spec fn obeys_from_spec() -> bool {
        true
    }

    open spec fn from_spec(dime: Dime) -> u8 {
        dime@.0
    }
}

/// The number of cents.
impl From<Cent> for u8 {
    fn from(cent: Cent) -> u8 {
        cent.value
    }
}

impl vstd::std_specs::convert::FromSpecImpl<Cent> for u8 {
    open spec fn obeys_from_spec() -> bool {
        true
    }

    open spec fn from_spec(cent: Cent) -> u8 {
        cent@.0
    }
}

/// The plain parts of a Renminbi amount, or of its builder's settings.
pub struct RenminbiParts {
    pub yuan: FinancialBase,
    pub dimes: u8,
    pub cents: u8,
    pub style: CurrencyStyle,
}

/// Builds [RenminbiCurrency] values; every part defaults to zero, in the formal everyday style.
pub struct RenminbiCurrencyBuilder {
    yuan: FinancialBase,
    dimes: u8,
    cents: u8,
    style: CurrencyStyle,
}

impl View for RenminbiCurrencyBuilder {
    type V = RenminbiParts;

    closed spec fn view(&self) -> RenminbiParts {
        RenminbiParts { yuan: self.yuan, dimes: self.dimes, cents: self.cents, style: self.style }
    }
}

impl RenminbiCurrencyBuilder {
    /// The default builder: all zeros, formal everyday style.
    pub fn new() -> (r: Self)
        ensures
            r@ == (RenminbiParts {
                yuan: 0,
                dimes: 0,
                cents: 0,
                style: CurrencyStyle::Everyday { formal: true },
            }),
    {
        RenminbiCurrencyBuilder {
            yuan: 0,
            dimes: 0,
            cents: 0,
            style: CurrencyStyle::Everyday { formal: true },
        }
    }

    /// Sets the 元 (also named 块) part.
    pub fn with_yuan(self, yuan: FinancialBase) -> (r: Self)
        ensures
            r@ == (RenminbiParts { yuan, ..self@ }),
    {
        RenminbiCurrencyBuilder { yuan, ..self }
    }

    /// Sets the 角 (also named 毛) part; building fails unless it is at most 9.
    pub fn with_dimes(self, dimes: u8) -> (r: Self)
        ensures
            r@ == (RenminbiParts { dimes, ..self@ }),
    {
        RenminbiCurrencyBuilder { dimes, ..self }
    }

    /// Sets the 分 part; building fails unless it is at most 9.
    pub fn with_cents(self, cents: u8) -> (r: Self)
        ensures
            r@ == (RenminbiParts { cents, ..self@ }),
    {
        RenminbiCurrencyBuilder { cents, ..self }
    }

    /// Sets the style shared by all the parts.
    pub fn with_style(self, style: CurrencyStyle) -> (r: Self)
        ensures
            r@ == (RenminbiParts { style, ..self@ }),
    {
        RenminbiCurrencyBuilder { style, ..self }
    }

    /// Builds the amount: dimes out of range are reported first, then cents.
    pub fn build(&self) -> (r: CrateResult<RenminbiCurrency>)
        ensures
            self@.dimes >= 10 ==> r == Err::<RenminbiCurrency, CrateError>(
                CrateError::DimesOutOfRange(self@.dimes),
            ),
            self@.dimes < 10 && self@.cents >= 10 ==> r == Err::<RenminbiCurrency, CrateError>(
                CrateError::CentsOutOfRange(self@.cents),
            ),
            self@.dimes < 10 && self@.cents < 10 ==> r is Ok && r->Ok_0@ == self@,
    {
        let dimes = match Dime::try_new(self.dimes, self.style) {
            Ok(dimes) => dimes,
            Err(e) => {
                return Err(CrateError::DimesOutOfRange(e.0));
            },
        };
        let cents = match Cent::try_new(self.cents, self.style) {
            Ok(cents) => cents,
            Err(e) => {
                return Err(CrateError::CentsOutOfRange(e.0));
            },
        };
        Ok(
            RenminbiCurrency {
                yuan: self.yuan,
                dimes: dimes.value(),
                cents: cents.value(),
                style: self.style,
            },
        )
    }
}

impl Default for RenminbiCurrencyBuilder {
    fn default() -> (r: Self)
        ensures
            r@ == (RenminbiParts {
                yuan: 0,
                dimes: 0,
                cents: 0,
                style: CurrencyStyle::Everyday { formal: true },
            }),
    {
        RenminbiCurrencyBuilder::new()
    }
}

/// Renminbi (人民币) amount, built by [RenminbiCurrencyBuilder]: dimes and cents
/// are always at most 9.
#[derive(Debug, Clone, Copy, PartialEq, Eq, Structural, PartialOrd, Ord, Hash)]
pub struct RenminbiCurrency {
    yuan: FinancialBase,
    dimes: u8,
    cents: u8,
    style: CurrencyStyle,
}

impl View for RenminbiCurrency {
    type V = RenminbiParts;

    closed spec fn view(&self) -> RenminbiParts {
        RenminbiParts { yuan: self.yuan, dimes: self.dimes, cents: self.cents, style: self.style }
    }
}

impl RenminbiCurrency {
    #[verifier::type_invariant]
    spec fn well_formed(&self) -> bool {
        self.dimes < 10 && self.cents < 10
    }
}

/// The rendering of a Renminbi amount.
///
/// The three parts are rendered in the amount's style, an omissible part leaving no
/// text, except omissible dimes in the informal register between non-zero yuan and
/// non-zero cents, which leave 零 as a bridge; the leading omissible parts are
/// dropped and the rest concatenated. When nothing is
/// left, the yuan part (zero) is rendered instead. Financial amounts end with 整 and
/// are never omissible.
pub open spec fn renminbi_chinese(p: RenminbiParts, variant: Variant) -> ChineseView {
    let yuan = yuan_chinese(p.yuan, p.style, variant);
    let dimes_filler = if p.style == (CurrencyStyle::Everyday { formal: false }) && p.yuan != 0
        && p.cents != 0 {
        seq!['零']
    } else {
        Seq::empty()
    };
    let parts = seq![
        placeheld(yuan, Seq::empty()),
        placeheld(dime_chinese(p.dimes, p.style, variant), dimes_filler),
        placeheld(cent_chinese(p.cents, p.style, variant), Seq::empty()),
    ];
    let body = collected(trimmed_start(parts));
    let coalesced = if body.omissible {
        yuan
    } else {
        body
    };
    if p.style == CurrencyStyle::Financial {
        rendering(coalesced.logograms + seq!['整'], false)
    } else {
        coalesced
    }
}

impl RenminbiCurrency {
    /// The numeric value of the yuan (元) part.
    pub fn yuan(&self) -> (r: FinancialBase)
        ensures
            r == self@.yuan,
    {
        self.yuan
    }

    /// The numeric value of the dime (角) part.
    pub fn dimes(&self) -> (r: u8)
        ensures
            r == self@.dimes,
            r < 10,
    {
        proof {
            use_type_invariant(self);
        }
        self.dimes
    }

    /// The numeric value of the cent (分) part.
    pub fn cents(&self) -> (r: u8)
        ensures
            r == self@.cents,
            r < 10,
    {
        proof {
            use_type_invariant(self);
        }
        self.cents
    }

    /// The currency style.
    pub fn style(&self) -> (r: CurrencyStyle)
        ensures
            r == self@.style,
    {
        self.style
    }
}

impl ChineseFormat for RenminbiCurrency {
    open spec fn spec_chinese(&self, variant: Variant) -> ChineseView {
        renminbi_chinese(self@, variant)
    }

    fn to_chinese(&self, variant: Variant) -> (r: Chinese) {
        proof {
            reveal_strlit("整");
            assert("整"@ =~= seq!['整']);
        }
        proof {
            use_type_invariant(self);
        }
        let yuan = Yuan { value: self.yuan, style: self.style };
        let dimes = Dime { value: self.dimes, style: self.style };
        let cents = Cent { value: self.cents, style: self.style };
        let bridged = self.style == (CurrencyStyle::Everyday { formal: false }) && self.yuan != 0
            && self.cents != 0;
        let dimes_chinese = if bridged {
            LingPlaceholder::new(&dimes).to_chinese(variant)
        } else {
            EmptyPlaceholder::new(&dimes).to_chinese(variant)
        };
        let items = vec![
            EmptyPlaceholder::new(&yuan).to_chinese(variant),
            dimes_chinese,
            EmptyPlaceholder::new(&cents).to_chinese(variant),
        ];
        let parts = ChineseVec::new(items);
        assert(parts@ =~= seq![items@[0]@, items@[1]@, items@[2]@]);
        let body = parts.trim_start().collect();
        let coalesced = if body.omissible {
            yuan.to_chinese(variant)
        } else {
            body
        };
        match self.style {
            CurrencyStyle::Financial => {
                let mut logograms = coalesced.logograms;
                logograms.append("整");
                Chinese { logograms, omissible: false }
            },
            _ => coalesced,
        }
    }
}

} // verus!
