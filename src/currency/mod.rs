//! Currencies: at present, the Renminbi (人民币).
mod errors;
mod renminbi;
mod units;

pub use errors::{CentsOutOfRange, DimesOutOfRange};
pub use renminbi::{
    cent_chinese, dime_chinese, renminbi_chinese, yuan_chinese, Cent, Dime, RenminbiCurrency,
    RenminbiCurrencyBuilder, RenminbiParts, Yuan,
};
pub use units::{
    EverydayCent, EverydayDime, EverydayYuan, FinancialCent, FinancialDime, FinancialYuan,
};

use vstd::prelude::*;

verus! {

/// Styles adopted when converting currencies to Chinese.
#[derive(Debug, Clone, Copy, PartialEq, Eq, Structural, PartialOrd, Ord, Hash)]
pub enum CurrencyStyle {
    /// The style of everyday life, in a formal or informal register.
    Everyday { formal: bool },
    /// The style required in financial transactions: always formal, with anti-fraud numerals.
    Financial,
}

} // verus!
