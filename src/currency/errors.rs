use crate::result::CrateError;
use vstd::prelude::*;

verus! {

/// Error for when the dimes of a currency value are out of range.
#[derive(Debug, Clone, Copy, PartialEq, Eq, Structural, PartialOrd, Ord, Hash)]
pub struct DimesOutOfRange(pub u8);

/// Error for when the cents of a currency value are out of range.
#[derive(Debug, Clone, Copy, PartialEq, Eq, Structural, PartialOrd, Ord, Hash)]
pub struct CentsOutOfRange(pub u8);

impl From<DimesOutOfRange> for CrateError {
    fn from(error: DimesOutOfRange) -> CrateError {
        CrateError::DimesOutOfRange(error.0)
    }
}

impl vstd::std_specs::convert::FromSpecImpl<DimesOutOfRange> for CrateError {
    open spec fn obeys_from_spec() -> bool {
        true
    }

    open spec fn from_spec(error: DimesOutOfRange) -> CrateError {
        CrateError::DimesOutOfRange(error.0)
    }
}

impl From<CentsOutOfRange> for CrateError {
    fn from(error: CentsOutOfRange) -> CrateError {
        CrateError::CentsOutOfRange(error.0)
    }
}

impl vstd::std_specs::convert::FromSpecImpl<CentsOutOfRange> for CrateError {
    open spec fn obeys_from_spec() -> bool {
        true
    }

    open spec fn from_spec(error: CentsOutOfRange) -> CrateError {
        CrateError::CentsOutOfRange(error.0)
    }
}

} // verus!
