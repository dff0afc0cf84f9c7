//! Weight measures.
use crate::count::{Count, CountBase};
use crate::measure::Measure;
use vstd::prelude::*;

verus! {

/// Half kilograms: 斤.
#[derive(Debug, Clone, Copy, PartialEq, Eq, Structural, PartialOrd, Ord, Hash)]
pub struct HalfKilogram(pub Count);

impl HalfKilogram {
    pub fn new(value: CountBase) -> (r: HalfKilogram)
        ensures
            r.0 == Count(value),
    {
        HalfKilogram(Count(value))
    }
}

impl Measure for HalfKilogram {
    type Value = Count;

    type Unit = &'static str;

    open spec fn spec_value(&self) -> Count {
        self.0
    }

    open spec fn spec_unit(&self) -> &'static str {
        "斤"
    }

    fn value(&self) -> (r: &Count) {
        &self.0
    }

    fn unit(&self) -> (r: &'static str) {
        "斤"
    }
}

/// Kilograms: 公斤.
#[derive(Debug, Clone, Copy, PartialEq, Eq, Structural, PartialOrd, Ord, Hash)]
pub struct Kilogram(pub Count);

impl Kilogram {
    pub fn new(value: CountBase) -> (r: Kilogram)
        ensures
            r.0 == Count(value),
    {
        Kilogram(Count(value))
    }
}

impl Measure for Kilogram {
    type Value = Count;

    type Unit = &'static str;

    open spec fn spec_value(&self) -> Count {
        self.0
    }

    open spec fn spec_unit(&self) -> &'static str {
        "公斤"
    }

    fn value(&self) -> (r: &Count) {
        &self.0
    }

    fn unit(&self) -> (r: &'static str) {
        "公斤"
    }
}

} // verus!
