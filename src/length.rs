//! Length measures.
use crate::count::{Count, CountBase};
use crate::measure::Measure;
use vstd::prelude::*;

verus! {

/// Kilometers: 公里.
#[derive(Debug, Clone, Copy, PartialEq, Eq, Structural, PartialOrd, Ord, Hash)]
pub struct Kilometer(pub Count);

impl Kilometer {
    pub fn new(value: CountBase) -> (r: Kilometer)
        ensures
            r.0 == Count(value),
    {
        Kilometer(Count(value))
    }
}

impl Measure for Kilometer {
    type Value = Count;

    type Unit = &'static str;

    open spec fn spec_value(&self) -> Count {
        self.0
    }

    open spec fn spec_unit(&self) -> &'static str {
        "公里"
    }

    fn value(&self) -> (r: &Count) {
        &self.0
    }

    fn unit(&self) -> (r: &'static str) {
        "公里"
    }
}

/// Half kilometers: 里.
#[derive(Debug, Clone, Copy, PartialEq, Eq, Structural, PartialOrd, Ord, Hash)]
pub struct HalfKilometer(pub Count);

impl HalfKilometer {
    pub fn new(value: CountBase) -> (r: HalfKilometer)
        ensures
            r.0 == Count(value),
    {
        HalfKilometer(Count(value))
    }
}

impl Measure for HalfKilometer {
    type Value = Count;

    type Unit = &'static str;

    open spec fn spec_value(&self) -> Count {
        self.0
    }

    open spec fn spec_unit(&self) -> &'static str {
        "里"
    }

    fn value(&self) -> (r: &Count) {
        &self.0
    }

    fn unit(&self) -> (r: &'static str) {
        "里"
    }
}

/// Meters: 米.
#[derive(Debug, Clone, Copy, PartialEq, Eq, Structural, PartialOrd, Ord, Hash)]
pub struct Meter(pub Count);

impl Meter {
    pub fn new(value: CountBase) -> (r: Meter)
        ensures
            r.0 == Count(value),
    {
        Meter(Count(value))
    }
}

impl Measure for Meter {
    type Value = Count;

    type Unit = &'static str;

    open spec fn spec_value(&self) -> Count {
        self.0
    }

    open spec fn spec_unit(&self) -> &'static str {
        "米"
    }

    fn value(&self) -> (r: &Count) {
        &self.0
    }

    fn unit(&self) -> (r: &'static str) {
        "米"
    }
}

/// Decimeters: 分米.
#[derive(Debug, Clone, Copy, PartialEq, Eq, Structural, PartialOrd, Ord, Hash)]
pub struct Decimeter(pub Count);

impl Decimeter {
    pub fn new(value: CountBase) -> (r: Decimeter)
        ensures
            r.0 == Count(value),
    {
        Decimeter(Count(value))
    }
}

impl Measure for Decimeter {
    type Value = Count;

    type Unit = &'static str;

    open spec fn spec_value(&self) -> Count {
        self.0
    }

    open spec fn spec_unit(&self) -> &'static str {
        "分米"
    }

    fn value(&self) -> (r: &Count) {
        &self.0
    }

    fn unit(&self) -> (r: &'static str) {
        "分米"
    }
}

/// Centimeters: 厘米 (釐米).
#[derive(Debug, Clone, Copy, PartialEq, Eq, Structural, PartialOrd, Ord, Hash)]
pub struct Centimeter(pub Count);

impl Centimeter {
    pub fn new(value: CountBase) -> (r: Centimeter)
        ensures
            r.0 == Count(value),
    {
        Centimeter(Count(value))
    }
}

impl Measure for Centimeter {
    type Value = Count;

    type Unit = (&'static str, &'static str);

    open spec fn spec_value(&self) -> Count {
        self.0
    }

    open spec fn spec_unit(&self) -> (&'static str, &'static str) {
        ("厘米", "釐米")
    }

    fn value(&self) -> (r: &Count) {
        &self.0
    }

    fn unit(&self) -> (r: (&'static str, &'static str)) {
        ("厘米", "釐米")
    }
}

/// Millimeters: 毫米.
#[derive(Debug, Clone, Copy, PartialEq, Eq, Structural, PartialOrd, Ord, Hash)]
pub struct Millimeter(pub Count);

impl Millimeter {
    pub fn new(value: CountBase) -> (r: Millimeter)
        ensures
            r.0 == Count(value),
    {
        Millimeter(Count(value))
    }
}

impl Measure for Millimeter {
    type Value = Count;

    type Unit = &'static str;

    open spec fn spec_value(&self) -> Count {
        self.0
    }

    open spec fn spec_unit(&self) -> &'static str {
        "毫米"
    }

    fn value(&self) -> (r: &Count) {
        &self.0
    }

    fn unit(&self) -> (r: &'static str) {
        "毫米"
    }
}

} // verus!
