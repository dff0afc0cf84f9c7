use crate::count::Count;
use crate::financial::Financial;
use crate::measure::Measure;
use vstd::prelude::*;

verus! {

/// Cents in everyday style: 分.
#[derive(Debug, Clone, Copy, PartialEq, Eq, Structural, PartialOrd, Ord, Hash)]
pub struct EverydayCent(pub Count);

impl Measure for EverydayCent {
    type Value = Count;

    type Unit = &'static str;

    open spec fn spec_value(&self) -> Count {
        self.0
    }

    open spec fn spec_unit(&self) -> &'static str {
        "分"
    }

    fn value(&self) -> (r: &Count) {
        &self.0
    }

    fn unit(&self) -> (r: &'static str) {
        "分"
    }
}

/// Cents in financial style: 分.
#[derive(Debug, Clone, Copy, PartialEq, Eq, Structural, PartialOrd, Ord, Hash)]
pub struct FinancialCent(pub Financial);

impl Measure for FinancialCent {
    type Value = Financial;

    type Unit = &'static str;

    open spec fn spec_value(&self) -> Financial {
        self.0
    }

    open spec fn spec_unit(&self) -> &'static str {
        "分"
    }

    fn value(&self) -> (r: &Financial) {
        &self.0
    }

    fn unit(&self) -> (r: &'static str) {
        "分"
    }
}

/// Dimes in everyday style: 角 (formal) or 毛 (informal).
#[derive(Debug, Clone, Copy, PartialEq, Eq, Structural, PartialOrd, Ord, Hash)]
pub struct EverydayDime {
    pub value: Count,
    pub formal: bool,
}

impl Measure for EverydayDime {
    type Value = Count;

    type Unit = (&'static str, &'static str);

    open spec fn spec_value(&self) -> Count {
        self.value
    }

    open spec fn spec_unit(&self) -> (&'static str, &'static str) {
        if self.formal {
            ("角", "角")
        } else {
            ("毛", "毛")
        }
    }

    fn value(&self) -> (r: &Count) {
        &self.value
    }

    fn unit(&self) -> (r: (&'static str, &'static str)) {
        if self.formal {
            ("角", "角")
        } else {
            ("毛", "毛")
        }
    }
}

/// Dimes in financial style: 角.
#[derive(Debug, Clone, Copy, PartialEq, Eq, Structural, PartialOrd, Ord, Hash)]
pub struct FinancialDime(pub Financial);

impl Measure for FinancialDime {
    type Value = Financial;

    type Unit = &'static str;

    open spec fn spec_value(&self) -> Financial {
        self.0
    }

    open spec fn spec_unit(&self) -> &'static str {
        "角"
    }

    fn value(&self) -> (r: &Financial) {
        &self.0
    }

    fn unit(&self) -> (r: &'static str) {
        "角"
    }
}

/// Yuan in everyday style: 元 (formal) or 块 (informal).
#[derive(Debug, Clone, Copy, PartialEq, Eq, Structural, PartialOrd, Ord, Hash)]
pub struct EverydayYuan {
    pub value: Count,
    pub formal: bool,
}

impl Measure for EverydayYuan {
    type Value = Count;

    type Unit = (&'static str, &'static str);

    open spec fn spec_value(&self) -> Count {
        self.value
    }

    open spec fn spec_unit(&self) -> (&'static str, &'static str) {
        if self.formal {
            ("元", "元")
        } else {
            ("块", "块")
        }
    }

    fn value(&self) -> (r: &Count) {
        &self.value
    }

    fn unit(&self) -> (r: (&'static str, &'static str)) {
        if self.formal {
            ("元", "元")
        } else {
            ("块", "块")
        }
    }
}

/// Yuan in financial style: 元.
#[derive(Debug, Clone, Copy, PartialEq, Eq, Structural, PartialOrd, Ord, Hash)]
pub struct FinancialYuan(pub Financial);

impl Measure for FinancialYuan {
    type Value = Financial;

    type Unit = &'static str;

    open spec fn spec_value(&self) -> Financial {
        self.0
    }

    open spec fn spec_unit(&self) -> &'static str {
        "元"
    }

    fn value(&self) -> (r: &Financial) {
        &self.0
    }

    fn unit(&self) -> (r: &'static str) {
        "元"
    }
}

} // verus!
