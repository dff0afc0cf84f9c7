use crate::chinese::{rendering, Chinese, ChineseFormat, ChineseView, Variant};
use vstd::prelude::*;

verus! {

/// A value paired with its unit of measurement.
pub trait Measure {
    type Value: ChineseFormat;

    type Unit: ChineseFormat;

    spec fn spec_value(&self) -> Self::Value;

    spec fn spec_unit(&self) -> Self::Unit;

    /// The value, convertible to Chinese.
    fn value(&self) -> (r: &Self::Value)
        ensures
            *r == self.spec_value(),
    ;

    /// The unit of measurement, convertible to Chinese.
    fn unit(&self) -> (r: Self::Unit)
        ensures
            r == self.spec_unit(),
    ;
}

/// The rendering of a value followed by its unit: the two texts concatenated,
/// omissible exactly when the value is.
pub open spec fn measured(value: ChineseView, unit: ChineseView) -> ChineseView {
    rendering(value.logograms + unit.logograms, value.omissible)
}

/// Any measure renders as its value followed by its unit.
impl<M: Measure> ChineseFormat for M {
    open spec fn spec_chinese(&self, variant: Variant) -> ChineseView {
        measured(
            self.spec_value().spec_chinese(variant),
            self.spec_unit().spec_chinese(variant),
        )
    }

    fn to_chinese(&self, variant: Variant) -> (r: Chinese) {
        let value = self.value().to_chinese(variant);
        let unit = self.unit().to_chinese(variant);
        let mut logograms = value.logograms;
        logograms.append(unit.logograms.as_str());
        Chinese { logograms, omissible: value.omissible }
    }
}

/// The omissibility of a measure is that of its value, whatever its unit; its
/// logograms are those of the value followed by those of the unit.
pub proof fn lemma_measure_omissible<M: Measure>(measure: M, variant: Variant)
    ensures
        measure.spec_chinese(variant).omissible == measure.spec_value().spec_chinese(
            variant,
        ).omissible,
        measure.spec_chinese(variant).logograms == measure.spec_value().spec_chinese(
            variant,
        ).logograms + measure.spec_unit().spec_chinese(variant).logograms,
{
}

} // verus!
