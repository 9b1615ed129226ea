//! Units of measure.
use vstd::prelude::*;

verus! {

/// Length units.
#[derive(Clone, Copy, Debug, PartialEq, Eq, Structural)]
pub enum LengthUnit {
    Mm,
    Mil,
    Um,
    Nm,
    Inch,
}

impl LengthUnit {
    /// The display suffix.
    pub fn suffix(&self) -> (r: &'static str)
        ensures
            r@ == match *self {
                LengthUnit::Mm => "mm"@,
                LengthUnit::Mil => "mil"@,
                LengthUnit::Um => "\u{3bc}m"@,
                LengthUnit::Nm => "nm"@,
                LengthUnit::Inch => "in"@,
            },
    {
        match self {
            LengthUnit::Mm => "mm",
            LengthUnit::Mil => "mil",
            LengthUnit::Um => "\u{3bc}m",
            LengthUnit::Nm => "nm",
            LengthUnit::Inch => "in",
        }
    }
}

/// Angle units.
#[derive(Clone, Copy, Debug, PartialEq, Eq, Structural)]
pub enum AngleUnit {
    Degrees,
    Radians,
}

/// Frequency units.
#[derive(Clone, Copy, Debug, PartialEq, Eq, Structural)]
pub enum FrequencyUnit {
    Hz,
    KHz,
    MHz,
    GHz,
}

} // verus!
