//! Hardware domains.
use vstd::prelude::*;
use crate::text::{lower_of, to_lower, text_eq};

verus! {

/// The hardware domains that a design may belong to.
#[derive(Clone, Copy, Debug, PartialEq, Eq, Structural, Hash)]
pub enum HardwareDomain {
    Pcb,
    Ic,
    Quantum,
    Mems,
    Rf,
    Packaging,
}

impl HardwareDomain {
    /// The display name.
    pub fn display_name(&self) -> (r: &'static str)
        ensures
            r@ == match *self {
                HardwareDomain::Pcb => "PCB Design"@,
                HardwareDomain::Ic => "IC Design"@,
                HardwareDomain::Quantum => "Quantum Hardware"@,
                HardwareDomain::Mems => "MEMS & Sensors"@,
                HardwareDomain::Rf => "RF & Photonics"@,
                HardwareDomain::Packaging => "Advanced Packaging"@,
            },
    {
        match self {
            HardwareDomain::Pcb => "PCB Design",
            HardwareDomain::Ic => "IC Design",
            HardwareDomain::Quantum => "Quantum Hardware",
            HardwareDomain::Mems => "MEMS & Sensors",
            HardwareDomain::Rf => "RF & Photonics",
            HardwareDomain::Packaging => "Advanced Packaging",
        }
    }

    /// The icon.
    pub fn icon(&self) -> (r: &'static str)
        ensures
            r@ == match *self {
                HardwareDomain::Pcb => "\u{1f532}"@,
                HardwareDomain::Ic => "\u{1f537}"@,
                HardwareDomain::Quantum => "\u{269b}\u{fe0f}"@,
                HardwareDomain::Mems => "\u{1f4e1}"@,
                HardwareDomain::Rf => "\u{1f4f6}"@,
                HardwareDomain::Packaging => "\u{1f4e6}"@,
            },
    {
        match self {
            HardwareDomain::Pcb => "\u{1f532}",
            HardwareDomain::Ic => "\u{1f537}",
            HardwareDomain::Quantum => "\u{269b}\u{fe0f}",
            HardwareDomain::Mems => "\u{1f4e1}",
            HardwareDomain::Rf => "\u{1f4f6}",
            HardwareDomain::Packaging => "\u{1f4e6}",
        }
    }

    /// The accent colour, as a hex triple.
    pub fn accent_color(&self) -> (r: &'static str)
        ensures
            r@ == match *self {
                HardwareDomain::Pcb => "#B87333"@,
                HardwareDomain::Ic => "#3498DB"@,
                HardwareDomain::Quantum => "#9B59B6"@,
                HardwareDomain::Mems => "#1ABC9C"@,
                HardwareDomain::Rf => "#E67E22"@,
                HardwareDomain::Packaging => "#7F8C8D"@,
            },
    {
        match self {
            HardwareDomain::Pcb => "#B87333",
            HardwareDomain::Ic => "#3498DB",
            HardwareDomain::Quantum => "#9B59B6",
            HardwareDomain::Mems => "#1ABC9C",
            HardwareDomain::Rf => "#E67E22",
            HardwareDomain::Packaging => "#7F8C8D",
        }
    }

    /// Every domain, in declaration order.
    pub fn all() -> (r: Vec<HardwareDomain>)
        ensures
            r@ == seq![
                HardwareDomain::Pcb,
                HardwareDomain::Ic,
                HardwareDomain::Quantum,
                HardwareDomain::Mems,
                HardwareDomain::Rf,
                HardwareDomain::Packaging,
            ],
    {
        let mut v: Vec<HardwareDomain> = Vec::new();
        v.push(HardwareDomain::Pcb);
        v.push(HardwareDomain::Ic);
        v.push(HardwareDomain::Quantum);
        v.push(HardwareDomain::Mems);
        v.push(HardwareDomain::Rf);
        v.push(HardwareDomain::Packaging);
        assert(v@ =~= seq![
            HardwareDomain::Pcb,
            HardwareDomain::Ic,
            HardwareDomain::Quantum,
            HardwareDomain::Mems,
            HardwareDomain::Rf,
            HardwareDomain::Packaging,
        ]);
        v
    }
}

/// The domain that a lowercase name gives.
pub open spec fn domain_named(t: Seq<char>) -> Option<HardwareDomain> {
    if t == "pcb"@ {
        Some(HardwareDomain::Pcb)
    } else if t == "ic"@ {
        Some(HardwareDomain::Ic)
    } else if t == "quantum"@ {
        Some(HardwareDomain::Quantum)
    } else if t == "mems"@ {
        Some(HardwareDomain::Mems)
    } else if t == "rf"@ {
        Some(HardwareDomain::Rf)
    } else if t == "packaging"@ {
        Some(HardwareDomain::Packaging)
    } else {
        None
    }
}

/// The domain that a lowercase name gives.
pub fn domain_from_lowercase(t: &str) -> (r: Option<HardwareDomain>)
    ensures
        r == domain_named(t@),
{
    if text_eq(t, "pcb") {
        Some(HardwareDomain::Pcb)
    } else if text_eq(t, "ic") {
        Some(HardwareDomain::Ic)
    } else if text_eq(t, "quantum") {
        Some(HardwareDomain::Quantum)
    } else if text_eq(t, "mems") {
        Some(HardwareDomain::Mems)
    } else if text_eq(t, "rf") {
        Some(HardwareDomain::Rf)
    } else if text_eq(t, "packaging") {
        Some(HardwareDomain::Packaging)
    } else {
        None
    }
}

/// The domain that a name gives, in any case.
pub fn parse_domain(s: &str) -> (r: Option<HardwareDomain>)
    ensures
        r == domain_named(lower_of(s@)),
{
    let lowered = to_lower(s);
    domain_from_lowercase(lowered.as_str())
}

} // verus!
