//! Editor state: view modes of a domain and the application window.
use vstd::prelude::*;
use crate::domain::HardwareDomain;
use crate::text::append_text;

verus! {

/// View modes within a domain.
#[derive(Clone, Copy, Debug, PartialEq, Eq, Structural)]
pub enum DomainMode {
    Schematic,
    Layout,
    ThreeD,
    Code,
    Rtl,
    Circuit,
    Device,
    DieMap,
    SParams,
    Simulation,
    Thermal,
}

pub open spec fn default_mode_spec(d: HardwareDomain) -> DomainMode {
    match d {
        HardwareDomain::Pcb => DomainMode::Schematic,
        HardwareDomain::Ic => DomainMode::Rtl,
        HardwareDomain::Quantum => DomainMode::Circuit,
        HardwareDomain::Mems => DomainMode::Device,
        HardwareDomain::Rf => DomainMode::Schematic,
        HardwareDomain::Packaging => DomainMode::DieMap,
    }
}

pub open spec fn modes_spec(d: HardwareDomain) -> Seq<DomainMode> {
    match d {
        HardwareDomain::Pcb => seq![
            DomainMode::Schematic,
            DomainMode::Layout,
            DomainMode::ThreeD,
            DomainMode::Code,
        ],
        HardwareDomain::Ic => seq![
            DomainMode::Rtl,
            DomainMode::Schematic,
            DomainMode::Layout,
            DomainMode::ThreeD,
            DomainMode::Code,
        ],
        HardwareDomain::Quantum => seq![
            DomainMode::Circuit,
            DomainMode::Layout,
            DomainMode::ThreeD,
            DomainMode::Simulation,
            DomainMode::Code,
        ],
        HardwareDomain::Mems => seq![
            DomainMode::Device,
            DomainMode::Layout,
            DomainMode::ThreeD,
            DomainMode::Simulation,
            DomainMode::Code,
        ],
        HardwareDomain::Rf => seq![
            DomainMode::Schematic,
            DomainMode::Layout,
            DomainMode::ThreeD,
            DomainMode::SParams,
            DomainMode::Code,
        ],
        HardwareDomain::Packaging => seq![
            DomainMode::DieMap,
            DomainMode::Layout,
            DomainMode::ThreeD,
            DomainMode::Thermal,
            DomainMode::Code,
        ],
    }
}

/// A vector of modes, in order.
fn modes_vec(a: DomainMode, b: DomainMode, c: DomainMode, d: DomainMode, e: Option<DomainMode>) -> (r: Vec<DomainMode>)
    ensures
        r@ == match e {
            Some(x) => seq![a, b, c, d, x],
            None => seq![a, b, c, d],
        },
{
    let mut v: Vec<DomainMode> = Vec::new();
    v.push(a);
    v.push(b);
    v.push(c);
    v.push(d);
    match e {
        Some(x) => {
            v.push(x);
            assert(v@ =~= seq![a, b, c, d, x]);
        },
        None => {
            assert(v@ =~= seq![a, b, c, d]);
        },
    }
    v
}

impl DomainMode {
    /// The mode a domain opens in.
    pub fn default_for_domain(domain: HardwareDomain) -> (r: DomainMode)
        ensures
            r == default_mode_spec(domain),
    {
        match domain {
            HardwareDomain::Pcb => DomainMode::Schematic,
            HardwareDomain::Ic => DomainMode::Rtl,
            HardwareDomain::Quantum => DomainMode::Circuit,
            HardwareDomain::Mems => DomainMode::Device,
            HardwareDomain::Rf => DomainMode::Schematic,
            HardwareDomain::Packaging => DomainMode::DieMap,
        }
    }

    /// The modes a domain offers, in tab order.
    pub fn modes_for_domain(domain: HardwareDomain) -> (r: Vec<DomainMode>)
        ensures
            r@ == modes_spec(domain),
    {
        match domain {
            HardwareDomain::Pcb => modes_vec(
                DomainMode::Schematic,
                DomainMode::Layout,
                DomainMode::ThreeD,
                DomainMode::Code,
                None,
            ),
            HardwareDomain::Ic => modes_vec(
                DomainMode::Rtl,
                DomainMode::Schematic,
                DomainMode::Layout,
                DomainMode::ThreeD,
                Some(DomainMode::Code),
            ),
            HardwareDomain::Quantum => modes_vec(
                DomainMode::Circuit,
                DomainMode::Layout,
                DomainMode::ThreeD,
                DomainMode::Simulation,
                Some(DomainMode::Code),
            ),
            HardwareDomain::Mems => modes_vec(
                DomainMode::Device,
                DomainMode::Layout,
                DomainMode::ThreeD,
                DomainMode::Simulation,
                Some(DomainMode::Code),
            ),
            HardwareDomain::Rf => modes_vec(
                DomainMode::Schematic,
                DomainMode::Layout,
                DomainMode::ThreeD,
                DomainMode::SParams,
                Some(DomainMode::Code),
            ),
            HardwareDomain::Packaging => modes_vec(
                DomainMode::DieMap,
                DomainMode::Layout,
                DomainMode::ThreeD,
                DomainMode::Thermal,
                Some(DomainMode::Code),
            ),
        }
    }

    /// The display name.
    pub fn display_name(&self) -> (r: &'static str)
        ensures
            r@ == match *self {
                DomainMode::Schematic => "Schematic"@,
                DomainMode::Layout => "Layout"@,
                DomainMode::ThreeD => "3D"@,
                DomainMode::Code => "Code"@,
                DomainMode::Rtl => "RTL"@,
                DomainMode::Circuit => "Circuit"@,
                DomainMode::Device => "Device"@,
                DomainMode::DieMap => "Die Map"@,
                DomainMode::SParams => "S-Params"@,
                DomainMode::Simulation => "Simulation"@,
                DomainMode::Thermal => "Thermal"@,
            },
    {
        match self {
            DomainMode::Schematic => "Schematic",
            DomainMode::Layout => "Layout",
            DomainMode::ThreeD => "3D",
            DomainMode::Code => "Code",
            DomainMode::Rtl => "RTL",
            DomainMode::Circuit => "Circuit",
            DomainMode::Device => "Device",
            DomainMode::DieMap => "Die Map",
            DomainMode::SParams => "S-Params",
            DomainMode::Simulation => "Simulation",
            DomainMode::Thermal => "Thermal",
        }
    }

    /// The icon.
    pub fn icon(&self) -> (r: &'static str)
        ensures
            r@ == match *self {
                DomainMode::Schematic => "\u{1f4d0}"@,
                DomainMode::Layout => "\u{1f532}"@,
                DomainMode::ThreeD => "\u{1f3b2}"@,
                DomainMode::Code => "\u{1f4bb}"@,
                DomainMode::Rtl => "\u{1f4dd}"@,
                DomainMode::Circuit => "\u{269b}\u{fe0f}"@,
                DomainMode::Device => "\u{1f4e1}"@,
                DomainMode::DieMap => "\u{1f4e6}"@,
                DomainMode::SParams => "\u{1f4ca}"@,
                DomainMode::Simulation => "\u{1f4c8}"@,
                DomainMode::Thermal => "\u{1f321}\u{fe0f}"@,
            },
    {
        match self {
            DomainMode::Schematic => "\u{1f4d0}",
            DomainMode::Layout => "\u{1f532}",
            DomainMode::ThreeD => "\u{1f3b2}",
            DomainMode::Code => "\u{1f4bb}",
            DomainMode::Rtl => "\u{1f4dd}",
            DomainMode::Circuit => "\u{269b}\u{fe0f}",
            DomainMode::Device => "\u{1f4e1}",
            DomainMode::DieMap => "\u{1f4e6}",
            DomainMode::SParams => "\u{1f4ca}",
            DomainMode::Simulation => "\u{1f4c8}",
            DomainMode::Thermal => "\u{1f321}\u{fe0f}",
        }
    }

    /// The keyboard shortcut.
    pub fn shortcut(&self) -> (r: &'static str)
        ensures
            r@ == match *self {
                DomainMode::Schematic | DomainMode::Rtl | DomainMode::Circuit | DomainMode::Device
                | DomainMode::DieMap => "F5"@,
                DomainMode::Layout => "F6"@,
                DomainMode::Code => "F7"@,
                DomainMode::ThreeD => "F8"@,
                DomainMode::Simulation | DomainMode::SParams | DomainMode::Thermal => "F9"@,
            },
    {
        match self {
            DomainMode::Schematic | DomainMode::Rtl | DomainMode::Circuit | DomainMode::Device
            | DomainMode::DieMap => "F5",
            DomainMode::Layout => "F6",
            DomainMode::Code => "F7",
            DomainMode::ThreeD => "F8",
            DomainMode::Simulation | DomainMode::SParams | DomainMode::Thermal => "F9",
        }
    }
}

/// State of the application window.
#[derive(Debug)]
pub struct HardwareToolApp {
    pub domain: HardwareDomain,
    pub mode: DomainMode,
    pub project_name: Option<String>,
    pub unsaved: bool,
    pub left_sidebar_collapsed: bool,
    pub right_sidebar_collapsed: bool,
}

/// The window title for a project name and an unsaved flag.
pub open spec fn title_spec(name: Option<Seq<char>>, unsaved: bool) -> Seq<char> {
    match name {
        Some(n) => if unsaved {
            n + " \u{2022}"@ + " - Hardware Tool"@
        } else {
            n + " - Hardware Tool"@
        },
        None => "Hardware Tool"@,
    }
}

impl HardwareToolApp {
    /// A window on the PCB domain, in its schematic view, with no project.
    pub fn new() -> (r: HardwareToolApp)
        ensures
            r.domain == HardwareDomain::Pcb,
            r.mode == DomainMode::Schematic,
            r.project_name is None,
            !r.unsaved,
            !r.left_sidebar_collapsed,
            !r.right_sidebar_collapsed,
    {
        HardwareToolApp {
            domain: HardwareDomain::Pcb,
            mode: DomainMode::Schematic,
            project_name: None,
            unsaved: false,
            left_sidebar_collapsed: false,
            right_sidebar_collapsed: false,
        }
    }

    /// Switches domain, and to that domain's default mode.
    pub fn set_domain(&mut self, domain: HardwareDomain)
        ensures
            final(self).domain == domain,
            final(self).mode == default_mode_spec(domain),
            final(self).project_name == old(self).project_name,
            final(self).unsaved == old(self).unsaved,
            final(self).left_sidebar_collapsed == old(self).left_sidebar_collapsed,
            final(self).right_sidebar_collapsed == old(self).right_sidebar_collapsed,
    {
        self.domain = domain;
        self.mode = DomainMode::default_for_domain(domain);
    }

    pub fn set_mode(&mut self, mode: DomainMode)
        ensures
            final(self).mode == mode,
            final(self).domain == old(self).domain,
            final(self).project_name == old(self).project_name,
            final(self).unsaved == old(self).unsaved,
            final(self).left_sidebar_collapsed == old(self).left_sidebar_collapsed,
            final(self).right_sidebar_collapsed == old(self).right_sidebar_collapsed,
    {
        self.mode = mode;
    }

    pub fn mark_unsaved(&mut self)
        ensures
            final(self).unsaved,
            final(self).domain == old(self).domain,
            final(self).mode == old(self).mode,
            final(self).project_name == old(self).project_name,
            final(self).left_sidebar_collapsed == old(self).left_sidebar_collapsed,
            final(self).right_sidebar_collapsed == old(self).right_sidebar_collapsed,
    {
        self.unsaved = true;
    }

    pub fn mark_saved(&mut self)
        ensures
            !final(self).unsaved,
            final(self).domain == old(self).domain,
            final(self).mode == old(self).mode,
            final(self).project_name == old(self).project_name,
            final(self).left_sidebar_collapsed == old(self).left_sidebar_collapsed,
            final(self).right_sidebar_collapsed == old(self).right_sidebar_collapsed,
    {
        self.unsaved = false;
    }

    /// The window title: the project name, a bullet while unsaved, and the
    /// tool's name.
    pub fn window_title(&self) -> (r: String)
        ensures
            r@ == title_spec(
                match self.project_name {
                    Some(n) => Some(n@),
                    None => None,
                },
                self.unsaved,
            ),
    {
        match &self.project_name {
            Some(name) => {
                let mut out = name.clone();
                if self.unsaved {
                    append_text(&mut out, " \u{2022}");
                }
                append_text(&mut out, " - Hardware Tool");
                out
            },
            None => "Hardware Tool".to_owned(),
        }
    }

    pub fn toggle_left_sidebar(&mut self)
        ensures
            final(self).left_sidebar_collapsed == !old(self).left_sidebar_collapsed,
            final(self).right_sidebar_collapsed == old(self).right_sidebar_collapsed,
            final(self).domain == old(self).domain,
            final(self).mode == old(self).mode,
            final(self).project_name == old(self).project_name,
            final(self).unsaved == old(self).unsaved,
    {
        self.left_sidebar_collapsed = !self.left_sidebar_collapsed;
    }

    pub fn toggle_right_sidebar(&mut self)
        ensures
            final(self).right_sidebar_collapsed == !old(self).right_sidebar_collapsed,
            final(self).left_sidebar_collapsed == old(self).left_sidebar_collapsed,
            final(self).domain == old(self).domain,
            final(self).mode == old(self).mode,
            final(self).project_name == old(self).project_name,
            final(self).unsaved == old(self).unsaved,
    {
        self.right_sidebar_collapsed = !self.right_sidebar_collapsed;
    }
}

} // verus!
