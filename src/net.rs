//! Nets.
use vstd::prelude::*;

verus! {

/// Electrical role of a net.
#[derive(Clone, Copy, Debug, PartialEq, Eq, Structural)]
pub enum NetType {
    Signal,
    Power,
    Ground,
    Clock,
    Differential,
}

} // verus!
