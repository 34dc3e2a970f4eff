//! The kinds of cores a measurement thread can be pinned to, and the
//! quality-of-service class that lands a thread on each.

use vstd::prelude::*;

verus! {

/// The two kinds of cores on the target machine: performance cores and
/// efficiency cores. Measurements assume a performance core.
#[derive(Clone, Copy, PartialEq, Eq, Structural, Debug)]
pub enum CoreKind {
    PCORE,
    ECORE,
}

impl CoreKind {
    /// The quality-of-service class that schedules a thread onto this
    /// kind of core: user-interactive for performance cores, background
    /// for efficiency cores.
    pub open spec fn spec_qos_class(self) -> u64 {
        match self {
            CoreKind::PCORE => 0x21,
            CoreKind::ECORE => 0x09,
        }
    }

    /// The wire value handed to the thread-policy call.
    pub fn qos_class(&self) -> (r: u64)
        ensures
            r == self.spec_qos_class(),
    {
        match self {
            CoreKind::PCORE => 0x21,
            CoreKind::ECORE => 0x09,
        }
    }
}

} // verus!
