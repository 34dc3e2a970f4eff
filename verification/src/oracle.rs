//! The collaborator interface: every privileged or hardware operation the
//! engine needs, gathered into one trait.
//!
//! The engine never performs kernel reads, cycle-counter measurements or
//! speculative triggers itself; it asks an implementation of
//! [`MemoryOracle`]. The embedding program implements the trait with the
//! real privileged primitives, and tests implement it with synthetic
//! collaborators, so everything the engine decides from the returned
//! values is verified for every possible outcome.

use vstd::prelude::*;

verus! {

/// Error code of a failed privileged call.
pub type KernReturn = i32;

/// Which latency measurement a trial uses on its eviction set: a data
/// load or an instruction-pointer jump.
#[derive(Clone, Copy, PartialEq, Eq, Structural, Debug)]
pub enum TimingStrategy {
    DataAccess,
    InstExec,
}

/// The privileged and hardware operations the engine is built over.
///
/// The trait carries no postconditions: nothing is assumed about the
/// values a collaborator returns, so the verified callers state only what
/// holds of every outcome. The two trigger methods are implemented per
/// victim scenario; the speculative one must cause the held pointer to be
/// used only under misspeculation, never architecturally.
pub trait MemoryOracle {
    /// Read eight bytes at a privileged virtual address.
    fn kernel_read(&mut self, addr: u64) -> Result<u64, KernReturn>;

    /// Write eight bytes at a privileged virtual address.
    fn kernel_write(&mut self, addr: u64, value: u64) -> Result<(), KernReturn>;

    /// Translate a privileged virtual address to a physical one.
    fn kernel_virt_to_phys(&mut self, addr: u64) -> Result<u64, KernReturn>;

    /// Address of a victim object reachable through the privileged helper.
    fn get_handle_loc(&mut self) -> Result<u64, KernReturn>;

    /// Calibrated latency of a data access at `addr`.
    fn time_access(&mut self, addr: u64) -> u64;

    /// Calibrated latency of a control-flow transfer to `addr`.
    fn time_exec(&mut self, addr: u64) -> u64;

    /// Kernel-mediated timed read; the read is skipped when `do_read` is
    /// false, and the returned latency is pre-adjusted either way.
    fn kernel_read_for_timing(&mut self, addr: u64, do_read: bool) -> Result<u64, KernReturn>;

    /// Kernel-mediated timed execute, analogous to the timed read.
    fn kernel_exec_for_timing(&mut self, addr: u64, do_exec: bool) -> Result<u64, KernReturn>;

    /// Read gated by an internal bounds check on `guard_index`, intended
    /// to be satisfiable only speculatively once the guard is evicted.
    fn kernel_read_for_spectre(&mut self, addr: u64, guard_index: u64) -> Result<u64, KernReturn>;

    /// Execute gated by an internal bounds check on `guard_index`.
    fn kernel_exec_for_spectre(&mut self, addr: u64, guard_index: u64) -> Result<u64, KernReturn>;

    /// Ground-truth signing of a data pointer; tuning and testing only.
    fn forge_sign_data(&mut self, ptr: u64, salt: u64) -> Result<u64, KernReturn>;

    /// Ground-truth signing of an instruction pointer; tuning only.
    fn forge_sign_inst(&mut self, ptr: u64, salt: u64) -> Result<u64, KernReturn>;

    /// Cause the victim to use the held pointer only under misspeculation.
    fn trigger_speculative(&mut self);

    /// Cause the victim to use the held pointer architecturally.
    fn trigger_nonspeculative(&mut self);
}

/// Time one use of `addr` with the chosen measurement strategy.
pub fn timed_use<O: MemoryOracle>(oracle: &mut O, strategy: TimingStrategy, addr: u64) -> u64 {
    match strategy {
        TimingStrategy::DataAccess => oracle.time_access(addr),
        TimingStrategy::InstExec => oracle.time_exec(addr),
    }
}

/// The latency a pair of cycle-counter snapshots measures, after the
/// calibrated fixed overhead of the measurement itself is subtracted.
pub fn calibrated_latency(t1: u64, t2: u64, overhead: u64) -> (r: u64)
    requires
        t1 + overhead <= t2,
    ensures
        r == t2 - t1 - overhead,
{
    t2 - t1 - overhead
}

} // verus!
