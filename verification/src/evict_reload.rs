//! Evict+reload latency traces: for each eviction-set size, repeatedly
//! load a target, touch a randomly chosen set of that size, reload the
//! target and record the reload latency. The resulting curves calibrate
//! eviction-set sizes and miss thresholds.

use vstd::prelude::*;
use crate::oracle::{KernReturn, MemoryOracle};
use crate::rng;
use crate::stats;
use crate::stats::sum_u64;

verus! {

/// Number of different eviction-set sizes to try; each trial uses a
/// different size.
pub const TRIALS: usize = 256;

/// Number of random candidate collections tried per eviction-set size.
pub const NUM_RETRIALS: usize = 25;

/// How many times to repeat a measurement before reporting a latency.
pub const TRIAL_REPEAT: usize = 12;

/// Which operation touches an address during a trace: a user-space
/// timed load or jump, or a kernel-mediated timed read or execute.
#[derive(Clone, Copy, PartialEq, Eq, Structural, Debug)]
pub enum AccessKind {
    UserAccess,
    UserExec,
    KernelRead,
    KernelExec,
}

/// Touch one address with the chosen operation and return its latency.
fn do_access<O: MemoryOracle>(oracle: &mut O, kind: AccessKind, addr: u64) -> (r: Result<
    u64,
    KernReturn,
>) {
    match kind {
        AccessKind::UserAccess => Ok(oracle.time_access(addr)),
        AccessKind::UserExec => Ok(oracle.time_exec(addr)),
        AccessKind::KernelRead => oracle.kernel_read_for_timing(addr, true),
        AccessKind::KernelExec => oracle.kernel_exec_for_timing(addr, true),
    }
}

/// One repeated measurement: load the target, touch the first
/// `evict_count` chosen addresses in permuted order, reload the target,
/// and record the reload latency; the very first round is run but
/// discarded, as its latency is always far too high. Returns the
/// integer average over the kept measurements together with the
/// measurements themselves.
pub fn repeat_and_average<O: MemoryOracle>(
    oracle: &mut O,
    reload: AccessKind,
    target: u64,
    evict: AccessKind,
    chosen: &Vec<u64>,
    indexes: &Vec<usize>,
    evict_count: usize,
) -> (r: Result<(u64, Vec<u64>), KernReturn>)
    requires
        evict_count <= indexes.len(),
        forall|i: int| 0 <= i < indexes@.len() ==> indexes@[i] < chosen@.len(),
    ensures
        r is Ok ==> r->Ok_0.1.len() == TRIAL_REPEAT && r->Ok_0.0 == sum_u64(r->Ok_0.1@) / (
        TRIAL_REPEAT as int),
{
    let mut measurements: Vec<u64> = Vec::new();
    let mut cur_trial: usize = 0;
    while cur_trial < TRIAL_REPEAT + 1
        invariant
            evict_count <= indexes@.len(),
            forall|i: int| 0 <= i < indexes@.len() ==> indexes@[i] < chosen@.len(),
            cur_trial <= TRIAL_REPEAT + 1,
            measurements.len() == if cur_trial == 0 {
                0int
            } else {
                cur_trial - 1
            },
        decreases TRIAL_REPEAT + 1 - cur_trial,
    {
        match do_access(oracle, reload, target) {
            Ok(_) => (),
            Err(kr) => {
                return Err(kr);
            },
        }
        let mut i: usize = 0;
        while i < evict_count
            invariant
                evict_count <= indexes@.len(),
                forall|k: int| 0 <= k < indexes@.len() ==> indexes@[k] < chosen@.len(),
            decreases evict_count - i,
        {
            match do_access(oracle, evict, chosen[indexes[i]]) {
                Ok(_) => (),
                Err(kr) => {
                    return Err(kr);
                },
            }
            i = i + 1;
        }
        let reload_time = match do_access(oracle, reload, target) {
            Ok(t) => t,
            Err(kr) => {
                return Err(kr);
            },
        };
        // Skip the very first round; its latency is always too high
        if cur_trial != 0 {
            measurements.push(reload_time);
        }
        cur_trial = cur_trial + 1;
    }
    // The measured latencies are unconstrained, so sum them wide enough
    // that no addition can wrap
    let mut total: u128 = 0;
    let mut i: usize = 0;
    while i < measurements.len()
        invariant
            measurements.len() == TRIAL_REPEAT,
            i <= measurements.len(),
            total == sum_u64(measurements@.take(i as int)),
        decreases measurements.len() - i,
    {
        proof {
            assert(measurements@.take(i + 1).drop_last() =~= measurements@.take(i as int));
            stats::lemma_sum_bounded(measurements@.take(i + 1), u64::MAX);
        }
        total = total + measurements[i] as u128;
        i = i + 1;
    }
    proof {
        assert(measurements@.take(measurements.len() as int) =~= measurements@);
        stats::lemma_sum_bounded(measurements@, u64::MAX);
        stats::lemma_sum_nonneg(measurements@);
    }
    let average: u64 = (total / (TRIAL_REPEAT as u128)) as u64;
    Ok((average, measurements))
}

/// The latency curve for one eviction-set size: the averages of each
/// random candidate collection tried at that size.
pub struct EvictReloadReport {
    pub num_test_addrs: usize,
    pub averages: Vec<u64>,
}

/// The common evict+reload scan: for each eviction-set size below
/// `trials`, sample several random candidate collections of that size
/// from the eviction set and record the average reload latency of each.
/// A fixed target is reloaded when one is given; otherwise each
/// collection's popped candidate serves as its own reload target.
fn evict_reload_scan<O: MemoryOracle>(
    oracle: &mut O,
    evset: &Vec<u64>,
    trials: usize,
    retrials: usize,
    reload: AccessKind,
    evict: AccessKind,
    fixed_target: Option<u64>,
) -> (r: Result<Vec<EvictReloadReport>, KernReturn>)
    requires
        trials <= evset.len(),
        trials <= 0x10000,
        1 <= retrials <= 0x10000,
    ensures
        r is Ok ==> r->Ok_0.len() == trials && forall|i: int|
            0 <= i < r->Ok_0.len() ==> (#[trigger] r->Ok_0[i]).num_test_addrs == i
                && r->Ok_0[i].averages@.len() == retrials,
{
    let mut reports: Vec<EvictReloadReport> = Vec::new();
    let mut num_test_addrs: usize = 0;
    while num_test_addrs < trials
        invariant
            trials <= evset@.len(),
            trials <= 0x10000,
            1 <= retrials <= 0x10000,
            num_test_addrs <= trials,
            reports.len() == num_test_addrs,
            forall|i: int|
                0 <= i < reports.len() ==> (#[trigger] reports[i]).num_test_addrs == i
                    && reports[i].averages@.len() == retrials,
        decreases trials - num_test_addrs,
    {
        let mut averages: Vec<u64> = Vec::new();
        let mut retrial_idx: usize = 0;
        while retrial_idx < retrials
            invariant
                trials <= evset@.len(),
                num_test_addrs < trials,
                retrial_idx <= retrials,
                averages.len() == retrial_idx,
            decreases retrials - retrial_idx,
        {
            // Choose a random collection one larger than the trial size...
            let mut chosen = rng::choose_multiple(evset, num_test_addrs + 1);
            // ...whose last entry serves as the reload target in the
            // user-space variants and keeps the index math aligned with
            // them in the kernel variants
            let popped = chosen.pop().unwrap();
            let target = match fixed_target {
                Some(t) => t,
                None => popped,
            };
            // Access the collection in a random order; the data
            // prefetcher can predict pointer chasing, random indexing it
            // cannot
            let mut indexes: Vec<usize> = Vec::new();
            let mut i: usize = 0;
            while i < chosen.len()
                invariant
                    indexes.len() == i,
                    i <= chosen.len(),
                    forall|k: int| 0 <= k < indexes@.len() ==> indexes@[k] < chosen@.len(),
                decreases chosen.len() - i,
            {
                indexes.push(i);
                i = i + 1;
            }
            let ghost pre = indexes@;
            rng::shuffle(&mut indexes);
            proof {
                stats::lemma_permutation_index_bounded(indexes@, pre, chosen@.len() as int);
            }
            let (average, _measurements) = match repeat_and_average(
                oracle,
                reload,
                target,
                evict,
                &chosen,
                &indexes,
                chosen.len(),
            ) {
                Ok(v) => v,
                Err(kr) => {
                    return Err(kr);
                },
            };
            averages.push(average);
            retrial_idx = retrial_idx + 1;
        }
        reports.push(EvictReloadReport { num_test_addrs, averages });
        num_test_addrs = num_test_addrs + 1;
    }
    Ok(reports)
}

/// Evict+reload for data accesses: each collection's own popped
/// candidate is the reload target, and both reload and eviction are
/// user-space timed loads.
pub fn data_evict_reload<O: MemoryOracle>(
    oracle: &mut O,
    evset: &Vec<u64>,
    trials: usize,
    retrials: usize,
) -> (r: Result<Vec<EvictReloadReport>, KernReturn>)
    requires
        trials <= evset.len(),
        trials <= 0x10000,
        1 <= retrials <= 0x10000,
    ensures
        r is Ok ==> r->Ok_0.len() == trials && forall|i: int|
            0 <= i < r->Ok_0.len() ==> (#[trigger] r->Ok_0[i]).num_test_addrs == i
                && r->Ok_0[i].averages@.len() == retrials,
{
    evict_reload_scan(oracle, evset, trials, retrials, AccessKind::UserAccess,
        AccessKind::UserAccess, None)
}

/// Evict+reload for instruction accesses: as the data variant, but both
/// reload and eviction are user-space timed jumps.
pub fn inst_evict_reload<O: MemoryOracle>(
    oracle: &mut O,
    evset: &Vec<u64>,
    trials: usize,
    retrials: usize,
) -> (r: Result<Vec<EvictReloadReport>, KernReturn>)
    requires
        trials <= evset.len(),
        trials <= 0x10000,
        1 <= retrials <= 0x10000,
    ensures
        r is Ok ==> r->Ok_0.len() == trials && forall|i: int|
            0 <= i < r->Ok_0.len() ==> (#[trigger] r->Ok_0[i]).num_test_addrs == i
                && r->Ok_0[i].averages@.len() == retrials,
{
    evict_reload_scan(oracle, evset, trials, retrials, AccessKind::UserExec,
        AccessKind::UserExec, None)
}

/// Evict+reload for data accesses in the kernel: a fixed kernel target
/// is reloaded through the kernel-mediated timed read, while the
/// eviction set is touched from user space.
pub fn data_evict_reload_kernel<O: MemoryOracle>(
    oracle: &mut O,
    kernel_target_va: u64,
    evset: &Vec<u64>,
    trials: usize,
    retrials: usize,
) -> (r: Result<Vec<EvictReloadReport>, KernReturn>)
    requires
        trials <= evset.len(),
        trials <= 0x10000,
        1 <= retrials <= 0x10000,
    ensures
        r is Ok ==> r->Ok_0.len() == trials && forall|i: int|
            0 <= i < r->Ok_0.len() ==> (#[trigger] r->Ok_0[i]).num_test_addrs == i
                && r->Ok_0[i].averages@.len() == retrials,
{
    evict_reload_scan(oracle, evset, trials, retrials, AccessKind::KernelRead,
        AccessKind::UserAccess, Some(kernel_target_va))
}

/// Evict+reload for instruction accesses in the kernel: a fixed kernel
/// target is reloaded through the kernel-mediated timed execute, while
/// the eviction set is touched with user-space timed jumps.
pub fn inst_evict_reload_kernel<O: MemoryOracle>(
    oracle: &mut O,
    kernel_target_va: u64,
    evset: &Vec<u64>,
    trials: usize,
    retrials: usize,
) -> (r: Result<Vec<EvictReloadReport>, KernReturn>)
    requires
        trials <= evset.len(),
        trials <= 0x10000,
        1 <= retrials <= 0x10000,
    ensures
        r is Ok ==> r->Ok_0.len() == trials && forall|i: int|
            0 <= i < r->Ok_0.len() ==> (#[trigger] r->Ok_0[i]).num_test_addrs == i
                && r->Ok_0[i].averages@.len() == retrials,
{
    evict_reload_scan(oracle, evset, trials, retrials, AccessKind::KernelExec,
        AccessKind::UserExec, Some(kernel_target_va))
}

/// Evict+reload for data accesses in the kernel using an eviction set
/// that is itself in the kernel: both the reload and every eviction
/// touch go through the kernel-mediated timed read. Mostly useful for
/// testing.
pub fn data_evict_reload_kernel_kernel_evset<O: MemoryOracle>(
    oracle: &mut O,
    kernel_target_va: u64,
    evset: &Vec<u64>,
    trials: usize,
    retrials: usize,
) -> (r: Result<Vec<EvictReloadReport>, KernReturn>)
    requires
        trials <= evset.len(),
        trials <= 0x10000,
        1 <= retrials <= 0x10000,
    ensures
        r is Ok ==> r->Ok_0.len() == trials && forall|i: int|
            0 <= i < r->Ok_0.len() ==> (#[trigger] r->Ok_0[i]).num_test_addrs == i
                && r->Ok_0[i].averages@.len() == retrials,
{
    evict_reload_scan(oracle, evset, trials, retrials, AccessKind::KernelRead,
        AccessKind::KernelRead, Some(kernel_target_va))
}

} // verus!
