//! Prime+probe measurement runs: prime an eviction set, perform (or
//! skip) one kernel-mediated use of the target, then probe the set and
//! record the number of misses, over many labeled trials.
//!
//! These runs are a tuning aid: the reports show whether trials that
//! really touched the target are separable from trials that did not.

use vstd::prelude::*;
use crate::oracle::{KernReturn, MemoryOracle};
use crate::rng;
use crate::stats;
use crate::stats::sum_u64;

verus! {

pub const DATA_EVSET_SIZE: usize = 21;

pub const DATA_MISS_LATENCY: u64 = 40;

/// How many times to repeat a given trial.
pub const DATA_NUM_ITERS: usize = 50;

/// How many trials to run.
pub const DATA_NUM_TRIALS: usize = 1024;

pub const INST_EVSET_SIZE: usize = 11;

pub const INST_MISS_LATENCY: u64 = 40;

/// How many times to repeat a given trial.
pub const INST_NUM_ITERS: usize = 512;

/// How many trials to run.
pub const INST_NUM_TRIALS: usize = 32;

/// How many passes over the eviction set prime it before each use.
pub const PRIME_ROUNDS: usize = 12;

/// The shape of one prime+probe run.
#[derive(Clone, Copy, PartialEq, Eq, Structural, Debug)]
pub struct ProbeConfig {
    pub evset_size: usize,
    pub miss_latency: u64,
    pub num_iters: usize,
    pub num_trials: usize,
}

impl ProbeConfig {
    pub open spec fn wf(self) -> bool {
        &&& 1 <= self.evset_size <= 0x10000
        &&& 3 <= self.num_iters <= 0x10000
        &&& 1 <= self.num_trials <= 0x10000
    }

    /// Runtime validation of the same bounds.
    pub fn validate(&self) -> (r: bool)
        ensures
            r == self.wf(),
    {
        1 <= self.evset_size && self.evset_size <= 0x10000 && 3 <= self.num_iters
            && self.num_iters <= 0x10000 && 1 <= self.num_trials && self.num_trials <= 0x10000
    }
}

/// One labeled trial: whether the target was really used, the sorted
/// miss-count sample set, and its median and integer average.
pub struct ProbeReport {
    pub did_load: bool,
    pub samples: Vec<u64>,
    pub median: u64,
    pub avg: u64,
}

/// What every prime+probe report satisfies: a full sorted sample set of
/// in-range miss counts, with its median and integer average.
pub open spec fn probe_report_wf(r: ProbeReport, config: ProbeConfig) -> bool {
    &&& r.samples@.len() == config.num_iters
    &&& stats::sorted(r.samples@)
    &&& forall|j: int| 0 <= j < r.samples@.len() ==> r.samples@[j] <= config.evset_size
    &&& r.median == r.samples@[r.samples@.len() as int / 2]
    &&& r.avg == sum_u64(r.samples@) / (config.num_iters as int)
}

/// One prime+probe iteration: reshuffle the index permutation, prime the
/// chosen set, use (or skip) the target through the kernel-mediated
/// timed operation, then probe the set in reverse order and count the
/// misses.
fn prime_probe_iteration<O: MemoryOracle>(
    oracle: &mut O,
    target_vaddr: u64,
    do_load: bool,
    inst: bool,
    config: &ProbeConfig,
    chosen: &Vec<u64>,
    indexes: &mut Vec<usize>,
) -> (r: Result<u64, KernReturn>)
    requires
        config.wf(),
        old(indexes).len() == config.evset_size,
        forall|i: int| 0 <= i < old(indexes).len() ==> old(indexes)[i] < chosen.len(),
    ensures
        final(indexes).len() == config.evset_size,
        forall|i: int| 0 <= i < final(indexes).len() ==> final(indexes)[i] < chosen.len(),
        r is Ok ==> r->Ok_0 <= config.evset_size,
{
    let ghost pre = indexes@;
    rng::shuffle(indexes);
    proof {
        stats::lemma_permutation_index_bounded(indexes@, pre, chosen@.len() as int);
    }
    // 1. Prime
    let mut round: usize = 0;
    while round < PRIME_ROUNDS
        invariant
            config.wf(),
            indexes@.len() == config.evset_size,
            forall|i: int| 0 <= i < indexes@.len() ==> indexes@[i] < chosen@.len(),
        decreases PRIME_ROUNDS - round,
    {
        let mut i: usize = 0;
        while i < config.evset_size
            invariant
                config.evset_size <= indexes@.len(),
                forall|k: int| 0 <= k < indexes@.len() ==> indexes@[k] < chosen@.len(),
            decreases config.evset_size - i,
        {
            if inst {
                oracle.time_exec(chosen[indexes[i]]);
            } else {
                oracle.time_access(chosen[indexes[i]]);
            }
            i = i + 1;
        }
        round = round + 1;
    }
    // 2. Use the target, or skip the use, through the kernel
    let kr = if inst {
        // The gated execute path: the guard index picks whether the
        // transfer really happens
        oracle.kernel_exec_for_spectre(
            target_vaddr,
            if do_load {
                0x0
            } else {
                0x50
            },
        )
    } else {
        oracle.kernel_read_for_timing(target_vaddr, do_load)
    };
    match kr {
        Ok(_) => (),
        Err(e) => {
            return Err(e);
        },
    }
    // 3. Probe, walking the permutation backwards to reduce
    // self-eviction artifacts
    let mut times: Vec<u64> = Vec::new();
    let mut i: usize = config.evset_size;
    while i > 0
        invariant
            config.evset_size <= indexes@.len(),
            forall|k: int| 0 <= k < indexes@.len() ==> indexes@[k] < chosen@.len(),
            times.len() + i == config.evset_size,
        decreases i,
    {
        i = i - 1;
        let latency = if inst {
            oracle.time_exec(chosen[indexes[i]])
        } else {
            oracle.time_access(chosen[indexes[i]])
        };
        times.push(latency);
    }
    let misses = stats::count_misses(&times, config.miss_latency);
    Ok(misses as u64)
}

/// A prime+probe run over one target: each trial randomly decides
/// whether the target is really used, repeats the iteration, and
/// reports the labeled summary of its miss counts.
fn prime_probe_run<O: MemoryOracle>(
    oracle: &mut O,
    target_vaddr: u64,
    inst: bool,
    config: &ProbeConfig,
    evset: &Vec<u64>,
) -> (r: Result<Vec<ProbeReport>, KernReturn>)
    requires
        config.wf(),
        evset.len() >= config.evset_size,
    ensures
        r is Ok ==> r->Ok_0.len() == config.num_trials && forall|i: int|
            0 <= i < r->Ok_0.len() ==> probe_report_wf(#[trigger] r->Ok_0[i], *config),
{
    let chosen = rng::choose_multiple(evset, config.evset_size);
    let mut indexes: Vec<usize> = Vec::new();
    let mut i: usize = 0;
    while i < config.evset_size
        invariant
            indexes.len() == i,
            i <= config.evset_size,
            chosen@.len() == config.evset_size,
            forall|k: int| 0 <= k < indexes@.len() ==> indexes@[k] < chosen@.len(),
        decreases config.evset_size - i,
    {
        indexes.push(i);
        i = i + 1;
    }
    // Initialize the eviction set so later touches are not first touches
    let mut e: usize = 0;
    while e < evset.len()
        decreases evset.len() - e,
    {
        if inst {
            oracle.time_exec(evset[e]);
        } else {
            oracle.time_access(evset[e]);
        }
        e = e + 1;
    }
    let mut results: Vec<ProbeReport> = Vec::new();
    let mut trial: usize = 0;
    while trial < config.num_trials
        invariant
            config.wf(),
            chosen@.len() == config.evset_size,
            indexes@.len() == config.evset_size,
            forall|k: int| 0 <= k < indexes@.len() ==> indexes@[k] < chosen@.len(),
            trial <= config.num_trials,
            results.len() == trial,
            forall|k: int|
                0 <= k < results.len() ==> probe_report_wf(#[trigger] results[k], *config),
        decreases config.num_trials - trial,
    {
        let did_load = rng::coin_flip();
        let mut samples: Vec<u64> = Vec::new();
        let mut iteration: usize = 0;
        while iteration < config.num_iters
            invariant
                config.wf(),
                chosen@.len() == config.evset_size,
                indexes@.len() == config.evset_size,
                forall|k: int| 0 <= k < indexes@.len() ==> indexes@[k] < chosen@.len(),
                iteration <= config.num_iters,
                samples.len() == iteration,
                forall|k: int| 0 <= k < samples@.len() ==> samples@[k] <= config.evset_size,
            decreases config.num_iters - iteration,
        {
            let misses = match prime_probe_iteration(
                oracle,
                target_vaddr,
                did_load,
                inst,
                config,
                &chosen,
                &mut indexes,
            ) {
                Ok(m) => m,
                Err(kr) => {
                    return Err(kr);
                },
            };
            samples.push(misses);
            iteration = iteration + 1;
        }
        proof {
            stats::lemma_sum_bounded(samples@, config.evset_size as u64);
            stats::lemma_mul_bounds(config.num_iters as int, config.evset_size as int, 0x10000, 0x10000);
        }
        let ghost presort = samples@;
        let st = stats::summarize(&mut samples);
        proof {
            stats::lemma_sum_permutation(samples@, presort);
            stats::lemma_permutation_bounded(samples@, presort, config.evset_size as u64);
        }
        let avg = st.total / (config.num_iters as u64);
        results.push(ProbeReport { did_load, samples, median: st.median, avg });
        trial = trial + 1;
    }
    Ok(results)
}

/// Data prime+probe: prime an eviction set, perform (or skip) a
/// kernel-mediated load of the target, probe, and record the misses.
pub fn data_prime_probe<O: MemoryOracle>(
    oracle: &mut O,
    target_vaddr: u64,
    config: &ProbeConfig,
    evset: &Vec<u64>,
) -> (r: Result<Vec<ProbeReport>, KernReturn>)
    requires
        config.wf(),
        evset.len() >= config.evset_size,
    ensures
        r is Ok ==> r->Ok_0.len() == config.num_trials && forall|i: int|
            0 <= i < r->Ok_0.len() ==> probe_report_wf(#[trigger] r->Ok_0[i], *config),
{
    prime_probe_run(oracle, target_vaddr, false, config, evset)
}

/// Instruction prime+probe: prime an instruction eviction set, perform
/// (or skip) a gated control-flow transfer to the target, probe, and
/// record the misses.
pub fn inst_prime_probe<O: MemoryOracle>(
    oracle: &mut O,
    target_vaddr: u64,
    config: &ProbeConfig,
    evset: &Vec<u64>,
) -> (r: Result<Vec<ProbeReport>, KernReturn>)
    requires
        config.wf(),
        evset.len() >= config.evset_size,
    ensures
        r is Ok ==> r->Ok_0.len() == config.num_trials && forall|i: int|
            0 <= i < r->Ok_0.len() ==> probe_report_wf(#[trigger] r->Ok_0[i], *config),
{
    prime_probe_run(oracle, target_vaddr, true, config, evset)
}

} // verus!
