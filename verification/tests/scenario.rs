//! End-to-end scenarios over a synthetic, noiseless memory oracle: the
//! speculative path "hits" exactly when the candidate under test equals
//! a pre-chosen secret, and probe latencies are a fixed high value after
//! a hit and a fixed low value otherwise.

use pacman::oracle::{KernReturn, MemoryOracle, TimingStrategy};
use pacman::pac::{encode_pac, extract_pac, PAC_BITMASK};
use pacman::search::{
    end_to_end, pacman_bruteforce, pacman_differentiate, EndToEndError, EndToEndTargets,
    SearchConfig,
};
use pacman::trial::{DirectTarget, IndirectTarget, PacmanAttackTarget, TrialConfig};

const HIGH: u64 = 100;
const LOW: u64 = 1;

/// A noiseless synthetic collaborator. The holder locations behave like
/// memory; the speculative trigger compares the held values against the
/// secrets; probe latencies are high exactly after a hit.
struct SynthOracle {
    /// Location the outer (or only) pointer is written to, already
    /// masked the way the trial protocol writes it.
    holder_key: u64,
    /// The correctly signed value for the holder.
    data_secret: u64,
    /// For indirect targets: the inner holder location and the correctly
    /// signed inner value.
    inner: Option<(u64, u64)>,
    /// Ground truth the forge-sign operations hand out; separate from
    /// the behavioral secrets so mismatch handling can be exercised.
    forge_data_code: u16,
    forge_inst_code: u16,
    holder_val: u64,
    inner_val: u64,
    hit_data: bool,
    hit_inst: bool,
    fail_writes: bool,
}

impl SynthOracle {
    fn direct(holder: u64, data_secret: u64, forge_data_code: u16, forge_inst_code: u16) -> Self {
        SynthOracle {
            holder_key: holder | PAC_BITMASK,
            data_secret,
            inner: None,
            forge_data_code,
            forge_inst_code,
            holder_val: 0,
            inner_val: 0,
            hit_data: false,
            hit_inst: false,
            fail_writes: false,
        }
    }

    fn indirect(
        outer_holder: u64,
        outer_secret: u64,
        inner_holder: u64,
        inner_secret: u64,
        forge_data_code: u16,
        forge_inst_code: u16,
    ) -> Self {
        SynthOracle {
            holder_key: outer_holder | PAC_BITMASK,
            data_secret: outer_secret,
            inner: Some((inner_holder, inner_secret)),
            forge_data_code,
            forge_inst_code,
            holder_val: 0,
            inner_val: 0,
            hit_data: false,
            hit_inst: false,
            fail_writes: false,
        }
    }
}

impl MemoryOracle for SynthOracle {
    fn kernel_read(&mut self, _addr: u64) -> Result<u64, KernReturn> {
        Ok(0)
    }

    fn kernel_write(&mut self, addr: u64, value: u64) -> Result<(), KernReturn> {
        if self.fail_writes {
            return Err(-5);
        }
        if addr == self.holder_key {
            self.holder_val = value;
        } else if let Some((inner_holder, _)) = self.inner {
            if addr == inner_holder {
                self.inner_val = value;
            }
        }
        Ok(())
    }

    fn kernel_virt_to_phys(&mut self, addr: u64) -> Result<u64, KernReturn> {
        Ok(addr)
    }

    fn get_handle_loc(&mut self) -> Result<u64, KernReturn> {
        Ok(0)
    }

    fn time_access(&mut self, _addr: u64) -> u64 {
        if self.hit_data {
            HIGH
        } else {
            LOW
        }
    }

    fn time_exec(&mut self, _addr: u64) -> u64 {
        if self.hit_inst {
            HIGH
        } else {
            LOW
        }
    }

    fn kernel_read_for_timing(&mut self, _addr: u64, _do_read: bool) -> Result<u64, KernReturn> {
        Ok(LOW)
    }

    fn kernel_exec_for_timing(&mut self, _addr: u64, _do_exec: bool) -> Result<u64, KernReturn> {
        Ok(LOW)
    }

    fn kernel_read_for_spectre(&mut self, _addr: u64, _guard: u64) -> Result<u64, KernReturn> {
        Ok(0)
    }

    fn kernel_exec_for_spectre(&mut self, _addr: u64, _guard: u64) -> Result<u64, KernReturn> {
        Ok(0)
    }

    fn forge_sign_data(&mut self, ptr: u64, _salt: u64) -> Result<u64, KernReturn> {
        Ok(encode_pac(self.forge_data_code, ptr))
    }

    fn forge_sign_inst(&mut self, ptr: u64, _salt: u64) -> Result<u64, KernReturn> {
        Ok(encode_pac(self.forge_inst_code, ptr))
    }

    fn trigger_speculative(&mut self) {
        self.hit_data = self.holder_val == self.data_secret;
        self.hit_inst = false;
        if let Some((_, inner_secret)) = self.inner {
            self.hit_inst = self.hit_data && self.inner_val == inner_secret;
        }
    }

    fn trigger_nonspeculative(&mut self) {}
}

fn small_config() -> TrialConfig {
    TrialConfig {
        evset_size: 4,
        miss_latency: 50,
        train_reps: 2,
        num_iters: 3,
        skip_first: false,
    }
}

fn small_search() -> SearchConfig {
    SearchConfig {
        num_final_iters: 4,
        margin: 4,
    }
}

fn small_evsets() -> (Vec<u64>, Vec<usize>, Vec<u64>, Vec<usize>) {
    let forge: Vec<u64> = vec![0x1000, 0x2000, 0x3000, 0x4000];
    let forge_idx: Vec<usize> = vec![0, 1, 2, 3];
    let limit: Vec<u64> = vec![0x9000, 0xA000];
    let limit_idx: Vec<usize> = vec![0, 1];
    (forge, forge_idx, limit, limit_idx)
}

#[test]
fn bruteforce_direct_recovers_secret_code() {
    let holder: u64 = 0xFFFF800000100000;
    let guess_base: u64 = 0xFFFF800000200000;
    let secret_code: u16 = 0xBEEF;
    let secret_signed = encode_pac(secret_code, guess_base);
    let mut oracle = SynthOracle::direct(holder, secret_signed, 0, 0);
    let target = PacmanAttackTarget::Direct(DirectTarget {
        holder,
        train_ptr: 0x4141,
        guess_ptr: guess_base,
    });
    let config = small_config();
    let search = small_search();
    let (forge, forge_idx, limit, limit_idx) = small_evsets();
    let outcome = pacman_bruteforce(
        &mut oracle,
        &target,
        TimingStrategy::DataAccess,
        &config,
        &search,
        &forge,
        &forge_idx,
        &limit,
        &limit_idx,
    )
    .unwrap();
    assert_eq!(outcome.candidates_tested, 0x10000);
    let answer = outcome.answer.expect("the secret candidate must be confirmed");
    assert_eq!(extract_pac(answer), secret_code);
    assert_eq!(answer, secret_signed);
    assert_eq!(outcome.potential_matches, vec![secret_signed]);
    assert_eq!(outcome.final_matches.len(), 1);
}

#[test]
fn bruteforce_recovers_secret_code_zero() {
    // The threshold is derived from the first candidate; code zero being
    // the secret makes that first candidate itself the match.
    let holder: u64 = 0xFFFF800000100000;
    let guess_base: u64 = 0xFFFF800000200000;
    let secret_code: u16 = 0;
    let secret_signed = encode_pac(secret_code, guess_base);
    let mut oracle = SynthOracle::direct(holder, secret_signed, 0, 0);
    let target = PacmanAttackTarget::Direct(DirectTarget {
        holder,
        train_ptr: 0x4141,
        guess_ptr: guess_base,
    });
    let config = small_config();
    let search = small_search();
    let (forge, forge_idx, limit, limit_idx) = small_evsets();
    let outcome = pacman_bruteforce(
        &mut oracle,
        &target,
        TimingStrategy::DataAccess,
        &config,
        &search,
        &forge,
        &forge_idx,
        &limit,
        &limit_idx,
    )
    .unwrap();
    let answer = outcome.answer.expect("code zero must still be confirmed");
    assert_eq!(extract_pac(answer), secret_code);
}

#[test]
fn bruteforce_reports_not_found_without_signal() {
    // A holder value that matches no candidate: every sample set is all
    // misses-free, nothing clears the bar, and the search reports the
    // documented not-found outcome instead of guessing.
    let holder: u64 = 0xFFFF800000100000;
    let guess_base: u64 = 0xFFFF800000200000;
    let mut oracle = SynthOracle::direct(holder, 0xDEAD, 0, 0);
    let target = PacmanAttackTarget::Direct(DirectTarget {
        holder,
        train_ptr: 0x4141,
        guess_ptr: guess_base,
    });
    let config = small_config();
    let search = small_search();
    let (forge, forge_idx, limit, limit_idx) = small_evsets();
    let outcome = pacman_bruteforce(
        &mut oracle,
        &target,
        TimingStrategy::DataAccess,
        &config,
        &search,
        &forge,
        &forge_idx,
        &limit,
        &limit_idx,
    )
    .unwrap();
    assert!(outcome.answer.is_none());
    assert!(outcome.final_matches.is_empty());
}

#[test]
fn bruteforce_propagates_kernel_failure() {
    let holder: u64 = 0xFFFF800000100000;
    let guess_base: u64 = 0xFFFF800000200000;
    let mut oracle = SynthOracle::direct(holder, 0xDEAD, 0, 0);
    oracle.fail_writes = true;
    let target = PacmanAttackTarget::Direct(DirectTarget {
        holder,
        train_ptr: 0x4141,
        guess_ptr: guess_base,
    });
    let config = small_config();
    let search = small_search();
    let (forge, forge_idx, limit, limit_idx) = small_evsets();
    let result = pacman_bruteforce(
        &mut oracle,
        &target,
        TimingStrategy::DataAccess,
        &config,
        &search,
        &forge,
        &forge_idx,
        &limit,
        &limit_idx,
    );
    assert_eq!(result.err(), Some(-5));
}

#[test]
fn differentiate_separates_correct_from_incorrect() {
    let holder: u64 = 0xFFFF800000100000;
    let guess_base: u64 = 0xFFFF800000200000;
    let secret_code: u16 = 0x1234;
    let secret_signed = encode_pac(secret_code, guess_base);
    let incorrect = encode_pac(0x4321, guess_base);
    let mut oracle = SynthOracle::direct(holder, secret_signed, 0, 0);
    let target = PacmanAttackTarget::Direct(DirectTarget {
        holder,
        train_ptr: 0x4141,
        guess_ptr: guess_base,
    });
    let config = small_config();
    let (forge, forge_idx, limit, limit_idx) = small_evsets();
    let reports = pacman_differentiate(
        &mut oracle,
        &target,
        secret_signed,
        incorrect,
        TimingStrategy::DataAccess,
        &config,
        3,
        &forge,
        &forge_idx,
        &limit,
        &limit_idx,
    )
    .unwrap();
    assert_eq!(reports.len(), 3);
    // The first trial is forced to the incorrect code, the second to the
    // correct one
    assert!(!reports[0].used_correct);
    assert!(reports[1].used_correct);
    // The noiseless oracle gives the correct code a strictly higher
    // average miss count; with equal counts, totals compare averages
    assert_eq!(reports[0].stats.count, reports[1].stats.count);
    assert!(reports[1].stats.total > reports[0].stats.total);
    assert_eq!(reports[0].stats.total, 0);
    assert_eq!(reports[1].stats.total, 4 * 3);
    // Every report is labeled consistently with the noiseless model
    for r in &reports {
        if r.used_correct {
            assert_eq!(r.samples, vec![4, 4, 4]);
        } else {
            assert_eq!(r.samples, vec![0, 0, 0]);
        }
    }
}

#[test]
fn direct_and_indirect_recover_the_same_code() {
    // The indirect oracle is the direct one plus one extra redirect:
    // both variants must recover the same secret code from equivalent
    // synthetic timing data.
    let secret_code: u16 = 0xCAFE;

    // Direct flavor over the inner pointer's base.
    let holder: u64 = 0xFFFF800000100000;
    let inner_base: u64 = 0xFFFF800000300000;
    let secret_signed = encode_pac(secret_code, inner_base);
    let mut direct_oracle = SynthOracle::direct(holder, secret_signed, 0, 0);
    let direct_target = PacmanAttackTarget::Direct(DirectTarget {
        holder,
        train_ptr: 0x4141,
        guess_ptr: inner_base,
    });
    let config = small_config();
    let search = small_search();
    let (forge, forge_idx, limit, limit_idx) = small_evsets();
    let direct_outcome = pacman_bruteforce(
        &mut direct_oracle,
        &direct_target,
        TimingStrategy::DataAccess,
        &config,
        &search,
        &forge,
        &forge_idx,
        &limit,
        &limit_idx,
    )
    .unwrap();

    // Indirect flavor: the outer holder always receives the correctly
    // signed outer pointer, and the inner holder carries the candidate.
    let outer_holder: u64 = 0xFFFF800000100000;
    let inner_holder: u64 = 0xFFFF800000200000;
    let outer_signed: u64 = 0x7777;
    let mut indirect_oracle = SynthOracle::indirect(
        outer_holder,
        outer_signed,
        inner_holder,
        secret_signed,
        0,
        0,
    );
    let indirect_target = PacmanAttackTarget::Indirect(IndirectTarget {
        outer_holder,
        inner_holder,
        outer_train_ptr: 0x4141,
        outer_guess_ptr: outer_signed,
        inner_guess_ptr: inner_base,
    });
    let indirect_outcome = pacman_bruteforce(
        &mut indirect_oracle,
        &indirect_target,
        TimingStrategy::InstExec,
        &config,
        &search,
        &forge,
        &forge_idx,
        &limit,
        &limit_idx,
    )
    .unwrap();

    let direct_answer = direct_outcome.answer.unwrap();
    let indirect_answer = indirect_outcome.answer.unwrap();
    assert_eq!(extract_pac(direct_answer), secret_code);
    assert_eq!(extract_pac(indirect_answer), secret_code);
    assert_eq!(direct_answer, indirect_answer);
}

/// A synthetic collaborator for the two-stage composition: the victim
/// follows the vtable pointer in the object, then the entry in the
/// vtable, hitting on data exactly when the outer pointer is correctly
/// signed and on instructions when the inner entry is too.
struct EndToEndOracle {
    victim_object_key: u64,
    new_vtable: u64,
    data_secret_code: u16,
    inst_secret_code: u16,
    forge_data_code: u16,
    forge_inst_code: u16,
    holder_val: u64,
    inner_val: u64,
    hit_data: bool,
    hit_inst: bool,
    inst_never_hits: bool,
}

impl EndToEndOracle {
    fn new(
        victim_object: u64,
        new_vtable: u64,
        data_secret_code: u16,
        inst_secret_code: u16,
    ) -> Self {
        EndToEndOracle {
            victim_object_key: victim_object | PAC_BITMASK,
            new_vtable,
            data_secret_code,
            inst_secret_code,
            forge_data_code: data_secret_code,
            forge_inst_code: inst_secret_code,
            holder_val: 0,
            inner_val: 0,
            hit_data: false,
            hit_inst: false,
            inst_never_hits: false,
        }
    }

    fn data_secret_signed(&self) -> u64 {
        encode_pac(self.data_secret_code, self.new_vtable | PAC_BITMASK)
    }
}

impl MemoryOracle for EndToEndOracle {
    fn kernel_read(&mut self, _addr: u64) -> Result<u64, KernReturn> {
        Ok(0)
    }

    fn kernel_write(&mut self, addr: u64, value: u64) -> Result<(), KernReturn> {
        if addr == self.victim_object_key {
            self.holder_val = value;
        } else if addr == self.new_vtable {
            self.inner_val = value;
        }
        Ok(())
    }

    fn kernel_virt_to_phys(&mut self, addr: u64) -> Result<u64, KernReturn> {
        Ok(addr)
    }

    fn get_handle_loc(&mut self) -> Result<u64, KernReturn> {
        Ok(0)
    }

    fn time_access(&mut self, _addr: u64) -> u64 {
        if self.hit_data {
            HIGH
        } else {
            LOW
        }
    }

    fn time_exec(&mut self, _addr: u64) -> u64 {
        if self.hit_inst {
            HIGH
        } else {
            LOW
        }
    }

    fn kernel_read_for_timing(&mut self, _addr: u64, _do_read: bool) -> Result<u64, KernReturn> {
        Ok(LOW)
    }

    fn kernel_exec_for_timing(&mut self, _addr: u64, _do_exec: bool) -> Result<u64, KernReturn> {
        Ok(LOW)
    }

    fn kernel_read_for_spectre(&mut self, _addr: u64, _guard: u64) -> Result<u64, KernReturn> {
        Ok(0)
    }

    fn kernel_exec_for_spectre(&mut self, _addr: u64, _guard: u64) -> Result<u64, KernReturn> {
        Ok(0)
    }

    fn forge_sign_data(&mut self, ptr: u64, _salt: u64) -> Result<u64, KernReturn> {
        Ok(encode_pac(self.forge_data_code, ptr))
    }

    fn forge_sign_inst(&mut self, ptr: u64, _salt: u64) -> Result<u64, KernReturn> {
        Ok(encode_pac(self.forge_inst_code, ptr))
    }

    fn trigger_speculative(&mut self) {
        self.hit_data = self.holder_val == self.data_secret_signed();
        let inst_secret = encode_pac(self.inst_secret_code, self.inner_val);
        self.hit_inst = self.hit_data && self.inner_val == inst_secret && !self.inst_never_hits;
    }

    fn trigger_nonspeculative(&mut self) {}
}

fn end_to_end_targets(victim_object: u64, new_vtable: u64, win: u64) -> EndToEndTargets {
    EndToEndTargets {
        victim_object,
        victim_vtable: 0x4141,
        new_vtable,
        win,
        data_salt_const: 0xd986,
        inst_salt_const: 0xa7d5,
    }
}

#[test]
fn end_to_end_recovers_both_codes() {
    let victim_object: u64 = 0xFFFF800000100000;
    let new_vtable: u64 = 0xFFFF800000200000;
    let win: u64 = 0xFFFF800000300000;
    let data_code: u16 = 0x5A5A;
    let inst_code: u16 = 0xA5A5;
    let mut oracle = EndToEndOracle::new(victim_object, new_vtable, data_code, inst_code);
    let inst_secret = encode_pac(inst_code, win | PAC_BITMASK);
    let targets = end_to_end_targets(victim_object, new_vtable, win);
    let config = small_config();
    let search = small_search();
    let (forge, forge_idx, limit, limit_idx) = small_evsets();
    let outcome = end_to_end(
        &mut oracle,
        &targets,
        &config,
        &config,
        &search,
        &search,
        &forge,
        &forge_idx,
        &forge,
        &forge_idx,
        &limit,
        &limit_idx,
    )
    .unwrap();
    assert_eq!(outcome.data_signed, encode_pac(data_code, new_vtable | PAC_BITMASK));
    assert_eq!(outcome.inst_signed, inst_secret);
    assert_eq!(extract_pac(outcome.data_signed), data_code);
    assert_eq!(extract_pac(outcome.inst_signed), inst_code);
}

#[test]
fn end_to_end_aborts_on_oracle_mismatch() {
    // The behavioral secret and the ground-truth oracle disagree: the
    // run must abort loudly rather than carry the value forward.
    let victim_object: u64 = 0xFFFF800000100000;
    let new_vtable: u64 = 0xFFFF800000200000;
    let win: u64 = 0xFFFF800000300000;
    let mut oracle = EndToEndOracle::new(victim_object, new_vtable, 0x5A5A, 0xA5A5);
    oracle.forge_data_code = 0x1111;
    let targets = end_to_end_targets(victim_object, new_vtable, win);
    let config = small_config();
    let search = small_search();
    let (forge, forge_idx, limit, limit_idx) = small_evsets();
    let result = end_to_end(
        &mut oracle,
        &targets,
        &config,
        &config,
        &search,
        &search,
        &forge,
        &forge_idx,
        &forge,
        &forge_idx,
        &limit,
        &limit_idx,
    );
    assert_eq!(result.err(), Some(EndToEndError::DataMismatch));
}

#[test]
fn end_to_end_reports_data_not_found() {
    // A victim that never hits: the first stage confirms nothing and the
    // run stops with the data-stage not-found outcome.
    let victim_object: u64 = 0xFFFF800000100000;
    let new_vtable: u64 = 0xFFFF800000200000;
    let win: u64 = 0xFFFF800000300000;
    let mut oracle = EndToEndOracle::new(victim_object, new_vtable, 0x5A5A, 0xA5A5);
    // Behavioral hit requires a value no candidate ever encodes
    oracle.victim_object_key = 1;
    let targets = end_to_end_targets(victim_object, new_vtable, win);
    let config = small_config();
    let search = small_search();
    let (forge, forge_idx, limit, limit_idx) = small_evsets();
    let result = end_to_end(
        &mut oracle,
        &targets,
        &config,
        &config,
        &search,
        &search,
        &forge,
        &forge_idx,
        &forge,
        &forge_idx,
        &limit,
        &limit_idx,
    );
    assert_eq!(result.err(), Some(EndToEndError::DataNotFound));
}

#[test]
fn end_to_end_aborts_on_inst_mismatch() {
    // The data stage agrees with the oracle, but the instruction stage's
    // behavioral secret and ground truth disagree.
    let victim_object: u64 = 0xFFFF800000100000;
    let new_vtable: u64 = 0xFFFF800000200000;
    let win: u64 = 0xFFFF800000300000;
    let mut oracle = EndToEndOracle::new(victim_object, new_vtable, 0x5A5A, 0xA5A5);
    oracle.forge_inst_code = 0x2222;
    let targets = end_to_end_targets(victim_object, new_vtable, win);
    let config = small_config();
    let search = small_search();
    let (forge, forge_idx, limit, limit_idx) = small_evsets();
    let result = end_to_end(
        &mut oracle,
        &targets,
        &config,
        &config,
        &search,
        &search,
        &forge,
        &forge_idx,
        &forge,
        &forge_idx,
        &limit,
        &limit_idx,
    );
    assert_eq!(result.err(), Some(EndToEndError::InstMismatch));
}

#[test]
fn end_to_end_reports_inst_not_found() {
    // The instruction stage never produces a hit: its search confirms
    // nothing and the run stops with the instruction-stage not-found
    // outcome.
    let victim_object: u64 = 0xFFFF800000100000;
    let new_vtable: u64 = 0xFFFF800000200000;
    let win: u64 = 0xFFFF800000300000;
    let mut oracle = EndToEndOracle::new(victim_object, new_vtable, 0x5A5A, 0xA5A5);
    oracle.inst_never_hits = true;
    let targets = end_to_end_targets(victim_object, new_vtable, win);
    let config = small_config();
    let search = small_search();
    let (forge, forge_idx, limit, limit_idx) = small_evsets();
    let result = end_to_end(
        &mut oracle,
        &targets,
        &config,
        &config,
        &search,
        &search,
        &forge,
        &forge_idx,
        &forge,
        &forge_idx,
        &limit,
        &limit_idx,
    );
    assert_eq!(result.err(), Some(EndToEndError::InstNotFound));
}
