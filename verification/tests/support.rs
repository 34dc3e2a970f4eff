//! Supporting pieces: timing calibration arithmetic, trampoline
//! payloads, core selection classes, kernel-helper selectors, and the
//! random sampling helpers.

use pacman::oracle::{calibrated_latency, KernReturn, MemoryOracle};
use pacman::pacmankit::{find_victim_objects, PacmanKitOp, PACMANKIT_TO_HELPER};
use pacman::qos::CoreKind;
use pacman::retpoline::{retpoline_words, NOP_INST, RET_INST};
use pacman::rng::{choose_multiple, coin_flip, shuffle};

#[test]
fn calibrated_latency_subtracts_the_overhead() {
    assert_eq!(calibrated_latency(100, 220, 56), 64);
    assert_eq!(calibrated_latency(0, 56, 56), 0);
}

#[test]
fn retpoline_words_fill_a_page() {
    let words = retpoline_words(0x4000);
    assert_eq!(words.len(), 0x1000);
    assert!(words.iter().all(|w| *w == RET_INST));
    assert_ne!(RET_INST, NOP_INST);
    // A ragged size rounds down to whole instruction slots
    assert_eq!(retpoline_words(10).len(), 2);
    assert!(retpoline_words(3).is_empty());
}

#[test]
fn core_kinds_map_to_qos_classes() {
    assert_eq!(CoreKind::PCORE.qos_class(), 0x21);
    assert_eq!(CoreKind::ECORE.qos_class(), 0x09);
}

#[test]
fn kernel_helper_selectors() {
    assert_eq!(PacmanKitOp::KernelBase.selector(), 0x00);
    assert_eq!(PacmanKitOp::Read.selector(), 0x01);
    assert_eq!(PacmanKitOp::Write.selector(), 0x02);
    assert_eq!(PacmanKitOp::KernelVirt2Phys.selector(), 0x03);
    assert_eq!(PacmanKitOp::GimmeMemory.selector(), 0x06);
    assert_eq!(PacmanKitOp::ReadForTiming.selector(), 0x09);
    assert_eq!(PacmanKitOp::ExecForSpectre.selector(), 0x0D);
    assert_eq!(PacmanKitOp::CallServiceRoutine.selector(), 0x0E);
    assert_eq!(PacmanKitOp::ForgeSignData.selector(), 0x0F);
    assert_eq!(PacmanKitOp::ForgeAuthInst.selector(), 0x12);
    assert_eq!(PacmanKitOp::LeakCurProc.selector(), 0x13);
}

/// A collaborator whose privileged reads walk a tiny scripted layout.
struct LayoutOracle {
    handle_loc: u64,
    vtable: u64,
    vtable_entry: u64,
    fail_reads: bool,
}

impl MemoryOracle for LayoutOracle {
    fn kernel_read(&mut self, addr: u64) -> Result<u64, KernReturn> {
        if self.fail_reads {
            Err(-2)
        } else if addr == self.handle_loc + PACMANKIT_TO_HELPER {
            Ok(self.vtable)
        } else if addr == self.vtable {
            Ok(self.vtable_entry)
        } else {
            Err(-2)
        }
    }

    fn kernel_write(&mut self, _addr: u64, _value: u64) -> Result<(), KernReturn> {
        Ok(())
    }

    fn kernel_virt_to_phys(&mut self, addr: u64) -> Result<u64, KernReturn> {
        Ok(addr)
    }

    fn get_handle_loc(&mut self) -> Result<u64, KernReturn> {
        Ok(self.handle_loc)
    }

    fn time_access(&mut self, _addr: u64) -> u64 {
        0
    }

    fn time_exec(&mut self, _addr: u64) -> u64 {
        0
    }

    fn kernel_read_for_timing(&mut self, _addr: u64, _do_read: bool) -> Result<u64, KernReturn> {
        Ok(0)
    }

    fn kernel_exec_for_timing(&mut self, _addr: u64, _do_exec: bool) -> Result<u64, KernReturn> {
        Ok(0)
    }

    fn kernel_read_for_spectre(&mut self, _addr: u64, _guard: u64) -> Result<u64, KernReturn> {
        Ok(0)
    }

    fn kernel_exec_for_spectre(&mut self, _addr: u64, _guard: u64) -> Result<u64, KernReturn> {
        Ok(0)
    }

    fn forge_sign_data(&mut self, ptr: u64, _salt: u64) -> Result<u64, KernReturn> {
        Ok(ptr)
    }

    fn forge_sign_inst(&mut self, ptr: u64, _salt: u64) -> Result<u64, KernReturn> {
        Ok(ptr)
    }

    fn trigger_speculative(&mut self) {}

    fn trigger_nonspeculative(&mut self) {}
}

#[test]
fn victim_object_walk_follows_the_layout() {
    let mut oracle = LayoutOracle {
        handle_loc: 0x1000,
        vtable: 0x2000,
        vtable_entry: 0x3000,
        fail_reads: false,
    };
    let (client, object, vtable, entry) = find_victim_objects(&mut oracle).unwrap();
    assert_eq!(client, 0x1000);
    assert_eq!(object, 0x1000 + PACMANKIT_TO_HELPER);
    assert_eq!(vtable, 0x2000);
    assert_eq!(entry, 0x3000);
}

#[test]
fn victim_object_walk_propagates_read_failure() {
    let mut oracle = LayoutOracle {
        handle_loc: 0x1000,
        vtable: 0x2000,
        vtable_entry: 0x3000,
        fail_reads: true,
    };
    let result = find_victim_objects(&mut oracle);
    assert_eq!(result, Err(-2));
}

#[test]
fn shuffle_permutes_in_place() {
    let mut v: Vec<u64> = (0..64).collect();
    shuffle(&mut v);
    assert_eq!(v.len(), 64);
    let mut sorted = v.clone();
    sorted.sort();
    let expected: Vec<u64> = (0..64).collect();
    assert_eq!(sorted, expected);
}

#[test]
fn choose_multiple_samples_from_the_source() {
    let v: Vec<u64> = (0..10).map(|i| 100 + i).collect();
    let chosen = choose_multiple(&v, 4);
    assert_eq!(chosen.len(), 4);
    for x in &chosen {
        assert!(v.contains(x));
    }
    // Asking for more than the source holds returns everything
    let all = choose_multiple(&v, 100);
    assert_eq!(all.len(), 10);
    let mut sorted = all.clone();
    sorted.sort();
    assert_eq!(sorted, v);
}

#[test]
fn coin_flip_returns_both_faces_eventually() {
    let mut seen_true = false;
    let mut seen_false = false;
    for _ in 0..10000 {
        if coin_flip() {
            seen_true = true;
        } else {
            seen_false = true;
        }
        if seen_true && seen_false {
            break;
        }
    }
    assert!(seen_true && seen_false);
}
