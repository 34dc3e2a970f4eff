//! The instruction payload for trampoline pages: every candidate page of
//! an instruction eviction set is filled with return instructions, so a
//! timed jump into it comes straight back.

use vstd::prelude::*;

verus! {

/// The opcode of a return instruction.
pub const RET_INST: u32 = 0xd65f03c0;

/// The opcode of a no-operation instruction.
pub const NOP_INST: u32 = 0xd503201f;

/// The instruction words that fill a trampoline region of `size` bytes:
/// one return instruction per 32-bit slot.
pub fn retpoline_words(size: usize) -> (r: Vec<u32>)
    ensures
        r.len() == size / 4,
        forall|i: int| 0 <= i < r.len() ==> r[i] == RET_INST,
{
    let count: usize = size / 4;
    let mut words: Vec<u32> = Vec::new();
    let mut i: usize = 0;
    while i < count
        invariant
            words.len() == i,
            i <= count,
            forall|j: int| 0 <= j < words@.len() ==> words@[j] == RET_INST,
        decreases count - i,
    {
        words.push(RET_INST);
        i = i + 1;
    }
    words
}

} // verus!
