//! Pointer authentication codes (PACs): extracting and embedding the
//! 16-bit code field of a signed pointer, and enumerating every possible
//! code for a fixed base address.
//!
//! A signed pointer carries the code in two pieces: bits 47..=54 hold the
//! low half, bits 56..=63 the high half, and bit 55 is the address-space
//! bit (set for kernel pointers).

use vstd::prelude::*;

verus! {

pub type PAC = u16;

/// Mask a kernel address with this value to eliminate the PAC.
pub const PAC_BITMASK: u64 = 0xFFFF800000000000;

/// Largest code value; the code space is `0..=MAX_PAC`.
pub const NUM_PACS: usize = 0xFFFF;

pub const MAX_PAC: PAC = 0xFFFF;

/// Number of distinct code values.
pub const PAC_SPACE_SIZE: usize = 0x10000;

pub open spec fn spec_is_kernel_pointer(addr: u64) -> bool {
    addr & (1u64 << 55u64) != 0
}

pub open spec fn spec_extract_pac(signed_pointer: u64) -> PAC {
    ((((signed_pointer >> 56u64) & 0xFFu64) << 8u64) | ((signed_pointer >> 47u64) & 0xFFu64)) as u16
}

pub open spec fn spec_encode_pac(pac: PAC, pointer: u64) -> u64 {
    (pointer & !PAC_BITMASK) | (((pac as u64) & 0xFFu64) << 47u64) | ((((pac as u64) >> 8u64)
        & 0xFFu64) << 56u64) | (if spec_is_kernel_pointer(pointer) {
        1u64 << 55u64
    } else {
        0u64
    })
}

/// The context value a signing operation mixes in for a pointer stored at
/// `holder_addr` in an object whose type contributes `salt_const`.
pub open spec fn spec_get_salt(holder_addr: u64, salt_const: u64) -> u64 {
    ((holder_addr | PAC_BITMASK) & !0xFFFF000000000000u64) | (salt_const << 48u64)
}

/// Returns true if this is a kernel pointer (address-space bit set).
#[verifier::when_used_as_spec(spec_is_kernel_pointer)]
pub fn is_kernel_pointer(addr: u64) -> (r: bool)
    ensures
        r == spec_is_kernel_pointer(addr),
{
    (addr & (1u64 << 55)) != 0
}

/// Returns the PAC part of a signed pointer.
#[verifier::when_used_as_spec(spec_extract_pac)]
pub fn extract_pac(signed_pointer: u64) -> (r: PAC)
    ensures
        r == spec_extract_pac(signed_pointer),
{
    let pac_lower = (signed_pointer >> 47) & 0x0FF;
    let pac_upper = (signed_pointer >> 56) & 0x0FF;
    proof {
        assert(((signed_pointer >> 56u64) & 0xFFu64) << 8u64 | ((signed_pointer >> 47u64)
            & 0xFFu64) < 0x10000) by (bit_vector);
    }
    ((pac_upper << 8) | pac_lower) as u16
}

/// Encodes a PAC into a pointer, preserving all non-code bits.
#[verifier::when_used_as_spec(spec_encode_pac)]
pub fn encode_pac(pac: PAC, pointer: u64) -> (r: u64)
    ensures
        r == spec_encode_pac(pac, pointer),
{
    let pac_lower = (pac as u64 & 0x0FF) << 47;
    let pac_upper = ((pac as u64 >> 8) & 0x0FF) << 56;
    let pac_kernel_bit: u64 = if is_kernel_pointer(pointer) {
        1u64 << 55
    } else {
        0
    };
    (pointer & (!PAC_BITMASK)) | pac_lower | pac_upper | pac_kernel_bit
}

/// Calculate the salt for a PAC computation over the pointer held at
/// `holder_addr`, mixing the object's salt constant into the top bits.
#[verifier::when_used_as_spec(spec_get_salt)]
pub fn get_salt(holder_addr: u64, salt_const: u64) -> (r: u64)
    ensures
        r == spec_get_salt(holder_addr, salt_const),
{
    let addr_unmasked = (holder_addr | PAC_BITMASK) & (!0xFFFF000000000000u64);
    addr_unmasked | (salt_const << 48)
}

/// Code encode/decode round trip: extracting the code from an encoded
/// pointer gives back the code, for every code and base address.
pub proof fn lemma_pac_round_trip(pac: PAC, pointer: u64)
    ensures
        spec_extract_pac(spec_encode_pac(pac, pointer)) == pac,
{
    assert(spec_extract_pac(spec_encode_pac(pac, pointer)) == pac) by (bit_vector);
}

/// Encoding a code touches only the code field: the low 47 address bits
/// and the address-space bit survive unchanged.
pub proof fn lemma_encode_preserves_address(pac: PAC, pointer: u64)
    ensures
        spec_encode_pac(pac, pointer) & !PAC_BITMASK == pointer & !PAC_BITMASK,
        spec_is_kernel_pointer(spec_encode_pac(pac, pointer)) == spec_is_kernel_pointer(pointer),
{
    assert(spec_encode_pac(pac, pointer) & !PAC_BITMASK == pointer & !PAC_BITMASK) by (bit_vector);
    assert(spec_is_kernel_pointer(spec_encode_pac(pac, pointer)) == spec_is_kernel_pointer(
        pointer,
    )) by (bit_vector);
}

/// Distinct codes give distinct encoded pointers over one base address.
pub proof fn lemma_encode_injective(pac1: PAC, pac2: PAC, pointer: u64)
    ensures
        spec_encode_pac(pac1, pointer) == spec_encode_pac(pac2, pointer) ==> pac1 == pac2,
{
    lemma_pac_round_trip(pac1, pointer);
    lemma_pac_round_trip(pac2, pointer);
}

/// The base pointer an iteration works over: for kernel pointers the code
/// field is forced to all ones, for user pointers to all zeroes, so that
/// every emitted value differs from the base only in the code field.
pub open spec fn spec_pac_base(addr: u64) -> u64 {
    if spec_is_kernel_pointer(addr) {
        addr | PAC_BITMASK
    } else {
        addr & !PAC_BITMASK
    }
}

/// Walks every possible PAC value for a given address, emitting each
/// encoded pointer exactly once.
pub struct PACIterator {
    /// The current PAC value being considered.
    cur_pac: PAC,
    /// Have we reported MAX_PAC yet?
    reported_last: bool,
    /// The masked pointer to use (kernel or user is fine).
    addr: u64,
}

impl PACIterator {
    pub closed spec fn inv(self) -> bool {
        self.reported_last ==> self.cur_pac == MAX_PAC
    }

    /// How many encoded values this iterator has already emitted.
    pub closed spec fn emitted(self) -> int {
        if self.reported_last {
            0x10000
        } else {
            self.cur_pac as int
        }
    }

    /// The base address whose code field is being enumerated.
    pub closed spec fn base(self) -> u64 {
        self.addr
    }

    /// Emits the encoding of the next untried code, or `None` once every
    /// code, the maximum included, has been emitted exactly once.
    pub fn next(&mut self) -> (r: Option<u64>)
        requires
            old(self).inv(),
        ensures
            final(self).inv(),
            final(self).base() == old(self).base(),
            old(self).emitted() < 0x10000 ==> r == Some(
                spec_encode_pac(old(self).emitted() as u16, old(self).base()),
            ) && final(self).emitted() == old(self).emitted() + 1,
            old(self).emitted() == 0x10000 ==> r == None::<u64> && final(self).emitted()
                == 0x10000,
    {
        // Whatever self.cur_pac currently is will be what we report
        let old_pac = self.cur_pac;
        if self.cur_pac == MAX_PAC {
            // If the current PAC is the max one, check if we have already
            // returned MAX_PAC before. If so, the iteration is complete.
            if self.reported_last {
                return None;
            }
            self.reported_last = true;
        } else {
            self.cur_pac = self.cur_pac + 1;
        }
        Some(encode_pac(old_pac, self.addr))
    }
}

/// Get an iterator that loops over all PAC values for a given pointer.
pub fn iterate_pacs(addr: u64) -> (r: PACIterator)
    ensures
        r.inv(),
        r.emitted() == 0,
        r.base() == spec_pac_base(addr),
{
    if is_kernel_pointer(addr) {
        PACIterator { cur_pac: 0, reported_last: false, addr: addr | PAC_BITMASK }
    } else {
        PACIterator { cur_pac: 0, reported_last: false, addr: addr & (!PAC_BITMASK) }
    }
}

/// Every encoded candidate for a base address, in code order: exactly
/// `PAC_SPACE_SIZE` pairwise-distinct values, the maximum code visited
/// exactly once, produced by an iteration that provably terminates.
pub fn all_pacs(addr: u64) -> (r: Vec<u64>)
    ensures
        r.len() == PAC_SPACE_SIZE,
        forall|i: int|
            0 <= i < r.len() ==> (#[trigger] r[i]) == spec_encode_pac(i as u16, spec_pac_base(addr)),
        forall|i: int, j: int| 0 <= i < j < r.len() ==> r[i] != r[j],
{
    let mut v: Vec<u64> = Vec::new();
    let mut it = iterate_pacs(addr);
    loop
        invariant
            it.inv(),
            it.base() == spec_pac_base(addr),
            0 <= it.emitted() <= 0x10000,
            v.len() == it.emitted(),
            forall|i: int|
                0 <= i < v.len() ==> (#[trigger] v[i]) == spec_encode_pac(
                    i as u16,
                    spec_pac_base(addr),
                ),
        ensures
            v.len() == 0x10000,
            forall|i: int|
                0 <= i < v.len() ==> (#[trigger] v[i]) == spec_encode_pac(
                    i as u16,
                    spec_pac_base(addr),
                ),
        decreases 0x10000 - it.emitted(),
    {
        match it.next() {
            Some(x) => {
                v.push(x);
            },
            None => {
                break ;
            },
        }
    }
    proof {
        assert forall|i: int, j: int| 0 <= i < j < v.len() implies v[i] != v[j] by {
            lemma_encode_injective(i as u16, j as u16, spec_pac_base(addr));
        }
    }
    v
}

} // verus!
