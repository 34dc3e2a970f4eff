//! Eviction-set construction: sequences of addresses congruent to a
//! target's cache set, drawn from a scratch memory pool at a fixed large
//! stride, bounded by a hard cap.

use vstd::prelude::*;
use crate::cache;
use crate::cache::{cache_set_m1, l1_cache_set_m1};
use crate::oracle::{KernReturn, MemoryOracle};
use crate::rng;

verus! {

/// Stride in bytes between candidate virtual addresses. A large power of
/// two multiple of the page size increases the likelihood of TLB
/// conflicts between candidates.
pub const STRIDE: usize = 4096 * cache::PAGE_SIZE;

/// Hard cap on eviction-set size, to avoid unbounded scans.
pub const EVSET_SIZE_MAX: usize = 1024;

/// A failed eviction-set construction.
#[derive(Clone, Copy, PartialEq, Eq, Structural, Debug)]
pub enum EvsetError {
    /// A privileged translation failed mid-scan.
    Translation(KernReturn),
    /// A candidate's virtual set index disagrees with the target's.
    Incongruent,
}

/// A candidate address together with its physical translation.
#[derive(Clone, Copy, PartialEq, Eq, Structural, Debug)]
pub struct AddrPair {
    pub va: u64,
    pub pa: u64,
}

/// Offset every pool candidate keeps: the target's low address bits, far
/// past the page offset, so candidates share its TLB and cache indexing.
pub open spec fn spec_pool_offset(target_vaddr: u64) -> u64 {
    target_vaddr & cache::TLB_OFFSET_MASK
}

/// Candidates sit `STRIDE` apart and keep the target's low bits, so as
/// long as the pool base contributes nothing below the stride's alignment
/// both the virtual L2 set index and the virtual first-level set index of
/// every candidate equal the target's.
proof fn lemma_pool_candidate_congruent(pool_base: u64, k: u64, target_vaddr: u64)
    requires
        pool_base % 0x800000 == 0,
        pool_base + k * 0x4000000 + (target_vaddr & 0x7FFFFFFFFFu64) <= u64::MAX,
    ensures
        cache_set_m1((pool_base + k * 0x4000000 + (target_vaddr & 0x7FFFFFFFFFu64)) as u64)
            == cache_set_m1(target_vaddr),
        l1_cache_set_m1((pool_base + k * 0x4000000 + (target_vaddr & 0x7FFFFFFFFFu64)) as u64)
            == l1_cache_set_m1(target_vaddr),
{
    assert(cache_set_m1((pool_base + k * 0x4000000 + (target_vaddr & 0x7FFFFFFFFFu64)) as u64)
        == cache_set_m1(target_vaddr) && l1_cache_set_m1((pool_base + k * 0x4000000 + (target_vaddr
        & 0x7FFFFFFFFFu64)) as u64) == l1_cache_set_m1(target_vaddr)) by (bit_vector)
        requires
            pool_base % 0x800000 == 0,
    ;
}

/// Create a data eviction set within a user memory pool for a target
/// address: walk the pool at `STRIDE`, starting at the target's in-pool
/// offset, accepting every candidate until the cap is reached or the pool
/// is exhausted. A pool that cannot supply the offset yields an empty
/// set, which callers must treat as a setup failure.
///
/// The pool is described by its base address and length; the base must be
/// 8 MiB aligned so that candidates actually share the target's set bits.
pub fn data_pevset(target_vaddr: u64, pool_base: u64, pool_len: usize) -> (r: Vec<u64>)
    requires
        pool_base % 0x800000 == 0,
        pool_base + pool_len <= u64::MAX,
        pool_len <= 0x1_0000_0000_0000,
    ensures
        r.len() <= EVSET_SIZE_MAX,
        forall|i: int|
            0 <= i < r.len() ==> (#[trigger] r[i]) == pool_base + i * STRIDE + spec_pool_offset(
                target_vaddr,
            ),
        r.len() > 0 ==> (r.len() - 1) * STRIDE < pool_len && (r.len() - 1) * STRIDE
            + spec_pool_offset(target_vaddr) <= pool_len,
        r.len() == EVSET_SIZE_MAX || r.len() * STRIDE >= pool_len || r.len() * STRIDE
            + spec_pool_offset(target_vaddr) > pool_len,
        forall|i: int|
            0 <= i < r.len() ==> cache_set_m1(r[i]) == cache_set_m1(target_vaddr)
                && l1_cache_set_m1(r[i]) == l1_cache_set_m1(target_vaddr),
{
    let mut vec: Vec<u64> = Vec::new();
    let offset: u64 = target_vaddr & cache::TLB_OFFSET_MASK;
    proof {
        assert(target_vaddr & 0x7FFFFFFFFFu64 <= 0x7FFFFFFFFFu64) by (bit_vector);
    }
    let len64: u64 = pool_len as u64;
    let mut i: u64 = 0;
    while i < len64
        invariant
            pool_base % 0x800000 == 0,
            pool_base + pool_len <= u64::MAX,
            pool_len <= 0x1_0000_0000_0000,
            len64 == pool_len,
            offset == spec_pool_offset(target_vaddr),
            offset <= 0x7FFFFFFFFF,
            i == vec.len() * STRIDE,
            i <= len64 + STRIDE,
            vec.len() <= EVSET_SIZE_MAX,
            forall|j: int|
                0 <= j < vec.len() ==> (#[trigger] vec[j]) == pool_base + j * STRIDE
                    + spec_pool_offset(target_vaddr),
            vec.len() > 0 ==> (vec.len() - 1) * STRIDE < pool_len && (vec.len() - 1) * STRIDE
                + spec_pool_offset(target_vaddr) <= pool_len,
            forall|j: int|
                0 <= j < vec.len() ==> cache_set_m1(vec[j]) == cache_set_m1(target_vaddr)
                    && l1_cache_set_m1(vec[j]) == l1_cache_set_m1(target_vaddr),
        ensures
            vec.len() == EVSET_SIZE_MAX || i >= len64 || i + offset > len64,
            i == vec.len() * STRIDE,
        decreases len64 + STRIDE - i,
    {
        let idx: u64 = i + offset;
        if idx > len64 {
            break ;
        }
        if vec.len() >= EVSET_SIZE_MAX {
            break ;
        }
        let cur_va: u64 = pool_base + idx;
        proof {
            lemma_pool_candidate_congruent(pool_base, (vec.len()) as u64, target_vaddr);
        }
        vec.push(cur_va);
        proof {
            let vl = vec.len() as int;
            assert(vl * STRIDE == (vl - 1) * STRIDE + STRIDE) by (nonlinear_arith);
        }
        i = i + STRIDE as u64;
    }
    vec
}

/// The kernel-pool variant of the congruence scan: walk a kernel-owned
/// scratch region line by line, translate each candidate through the
/// collaborator, and keep those whose physical L2 set index equals the
/// target's. Every kept candidate's virtual first-level set index is then
/// checked against the target's; a disagreement is reported rather than
/// returned.
pub fn data_kpevset<O: MemoryOracle>(
    oracle: &mut O,
    target_vaddr: u64,
    target_paddr: u64,
    kernel_memory: u64,
    kernel_memory_size: usize,
) -> (r: Result<Vec<AddrPair>, EvsetError>)
    requires
        kernel_memory + kernel_memory_size <= u64::MAX,
        kernel_memory_size <= 0x1_0000_0000_0000,
    ensures
        r is Ok ==> forall|i: int|
            0 <= i < r->Ok_0.len() ==> cache_set_m1(r->Ok_0[i].pa) == cache_set_m1(target_paddr)
                && l1_cache_set_m1(r->Ok_0[i].va) == l1_cache_set_m1(target_vaddr)
                && kernel_memory <= r->Ok_0[i].va <= kernel_memory + kernel_memory_size,
{
    let mut vec: Vec<AddrPair> = Vec::new();
    let target_l2_set = cache::get_cache_set_m1(target_paddr);
    let len64: u64 = kernel_memory_size as u64;
    let mut i: u64 = 0;
    while i < len64
        invariant
            kernel_memory + kernel_memory_size <= u64::MAX,
            len64 == kernel_memory_size,
            kernel_memory_size <= 0x1_0000_0000_0000,
            i <= len64 + 128,
            target_l2_set == cache_set_m1(target_paddr),
            forall|j: int|
                0 <= j < vec.len() ==> cache_set_m1(vec[j].pa) == cache_set_m1(target_paddr)
                    && kernel_memory <= vec[j].va <= kernel_memory + kernel_memory_size,
        decreases len64 + 128 - i,
    {
        let cur_va: u64 = kernel_memory + i;
        let cur_pa: u64 = match oracle.kernel_virt_to_phys(cur_va) {
            Ok(pa) => pa,
            Err(kr) => {
                return Err(EvsetError::Translation(kr));
            },
        };
        if cache::get_cache_set_m1(cur_pa) == target_l2_set {
            vec.push(AddrPair { va: cur_va, pa: cur_pa });
        }
        i = i + 128;
    }
    let virt_set_index = cache::get_l1_cache_set_m1(target_vaddr);
    let mut j: usize = 0;
    while j < vec.len()
        invariant
            virt_set_index == l1_cache_set_m1(target_vaddr),
            j <= vec.len(),
            forall|k: int| 0 <= k < j ==> l1_cache_set_m1(vec[k].va) == l1_cache_set_m1(
                target_vaddr,
            ),
        decreases vec.len() - j,
    {
        if cache::get_l1_cache_set_m1(vec[j].va) != virt_set_index {
            return Err(EvsetError::Incongruent);
        }
        j = j + 1;
    }
    Ok(vec)
}

/// The evenly spaced candidate the fixed-way builders emit: way `i + 1`
/// strides of one cache's worth of lines past the region base.
pub open spec fn spec_way_entry(region_base: u64, way_stride: int, i: int) -> int {
    region_base + (i + 1) * way_stride
}

/// Create an eviction set for a data address within a memory region: one
/// candidate per way of the first-level data cache, each a full cache
/// size apart, in a random order.
///
/// All candidates share the region base's virtual first-level set index,
/// so using a base with the target's in-cache offset aligns them with the
/// target.
pub fn data_evset(addr: u64, region_base: u64, region_len: usize) -> (r: Vec<u64>)
    requires
        cache::L1D_WAYS * cache::L1D_SETS * cache::L1D_LINESIZE * 4 <= region_len,
        region_base + region_len <= u64::MAX,
    ensures
        r.len() == cache::L1D_WAYS,
        r@.to_multiset() == Seq::new(cache::L1D_WAYS as nat, |i: int| (spec_way_entry(region_base, 0x10000, i)) as u64).to_multiset(),
        forall|i: int|
            0 <= i < r.len() ==> l1_cache_set_m1(r[i]) == l1_cache_set_m1(region_base),
{
    let mut vec: Vec<u64> = Vec::new();
    let ghost entries = Seq::new(cache::L1D_WAYS as nat, |i: int| (spec_way_entry(region_base, 0x10000, i)) as u64);
    let mut i: usize = 0;
    while i < cache::L1D_WAYS
        invariant
            cache::L1D_WAYS * cache::L1D_SETS * cache::L1D_LINESIZE * 4 <= region_len,
            region_base + region_len <= u64::MAX,
            i <= cache::L1D_WAYS,
            vec.len() == i,
            entries == Seq::new(cache::L1D_WAYS as nat, |i: int| (spec_way_entry(region_base, 0x10000, i)) as u64),
            forall|j: int| 0 <= j < i ==> vec[j] == entries[j],
            forall|j: int|
                0 <= j < i ==> l1_cache_set_m1(vec[j]) == l1_cache_set_m1(region_base),
        decreases cache::L1D_WAYS - i,
    {
        let offset: usize = (i + 1) * cache::L1D_SETS * cache::L1D_LINESIZE * 4;
        let new_evset_entry: u64 = region_base + offset as u64;
        proof {
            lemma_way_entry_congruent(region_base, (i + 1) as u64, 0x10000);
        }
        vec.push(new_evset_entry);
        i = i + 1;
    }
    proof {
        assert(vec@ =~= entries);
    }
    rng::shuffle(&mut vec);
    proof {
        lemma_multiset_membership_congruence(vec@, entries, region_base);
    }
    vec
}

/// Create an eviction set for an instruction address within a memory
/// region: one candidate per way of the first-level instruction cache.
/// The region is treated as a sequence of 32-bit instruction slots, and
/// its length is measured in those slots.
pub fn inst_evset(addr: u64, region_base: u64, region_len: usize) -> (r: Vec<u64>)
    requires
        cache::L1I_WAYS * cache::L1I_SETS * cache::L1I_LINESIZE <= region_len / 4,
        region_base + region_len <= u64::MAX,
    ensures
        r.len() == cache::L1I_WAYS,
        r@.to_multiset() == Seq::new(cache::L1I_WAYS as nat, |i: int| (spec_way_entry(region_base, 0x8000, i)) as u64).to_multiset(),
        forall|i: int|
            0 <= i < r.len() ==> l1_cache_set_m1(r[i]) == l1_cache_set_m1(region_base),
{
    let mut vec: Vec<u64> = Vec::new();
    let ghost entries = Seq::new(cache::L1I_WAYS as nat, |i: int| (spec_way_entry(region_base, 0x8000, i)) as u64);
    let mut i: usize = 0;
    while i < cache::L1I_WAYS
        invariant
            cache::L1I_WAYS * cache::L1I_SETS * cache::L1I_LINESIZE <= region_len / 4,
            region_base + region_len <= u64::MAX,
            i <= cache::L1I_WAYS,
            vec.len() == i,
            entries == Seq::new(cache::L1I_WAYS as nat, |i: int| (spec_way_entry(region_base, 0x8000, i)) as u64),
            forall|j: int| 0 <= j < i ==> vec[j] == entries[j],
            forall|j: int|
                0 <= j < i ==> l1_cache_set_m1(vec[j]) == l1_cache_set_m1(region_base),
        decreases cache::L1I_WAYS - i,
    {
        let offset: usize = (i + 1) * cache::L1I_SETS * cache::L1I_LINESIZE;
        let new_evset_entry: u64 = region_base + offset as u64;
        proof {
            lemma_way_entry_congruent(region_base, (i + 1) as u64, 0x8000);
        }
        vec.push(new_evset_entry);
        i = i + 1;
    }
    proof {
        assert(vec@ =~= entries);
    }
    rng::shuffle(&mut vec);
    proof {
        lemma_multiset_membership_congruence(vec@, entries, region_base);
    }
    vec
}

/// Adding a small multiple of a 32 KiB-aligned stride leaves the virtual
/// first-level set index unchanged.
proof fn lemma_way_entry_congruent(base: u64, c: u64, way_stride: u64)
    requires
        c <= 16,
        way_stride == 0x8000 || way_stride == 0x10000,
        base + c * way_stride <= u64::MAX,
    ensures
        l1_cache_set_m1((base + c * way_stride) as u64) == l1_cache_set_m1(base),
{
    assert(l1_cache_set_m1((base + c * way_stride) as u64) == l1_cache_set_m1(base))
        by (bit_vector)
        requires
            c <= 16 && (way_stride == 0x8000 || way_stride == 0x10000),
    ;
}

/// A sequence with the same contents as one of congruent addresses is
/// itself made of congruent addresses.
proof fn lemma_multiset_membership_congruence(s: Seq<u64>, t: Seq<u64>, base: u64)
    requires
        s.to_multiset() == t.to_multiset(),
        forall|i: int| 0 <= i < t.len() ==> l1_cache_set_m1(t[i]) == l1_cache_set_m1(base),
    ensures
        forall|i: int| 0 <= i < s.len() ==> l1_cache_set_m1(s[i]) == l1_cache_set_m1(base),
{
    broadcast use vstd::seq_lib::group_to_multiset_ensures;

    assert forall|i: int| 0 <= i < s.len() implies l1_cache_set_m1(s[i]) == l1_cache_set_m1(base)
        by {
        assert(s.contains(s[i]));
        assert(s.to_multiset().count(s[i]) > 0);
        assert(t.contains(s[i]));
        let j = choose|j: int| 0 <= j < t.len() && t[j] == s[i];
        assert(l1_cache_set_m1(t[j]) == l1_cache_set_m1(base));
    }
}

} // verus!
