//! Cache geometry: pure address arithmetic mapping a physical address to
//! its cache tag, set index and line offset for a given cache topology.

use vstd::prelude::*;

verus! {

pub const L1D_WAYS: usize = 8;
pub const L1D_SETS: usize = 256;
pub const L1D_LINESIZE: usize = 64;

pub const L1I_WAYS: usize = 6;
pub const L1I_SETS: usize = 512;
pub const L1I_LINESIZE: usize = 64;

pub const L2_WAYS: usize = 12;
pub const L2_SETS: usize = 8192;
pub const L2_LINESIZE: usize = 128;

/// Total size of the shared L2 cache in bytes.
pub const L2_SIZE: usize = 0xC00000;

/// P-core instruction cache size in bytes.
pub const L1I_SIZE: usize = 0x30000;

/// How large is a page (16 KiB).
pub const PAGE_SIZE: usize = 0x4000;

/// AND with this mask to get the offset within a 16 KiB page.
pub const PAGE_OFFSET_MASK: usize = 0x3FFF;

/// Same as the page offset mask except it keeps more virtual-address bits,
/// so that candidates sharing this offset also conflict in the TLB.
pub const TLB_OFFSET_MASK: u64 = 0x7FFFFFFFFF;

/// Floor of the base-2 logarithm; exact for powers of two, which is the
/// only way the cache geometry uses it.
pub open spec fn log2_floor(n: u64) -> u64
    decreases n,
{
    if n <= 1 {
        0u64
    } else {
        (1 + log2_floor(n / 2)) as u64
    }
}

pub proof fn lemma_log2_floor_lt(n: u64, k: u64)
    requires
        1 <= k <= 63,
        n < (1u64 << k),
    ensures
        log2_floor(n) < k,
    decreases n,
{
    if n > 1 {
        assert(2 <= k) by (bit_vector)
            requires
                1u64 < n && n < (1u64 << k) && 1 <= k <= 63,
        ;
        assert(n / 2 < (1u64 << ((k - 1) as u64))) by (bit_vector)
            requires
                n < (1u64 << k) && 2 <= k <= 63,
        ;
        lemma_log2_floor_lt(n / 2, (k - 1) as u64);
    }
}

/// Unfolds one halving step without truncation concerns.
proof fn lemma_log2_floor_succ(m: u64)
    requires
        m > 1,
    ensures
        log2_floor(m) == 1 + log2_floor(m / 2),
{
    assert(m / 2 < (1u64 << 63u64)) by (bit_vector);
    lemma_log2_floor_lt(m / 2, 63);
}

/// Describes one cache level: associativity, number of sets, and line size.
/// Sets and line size must be powers of two, so that set index and line
/// offset are bit fields of the address.
pub struct CacheGeometry {
    pub ways: usize,
    pub sets: usize,
    pub line_size: usize,
}

impl CacheGeometry {
    pub open spec fn wf(self) -> bool {
        &&& 1 <= self.sets <= 0x100_0000
        &&& 1 <= self.line_size <= 0x1_0000
        &&& (self.sets as u64) & ((self.sets - 1) as u64) == 0
        &&& (self.line_size as u64) & ((self.line_size - 1) as u64) == 0
    }

    pub open spec fn spec_offset_shift(self) -> u64 {
        log2_floor(self.line_size as u64)
    }

    pub open spec fn spec_set_shift(self) -> u64 {
        log2_floor(self.sets as u64)
    }

    /// The L2 cache of the target machine.
    pub fn l2() -> (r: CacheGeometry)
        ensures
            r == (CacheGeometry { ways: L2_WAYS, sets: L2_SETS, line_size: L2_LINESIZE }),
            r.wf(),
    {
        let r = CacheGeometry { ways: L2_WAYS, sets: L2_SETS, line_size: L2_LINESIZE };
        proof {
            assert(8192u64 & 8191u64 == 0) by (bit_vector);
            assert(128u64 & 127u64 == 0) by (bit_vector);
        }
        r
    }

    /// Number of low bits taken by the line offset.
    pub fn offset_shift(&self) -> (r: u64)
        requires
            self.wf(),
        ensures
            r == self.spec_offset_shift(),
            r <= 24,
    {
        proof {
            let ls = self.line_size as u64;
            assert(ls < (1u64 << 17u64)) by (bit_vector)
                requires
                    ls <= 0x1_0000,
            ;
            lemma_log2_floor_lt(ls, 17);
        }
        log2_pow2(self.line_size as u64)
    }

    /// Number of address bits taken by the set index.
    pub fn set_shift(&self) -> (r: u64)
        requires
            self.wf(),
        ensures
            r == self.spec_set_shift(),
            r <= 24,
    {
        proof {
            let ns = self.sets as u64;
            assert(ns < (1u64 << 25u64)) by (bit_vector)
                requires
                    ns <= 0x100_0000,
            ;
            lemma_log2_floor_lt(ns, 25);
        }
        log2_pow2(self.sets as u64)
    }

    /// The cache tag of an address: everything above set index and offset.
    pub fn cache_tag(&self, addr: u64) -> (r: u64)
        requires
            self.wf(),
        ensures
            r == addr >> (self.spec_set_shift() + self.spec_offset_shift()) as u64,
    {
        let shift = self.set_shift() + self.offset_shift();
        addr >> shift
    }

    /// The set index of an address.
    pub fn cache_set(&self, addr: u64) -> (r: u64)
        requires
            self.wf(),
        ensures
            r == (addr >> self.spec_offset_shift()) & ((self.sets - 1) as u64),
    {
        (addr >> self.offset_shift()) & (self.sets as u64 - 1)
    }

    /// The line offset of an address.
    pub fn cache_offset(&self, addr: u64) -> (r: u64)
        requires
            self.wf(),
        ensures
            r == addr & ((self.line_size - 1) as u64),
    {
        addr & (self.line_size as u64 - 1)
    }
}

/// Base-2 logarithm of a power of two, by repeated halving.
fn log2_pow2(n: u64) -> (r: u64)
    requires
        1 <= n <= 0x1_0000_0000,
    ensures
        r == log2_floor(n),
        r <= 32,
{
    proof {
        assert(n < (1u64 << 33u64)) by (bit_vector)
            requires
                n <= 0x1_0000_0000,
        ;
        lemma_log2_floor_lt(n, 33);
    }
    let mut m: u64 = n;
    let mut s: u64 = 0;
    while m > 1
        invariant
            1 <= m <= n,
            s + log2_floor(m) == log2_floor(n),
            log2_floor(n) < 33,
        decreases m,
    {
        proof {
            lemma_log2_floor_succ(m);
        }
        m = m / 2;
        s = s + 1;
    }
    s
}

/// The L2 cache tag of a physical address, bits above set and offset.
pub open spec fn l2_tag(addr: u64) -> u64 {
    addr >> 20u64
}

/// The L2 set index of a physical address.
pub open spec fn l2_set(addr: u64) -> u64 {
    (addr >> 7u64) & 0x1FFFu64
}

/// The L2 line offset of a physical address.
pub open spec fn l2_offset(addr: u64) -> u64 {
    addr & 0x7Fu64
}

/// Returns the L2 cache tag of a given physical address.
pub fn get_cache_tag_generic(addr: u64) -> (r: u64)
    ensures
        r == l2_tag(addr),
{
    let geometry = CacheGeometry::l2();
    proof {
        reveal_with_fuel(log2_floor, 16);
        assert(log2_floor(8192) == 13);
        assert(log2_floor(128) == 7);
    }
    geometry.cache_tag(addr)
}

/// Returns the L2 set index of a given physical address.
pub fn get_cache_set_generic(addr: u64) -> (r: u64)
    ensures
        r == l2_set(addr),
{
    let geometry = CacheGeometry::l2();
    proof {
        reveal_with_fuel(log2_floor, 16);
        assert(log2_floor(128) == 7);
    }
    geometry.cache_set(addr)
}

/// Returns the L2 cache line offset of a given physical address.
pub fn get_cache_offset_generic(addr: u64) -> (r: u64)
    ensures
        r == l2_offset(addr),
{
    let geometry = CacheGeometry::l2();
    geometry.cache_offset(addr)
}

/// The L2 cache tag, with the target machine's field widths baked in.
pub open spec fn cache_tag_m1(addr: u64) -> u64 {
    (addr >> 20u64) & 0xFFF_FFFF_FFFFu64
}

/// The L2 set index, with the target machine's field widths baked in.
pub open spec fn cache_set_m1(addr: u64) -> u64 {
    (addr >> 7u64) & 0xFFFFu64
}

/// The virtual set index of the first-level (virtually indexed) cache.
pub open spec fn l1_cache_set_m1(addr: u64) -> u64 {
    (addr >> 6u64) & 0x1FFu64
}

/// The L2 line offset, with the target machine's field widths baked in.
pub open spec fn cache_offset_m1(addr: u64) -> u64 {
    addr & 0x7Fu64
}

/// Returns the L2 cache tag of a given physical address.
pub fn get_cache_tag_m1(addr: u64) -> (r: u64)
    ensures
        r == cache_tag_m1(addr),
{
    (addr >> 20) & 0xFFF_FFFF_FFFF
}

/// Returns the L2 set index of a given physical address.
pub fn get_cache_set_m1(addr: u64) -> (r: u64)
    ensures
        r == cache_set_m1(addr),
{
    (addr >> 7) & 0xFFFF
}

/// For virtually-indexed caches the virtual set index must match too.
pub fn get_l1_cache_set_m1(addr: u64) -> (r: u64)
    ensures
        r == l1_cache_set_m1(addr),
{
    (addr >> 6) & 0x1FF
}

/// Returns the L2 cache line offset of a given physical address.
pub fn get_cache_offset_m1(addr: u64) -> (r: u64)
    ensures
        r == cache_offset_m1(addr),
{
    addr & 0x7F
}

/// Geometry round trip: tag, set index and line offset are disjoint bit
/// fields that together reconstruct the address exactly.
pub proof fn lemma_geometry_round_trip_generic(addr: u64)
    ensures
        ((l2_tag(addr) << 13u64) << 7u64) | (l2_set(addr) << 7u64) | l2_offset(addr) == addr,
{
    assert((((addr >> 20u64) << 13u64) << 7u64) | (((addr >> 7u64) & 0x1FFFu64) << 7u64) | (
    addr & 0x7Fu64) == addr) by (bit_vector);
}

/// Geometry round trip for the fixed-width field extractors: even though
/// the set field overlaps the tag field, recombining them reconstructs
/// the address exactly.
pub proof fn lemma_geometry_round_trip_m1(addr: u64)
    ensures
        ((cache_tag_m1(addr) << 13u64) << 7u64) | (cache_set_m1(addr) << 7u64) | cache_offset_m1(
            addr,
        ) == addr,
{
    assert(((((addr >> 20u64) & 0xFFF_FFFF_FFFFu64) << 13u64) << 7u64) | (((addr >> 7u64)
        & 0xFFFFu64) << 7u64) | (addr & 0x7Fu64) == addr) by (bit_vector);
}

} // verus!
