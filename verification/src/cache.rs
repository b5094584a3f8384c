//! Data-cache maintenance by address range: which cache lines an
//! invalidate or clean of `[addr, addr + size)` must touch, given the line
//! size that the CPU reports in its cache type register (CTR_EL0).
use vstd::prelude::*;
use vstd::arithmetic::power2::pow2;

verus! {

/// The DminLine field of CTR_EL0 (bits 16..=19): log2 of the number of 4-byte
/// words in the smallest data cache line.
pub open spec fn ctr_dminline(ctr_el0: u64) -> nat {
    ((ctr_el0 >> 16u64) & 0xfu64) as nat
}

/// The smallest data cache line size in bytes that CTR_EL0 reports.
pub open spec fn ctr_line_size(ctr_el0: u64) -> int {
    4 * pow2(ctr_dminline(ctr_el0)) as int
}

/// `x` rounded down to a multiple of `align`.
pub open spec fn align_down(x: int, align: int) -> int {
    x - x % align
}

/// `x` rounded up to a multiple of `align`.
pub open spec fn align_up(x: int, align: int) -> int {
    align_down(x + align - 1, align)
}

/// The smallest data cache line size in bytes, decoded from the value of
/// CTR_EL0: four bytes per word times 2^DminLine words.
pub fn dcache_line_size(ctr_el0: u64) -> (r: usize)
    ensures
        r == ctr_line_size(ctr_el0),
        r as u64 == 4u64 << ((ctr_el0 >> 16u64) & 0xfu64),
        4 <= r <= 0x20000,
{
    let field: u64 = (ctr_el0 >> 16u64) & 0xfu64;
    assert(field < 16) by (bit_vector)
        requires
            field == (ctr_el0 >> 16u64) & 0xfu64,
    ;
    let shift: usize = field as usize;
    proof {
        vstd::arithmetic::power2::lemma2_to64();
        vstd::arithmetic::power2::lemma_pow2_pos(shift as nat);
        if shift < 15 {
            vstd::arithmetic::power2::lemma_pow2_strictly_increases(shift as nat, 15);
        }
        vstd::bits::lemma_usize_shl_is_mul(4, shift);
    }
    let r = 4usize << shift;
    assert(r as u64 == 4u64 << field) by (bit_vector)
        requires
            field < 16,
            shift == field as usize,
            r == 4usize << shift,
    ;
    r
}

/// The maintenance operation to apply to each line.
#[derive(Debug, Clone, Copy, PartialEq, Eq, Structural)]
pub enum CacheOp {
    /// Invalidate by virtual address to the point of coherency (`dc ivac`).
    Invalidate,
    /// Clean by virtual address to the point of coherency (`dc cvac`).
    Clean,
}

/// The cache lines to maintain: one operation at each address `start`,
/// `start + line_size`, ... below `end`, followed by a full barrier.
#[derive(Debug, Clone, Copy, PartialEq, Eq, Structural)]
pub struct CacheLineRange {
    pub op: CacheOp,
    pub start: usize,
    pub end: usize,
    pub line_size: usize,
}

impl CacheLineRange {
    /// Whether the range is a run of whole lines: a positive line size, and
    /// line-aligned bounds with `start <= end`.
    pub open spec fn well_formed(self) -> bool {
        &&& self.line_size > 0
        &&& self.start <= self.end
        &&& self.start % self.line_size == 0
        &&& self.end % self.line_size == 0
    }

    /// The number of lines in the range.
    pub open spec fn line_count(self) -> int {
        (self.end - self.start) / (self.line_size as int)
    }

    /// The address of each line to maintain, in ascending order: `start`,
    /// `start + line_size`, ... below `end`.
    pub fn lines(&self) -> (r: Vec<usize>)
        requires
            self.well_formed(),
        ensures
            r@.len() == self.line_count(),
            r@.len() * self.line_size == self.end - self.start,
            forall|k: int| 0 <= k < r@.len() ==> r@[k] == self.start + k * self.line_size,
    {
        let line_size = self.line_size;
        let count = (self.end - self.start) / line_size;
        proof {
            vstd::arithmetic::div_mod::lemma_fundamental_div_mod(
                self.start as int,
                line_size as int,
            );
            vstd::arithmetic::div_mod::lemma_fundamental_div_mod(self.end as int, line_size as int);
            assert((self.end - self.start) as int == line_size * ((self.end as int / line_size as int)
                - (self.start as int / line_size as int))) by (nonlinear_arith)
                requires
                    self.start as int == line_size * (self.start as int / line_size as int),
                    self.end as int == line_size * (self.end as int / line_size as int),
            ;
            vstd::arithmetic::div_mod::lemma_div_multiples_vanish(
                (self.end as int / line_size as int) - (self.start as int / line_size as int),
                line_size as int,
            );
            assert(count * line_size == self.end - self.start) by (nonlinear_arith)
                requires
                    (self.end - self.start) as int == line_size * ((self.end as int / line_size as int)
                        - (self.start as int / line_size as int)),
                    count as int == (line_size * ((self.end as int / line_size as int) - (
                    self.start as int / line_size as int))) / line_size as int,
                    (line_size * ((self.end as int / line_size as int) - (self.start as int
                        / line_size as int))) / line_size as int == (self.end as int / line_size as int)
                        - (self.start as int / line_size as int),
            ;
        }
        let mut r: Vec<usize> = Vec::new();
        let mut addr = self.start;
        let mut k: usize = 0;
        while k < count
            invariant
                k <= count,
                count * line_size == self.end - self.start,
                count == self.line_count(),
                line_size == self.line_size,
                addr == self.start + k * line_size,
                self.start <= self.end,
                r@.len() == k,
                forall|j: int| 0 <= j < k ==> r@[j] == self.start + j * line_size,
            decreases count - k,
        {
            r.push(addr);
            assert((k + 1) * line_size <= count * line_size) by (nonlinear_arith)
                requires
                    k + 1 <= count,
            ;
            assert((k + 1) * line_size == k * line_size + line_size) by (nonlinear_arith);
            addr = addr + line_size;
            k = k + 1;
        }
        r
    }
}

/// Whether the range `[addr, addr + size)` can be rounded out to whole lines of
/// `line_size` bytes without leaving the address space.
pub open spec fn range_fits(addr: usize, size: usize, line_size: int) -> bool {
    addr + size + line_size - 1 <= usize::MAX
}

/// The lines covering `[addr, addr + size)`, for a power-of-two line size.
fn dcache_line_range(op: CacheOp, addr: usize, size: usize, line_size: usize) -> (r:
    CacheLineRange)
    requires
        line_size > 0,
        range_fits(addr, size, line_size as int),
    ensures
        r.op == op,
        r.line_size == line_size,
        r.start == align_down(addr as int, line_size as int),
        r.end == align_up(addr + size, line_size as int),
{
    proof {
        vstd::arithmetic::div_mod::lemma_mod_decreases(addr as nat, line_size as nat);
        vstd::arithmetic::div_mod::lemma_mod_bound(addr + size + line_size - 1, line_size as int);
    }
    let start = addr - addr % line_size;
    let last = addr + size + (line_size - 1);
    let end = last - last % line_size;
    CacheLineRange { op, start, end, line_size }
}

/// Invalidate data cache: the lines to invalidate for `[addr, addr + size)`,
/// with the line size read from CTR_EL0.
pub fn dcache_invalidate_range(addr: usize, size: usize, ctr_el0: u64) -> (r: CacheLineRange)
    requires
        range_fits(addr, size, ctr_line_size(ctr_el0)),
    ensures
        r.op == CacheOp::Invalidate,
        r.well_formed(),
        r.line_size == ctr_line_size(ctr_el0),
        r.line_size as u64 == 4u64 << ((ctr_el0 >> 16u64) & 0xfu64),
        r.start % r.line_size == 0,
        r.start <= addr < r.start + r.line_size,
        r.end % r.line_size == 0,
        addr + size <= r.end < addr + size + r.line_size,
        r.start == align_down(addr as int, r.line_size as int),
        r.end == align_up(addr + size, r.line_size as int),
{
    let line_size = dcache_line_size(ctr_el0);
    proof {
        lemma_line_range_covers(addr as int, size as int, line_size as int);
    }
    dcache_line_range(CacheOp::Invalidate, addr, size, line_size)
}

/// Clean data cache: the lines to clean for `[addr, addr + size)`, with the
/// line size read from CTR_EL0.
pub fn dcache_clean_range(addr: usize, size: usize, ctr_el0: u64) -> (r: CacheLineRange)
    requires
        range_fits(addr, size, ctr_line_size(ctr_el0)),
    ensures
        r.op == CacheOp::Clean,
        r.well_formed(),
        r.line_size == ctr_line_size(ctr_el0),
        r.line_size as u64 == 4u64 << ((ctr_el0 >> 16u64) & 0xfu64),
        r.start % r.line_size == 0,
        r.start <= addr < r.start + r.line_size,
        r.end % r.line_size == 0,
        addr + size <= r.end < addr + size + r.line_size,
        r.start == align_down(addr as int, r.line_size as int),
        r.end == align_up(addr + size, r.line_size as int),
{
    let line_size = dcache_line_size(ctr_el0);
    proof {
        lemma_line_range_covers(addr as int, size as int, line_size as int);
    }
    dcache_line_range(CacheOp::Clean, addr, size, line_size)
}

/// The rounded-out range covers the requested bytes with whole lines and no
/// more: it starts and ends on line boundaries, starts at most one line below
/// `addr` (and not above it), and ends at most one line past `addr + size` (and
/// not before it).
pub proof fn lemma_line_range_covers(addr: int, size: int, line_size: int)
    requires
        addr >= 0,
        size >= 0,
        line_size > 0,
    ensures
        align_down(addr, line_size) % line_size == 0,
        align_up(addr + size, line_size) % line_size == 0,
        align_down(addr, line_size) <= addr < align_down(addr, line_size) + line_size,
        addr + size <= align_up(addr + size, line_size) < addr + size + line_size,
        align_down(addr, line_size) <= align_up(addr + size, line_size),
{
    vstd::arithmetic::div_mod::lemma_fundamental_div_mod(addr, line_size);
    vstd::arithmetic::div_mod::lemma_fundamental_div_mod(addr + size + line_size - 1, line_size);
    vstd::arithmetic::div_mod::lemma_mod_multiples_basic(addr / line_size, line_size);
    vstd::arithmetic::div_mod::lemma_mod_multiples_basic(
        (addr + size + line_size - 1) / line_size,
        line_size,
    );
    vstd::arithmetic::div_mod::lemma_mod_bound(addr, line_size);
    vstd::arithmetic::div_mod::lemma_mod_bound(addr + size + line_size - 1, line_size);
    assert(addr - addr % line_size == line_size * (addr / line_size));
    assert((addr + size + line_size - 1) - (addr + size + line_size - 1) % line_size == line_size
        * ((addr + size + line_size - 1) / line_size));
    vstd::arithmetic::mul::lemma_mul_is_commutative(line_size, addr / line_size);
    vstd::arithmetic::mul::lemma_mul_is_commutative(
        line_size,
        (addr + size + line_size - 1) / line_size,
    );
}

/// The line size that CTR_EL0 reports depends only on its DminLine field, bits
/// 16..=19: it is four bytes shifted left by that field, so between 4 and
/// 0x20000 bytes.
pub proof fn lemma_ctr_line_size_from_dminline(ctr_el0: u64)
    ensures
        ctr_line_size(ctr_el0) == (4u64 << ((ctr_el0 >> 16u64) & 0xfu64)) as int,
        4 <= ctr_line_size(ctr_el0) <= 0x20000,
        forall|other: u64|
            ((other >> 16u64) & 0xfu64) == ((ctr_el0 >> 16u64) & 0xfu64) ==> ctr_line_size(other)
                == ctr_line_size(ctr_el0),
{
    let field: u64 = (ctr_el0 >> 16u64) & 0xfu64;
    assert(field < 16) by (bit_vector)
        requires
            field == (ctr_el0 >> 16u64) & 0xfu64,
    ;
    vstd::arithmetic::power2::lemma2_to64();
    if field < 15 {
        vstd::arithmetic::power2::lemma_pow2_strictly_increases(field as nat, 15);
    }
    vstd::arithmetic::power2::lemma_pow2_pos(field as nat);
    vstd::bits::lemma_u64_shl_is_mul(4, field);
    assert forall|other: u64|
        ((other >> 16u64) & 0xfu64) == ((ctr_el0 >> 16u64) & 0xfu64) implies ctr_line_size(other)
        == ctr_line_size(ctr_el0) by {
        assert(ctr_dminline(other) == ctr_dminline(ctr_el0));
    }
}

} // verus!
