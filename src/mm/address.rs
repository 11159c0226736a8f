use vstd::prelude::*;

use crate::config::{PAGE_SIZE, PAGE_SIZE_BITS};
use crate::errors::KernelError;

verus! {

/// `(1 << PHYS_ADDR_WIDTH) - 1`, the bits a physical address may use.
pub const PHYS_ADDR_MASK: u64 = 0x00ff_ffff_ffff_ffff;

/// `(1 << PHYS_PAGE_NUMBER_WIDTH) - 1`, the bits a physical page number may use.
pub const PHYS_PAGE_NUMBER_MASK: u64 = 0x0000_0fff_ffff_ffff;

/// `(1 << VIRT_ADDR_WIDTH) - 1`, the bits a virtual address may use.
pub const VIRT_ADDR_MASK: u64 = 0x0000_007f_ffff_ffff;

/// `(1 << VIRT_PAGE_NUMBER_WIDTH) - 1`, the bits a virtual page number may use.
pub const VIRT_PAGE_NUMBER_MASK: u64 = 0x0000_0000_07ff_ffff;

/// `2 ^ PHYS_ADDR_WIDTH`.
pub open spec fn phys_addr_limit() -> nat {
    0x0100_0000_0000_0000
}

/// `2 ^ PHYS_PAGE_NUMBER_WIDTH`.
pub open spec fn phys_page_number_limit() -> nat {
    0x0000_1000_0000_0000
}

/// `2 ^ VIRT_ADDR_WIDTH`.
pub open spec fn virt_addr_limit() -> nat {
    0x0000_0080_0000_0000
}

/// `2 ^ VIRT_PAGE_NUMBER_WIDTH`.
pub open spec fn virt_page_number_limit() -> nat {
    0x0000_0000_0800_0000
}

/// `x` rounded down to a multiple of `d`, divided by `d`.
pub open spec fn floor_div(x: nat, d: nat) -> nat
    recommends
        d > 0,
{
    x / d
}

/// `x` rounded up to a multiple of `d`, divided by `d`.
pub open spec fn ceil_div(x: nat, d: nat) -> nat
    recommends
        d > 0,
{
    if x % d == 0 {
        x / d
    } else {
        x / d + 1
    }
}

/// Address of the first byte of page `p`, truncated to the word as a shift truncates.
pub open spec fn page_start(p: PhysPageNum) -> usize {
    (p.0 * PAGE_SIZE) as usize
}

/// Keeps the bits of `x` that `mask` selects; `mask` has the form `2^w - 1`.
pub(crate) fn mask_usize(x: usize, mask: u64) -> (r: usize)
    requires
        mask == PHYS_ADDR_MASK || mask == PHYS_PAGE_NUMBER_MASK || mask == VIRT_ADDR_MASK
            || mask == VIRT_PAGE_NUMBER_MASK,
    ensures
        r as nat == (x as nat) % (mask as nat + 1),
        r as u64 == (x as u64) & mask,
{
    let x64: u64 = x as u64;
    let y: u64 = x64 & mask;
    proof {
        if mask == PHYS_ADDR_MASK {
            assert(x64 & 0x00ff_ffff_ffff_ffffu64 == x64 % 0x0100_0000_0000_0000u64) by (bit_vector);
        } else if mask == PHYS_PAGE_NUMBER_MASK {
            assert(x64 & 0x0000_0fff_ffff_ffffu64 == x64 % 0x0000_1000_0000_0000u64) by (bit_vector);
        } else if mask == VIRT_ADDR_MASK {
            assert(x64 & 0x0000_007f_ffff_ffffu64 == x64 % 0x0000_0080_0000_0000u64) by (bit_vector);
        } else {
            assert(x64 & 0x0000_0000_07ff_ffffu64 == x64 % 0x0000_0000_0800_0000u64) by (bit_vector);
        }
    }
    y as usize
}

/// A physical address: a byte offset into the physical address space.
#[derive(Copy, Clone, Ord, PartialOrd, Eq, PartialEq, Debug)]
pub struct PhysAddr(pub usize);

/// A physical page number: a physical address with its in-page offset removed.
#[derive(Copy, Clone, Ord, PartialOrd, Eq, PartialEq, Debug)]
pub struct PhysPageNum(pub usize);

/// A virtual address.
#[derive(Copy, Clone, Ord, PartialOrd, Eq, PartialEq, Debug)]
pub struct VirtAddr(pub usize);

/// A virtual page number.
#[derive(Copy, Clone, Ord, PartialOrd, Eq, PartialEq, Debug)]
pub struct VirtPageNum(pub usize);

impl PhysAddr {
    /// Offset of the address inside its page.
    pub fn page_offset(&self) -> (r: usize)
        ensures
            r == self.0 % PAGE_SIZE,
    {
        let a = self.0;
        let r = a & (PAGE_SIZE - 1);
        assert(a & 4095usize == a % 4096usize) by (bit_vector);
        r
    }

    /// The page that holds the address.
    pub fn floor(&self) -> (r: PhysPageNum)
        ensures
            r.0 == floor_div(self.0 as nat, PAGE_SIZE as nat),
    {
        PhysPageNum(self.0 / PAGE_SIZE)
    }

    /// The first page that starts at or after the address.
    pub fn ceil(&self) -> (r: PhysPageNum)
        ensures
            r.0 == ceil_div(self.0 as nat, PAGE_SIZE as nat),
    {
        if self.0 % PAGE_SIZE == 0 {
            PhysPageNum(self.0 / PAGE_SIZE)
        } else {
            PhysPageNum(self.0 / PAGE_SIZE + 1)
        }
    }
}

impl From<usize> for PhysAddr {
    /// Keeps the low `PHYS_ADDR_WIDTH` bits of `value`.
    fn from(value: usize) -> (r: Self)
        ensures
            r.0 as nat == (value as nat) % phys_addr_limit(),
            r.0 as u64 == (value as u64) & PHYS_ADDR_MASK,
    {
        PhysAddr(mask_usize(value, PHYS_ADDR_MASK))
    }
}

impl vstd::std_specs::convert::FromSpecImpl<usize> for PhysAddr {
    open spec fn obeys_from_spec() -> bool {
        true
    }

    open spec fn from_spec(value: usize) -> PhysAddr {
        PhysAddr(((value as nat) % phys_addr_limit()) as usize)
    }
}

impl From<PhysPageNum> for PhysAddr {
    /// The address of the first byte of the page (bits shifted past the word are lost).
    fn from(value: PhysPageNum) -> (r: Self)
        ensures
            r.0 == page_start(value),
    {
        let v = value.0;
        assert(v << 12usize == (v * 4096usize) as usize) by (bit_vector);
        Self(v << PAGE_SIZE_BITS)
    }
}

impl vstd::std_specs::convert::FromSpecImpl<PhysPageNum> for PhysAddr {
    open spec fn obeys_from_spec() -> bool {
        true
    }

    open spec fn from_spec(value: PhysPageNum) -> PhysAddr {
        PhysAddr(page_start(value))
    }
}

impl From<usize> for PhysPageNum {
    /// Keeps the low `PHYS_PAGE_NUMBER_WIDTH` bits of `value`.
    fn from(value: usize) -> (r: Self)
        ensures
            r.0 as nat == (value as nat) % phys_page_number_limit(),
            r.0 as u64 == (value as u64) & PHYS_PAGE_NUMBER_MASK,
    {
        PhysPageNum(mask_usize(value, PHYS_PAGE_NUMBER_MASK))
    }
}

impl vstd::std_specs::convert::FromSpecImpl<usize> for PhysPageNum {
    open spec fn obeys_from_spec() -> bool {
        true
    }

    open spec fn from_spec(value: usize) -> PhysPageNum {
        PhysPageNum(((value as nat) % phys_page_number_limit()) as usize)
    }
}

impl PhysPageNum {
    /// The page that starts exactly at `value`; an address inside a page is a
    /// conversion error.
    pub fn try_from(value: PhysAddr) -> (r: Result<PhysPageNum, KernelError>)
        ensures
            value.0 % PAGE_SIZE == 0 <==> r is Ok,
            r matches Ok(p) ==> p.0 == value.0 / PAGE_SIZE,
            r matches Err(e) ==> e matches KernelError::Conversion { from, to, reason }
                && from@ == "PhysAddr"@ && to@ == "PhysPageNum"@
                && reason@ == "Page size not aligned."@,
    {
        if value.page_offset() != 0 {
            return Err(
                KernelError::conversion("PhysAddr", "PhysPageNum", "Page size not aligned."),
            );
        }
        Ok(value.floor())
    }
}

impl From<usize> for VirtAddr {
    /// Keeps the low `VIRT_ADDR_WIDTH` bits of `value`.
    fn from(value: usize) -> (r: Self)
        ensures
            r.0 as nat == (value as nat) % virt_addr_limit(),
            r.0 as u64 == (value as u64) & VIRT_ADDR_MASK,
    {
        VirtAddr(mask_usize(value, VIRT_ADDR_MASK))
    }
}

impl vstd::std_specs::convert::FromSpecImpl<usize> for VirtAddr {
    open spec fn obeys_from_spec() -> bool {
        true
    }

    open spec fn from_spec(value: usize) -> VirtAddr {
        VirtAddr(((value as nat) % virt_addr_limit()) as usize)
    }
}

impl From<usize> for VirtPageNum {
    /// Keeps the low `VIRT_PAGE_NUMBER_WIDTH` bits of `value`.
    fn from(value: usize) -> (r: Self)
        ensures
            r.0 as nat == (value as nat) % virt_page_number_limit(),
            r.0 as u64 == (value as u64) & VIRT_PAGE_NUMBER_MASK,
    {
        VirtPageNum(mask_usize(value, VIRT_PAGE_NUMBER_MASK))
    }
}

impl vstd::std_specs::convert::FromSpecImpl<usize> for VirtPageNum {
    open spec fn obeys_from_spec() -> bool {
        true
    }

    open spec fn from_spec(value: usize) -> VirtPageNum {
        VirtPageNum(((value as nat) % virt_page_number_limit()) as usize)
    }
}

/// Rounding an address down to its page and back gives an address no larger than
/// the address itself and less than one page below it; for a page-aligned address the
/// round-down and round-up page numbers agree.
pub proof fn lemma_floor_ceil_bounds(a: PhysAddr)
    ensures
        page_start(PhysPageNum(floor_div(a.0 as nat, PAGE_SIZE as nat) as usize)) <= a.0,
        a.0 < page_start(PhysPageNum(floor_div(a.0 as nat, PAGE_SIZE as nat) as usize)) + PAGE_SIZE,
        a.0 % PAGE_SIZE == 0 ==> floor_div(a.0 as nat, PAGE_SIZE as nat) == ceil_div(
            a.0 as nat,
            PAGE_SIZE as nat,
        ),
{
    let f = a.0 as nat / 4096;
    assert(f * 4096 <= a.0 < f * 4096 + 4096) by (nonlinear_arith)
        requires
            f == a.0 as nat / 4096,
    ;
}

} // verus!
