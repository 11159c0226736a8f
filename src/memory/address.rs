use vstd::prelude::*;

use crate::config::{PAGE_MASK, PAGE_MASK_LEN, PAGE_SHIFT, PAGE_SIZE, VIRT_ADDR_WIDTH};
use crate::mm::address::{
    mask_usize, phys_addr_limit, virt_addr_limit, PHYS_ADDR_MASK, VIRT_ADDR_MASK,
};

verus! {

/// The address spaces an address may belong to.
pub enum UnifiedAddress {
    UserPhysical,
    KernelPhysical,
    UserVirtual,
    KernelVirtual,
}

/// `v` rounded down to a page boundary.
pub open spec fn round_down_spec(v: usize) -> usize {
    (v - v % PAGE_SIZE) as usize
}

/// `v` rounded up to a page boundary.
pub open spec fn round_up_spec(v: usize) -> int {
    if v % PAGE_SIZE == 0 {
        v as int
    } else {
        v - v % PAGE_SIZE + PAGE_SIZE
    }
}

/// A value that is a byte address, with page arithmetic on it.
pub trait Address: Sized {
    /// The address as a number.
    spec fn value(&self) -> usize;

    fn as_usize(&self) -> (r: usize)
        ensures
            r == self.value(),
    ;

    fn as_data_ref(&self) -> (r: &usize)
        ensures
            *r == self.value(),
    ;

    fn as_data_mut(&mut self) -> (r: &mut usize)
        ensures
            *r == old(self).value(),
            final(self).value() == *final(r),
    ;

    /// Whether the address is a multiple of the page size.
    fn is_page_aligned(&self) -> (r: bool)
        ensures
            r == (self.value() % PAGE_SIZE == 0),
    {
        self.as_usize() % PAGE_SIZE == 0
    }

    /// Moves the address up to the next page boundary (an aligned address stays).
    fn page_round_up(&mut self)
        requires
            old(self).value() + PAGE_SIZE - 1 <= usize::MAX,
        ensures
            final(self).value() == round_up_spec(old(self).value()),
    {
        let v = *self.as_data_mut();
        let w: usize = v + (PAGE_SIZE - 1);
        let r = w & !(PAGE_SIZE - 1);
        assert(w & !4095usize == w - w % 4096usize) by (bit_vector);
        *self.as_data_mut() = r;
    }

    /// Moves the address down to its page boundary.
    fn page_round_down(&mut self)
        ensures
            final(self).value() == round_down_spec(old(self).value()),
    {
        let v = *self.as_data_mut();
        assert(v & !4095usize == v - v % 4096usize) by (bit_vector);
        *self.as_data_mut() = v & !(PAGE_SIZE - 1);
    }

    /// Moves the address one page up.
    fn add_page(&mut self)
        requires
            old(self).value() + PAGE_SIZE <= usize::MAX,
        ensures
            final(self).value() == old(self).value() + PAGE_SIZE,
    {
        *self.as_data_mut() += PAGE_SIZE;
    }
}

/// A physical address.
#[derive(Debug, Copy, Clone, PartialEq, Eq, Ord, PartialOrd, Default)]
pub struct PhysicalAddress(pub usize);

/// A virtual address.
#[derive(Debug, Copy, Clone, PartialEq, Eq, Ord, PartialOrd, Default)]
pub struct VirtualAddress(pub usize);

impl From<PhysicalAddress> for usize {
    fn from(pa: PhysicalAddress) -> (r: Self)
        ensures
            r == pa.0,
    {
        pa.0
    }
}

impl vstd::std_specs::convert::FromSpecImpl<PhysicalAddress> for usize {
    open spec fn obeys_from_spec() -> bool {
        true
    }

    open spec fn from_spec(pa: PhysicalAddress) -> usize {
        pa.0
    }
}

impl From<VirtualAddress> for usize {
    fn from(va: VirtualAddress) -> (r: Self)
        ensures
            r == va.0,
    {
        va.0
    }
}

impl vstd::std_specs::convert::FromSpecImpl<VirtualAddress> for usize {
    open spec fn obeys_from_spec() -> bool {
        true
    }

    open spec fn from_spec(va: VirtualAddress) -> usize {
        va.0
    }
}

impl Address for VirtualAddress {
    open spec fn value(&self) -> usize {
        self.0
    }

    fn as_usize(&self) -> (r: usize) {
        self.0
    }

    fn as_data_ref(&self) -> (r: &usize) {
        &self.0
    }

    fn as_data_mut(&mut self) -> (r: &mut usize) {
        &mut self.0
    }
}

impl Address for PhysicalAddress {
    open spec fn value(&self) -> usize {
        self.0
    }

    fn as_usize(&self) -> (r: usize) {
        self.0
    }

    fn as_data_ref(&self) -> (r: &usize) {
        &self.0
    }

    fn as_data_mut(&mut self) -> (r: &mut usize) {
        &mut self.0
    }
}

/// Index into the page table of walk level `level` for virtual address `v`.
pub open spec fn page_index_spec(v: usize, level: usize) -> usize {
    (v >> (PAGE_SHIFT + level * PAGE_MASK_LEN) as usize) & PAGE_MASK
}

impl VirtualAddress {
    /// The address `addr`, keeping only its low `VIRT_ADDR_WIDTH` bits.
    pub fn with_addr(addr: usize) -> (r: Self)
        ensures
            r.0 as nat == (addr as nat) % virt_addr_limit(),
            r.0 as u64 == (addr as u64) & VIRT_ADDR_MASK,
    {
        Self(mask_usize(addr, VIRT_ADDR_MASK))
    }

    /// The index that walk level `level` uses: `PAGE_MASK_LEN` bits taken
    /// above the page offset and the indices of the lower levels.
    pub fn page_num(&self, level: usize) -> (r: usize)
        requires
            PAGE_SHIFT + (level + 1) * PAGE_MASK_LEN <= VIRT_ADDR_WIDTH,
        ensures
            r == page_index_spec(self.0, level),
            r < 512,
    {
        let shifted = self.0 >> (PAGE_SHIFT + level * PAGE_MASK_LEN);
        assert(shifted & 0x1ffusize <= 0x1ffusize) by (bit_vector);
        shifted & PAGE_MASK
    }

    /// The address `rhs` bytes further, keeping only the low `VIRT_ADDR_WIDTH` bits.
    pub fn add(self, rhs: usize) -> (r: Self)
        requires
            self.0 + rhs <= usize::MAX,
        ensures
            r.0 as nat == ((self.0 + rhs) as nat) % virt_addr_limit(),
            r.0 as u64 == ((self.0 + rhs) as u64) & VIRT_ADDR_MASK,
    {
        VirtualAddress(mask_usize(self.0 + rhs, VIRT_ADDR_MASK))
    }
}

impl PhysicalAddress {
    /// The address `addr`, keeping only its low `PHYS_ADDR_WIDTH` bits.
    pub fn with_addr(addr: usize) -> (r: Self)
        ensures
            r.0 as nat == (addr as nat) % phys_addr_limit(),
            r.0 as u64 == (addr as u64) & PHYS_ADDR_MASK,
    {
        Self(mask_usize(addr, PHYS_ADDR_MASK))
    }

    /// The address `rhs` bytes further, keeping only the low `PHYS_ADDR_WIDTH` bits.
    pub fn add(self, rhs: usize) -> (r: Self)
        requires
            self.0 + rhs <= usize::MAX,
        ensures
            r.0 as nat == ((self.0 + rhs) as nat) % phys_addr_limit(),
            r.0 as u64 == ((self.0 + rhs) as u64) & PHYS_ADDR_MASK,
    {
        PhysicalAddress(mask_usize(self.0 + rhs, PHYS_ADDR_MASK))
    }
}

} // verus!
