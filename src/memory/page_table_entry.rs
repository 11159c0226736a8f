use vstd::prelude::*;

use crate::memory::address::{Address, PhysicalAddress};

verus! {

/// Bit of a valid entry.
pub const FLAG_V: usize = 0x01;

/// Bit of a readable page.
pub const FLAG_R: usize = 0x02;

/// Bit of a writable page.
pub const FLAG_W: usize = 0x04;

/// Bit of an executable page.
pub const FLAG_X: usize = 0x08;

/// Bit of a page reachable from user mode.
pub const FLAG_U: usize = 0x10;

/// Every defined permission bit.
pub const FLAG_ALL: usize = 0x1f;

/// The ten low bits of an entry: permissions, status and software bits.
pub const FLAG_FIELD_MASK: usize = 0x3ff;

/// Permission bits of a page-table entry.
#[derive(Debug, Copy, Clone)]
pub struct PteFlags {
    bits: usize,
}

impl PteFlags {
    /// The raw bits of a flag set.
    pub closed spec fn spec_bits(&self) -> usize {
        self.bits
    }

    /// Every bit of the set is a defined flag; every constructor ensures it.
    pub open spec fn wf(&self) -> bool {
        self.spec_bits() & !FLAG_ALL == 0
    }

    /// The flag set with the defined bits of `bits`.
    pub fn from_bits_truncate(bits: usize) -> (r: PteFlags)
        ensures
            r.spec_bits() == bits & FLAG_ALL,
            r.wf(),
    {
        assert((bits & 0x1fusize) & !0x1fusize == 0) by (bit_vector);
        PteFlags { bits: bits & FLAG_ALL }
    }

    /// The raw bits.
    pub fn bits(&self) -> (r: usize)
        ensures
            r == self.spec_bits(),
    {
        self.bits
    }

    /// The flags of both sets.
    pub fn union(&self, other: PteFlags) -> (r: PteFlags)
        ensures
            r.spec_bits() == self.spec_bits() | other.spec_bits(),
            self.wf() && other.wf() ==> r.wf(),
    {
        let a = self.bits;
        let b = other.bits;
        assert(a & !0x1fusize == 0 && b & !0x1fusize == 0 ==> (a | b) & !0x1fusize == 0)
            by (bit_vector);
        PteFlags { bits: a | b }
    }
}

/// The bits `write_perm` stores for a page at physical address `pa` with `perm`.
pub open spec fn perm_entry_spec(pa: usize, perm: usize) -> usize {
    ((pa >> 12usize) << 10usize) | (perm | FLAG_V)
}

/// One slot of a page-table walk, kept as its raw bits.
#[derive(Debug, Copy, Clone)]
pub struct PageTableEntry {
    bits: usize,
}

impl PageTableEntry {
    /// The raw bits of the entry.
    pub closed spec fn spec_bits(&self) -> usize {
        self.bits
    }

    /// The entry with exactly these bits.
    pub fn new(bits: usize) -> (r: Self)
        ensures
            r.spec_bits() == bits,
    {
        Self { bits }
    }

    /// The raw bits.
    pub fn as_usize(&self) -> (r: usize)
        ensures
            r == self.spec_bits(),
    {
        self.bits
    }

    /// Whether the valid bit is set.
    pub fn is_valid(&self) -> (r: bool)
        ensures
            r == (self.spec_bits() & FLAG_V != 0),
    {
        (self.bits & FLAG_V) > 0
    }

    /// Whether the user bit is set.
    pub fn is_user(&self) -> (r: bool)
        ensures
            r == (self.spec_bits() & FLAG_U != 0),
    {
        (self.bits & FLAG_U) > 0
    }

    /// Whether the read bit is set.
    pub fn is_read(&self) -> (r: bool)
        ensures
            r == (self.spec_bits() & FLAG_R != 0),
    {
        (self.bits & FLAG_R) > 0
    }

    /// Whether the write bit is set.
    pub fn is_write(&self) -> (r: bool)
        ensures
            r == (self.spec_bits() & FLAG_W != 0),
    {
        (self.bits & FLAG_W) > 0
    }

    /// Whether the entry ends the walk: one of read, write and execute is set.
    /// An entry with none of them points to the next level's table.
    pub fn is_leaf(&self) -> (r: bool)
        ensures
            r == (self.spec_bits() & FLAG_R != 0 || self.spec_bits() & FLAG_W != 0
                || self.spec_bits() & FLAG_X != 0),
    {
        let b = self.bits;
        assert(b & (0x02usize | 0x04usize | 0x08usize) != 0 <==> (b & 0x02usize != 0 || b
            & 0x04usize != 0 || b & 0x08usize != 0)) by (bit_vector);
        (b & (FLAG_R | FLAG_W | FLAG_X)) != 0
    }

    /// Sets the valid bit.
    pub fn add_valid_bit(&mut self)
        ensures
            final(self).spec_bits() == old(self).spec_bits() | FLAG_V,
    {
        self.bits = self.as_usize() | FLAG_V
    }

    /// Sets the user bit.
    pub fn add_user_bit(&mut self)
        ensures
            final(self).spec_bits() == old(self).spec_bits() | FLAG_U,
    {
        self.bits = self.as_usize() | FLAG_U
    }

    /// Clears the user bit.
    pub fn rm_user_bit(&mut self)
        ensures
            final(self).spec_bits() == old(self).spec_bits() & !FLAG_U,
    {
        self.bits = self.bits & !FLAG_U;
    }

    /// The ten low bits.
    pub fn as_flags(&self) -> (r: usize)
        ensures
            r == self.spec_bits() & FLAG_FIELD_MASK,
    {
        self.as_usize() & FLAG_FIELD_MASK
    }

    /// Clears the whole entry.
    pub fn write_zero(&mut self)
        ensures
            final(self).spec_bits() == 0,
    {
        self.bits = 0;
    }

    /// Maps the page at physical address `pa` with `perm`, marked valid.
    pub fn write_perm(&mut self, pa: PhysicalAddress, perm: PteFlags)
        ensures
            final(self).spec_bits() == perm_entry_spec(pa.0, perm.spec_bits()),
    {
        let v = PteFlags::from_bits_truncate(FLAG_V);
        assert(0x01usize & 0x1fusize == 0x01usize) by (bit_vector);
        self.bits = ((pa.as_usize() >> 12) << 10) | perm.union(v).bits()
    }

    /// Replaces the raw bits.
    pub fn write(&mut self, bits: usize)
        ensures
            final(self).spec_bits() == bits,
    {
        self.bits = bits
    }
}

impl From<usize> for PageTableEntry {
    /// The entry whose page-number field holds the page of physical address
    /// `value`, with no flag set.
    fn from(value: usize) -> (r: Self)
        ensures
            r.spec_bits() == (value >> 12usize) << 10usize,
    {
        Self { bits: (value >> 12) << 10 }
    }
}

impl vstd::std_specs::convert::FromSpecImpl<usize> for PageTableEntry {
    open spec fn obeys_from_spec() -> bool {
        true
    }

    closed spec fn from_spec(value: usize) -> PageTableEntry {
        PageTableEntry { bits: (value >> 12usize) << 10usize }
    }
}

/// The entry `write_perm` stores for a page-aligned physical address below the
/// implemented width holds that address's page number above the ten flag bits,
/// and the given permissions plus the valid bit in them.
pub proof fn lemma_perm_entry_fields(pa: usize, flags: PteFlags)
    requires
        pa % 4096 == 0,
        pa < 0x0100_0000_0000_0000,
        flags.wf(),
    ensures
        perm_entry_spec(pa, flags.spec_bits()) >> 10usize == pa / 4096,
        perm_entry_spec(pa, flags.spec_bits()) & FLAG_FIELD_MASK == flags.spec_bits() | FLAG_V,
{
    let perm = flags.spec_bits();
    let e = perm_entry_spec(pa, perm);
    assert(pa >> 12usize == pa / 4096usize) by (bit_vector);
    assert(e >> 10usize == pa >> 12usize && e & 0x3ffusize == perm | 0x01usize) by (bit_vector)
        requires
            e == ((pa >> 12usize) << 10usize) | (perm | 0x01usize),
            (pa as u64) < 0x0100_0000_0000_0000u64,
            perm & !0x1fusize == 0,
    ;
}

} // verus!
