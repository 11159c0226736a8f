use vstd::prelude::*;

use crate::errors::KernelError;
use crate::mm::address::{mask_usize, phys_page_number_limit, PhysPageNum, PHYS_PAGE_NUMBER_MASK};

verus! {

/// Bit of a valid entry.
pub const PTE_V: u8 = 0x01;

/// Bit of a readable page.
pub const PTE_R: u8 = 0x02;

/// Bit of a writable page.
pub const PTE_W: u8 = 0x04;

/// Bit of an executable page.
pub const PTE_X: u8 = 0x08;

/// Bit of a page reachable from user mode.
pub const PTE_U: u8 = 0x10;

/// Bit of a mapping present in every address space.
pub const PTE_G: u8 = 0x20;

/// Bit set by the hardware when the page was accessed.
pub const PTE_A: u8 = 0x40;

/// Bit set by the hardware when the page was written.
pub const PTE_D: u8 = 0x80;

/// Every defined flag bit.
pub const PTE_ALL: u8 = 0xff;

/// Bits 8 and 9 of an entry: inside the ten-bit flag field, but no defined flag.
pub const PTE_UNDEFINED_BITS: usize = 0x300;

/// Number of bits below the page-number field of an entry.
pub const PTE_PPN_SHIFT: usize = 10;

/// The permission and status bits of a page-table entry.
#[derive(Copy, Clone, PartialEq, Eq, Structural, Debug)]
pub struct PTEFlags {
    bits: u8,
}

impl PTEFlags {
    /// The raw bits of a flag set.
    pub closed spec fn spec_bits(&self) -> u8 {
        self.bits
    }

    /// Every bit of the set is a defined flag.
    pub open spec fn is_defined(&self) -> bool {
        self.spec_bits() & !PTE_ALL == 0
    }

    /// No flag set.
    pub fn empty() -> (r: PTEFlags)
        ensures
            r.spec_bits() == 0,
    {
        PTEFlags { bits: 0 }
    }

    /// The raw bits.
    pub fn bits(&self) -> (r: u8)
        ensures
            r == self.spec_bits(),
    {
        self.bits
    }

    /// The flag set with exactly the bits of `bits`, or `None` when `bits` holds a
    /// bit that is not a defined flag.
    pub fn from_bits(bits: u8) -> (r: Option<PTEFlags>)
        ensures
            r is Some <==> bits & !PTE_ALL == 0,
            r matches Some(f) ==> f.spec_bits() == bits,
    {
        if bits & !PTE_ALL == 0 {
            Some(PTEFlags { bits })
        } else {
            None
        }
    }

    /// The flag set with the defined bits of `bits`.
    pub fn from_bits_truncate(bits: u8) -> (r: PTEFlags)
        ensures
            r.spec_bits() == bits & PTE_ALL,
    {
        PTEFlags { bits: bits & PTE_ALL }
    }

    /// The flags of both sets.
    pub fn union(&self, other: PTEFlags) -> (r: PTEFlags)
        ensures
            r.spec_bits() == self.spec_bits() | other.spec_bits(),
    {
        PTEFlags { bits: self.bits | other.bits }
    }

    /// The flags common to both sets.
    pub fn intersection(&self, other: PTEFlags) -> (r: PTEFlags)
        ensures
            r.spec_bits() == self.spec_bits() & other.spec_bits(),
    {
        PTEFlags { bits: self.bits & other.bits }
    }

    /// Whether every flag of `other` is in `self`.
    pub fn contains(&self, other: PTEFlags) -> (r: bool)
        ensures
            r == (self.spec_bits() & other.spec_bits() == other.spec_bits()),
    {
        self.bits & other.bits == other.bits
    }
}

/// Every flag set holds defined flags only: its eight bits are the eight flags.
pub proof fn lemma_flag_set_is_defined(f: PTEFlags)
    ensures
        f.is_defined(),
{
    let b = f.spec_bits();
    assert(b & !0xffu8 == 0) by (bit_vector);
}

/// Whether the flag field of entry bits `bits` holds defined flags only.
pub open spec fn flags_defined_spec(bits: usize) -> bool {
    bits & PTE_UNDEFINED_BITS == 0
}

/// The bits of an entry for page `ppn` with `flags`; the valid bit is always set.
pub open spec fn encode_spec(ppn: usize, flags: u8) -> usize {
    (ppn << 10usize) | ((flags | PTE_V) as usize)
}

/// The page number held in the bits of an entry.
pub open spec fn decode_ppn_spec(bits: usize) -> usize {
    (((bits >> 10usize) as nat) % phys_page_number_limit()) as usize
}

/// The flag bits held in the bits of an entry.
pub open spec fn decode_flags_spec(bits: usize) -> u8 {
    bits as u8
}

/// One slot of a page-table walk: a physical page number above ten bits of
/// permissions and status.
#[derive(Copy, Clone)]
pub struct PageTableEntry {
    pub bits: usize,
}

impl PageTableEntry {
    /// The entry mapping page `ppn` with `flags`, marked valid.
    pub fn new(ppn: PhysPageNum, flags: PTEFlags) -> (r: PageTableEntry)
        ensures
            r.bits == encode_spec(ppn.0, flags.spec_bits()),
    {
        PageTableEntry { bits: ppn.0 << PTE_PPN_SHIFT | (flags.bits() | PTE_V) as usize }
    }

    /// The all-zero entry, which maps nothing.
    pub fn empty() -> (r: Self)
        ensures
            r.bits == 0,
    {
        PageTableEntry { bits: 0 }
    }

    /// The page number field.
    pub fn ppn(&self) -> (r: PhysPageNum)
        ensures
            r.0 == decode_ppn_spec(self.bits),
    {
        let field = mask_usize(self.bits >> PTE_PPN_SHIFT, PHYS_PAGE_NUMBER_MASK);
        PhysPageNum::from(field)
    }

    /// The flag field; a conversion error when bit 8 or 9 of the entry is set,
    /// since no flag is defined there.
    pub fn flags(&self) -> (r: Result<PTEFlags, KernelError>)
        ensures
            r is Ok <==> flags_defined_spec(self.bits),
            r matches Ok(f) ==> f.spec_bits() == decode_flags_spec(self.bits),
            r matches Err(e) ==> e matches KernelError::Conversion { from, to, reason }
                && from@ == "PageTableEntry.bits"@ && to@ == "PTEFlags"@
                && reason@ == "Unknown bits found."@,
    {
        if self.bits & PTE_UNDEFINED_BITS != 0 {
            return Err(
                KernelError::conversion("PageTableEntry.bits", "PTEFlags", "Unknown bits found."),
            );
        }
        let b = self.bits as u8;
        assert(b & 0xffu8 == b) by (bit_vector);
        Ok(PTEFlags::from_bits_truncate(b))
    }

    /// Whether the valid flag is set; the error of `flags` when the flag field
    /// holds an undefined bit.
    pub fn is_valid(&self) -> (r: Result<bool, KernelError>)
        ensures
            r is Ok <==> flags_defined_spec(self.bits),
            r matches Ok(v) ==> v == (decode_flags_spec(self.bits) & PTE_V != 0),
            r matches Err(e) ==> e matches KernelError::Conversion { from, to, reason }
                && from@ == "PageTableEntry.bits"@ && to@ == "PTEFlags"@
                && reason@ == "Unknown bits found."@,
    {
        let f = self.flags()?;
        let v = PTEFlags::from_bits_truncate(PTE_V);
        let b = f.bits();
        assert(b & (0x01u8 & 0xffu8) == b & 0x01u8) by (bit_vector);
        let both = f.intersection(v);
        let none = PTEFlags::empty();
        assert(both.spec_bits() == none.spec_bits() <==> both == none);
        Ok(both != none)
    }
}

/// Decoding an encoded entry succeeds and gives back the page number and the
/// flags, with the valid bit added (so exactly the flags when they hold it), for
/// any page-aligned physical address below the implemented width.
pub proof fn lemma_entry_round_trip(a: usize, flags: u8)
    requires
        a % 4096 == 0,
        a < 0x0100_0000_0000_0000,
    ensures
        decode_ppn_spec(encode_spec(a / 4096, flags)) == a / 4096,
        decode_flags_spec(encode_spec(a / 4096, flags)) == flags | PTE_V,
        flags & PTE_V != 0 ==> decode_flags_spec(encode_spec(a / 4096, flags)) == flags,
        flags_defined_spec(encode_spec(a / 4096, flags)),
{
    let p: usize = a / 4096;
    assert(p < 0x0000_1000_0000_0000);
    assert(a >> 12usize == a / 4096usize) by (bit_vector);
    let f: u8 = flags | 1u8;
    let e: usize = (p << 10usize) | (f as usize);
    assert(e >> 10usize == p) by (bit_vector)
        requires
            p == a >> 12usize,
            (a as u64) < 0x0100_0000_0000_0000u64,
            e == (p << 10usize) | (f as usize),
    ;
    assert(e as u8 == f && e & 0x300usize == 0) by (bit_vector)
        requires
            e == (p << 10usize) | (f as usize),
    ;
    assert(flags & 1u8 != 0 ==> flags | 1u8 == flags) by (bit_vector);
}

} // verus!
