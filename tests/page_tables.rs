use phakel::errors::KernelError;
use phakel::memory::address::PhysicalAddress;
use phakel::memory::page_table::{PageTable, PAGE_TABLE_ENTRIES};
use phakel::memory::page_table_entry::{
    PageTableEntry as RawEntry, PteFlags, FLAG_R, FLAG_U, FLAG_V, FLAG_W, FLAG_X,
};
use phakel::mm::address::{PhysAddr, PhysPageNum};
use phakel::mm::page_table::{
    PTEFlags, PageTableEntry, PTE_A, PTE_D, PTE_G, PTE_R, PTE_U, PTE_V, PTE_W, PTE_X,
};

fn flags(bits: u8) -> PTEFlags {
    PTEFlags::from_bits(bits).unwrap()
}

#[test]
fn entry_encoding_is_bit_exact() {
    let e = PageTableEntry::new(PhysPageNum(0x80200), flags(PTE_R | PTE_W));
    assert_eq!(e.bits, (0x80200 << 10) | 0x7);
    assert_eq!(e.ppn(), PhysPageNum(0x80200));
    assert_eq!(e.flags().unwrap().bits(), PTE_V | PTE_R | PTE_W);
    assert!(matches!(e.is_valid(), Ok(true)));
}

#[test]
fn empty_entry_is_not_valid() {
    let e = PageTableEntry::empty();
    assert_eq!(e.bits, 0);
    assert_eq!(e.ppn(), PhysPageNum(0));
    assert_eq!(e.flags().unwrap(), PTEFlags::empty());
    assert!(matches!(e.is_valid(), Ok(false)));
}

#[test]
fn decoding_an_encoding_gives_back_page_and_flags() {
    let all = [PTE_V, PTE_R, PTE_W, PTE_X, PTE_U, PTE_G, PTE_A, PTE_D];
    for a in [0usize, 0x1000, 0x8020_0000, 0x00ff_ffff_ffff_f000] {
        for mask in 0u32..256 {
            let mut bits = 0u8;
            for (i, b) in all.iter().enumerate() {
                if mask & (1 << i) != 0 {
                    bits |= *b;
                }
            }
            let f = flags(bits | PTE_V);
            let ppn = PhysPageNum::try_from(PhysAddr(a)).unwrap();
            let e = PageTableEntry::new(ppn, f);
            assert_eq!(e.ppn().0, a >> 12);
            assert_eq!(e.flags().unwrap(), f);
        }
    }
}

#[test]
fn encoding_marks_the_entry_valid() {
    let e = PageTableEntry::new(PhysPageNum(5), flags(PTE_R));
    assert_eq!(e.flags().unwrap().bits(), PTE_R | PTE_V);
}

#[test]
fn ppn_field_ignores_bits_above_it() {
    let e = PageTableEntry { bits: usize::MAX };
    assert_eq!(e.ppn().0, (1usize << 44) - 1);
    assert!(e.flags().is_err());
}

#[test]
fn flag_set_operations() {
    let rw = flags(PTE_R | PTE_W);
    assert!(rw.contains(flags(PTE_R)));
    assert!(!rw.contains(flags(PTE_X)));
    assert_eq!(rw.union(flags(PTE_X)).bits(), PTE_R | PTE_W | PTE_X);
    assert_eq!(rw.intersection(flags(PTE_W | PTE_U)).bits(), PTE_W);
    assert_eq!(PTEFlags::from_bits_truncate(0xff).bits(), 0xff);
}

#[test]
fn raw_entry_bit_tests() {
    let e = RawEntry::new(FLAG_V | FLAG_R | FLAG_U);
    assert!(e.is_valid());
    assert!(e.is_read());
    assert!(e.is_user());
    assert!(!e.is_write());
    assert!(e.is_leaf());
    let pointer = RawEntry::new(FLAG_V | (0x1234 << 10));
    assert!(pointer.is_valid());
    assert!(!pointer.is_leaf());
    assert!(RawEntry::new(FLAG_X).is_leaf());
    assert!(RawEntry::new(FLAG_W).is_leaf());
}

#[test]
fn raw_entry_edits() {
    let mut e = RawEntry::new(0x1234 << 10);
    e.add_valid_bit();
    assert_eq!(e.as_usize(), (0x1234 << 10) | FLAG_V);
    e.add_user_bit();
    assert!(e.is_user());
    e.rm_user_bit();
    assert!(!e.is_user());
    assert_eq!(e.as_usize(), (0x1234 << 10) | FLAG_V);
    e.write(0xffff_ffff);
    assert_eq!(e.as_flags(), 0x3ff);
    e.write_zero();
    assert_eq!(e.as_usize(), 0);
}

#[test]
fn raw_entry_write_perm() {
    let mut e = RawEntry::new(0);
    e.write_perm(
        PhysicalAddress::with_addr(0x8020_0000),
        PteFlags::from_bits_truncate(FLAG_R | FLAG_W),
    );
    assert_eq!(e.as_usize(), (0x80200 << 10) | FLAG_R | FLAG_W | FLAG_V);
    assert_eq!(e.as_flags(), FLAG_R | FLAG_W | FLAG_V);
    assert_eq!(e.as_usize() >> 10, 0x80200);
}

#[test]
fn raw_entry_from_address() {
    let e = RawEntry::from(0x8020_0fffusize);
    assert_eq!(e.as_usize(), 0x80200 << 10);
    assert_eq!(PteFlags::from_bits_truncate(0xff).bits(), 0x1f);
    assert_eq!(
        PteFlags::from_bits_truncate(FLAG_R).union(PteFlags::from_bits_truncate(FLAG_X)).bits(),
        FLAG_R | FLAG_X
    );
}

#[test]
fn page_table_fills_one_page() {
    assert_eq!(PAGE_TABLE_ENTRIES * 8, 0x1000);
    let t = PageTable::empty();
    assert!(t.entries.iter().all(|e| e.as_usize() == 0));
}

#[test]
fn page_table_copy_and_clear() {
    let mut src = PageTable::empty();
    for (i, e) in src.entries.iter_mut().enumerate() {
        e.write((i << 10) | FLAG_V);
    }
    let mut dst = PageTable::empty();
    dst.write(&src);
    for i in 0..PAGE_TABLE_ENTRIES {
        assert_eq!(dst.entries[i].as_usize(), (i << 10) | FLAG_V);
    }
    dst.clear();
    assert!(dst.entries.iter().all(|e| e.as_usize() == 0));
}

#[test]
fn undefined_flag_bits_are_a_conversion_error() {
    for bits in [0x100usize, 0x200, 0x300, (0x80200 << 10) | 0x1ff] {
        let e = PageTableEntry { bits };
        match e.flags() {
            Err(KernelError::Conversion { from, to, reason }) => {
                assert_eq!(from, "PageTableEntry.bits");
                assert_eq!(to, "PTEFlags");
                assert_eq!(reason, "Unknown bits found.");
            }
            other => panic!("unexpected result {:?}", other),
        }
        assert!(matches!(e.is_valid(), Err(KernelError::Conversion { .. })));
    }
}

#[test]
fn bits_above_the_flag_field_do_not_make_decoding_fail() {
    let e = PageTableEntry { bits: (0x80200 << 10) | 0x0ff };
    assert_eq!(e.flags().unwrap().bits(), 0xff);
    assert!(matches!(e.is_valid(), Ok(true)));
}
