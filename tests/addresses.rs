use phakel::errors::KernelError;
use phakel::memory::address::{Address, PhysicalAddress, VirtualAddress};
use phakel::mm::address::{PhysAddr, PhysPageNum, VirtAddr, VirtPageNum};

#[test]
fn floor_bounds_an_unaligned_address() {
    let a = PhysAddr(0x8020_0123);
    let f = a.floor();
    assert_eq!(f, PhysPageNum(0x80200));
    let start = PhysAddr::from(f);
    assert_eq!(start, PhysAddr(0x8020_0000));
    assert!(start.0 <= a.0);
    assert!(a.0 < start.0 + 0x1000);
    assert_eq!(a.ceil(), PhysPageNum(0x80201));
}

#[test]
fn floor_and_ceil_agree_on_aligned_addresses() {
    for raw in [0usize, 0x1000, 0x8020_0000, 0x00ff_ffff_ffff_f000] {
        let a = PhysAddr(raw);
        assert_eq!(a.floor(), a.ceil());
        assert_eq!(PhysAddr::from(a.floor()), a);
    }
}

#[test]
fn ceil_of_the_last_page_does_not_overflow() {
    let a = PhysAddr(usize::MAX);
    assert_eq!(a.floor().0, usize::MAX / 0x1000);
    assert_eq!(a.ceil().0, usize::MAX / 0x1000 + 1);
}

#[test]
fn page_offset_keeps_the_low_twelve_bits() {
    assert_eq!(PhysAddr(0x8020_0123).page_offset(), 0x123);
    assert_eq!(PhysAddr(0x8020_0000).page_offset(), 0);
}

#[test]
fn raw_values_are_masked_to_the_implemented_width() {
    assert_eq!(PhysAddr::from(usize::MAX).0, (1usize << 56) - 1);
    assert_eq!(PhysAddr::from(0x1234usize).0, 0x1234);
    assert_eq!(PhysAddr::from((1usize << 56) | 0x5000).0, 0x5000);
    assert_eq!(PhysPageNum::from(usize::MAX).0, (1usize << 44) - 1);
    assert_eq!(PhysPageNum::from((1usize << 44) | 7).0, 7);
    assert_eq!(VirtAddr::from(usize::MAX).0, (1usize << 39) - 1);
    assert_eq!(VirtAddr::from((1usize << 39) | 5).0, 5);
    assert_eq!(VirtPageNum::from(usize::MAX).0, (1usize << 27) - 1);
    assert_eq!(VirtPageNum::from(0x42usize).0, 0x42);
}

#[test]
fn aligned_address_converts_to_its_page() {
    let r = PhysPageNum::try_from(PhysAddr(0x8020_0000));
    assert!(matches!(r, Ok(PhysPageNum(0x80200))));
}

#[test]
fn unaligned_address_is_a_conversion_error() {
    match PhysPageNum::try_from(PhysAddr(0x8020_0001)) {
        Err(KernelError::Conversion { from, to, reason }) => {
            assert_eq!(from, "PhysAddr");
            assert_eq!(to, "PhysPageNum");
            assert_eq!(reason, "Page size not aligned.");
        }
        other => panic!("unexpected result {:?}", other),
    }
}

#[test]
fn address_alignment_and_rounding() {
    let mut a = PhysicalAddress::with_addr(0x8020_0123);
    assert!(!a.is_page_aligned());
    a.page_round_up();
    assert_eq!(a.as_usize(), 0x8020_1000);
    assert!(a.is_page_aligned());
    a.page_round_up();
    assert_eq!(a.as_usize(), 0x8020_1000);

    let mut b = VirtualAddress::with_addr(0x8020_0fff);
    b.page_round_down();
    assert_eq!(b.as_usize(), 0x8020_0000);
    b.add_page();
    assert_eq!(*b.as_data_ref(), 0x8020_1000);
    *b.as_data_mut() = 7;
    assert_eq!(b.as_usize(), 7);
}

#[test]
fn address_addition_and_raw_value() {
    let p = PhysicalAddress::with_addr(0x1000).add(0x234);
    assert_eq!(usize::from(p), 0x1234);
    let v = VirtualAddress::with_addr(0x2000).add(0x10);
    assert_eq!(usize::from(v), 0x2010);
}

#[test]
fn page_index_of_each_walk_level() {
    let va = VirtualAddress::with_addr((3 << 30) | (5 << 21) | (7 << 12) | 0xabc);
    assert_eq!(va.page_num(0), 7);
    assert_eq!(va.page_num(1), 5);
    assert_eq!(va.page_num(2), 3);
    assert_eq!(VirtualAddress::with_addr(0x7f_ffff_ffff).page_num(2), 0x1ff);
}

#[test]
fn address_constructors_mask_to_the_implemented_width() {
    let p = PhysicalAddress::with_addr(usize::MAX);
    assert_eq!(p.as_usize(), (1usize << 56) - 1);
    assert_eq!(PhysicalAddress::with_addr((1usize << 56) | 0x1234).as_usize(), 0x1234);
    let v = VirtualAddress::with_addr(usize::MAX);
    assert_eq!(v.as_usize(), (1usize << 39) - 1);
    assert_eq!(VirtualAddress::with_addr((1usize << 39) | 0x10).as_usize(), 0x10);
}

#[test]
fn address_addition_masks_to_the_implemented_width() {
    let p = PhysicalAddress::with_addr((1usize << 56) - 1).add(1);
    assert_eq!(p.as_usize(), 0);
    let v = VirtualAddress::with_addr((1usize << 39) - 0x10).add(0x20);
    assert_eq!(v.as_usize(), 0x10);
}
