use vstd::prelude::*;

verus! {

/// Size in bytes of the kernel's dynamic-allocation heap.
pub const KERNEL_HEAP_SIZE: usize = 0x30_0000;

/// Size in bytes of one physical frame / virtual page.
pub const PAGE_SIZE: usize = 0x1000;

/// Number of offset bits inside a page (`PAGE_SIZE == 1 << PAGE_SIZE_BITS`).
pub const PAGE_SIZE_BITS: usize = 0xc;

/// Implemented width of a physical address.
pub const PHYS_ADDR_WIDTH: usize = 56;

/// Implemented width of a physical page number.
pub const PHYS_PAGE_NUMBER_WIDTH: usize = PHYS_ADDR_WIDTH - PAGE_SIZE_BITS;

/// Implemented width of a virtual address.
pub const VIRT_ADDR_WIDTH: usize = 39;

/// Implemented width of a virtual page number.
pub const VIRT_PAGE_NUMBER_WIDTH: usize = VIRT_ADDR_WIDTH - PAGE_SIZE_BITS;

/// First byte past the usable physical memory.
pub const MEMORY_END: usize = 0x80800000;

/// Offset bits inside a page, as the page-table walk counts them.
pub const PAGE_SHIFT: usize = PAGE_SIZE_BITS;

/// Width of the slice of a virtual page number that indexes one walk level.
pub const PAGE_MASK_LEN: usize = 9;

/// `(1 << PAGE_MASK_LEN) - 1`, the mask of one walk level's index.
pub const PAGE_MASK: usize = 0x1ff;

} // verus!
