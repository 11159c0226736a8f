pub mod address;
pub mod frame_allocator;
pub mod physical_memory;
pub mod page_table;
