//! Physical-memory management of a small kernel: typed addresses and page
//! numbers, a stack-style frame allocator, zero-filled frame ownership, and the
//! bit layout of page-table entries.

pub mod config;
pub mod errors;
pub mod memory;
pub mod mm;
