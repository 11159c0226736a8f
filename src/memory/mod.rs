pub mod address;
pub mod page_table;
pub mod page_table_entry;
