use vstd::prelude::*;

use crate::memory::page_table_entry::PageTableEntry;

verus! {

/// Entries of one table: a page divided by the eight bytes of an entry.
pub const PAGE_TABLE_ENTRIES: usize = 512;

/// One level of the page-table walk: as many entries as fill one page.
#[derive(Debug, Copy, Clone)]
pub struct PageTable {
    pub entries: [PageTableEntry; PAGE_TABLE_ENTRIES],
}

impl PageTable {
    /// A table whose entries are all zero.
    pub fn empty() -> (r: Self)
        ensures
            forall|i: int| 0 <= i < PAGE_TABLE_ENTRIES ==> (#[trigger] r.entries@[i]).spec_bits() == 0,
    {
        Self { entries: [PageTableEntry::new(0); PAGE_TABLE_ENTRIES] }
    }

    /// Zeroes every entry.
    pub fn clear(&mut self)
        ensures
            forall|i: int|
                0 <= i < PAGE_TABLE_ENTRIES ==> (#[trigger] final(self).entries@[i]).spec_bits() == 0,
    {
        let mut i: usize = 0;
        while i < PAGE_TABLE_ENTRIES
            invariant
                i <= PAGE_TABLE_ENTRIES,
                forall|j: int| 0 <= j < i ==> (#[trigger] self.entries@[j]).spec_bits() == 0,
            decreases PAGE_TABLE_ENTRIES - i,
        {
            let mut e = self.entries[i];
            e.write_zero();
            self.entries[i] = e;
            i += 1;
        }
    }

    /// Copies the raw bits of every entry of `pte` into this table.
    pub fn write(&mut self, pte: &PageTable)
        ensures
            forall|i: int|
                0 <= i < PAGE_TABLE_ENTRIES ==> (#[trigger] final(self).entries@[i]).spec_bits()
                    == pte.entries@[i].spec_bits(),
    {
        let mut i: usize = 0;
        while i < PAGE_TABLE_ENTRIES
            invariant
                i <= PAGE_TABLE_ENTRIES,
                forall|j: int|
                    0 <= j < i ==> (#[trigger] self.entries@[j]).spec_bits()
                        == pte.entries@[j].spec_bits(),
            decreases PAGE_TABLE_ENTRIES - i,
        {
            let mut e = self.entries[i];
            e.write(pte.entries[i].as_usize());
            self.entries[i] = e;
            i += 1;
        }
    }
}

} // verus!
