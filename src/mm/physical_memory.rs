use vstd::prelude::*;

use crate::config::PAGE_SIZE;
use crate::mm::address::{phys_page_number_limit, PhysPageNum};

verus! {

/// The bytes of a run of consecutive physical frames, starting at frame `first_ppn`.
pub struct PhysicalMemory {
    first_ppn: usize,
    bytes: Vec<u8>,
}

impl View for PhysicalMemory {
    type V = Seq<u8>;

    /// Every byte, frame after frame.
    closed spec fn view(&self) -> Seq<u8> {
        self.bytes@
    }
}

impl PhysicalMemory {
    /// Number of the first frame held.
    pub closed spec fn first(&self) -> nat {
        self.first_ppn as nat
    }

    /// Number of frames held.
    pub open spec fn frame_count(&self) -> nat {
        self@.len() / (PAGE_SIZE as nat)
    }

    /// Whole frames only, all of them below the implemented page-number width.
    pub open spec fn wf(&self) -> bool {
        &&& self@.len() % (PAGE_SIZE as nat) == 0
        &&& self.first() + self.frame_count() <= phys_page_number_limit()
    }

    /// Whether frame `ppn` is held.
    pub open spec fn holds_frame(&self, ppn: nat) -> bool {
        self.first() <= ppn < self.first() + self.frame_count()
    }

    /// Index in `self@` of the first byte of frame `ppn`.
    pub open spec fn frame_base(&self, ppn: nat) -> int {
        (ppn - self.first()) * (PAGE_SIZE as int)
    }

    /// Byte `offset` of frame `ppn`.
    pub open spec fn byte_at(&self, ppn: nat, offset: nat) -> u8 {
        self@[self.frame_base(ppn) + offset]
    }

    /// `frame_count` frames from `first_ppn` on, every byte set to `fill`.
    pub fn new(first_ppn: PhysPageNum, frame_count: usize, fill: u8) -> (r: Self)
        requires
            first_ppn.0 + frame_count <= phys_page_number_limit(),
            frame_count * PAGE_SIZE <= usize::MAX,
        ensures
            r.wf(),
            r.first() == first_ppn.0,
            r.frame_count() == frame_count,
            forall|i: int| 0 <= i < r@.len() ==> r@[i] == fill,
    {
        let len: usize = frame_count * PAGE_SIZE;
        let mut bytes: Vec<u8> = Vec::new();
        while bytes.len() < len
            invariant
                bytes@.len() <= len,
                forall|i: int| 0 <= i < bytes@.len() ==> bytes@[i] == fill,
            decreases len - bytes@.len(),
        {
            bytes.push(fill);
        }
        let r = PhysicalMemory { first_ppn: first_ppn.0, bytes };
        assert(r@.len() == frame_count * 4096);
        assert(r@.len() / 4096 == frame_count) by (nonlinear_arith)
            requires
                r@.len() == frame_count * 4096,
        ;
        r
    }

    /// Whether frame `ppn` is held.
    pub fn holds(&self, ppn: PhysPageNum) -> (r: bool)
        requires
            self.wf(),
        ensures
            r == self.holds_frame(ppn.0 as nat),
    {
        ppn.0 >= self.first_ppn && ppn.0 - self.first_ppn < self.bytes.len() / PAGE_SIZE
    }

    /// Byte `offset` of frame `ppn`.
    pub fn read(&self, ppn: PhysPageNum, offset: usize) -> (r: u8)
        requires
            self.wf(),
            self.holds_frame(ppn.0 as nat),
            offset < PAGE_SIZE,
        ensures
            r == self.byte_at(ppn.0 as nat, offset as nat),
    {
        let i = self.index_of(ppn, offset);
        self.bytes[i]
    }

    /// Sets byte `offset` of frame `ppn` to `value`; every other byte keeps its value.
    pub fn write(&mut self, ppn: PhysPageNum, offset: usize, value: u8)
        requires
            old(self).wf(),
            old(self).holds_frame(ppn.0 as nat),
            offset < PAGE_SIZE,
        ensures
            final(self).first() == old(self).first(),
            final(self)@ == old(self)@.update(old(self).frame_base(ppn.0 as nat) + offset, value),
    {
        let i = self.index_of(ppn, offset);
        self.bytes.set(i, value);
    }

    /// Index in `self@` of byte `offset` of frame `ppn`.
    fn index_of(&self, ppn: PhysPageNum, offset: usize) -> (r: usize)
        requires
            self.wf(),
            self.holds_frame(ppn.0 as nat),
            offset < PAGE_SIZE,
        ensures
            r == self.frame_base(ppn.0 as nat) + offset,
            r < self@.len(),
    {
        let k = ppn.0 - self.first_ppn;
        let n = self.bytes.len() / PAGE_SIZE;
        assert(k * 4096 + offset < self@.len()) by (nonlinear_arith)
            requires
                k < n,
                n == self@.len() / 4096,
                self@.len() % 4096 == 0,
                offset < 4096,
        ;
        k * PAGE_SIZE + offset
    }
}

} // verus!
