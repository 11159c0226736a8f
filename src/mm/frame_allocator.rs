use vstd::prelude::*;

use crate::config::{MEMORY_END, PAGE_SIZE};
use crate::errors::KernelError;
use crate::mm::address::{
    ceil_div, floor_div, phys_addr_limit, phys_page_number_limit, PhysAddr, PhysPageNum,
};
use crate::mm::physical_memory::PhysicalMemory;

verus! {

/// The abstract state of a `StackFrameAllocator`: the unissued range
/// `[current, end)` and the recycled page numbers, most recently freed last.
pub struct FrameAllocatorModel {
    pub current: usize,
    pub end: usize,
    pub recycled: Seq<usize>,
}

/// The page number handed out as `PhysPageNum` for a raw frame number.
pub open spec fn as_page_number(x: usize) -> PhysPageNum {
    PhysPageNum(((x as nat) % phys_page_number_limit()) as usize)
}

/// What `allocate` does: reuse the most recently freed frame, else issue `current`,
/// else report exhaustion.
pub open spec fn alloc_step(m: FrameAllocatorModel) -> (FrameAllocatorModel, Option<usize>) {
    if m.recycled.len() > 0 {
        (FrameAllocatorModel { recycled: m.recycled.drop_last(), ..m }, Some(m.recycled.last()))
    } else if m.current < m.end {
        (FrameAllocatorModel { current: (m.current + 1) as usize, ..m }, Some(m.current))
    } else {
        (m, None)
    }
}

/// The liveness test applied by `dealloc`: a number at or above the unissued
/// boundary, or one already waiting in the recycled bag, is refused.
pub open spec fn is_allocated_spec(m: FrameAllocatorModel, ppn: usize) -> bool {
    ppn >= m.current || m.recycled.contains(ppn)
}

/// The state after `dealloc` accepted `ppn`.
pub open spec fn dealloc_step(m: FrameAllocatorModel, ppn: usize) -> FrameAllocatorModel {
    FrameAllocatorModel { recycled: m.recycled.push(ppn), ..m }
}

/// `n` successive calls of `allocate`: the final state and each call's result.
pub open spec fn alloc_run(m: FrameAllocatorModel, n: nat) -> (FrameAllocatorModel, Seq<
    Option<usize>,
>)
    decreases n,
{
    if n == 0 {
        (m, Seq::empty())
    } else {
        let (m1, r) = alloc_step(m);
        let (m2, rs) = alloc_run(m1, (n - 1) as nat);
        (m2, seq![r] + rs)
    }
}

/// A stack-style allocator of physical frames: an unissued range of page
/// numbers plus a bag of returned numbers that are reissued first.
pub struct StackFrameAllocator {
    current: usize,
    end: usize,
    recycled: Vec<usize>,
}

impl View for StackFrameAllocator {
    type V = FrameAllocatorModel;

    closed spec fn view(&self) -> FrameAllocatorModel {
        FrameAllocatorModel { current: self.current, end: self.end, recycled: self.recycled@ }
    }
}

impl StackFrameAllocator {
    /// An allocator with nothing to hand out.
    pub fn new() -> (r: Self)
        ensures
            r@.current == 0,
            r@.end == 0,
            r@.recycled.len() == 0,
    {
        StackFrameAllocator { current: 0, end: 0, recycled: Vec::new() }
    }

    /// Sets the unissued range to `[left_ppn, right_ppn)`.
    pub fn init(&mut self, left_ppn: PhysPageNum, right_ppn: PhysPageNum)
        ensures
            final(self)@.current == left_ppn.0,
            final(self)@.end == right_ppn.0,
            final(self)@.recycled == old(self)@.recycled,
    {
        self.current = left_ppn.0;
        self.end = right_ppn.0;
    }

    /// Whether the unissued range is non-empty.
    pub fn has_remain(&self) -> (r: bool)
        ensures
            r == (self@.current < self@.end),
    {
        self.current < self.end
    }

    /// The liveness test of `dealloc`: true when `ppn` is at or above the
    /// unissued boundary or already in the recycled bag.
    pub fn is_allocated(&self, ppn: PhysPageNum) -> (r: bool)
        ensures
            r == is_allocated_spec(self@, ppn.0),
    {
        let p = ppn.0;
        if p >= self.current {
            return true;
        }
        let mut i: usize = 0;
        while i < self.recycled.len()
            invariant
                p == ppn.0,
                i <= self.recycled@.len(),
                forall|j: int| 0 <= j < i ==> self.recycled@[j] != p,
            decreases self.recycled@.len() - i,
        {
            if self.recycled[i] == p {
                assert(self@.recycled[i as int] == p);
                return true;
            }
            i += 1;
        }
        assert(!self@.recycled.contains(p));
        false
    }

    /// Hands out a frame: the most recently freed one first, then the next
    /// unissued one; `None` when both are exhausted.
    pub fn allocate(&mut self) -> (r: Option<PhysPageNum>)
        ensures
            final(self)@ == alloc_step(old(self)@).0,
            r == (match alloc_step(old(self)@).1 {
                Some(x) => Some(as_page_number(x)),
                None => None,
            }),
    {
        match self.recycled.pop() {
            Some(x) => Some(PhysPageNum::from(x)),
            None => {
                if !self.has_remain() {
                    return None;
                }
                self.current += 1;
                Some(PhysPageNum::from(self.current - 1))
            },
        }
    }

    /// Takes a frame back into the recycled bag, unless the liveness test of
    /// `is_allocated` refuses it.
    pub fn dealloc(&mut self, ppn: PhysPageNum) -> (r: Result<(), KernelError>)
        ensures
            r is Err <==> is_allocated_spec(old(self)@, ppn.0),
            r is Ok ==> final(self)@ == dealloc_step(old(self)@, ppn.0),
            r matches Err(e) ==> final(self)@ == old(self)@ && e == (KernelError::Deallocate {
                ppn: ppn.0,
            }),
    {
        if self.is_allocated(ppn) {
            return Err(KernelError::Deallocate { ppn: ppn.0 });
        }
        self.recycled.push(ppn.0);
        Ok(())
    }
}

/// Every frame that `allocate` may hand out lies in `mem`.
pub open spec fn serves_within(m: FrameAllocatorModel, mem: &PhysicalMemory) -> bool {
    &&& forall|j: int| 0 <= j < m.recycled.len() ==> mem.holds_frame(#[trigger] m.recycled[j] as nat)
    &&& m.current < m.end ==> mem.first() <= m.current && m.end <= mem.first() + mem.frame_count()
}

/// Sole owner of one physical frame.
#[derive(Debug)]
pub struct FrameTracker {
    pub ppn: PhysPageNum,
}

impl FrameTracker {
    /// Takes frame `ppn` and zero-fills every byte of it, so that nothing a former
    /// owner left there can be read; the other frames keep their bytes.
    pub fn new(ppn: PhysPageNum, memory: &mut PhysicalMemory) -> (r: FrameTracker)
        requires
            old(memory).wf(),
            old(memory).holds_frame(ppn.0 as nat),
        ensures
            r.ppn == ppn,
            final(memory).first() == old(memory).first(),
            final(memory)@.len() == old(memory)@.len(),
            forall|o: nat| o < PAGE_SIZE ==> #[trigger] final(memory).byte_at(ppn.0 as nat, o) == 0,
            forall|i: int|
                0 <= i < old(memory)@.len() && !(old(memory).frame_base(ppn.0 as nat) <= i
                    < old(memory).frame_base(ppn.0 as nat) + PAGE_SIZE) ==> final(memory)@[i]
                    == old(memory)@[i],
    {
        let ghost base = memory.frame_base(ppn.0 as nat);
        let mut offset: usize = 0;
        while offset < PAGE_SIZE
            invariant
                memory.wf(),
                memory.holds_frame(ppn.0 as nat),
                memory.first() == old(memory).first(),
                memory@.len() == old(memory)@.len(),
                base == memory.frame_base(ppn.0 as nat),
                offset <= PAGE_SIZE,
                forall|o: int| 0 <= o < offset ==> #[trigger] memory@[base + o] == 0,
                forall|i: int|
                    0 <= i < old(memory)@.len() && !(base <= i < base + PAGE_SIZE) ==> memory@[i]
                        == old(memory)@[i],
            decreases PAGE_SIZE - offset,
        {
            memory.write(ppn, offset, 0);
            offset += 1;
        }
        assert forall|o: nat| o < PAGE_SIZE implies #[trigger] memory.byte_at(ppn.0 as nat, o)
            == 0 by {
            assert(memory@[base + o] == 0);
        }
        FrameTracker { ppn }
    }

    /// Gives the frame back to `allocator`, as leaving the owner's scope does.
    pub fn release(self, allocator: &mut StackFrameAllocator) -> (r: Result<(), KernelError>)
        ensures
            r is Err <==> is_allocated_spec(old(allocator)@, self.ppn.0),
            r is Ok ==> final(allocator)@ == dealloc_step(old(allocator)@, self.ppn.0),
            r is Err ==> final(allocator)@ == old(allocator)@,
    {
        frame_dealloc(allocator, self.ppn)
    }
}

/// Sets the allocator's range to the frames from the first page boundary at or
/// after `kernel_end` (the end of the kernel image) up to `MEMORY_END`.
pub fn init_frame_allocator(allocator: &mut StackFrameAllocator, kernel_end: usize)
    ensures
        final(allocator)@.current == ceil_div(
            (kernel_end as nat) % phys_addr_limit(),
            PAGE_SIZE as nat,
        ),
        final(allocator)@.end == floor_div(MEMORY_END as nat, PAGE_SIZE as nat),
        final(allocator)@.recycled == old(allocator)@.recycled,
{
    allocator.init(PhysAddr::from(kernel_end).ceil(), PhysAddr::from(MEMORY_END).floor());
}

/// Allocates a frame and takes ownership of it, zero-filled; `None` when the
/// allocator is exhausted.
pub fn frame_alloc(allocator: &mut StackFrameAllocator, memory: &mut PhysicalMemory) -> (r: Option<
    FrameTracker,
>)
    requires
        old(memory).wf(),
        serves_within(old(allocator)@, old(memory)),
    ensures
        final(allocator)@ == alloc_step(old(allocator)@).0,
        final(memory).first() == old(memory).first(),
        final(memory)@.len() == old(memory)@.len(),
        serves_within(final(allocator)@, final(memory)),
        match alloc_step(old(allocator)@).1 {
            Some(x) => r matches Some(t) && t.ppn.0 == x && (forall|o: nat|
                o < PAGE_SIZE ==> #[trigger] final(memory).byte_at(x as nat, o) == 0) && (forall|
                i: int,
            |
                0 <= i < old(memory)@.len() && !(old(memory).frame_base(x as nat) <= i
                    < old(memory).frame_base(x as nat) + PAGE_SIZE) ==> final(memory)@[i]
                    == old(memory)@[i]),
            None => r is None && final(memory)@ == old(memory)@,
        },
{
    match allocator.allocate() {
        Some(ppn) => {
            proof {
                let x = alloc_step(old(allocator)@).1->Some_0;
                let m = old(allocator)@;
                if m.recycled.len() > 0 {
                    assert(m.recycled.last() == m.recycled[m.recycled.len() - 1]);
                }
                assert(memory.holds_frame(x as nat));
                assert((x as nat) % phys_page_number_limit() == x);
            }
            Some(FrameTracker::new(ppn, memory))
        },
        None => None,
    }
}

/// Returns frame `ppn` to the allocator; see `StackFrameAllocator::dealloc`.
pub fn frame_dealloc(allocator: &mut StackFrameAllocator, ppn: PhysPageNum) -> (r: Result<
    (),
    KernelError,
>)
    ensures
        r is Err <==> is_allocated_spec(old(allocator)@, ppn.0),
        r is Ok ==> final(allocator)@ == dealloc_step(old(allocator)@, ppn.0),
        r matches Err(e) ==> final(allocator)@ == old(allocator)@ && e == (KernelError::Deallocate {
            ppn: ppn.0,
        }),
{
    allocator.dealloc(ppn)
}

/// Returns frame `ppn` to the allocator only when `memory` holds it, so that every
/// frame the allocator may hand out stays inside `memory`; a frame outside it is
/// refused as not allocated.
pub fn frame_dealloc_checked(
    allocator: &mut StackFrameAllocator,
    memory: &PhysicalMemory,
    ppn: PhysPageNum,
) -> (r: Result<(), KernelError>)
    requires
        memory.wf(),
        serves_within(old(allocator)@, memory),
    ensures
        serves_within(final(allocator)@, memory),
        r is Err <==> !memory.holds_frame(ppn.0 as nat) || is_allocated_spec(
            old(allocator)@,
            ppn.0,
        ),
        r is Ok ==> final(allocator)@ == dealloc_step(old(allocator)@, ppn.0),
        r matches Err(e) ==> final(allocator)@ == old(allocator)@ && e == (KernelError::Deallocate {
            ppn: ppn.0,
        }),
{
    if !memory.holds(ppn) {
        return Err(KernelError::Deallocate { ppn: ppn.0 });
    }
    let r = frame_dealloc(allocator, ppn);
    proof {
        if r is Ok {
            let m = allocator@;
            assert forall|j: int| 0 <= j < m.recycled.len() implies memory.holds_frame(
                #[trigger] m.recycled[j] as nat,
            ) by {
                if j < m.recycled.len() - 1 {
                    assert(m.recycled[j] == old(allocator)@.recycled[j]);
                }
            }
        }
    }
    r
}

/// On an allocator whose recycled bag is empty, `n` allocations that stay inside
/// the unissued range return `current, current + 1, ..., current + n - 1` in
/// that order and advance the boundary by `n`.
pub proof fn lemma_fresh_issue_in_order(m: FrameAllocatorModel, n: nat)
    requires
        m.recycled.len() == 0,
        m.current + n <= m.end,
    ensures
        alloc_run(m, n).1 == Seq::new(n, |i: int| Some((m.current + i) as usize)),
        alloc_run(m, n).0 == (FrameAllocatorModel { current: (m.current + n) as usize, ..m }),
    decreases n,
{
    if n > 0 {
        let m1 = alloc_step(m).0;
        lemma_fresh_issue_in_order(m1, (n - 1) as nat);
        assert(alloc_run(m, n).1 =~= Seq::new(n, |i: int| Some((m.current + i) as usize)));
    }
}

/// After `init(start, end)` with `start < end` on an allocator with nothing
/// recycled, `end - start` allocations return every number of `[start, end)`
/// once, in increasing order, and the allocation after them returns nothing.
pub proof fn lemma_init_then_exhaust(m: FrameAllocatorModel)
    requires
        m.recycled.len() == 0,
        m.current < m.end,
    ensures
        alloc_run(m, (m.end - m.current) as nat).1 == Seq::new(
            (m.end - m.current) as nat,
            |i: int| Some((m.current + i) as usize),
        ),
        alloc_step(alloc_run(m, (m.end - m.current) as nat).0).1 is None,
{
    lemma_fresh_issue_in_order(m, (m.end - m.current) as nat);
}

/// Frames are reused last-freed-first: after `p` and then `q` are accepted back,
/// the next two allocations return `q` and then `p`, and leave the allocator as
/// it was before the two frees.
pub proof fn lemma_reuse_last_freed_first(m: FrameAllocatorModel, p: usize, q: usize)
    requires
        !is_allocated_spec(m, p),
        !is_allocated_spec(dealloc_step(m, p), q),
    ensures
        alloc_step(dealloc_step(dealloc_step(m, p), q)).1 == Some(q),
        alloc_step(alloc_step(dealloc_step(dealloc_step(m, p), q)).0).1 == Some(p),
        alloc_step(alloc_step(dealloc_step(dealloc_step(m, p), q)).0).0 == m,
{
    let m2 = dealloc_step(dealloc_step(m, p), q);
    assert(m2.recycled.drop_last() =~= m.recycled.push(p));
    assert(m2.recycled.drop_last().drop_last() =~= m.recycled);
}

} // verus!
