//! LIFO stack allocator: a bump allocator whose allocations carry a header
//! recording their size and the previous cursor, so the most recent
//! allocation can be released individually; plus bulk release back to a
//! saved mark, and a double-ended variant with two cursors growing toward
//! each other.
//!
//! Addresses are byte offsets from the block's base; each allocation's
//! payload is preceded by a header of [`HEADER_SIZE`] bytes.

use vstd::prelude::*;

verus! {

use crate::alignment::{
    align_up_checked,
    lemma_align_up_bounds,
    lemma_align_up_rem,
    lemma_power_of_two_pos,
    power_of_two,
    spec_align_up,
};
use crate::error::MemoryError;

/// Bytes reserved in front of each stack allocation for its header: the
/// allocation's size and the cursor value it rewinds to, one machine word
/// each.
pub const HEADER_SIZE: usize = 16;

/// One live stack allocation: the offset of its payload, the payload size,
/// and the cursor to rewind to when it is freed.
#[derive(Clone, Copy, Debug, PartialEq, Eq, Structural)]
pub struct StackRecord {
    /// Offset of the payload, just past the header.
    pub addr: usize,
    /// Payload size in bytes.
    pub size: usize,
    /// The cursor before this allocation was made.
    pub prev: usize,
}

/// The offset just past a record's payload.
pub open spec fn record_end(r: StackRecord) -> int {
    r.addr + r.size
}

/// The live allocations form a LIFO chain: each header sits between the
/// previous cursor and its payload, records do not overlap, and the last
/// record ends at or before the cursor.
pub open spec fn records_chain(s: Seq<StackRecord>, cursor: int) -> bool {
    &&& forall|i: int|
        0 <= i < s.len() ==> (#[trigger] s[i]).prev + HEADER_SIZE <= s[i].addr
    &&& forall|i: int|
        0 <= i < s.len() - 1 ==> record_end(#[trigger] s[i]) <= s[i + 1].prev
    &&& s.len() > 0 ==> record_end(s.last()) <= cursor
}

/// Whether a stack request of `size` bytes at alignment `align` fits when
/// the cursor stands at `cursor` out of `capacity` bytes.
pub open spec fn stack_alloc_fits(cursor: int, capacity: int, size: int, align: int) -> bool
    recommends
        align > 0,
{
    spec_align_up(cursor, align) + HEADER_SIZE + size <= capacity
}

/// The payload offset a stack at `cursor` hands out for alignment `align`.
pub open spec fn stack_alloc_addr(cursor: int, align: int) -> int
    recommends
        align > 0,
{
    spec_align_up(cursor, align) + HEADER_SIZE
}

/// The records that survive a rewind to mark `m`: records are dropped from
/// the top for as long as they end past `m`.
pub open spec fn records_kept(s: Seq<StackRecord>, m: int) -> Seq<StackRecord>
    decreases s.len(),
{
    if s.len() == 0 || record_end(s.last()) <= m {
        s
    } else {
        records_kept(s.drop_last(), m)
    }
}

/// The state reached by individually freeing, top first, every record that
/// ends past `m`: each step is exactly `StackAllocator::free`'s transition,
/// dropping the top record and rewinding the cursor to its `prev`.
pub open spec fn free_each_above(s: Seq<StackRecord>, cursor: int, m: int) -> (Seq<
    StackRecord,
>, int)
    decreases s.len(),
{
    if s.len() == 0 || record_end(s.last()) <= m {
        (s, cursor)
    } else {
        free_each_above(s.drop_last(), s.last().prev as int, m)
    }
}

/// `m` was the cursor when the mark was taken, and only allocations have
/// happened since: walking back off every record that ends past `m` lands
/// exactly on cursor `m`.
pub open spec fn mark_rooted(s: Seq<StackRecord>, cursor: int, m: int) -> bool
    decreases s.len(),
{
    if s.len() == 0 || record_end(s.last()) <= m {
        cursor == m
    } else {
        mark_rooted(s.drop_last(), s.last().prev as int, m)
    }
}

/// A mark taken at the current cursor is rooted there.
pub proof fn lemma_mark_rooted_at_mark(s: Seq<StackRecord>, cursor: int)
    requires
        records_chain(s, cursor),
    ensures
        mark_rooted(s, cursor, cursor),
{
}

/// Allocating on top of a rooted mark keeps it rooted: the new record
/// chains back to the old cursor and ends past the mark.
pub proof fn lemma_mark_rooted_after_alloc(
    s: Seq<StackRecord>,
    cursor: int,
    m: int,
    rec: StackRecord,
)
    requires
        records_chain(s, cursor),
        mark_rooted(s, cursor, m),
        rec.prev == cursor,
        rec.prev + HEADER_SIZE <= rec.addr,
    ensures
        mark_rooted(s.push(rec), record_end(rec), m),
    decreases s.len(),
{
    assert(cursor >= m) by {
        lemma_mark_rooted_cursor_lower_bound(s, cursor, m);
    }
    assert(record_end(rec) > m);
    assert(s.push(rec).drop_last() =~= s);
    assert(s.push(rec).last() == rec);
}

/// Under a rooted mark the cursor never stands below the mark.
pub proof fn lemma_mark_rooted_cursor_lower_bound(s: Seq<StackRecord>, cursor: int, m: int)
    requires
        records_chain(s, cursor),
        mark_rooted(s, cursor, m),
    ensures
        cursor >= m,
{
    if s.len() == 0 || record_end(s.last()) <= m {
    } else {
        assert(record_end(s.last()) <= cursor);
    }
}

/// Rewinding to a rooted mark is the same as individually freeing, in
/// reverse order, every allocation made after the mark: both leave exactly
/// the records that end at or before the mark, with the cursor at the mark.
pub proof fn lemma_free_to_mark_equivalence(s: Seq<StackRecord>, cursor: int, m: int)
    requires
        mark_rooted(s, cursor, m),
    ensures
        free_each_above(s, cursor, m) == (records_kept(s, m), m),
    decreases s.len(),
{
    if s.len() == 0 || record_end(s.last()) <= m {
    } else {
        lemma_free_to_mark_equivalence(s.drop_last(), s.last().prev as int, m);
    }
}

/// Freeing the record that an allocation just pushed is accepted — it is
/// the live top of the stack and ends at the cursor — and rewinds the
/// cursor to exactly its value before the allocation; so stack
/// allocations freed in strict reverse order restore `used()` step by
/// step to the pre-allocation value.
pub proof fn lemma_lifo_round_trip(s: Seq<StackRecord>, cursor: int, rec: StackRecord)
    requires
        rec.prev == cursor,
    ensures
        s.push(rec).last().addr == rec.addr,
        record_end(s.push(rec).last()) == record_end(rec),
        s.push(rec).last().prev == cursor,
        s.push(rec).drop_last() == s,
{
    assert(s.push(rec).drop_last() =~= s);
}

/// Dropping the top record preserves the chain, rewound to its `prev`.
pub proof fn lemma_chain_after_pop(s: Seq<StackRecord>, cursor: int)
    requires
        records_chain(s, cursor),
        s.len() > 0,
    ensures
        records_chain(s.drop_last(), s.last().prev as int),
{
    let t = s.drop_last();
    if t.len() > 0 {
        assert(record_end(t.last()) <= s.last().prev) by {
            assert(record_end(s[s.len() - 2]) <= s[s.len() - 1].prev);
        }
    }
}

/// Bump allocator with per-allocation headers enabling ordered individual
/// release, plus bulk release back to a saved mark.
pub struct StackAllocator {
    capacity: usize,
    cursor: usize,
    records: Vec<StackRecord>,
}

/// A saved stack cursor used for bulk release.
#[derive(Clone, Copy, Debug)]
pub struct StackMark {
    offset: usize,
}

impl StackMark {
    /// The saved cursor value.
    pub closed spec fn spec_offset(&self) -> int {
        self.offset as int
    }
}

impl StackAllocator {
    /// The fixed capacity of the backing block, in bytes.
    pub closed spec fn spec_capacity(&self) -> int {
        self.capacity as int
    }

    /// The current cursor: bytes used, headers and padding included.
    pub closed spec fn spec_used(&self) -> int {
        self.cursor as int
    }

    /// The live allocations, oldest first.
    pub closed spec fn spec_records(&self) -> Seq<StackRecord> {
        self.records@
    }

    /// The cursor stays within the block and the live allocations form a
    /// LIFO chain below it.
    pub open spec fn wf(&self) -> bool {
        &&& 0 <= self.spec_used() <= self.spec_capacity()
        &&& records_chain(self.spec_records(), self.spec_used())
    }

    /// Creates a stack allocator over a block of `capacity` bytes.
    pub fn new(capacity: usize) -> (r: StackAllocator)
        requires
            capacity > 0,
        ensures
            r.wf(),
            r.spec_capacity() == capacity,
            r.spec_used() == 0,
            r.spec_records() == Seq::<StackRecord>::empty(),
    {
        let r = StackAllocator { capacity, cursor: 0, records: Vec::new() };
        proof {
            assert(r.spec_records() =~= Seq::<StackRecord>::empty());
        }
        r
    }

    /// Creates a stack allocator with a default capacity of 512 KiB.
    pub fn with_default_capacity() -> (r: StackAllocator)
        ensures
            r.wf(),
            r.spec_capacity() == 524288,
            r.spec_used() == 0,
            r.spec_records() == Seq::<StackRecord>::empty(),
    {
        StackAllocator::new(524288)
    }

    /// Allocates `size` bytes at alignment `align`, reserving a header in
    /// front of the payload; returns the payload offset, or `None` exactly
    /// when the aligned request and its header do not fit.
    pub fn allocate(&mut self, size: usize, align: usize) -> (r: Option<usize>)
        requires
            old(self).wf(),
            power_of_two(align as nat),
        ensures
            final(self).wf(),
            final(self).spec_capacity() == old(self).spec_capacity(),
            stack_alloc_fits(
                old(self).spec_used(),
                old(self).spec_capacity(),
                size as int,
                align as int,
            ) ==> {
                &&& r == Some(stack_alloc_addr(old(self).spec_used(), align as int) as usize)
                &&& final(self).spec_used() == stack_alloc_addr(
                    old(self).spec_used(),
                    align as int,
                ) + size
                &&& final(self).spec_records() == old(self).spec_records().push(
                    StackRecord {
                        addr: stack_alloc_addr(old(self).spec_used(), align as int) as usize,
                        size,
                        prev: old(self).spec_used() as usize,
                    },
                )
            },
            !stack_alloc_fits(
                old(self).spec_used(),
                old(self).spec_capacity(),
                size as int,
                align as int,
            ) ==> r == None::<usize> && *final(self) == *old(self),
    {
        proof {
            lemma_power_of_two_pos(align as nat);
            lemma_align_up_bounds(self.cursor as int, align as int);
        }
        let aligned = match align_up_checked(self.cursor, align) {
            Some(a) => a,
            None => {
                return None;
            },
        };
        let addr = match aligned.checked_add(HEADER_SIZE) {
            Some(a) => a,
            None => {
                return None;
            },
        };
        let new_cursor = match addr.checked_add(size) {
            Some(n) => n,
            None => {
                return None;
            },
        };
        if new_cursor > self.capacity {
            return None;
        }
        let rec = StackRecord { addr, size, prev: self.cursor };
        self.records.push(rec);
        self.cursor = new_cursor;
        Some(addr)
    }

    /// Allocates room for one value of type `T`.
    pub fn alloc_type<T>(&mut self) -> (r: Option<usize>)
        requires
            old(self).wf(),
            power_of_two(vstd::layout::align_of::<T>()),
        ensures
            final(self).wf(),
            final(self).spec_capacity() == old(self).spec_capacity(),
            stack_alloc_fits(
                old(self).spec_used(),
                old(self).spec_capacity(),
                vstd::layout::size_of::<T>() as int,
                vstd::layout::align_of::<T>() as int,
            ) ==> {
                &&& r == Some(
                    stack_alloc_addr(
                        old(self).spec_used(),
                        vstd::layout::align_of::<T>() as int,
                    ) as usize,
                )
                &&& final(self).spec_used() == stack_alloc_addr(
                    old(self).spec_used(),
                    vstd::layout::align_of::<T>() as int,
                ) + vstd::layout::size_of::<T>()
                &&& final(self).spec_records() == old(self).spec_records().push(
                    StackRecord {
                        addr: stack_alloc_addr(
                            old(self).spec_used(),
                            vstd::layout::align_of::<T>() as int,
                        ) as usize,
                        size: vstd::layout::size_of::<T>() as usize,
                        prev: old(self).spec_used() as usize,
                    },
                )
            },
            !stack_alloc_fits(
                old(self).spec_used(),
                old(self).spec_capacity(),
                vstd::layout::size_of::<T>() as int,
                vstd::layout::align_of::<T>() as int,
            ) ==> r == None::<usize> && *final(self) == *old(self),
    {
        self.allocate(core::mem::size_of::<T>(), core::mem::align_of::<T>())
    }

    /// Allocates room for `count` values of type `T` laid out as an array;
    /// a zero-length request succeeds at offset 0 without moving the
    /// cursor, and a request whose total size cannot be laid out is
    /// refused.
    pub fn alloc_slice<T>(&mut self, count: usize) -> (r: Option<usize>)
        requires
            old(self).wf(),
            power_of_two(vstd::layout::align_of::<T>()),
        ensures
            final(self).wf(),
            final(self).spec_capacity() == old(self).spec_capacity(),
            count == 0 ==> r == Some(0usize) && *final(self) == *old(self),
            count > 0 && vstd::layout::size_of::<T>() * count > isize::MAX ==> r
                == None::<usize> && *final(self) == *old(self),
            count > 0 && vstd::layout::size_of::<T>() * count <= isize::MAX ==> {
                &&& stack_alloc_fits(
                    old(self).spec_used(),
                    old(self).spec_capacity(),
                    vstd::layout::size_of::<T>() * count,
                    vstd::layout::align_of::<T>() as int,
                ) ==> {
                    &&& r == Some(
                        stack_alloc_addr(
                            old(self).spec_used(),
                            vstd::layout::align_of::<T>() as int,
                        ) as usize,
                    )
                    &&& final(self).spec_used() == stack_alloc_addr(
                        old(self).spec_used(),
                        vstd::layout::align_of::<T>() as int,
                    ) + vstd::layout::size_of::<T>() * count
                    &&& final(self).spec_records() == old(self).spec_records().push(
                        StackRecord {
                            addr: stack_alloc_addr(
                                old(self).spec_used(),
                                vstd::layout::align_of::<T>() as int,
                            ) as usize,
                            size: (vstd::layout::size_of::<T>() * count) as usize,
                            prev: old(self).spec_used() as usize,
                        },
                    )
                }
                &&& !stack_alloc_fits(
                    old(self).spec_used(),
                    old(self).spec_capacity(),
                    vstd::layout::size_of::<T>() * count,
                    vstd::layout::align_of::<T>() as int,
                ) ==> r == None::<usize> && *final(self) == *old(self)
            },
    {
        if count == 0 {
            return Some(0);
        }
        let total = match core::mem::size_of::<T>().checked_mul(count) {
            Some(t) => t,
            None => {
                return None;
            },
        };
        if total > isize::MAX as usize {
            return None;
        }
        self.allocate(total, core::mem::align_of::<T>())
    }

    /// Frees the most recent live allocation. Accepted exactly when `addr`
    /// is the payload offset of the allocation on top of the stack; any
    /// other offset is refused and the stack is left unchanged.
    pub fn free(&mut self, addr: usize) -> (r: Result<(), MemoryError>)
        requires
            old(self).wf(),
        ensures
            final(self).wf(),
            final(self).spec_capacity() == old(self).spec_capacity(),
            ({
                let s = old(self).spec_records();
                if s.len() > 0 && s.last().addr == addr && record_end(s.last()) == old(
                    self,
                ).spec_used() {
                    &&& r == Ok::<(), MemoryError>(())
                    &&& final(self).spec_used() == s.last().prev
                    &&& final(self).spec_records() == s.drop_last()
                } else {
                    &&& r == Err::<(), MemoryError>(MemoryError::OutOfOrderFree)
                    &&& *final(self) == *old(self)
                }
            }),
    {
        let n = self.records.len();
        if n == 0 {
            return Err(MemoryError::OutOfOrderFree);
        }
        let last = self.records[n - 1];
        proof {
            assert(record_end(self.spec_records().last()) <= self.spec_used());
        }
        if last.addr != addr {
            return Err(MemoryError::OutOfOrderFree);
        }
        if last.addr + last.size != self.cursor {
            return Err(MemoryError::OutOfOrderFree);
        }
        proof {
            lemma_chain_after_pop(self.spec_records(), self.spec_used());
        }
        self.records.pop();
        self.cursor = last.prev;
        Ok(())
    }

    /// Saves the current cursor as a mark for bulk release.
    pub fn mark(&self) -> (m: StackMark)
        ensures
            m.spec_offset() == self.spec_used(),
    {
        StackMark { offset: self.cursor }
    }

    /// Rewinds the cursor to a saved mark, dropping every allocation made
    /// past it. Accepted exactly when the mark does not lie ahead of the
    /// current cursor; a stale mark is refused and the stack is left
    /// unchanged.
    pub fn free_to_mark(&mut self, mark: StackMark) -> (r: Result<(), MemoryError>)
        requires
            old(self).wf(),
        ensures
            final(self).wf(),
            final(self).spec_capacity() == old(self).spec_capacity(),
            mark.spec_offset() <= old(self).spec_used() ==> {
                &&& r == Ok::<(), MemoryError>(())
                &&& final(self).spec_used() == mark.spec_offset()
                &&& final(self).spec_records() == records_kept(
                    old(self).spec_records(),
                    mark.spec_offset(),
                )
            },
            mark.spec_offset() > old(self).spec_used() ==> {
                &&& r == Err::<(), MemoryError>(MemoryError::InvalidCheckpoint)
                &&& *final(self) == *old(self)
            },
    {
        if mark.offset > self.cursor {
            return Err(MemoryError::InvalidCheckpoint);
        }
        let ghost orig = self.records@;
        loop
            invariant
                self.capacity == old(self).capacity,
                self.cursor == old(self).cursor,
                self.cursor <= self.capacity,
                mark.offset <= self.cursor,
                records_chain(self.records@, self.cursor as int),
                records_kept(self.records@, mark.offset as int) == records_kept(
                    orig,
                    mark.offset as int,
                ),
            ensures
                self.capacity == old(self).capacity,
                self.cursor == old(self).cursor,
                records_chain(self.records@, self.cursor as int),
                self.records@ == records_kept(orig, mark.offset as int),
                self.records@.len() > 0 ==> record_end(self.records@.last()) <= mark.offset,
            decreases self.records@.len(),
        {
            let n = self.records.len();
            if n == 0 {
                break;
            }
            let last = self.records[n - 1];
            proof {
                assert(record_end(self.spec_records().last()) <= self.spec_used());
            }
            if last.addr + last.size <= mark.offset {
                break;
            }
            proof {
                lemma_chain_after_pop(self.records@, self.cursor as int);
            }
            self.records.pop();
            proof {
                assert(records_chain(self.records@, self.cursor as int)) by {
                    if self.records@.len() > 0 {
                        assert(record_end(self.records@.last()) <= last.prev);
                        assert(last.prev + HEADER_SIZE <= last.addr);
                        assert(record_end(self.records@.last()) <= self.cursor as int);
                    }
                }
            }
        }
        self.cursor = mark.offset;
        Ok(())
    }

    /// Rewinds the whole stack, dropping every live allocation.
    pub fn clear(&mut self)
        ensures
            final(self).wf(),
            final(self).spec_capacity() == old(self).spec_capacity(),
            final(self).spec_used() == 0,
            final(self).spec_records() == Seq::<StackRecord>::empty(),
    {
        self.records.clear();
        self.cursor = 0;
        proof {
            assert(self.spec_records() =~= Seq::<StackRecord>::empty());
        }
    }

    /// Bytes used so far, headers and padding included.
    pub fn used(&self) -> (r: usize)
        ensures
            r == self.spec_used(),
    {
        self.cursor
    }

    /// The fixed capacity of the backing block.
    pub fn capacity(&self) -> (r: usize)
        ensures
            r == self.spec_capacity(),
    {
        self.capacity
    }

    /// Bytes still free.
    pub fn available(&self) -> (r: usize)
        requires
            self.wf(),
        ensures
            r == self.spec_capacity() - self.spec_used(),
    {
        self.capacity - self.cursor
    }
}

/// A guard that saves a stack mark at construction and rewinds the stack to
/// it when released.
///
/// Release is explicit: call [`ScopedStack::release`] on every exit path.
pub struct ScopedStack {
    saved: usize,
}

impl ScopedStack {
    /// The cursor saved when the guard was created.
    pub closed spec fn spec_saved(&self) -> int {
        self.saved as int
    }

    /// Saves the stack's current cursor.
    pub fn new(stack: &StackAllocator) -> (s: ScopedStack)
        ensures
            s.spec_saved() == stack.spec_used(),
    {
        ScopedStack { saved: stack.used() }
    }

    /// Allocates from the guarded stack; same contract as
    /// [`StackAllocator::allocate`].
    pub fn allocate(&self, stack: &mut StackAllocator, size: usize, align: usize) -> (r: Option<
        usize,
    >)
        requires
            old(stack).wf(),
            power_of_two(align as nat),
        ensures
            final(stack).wf(),
            final(stack).spec_capacity() == old(stack).spec_capacity(),
            stack_alloc_fits(
                old(stack).spec_used(),
                old(stack).spec_capacity(),
                size as int,
                align as int,
            ) ==> {
                &&& r == Some(stack_alloc_addr(old(stack).spec_used(), align as int) as usize)
                &&& final(stack).spec_used() == stack_alloc_addr(
                    old(stack).spec_used(),
                    align as int,
                ) + size
                &&& final(stack).spec_records() == old(stack).spec_records().push(
                    StackRecord {
                        addr: stack_alloc_addr(old(stack).spec_used(), align as int) as usize,
                        size,
                        prev: old(stack).spec_used() as usize,
                    },
                )
            },
            !stack_alloc_fits(
                old(stack).spec_used(),
                old(stack).spec_capacity(),
                size as int,
                align as int,
            ) ==> r == None::<usize> && *final(stack) == *old(stack),
    {
        stack.allocate(size, align)
    }

    /// Allocates room for one `T` from the guarded stack; same contract as
    /// [`StackAllocator::alloc_type`].
    pub fn alloc_type<T>(&self, stack: &mut StackAllocator) -> (r: Option<usize>)
        requires
            old(stack).wf(),
            power_of_two(vstd::layout::align_of::<T>()),
        ensures
            final(stack).wf(),
            final(stack).spec_capacity() == old(stack).spec_capacity(),
            stack_alloc_fits(
                old(stack).spec_used(),
                old(stack).spec_capacity(),
                vstd::layout::size_of::<T>() as int,
                vstd::layout::align_of::<T>() as int,
            ) ==> {
                &&& r == Some(
                    stack_alloc_addr(
                        old(stack).spec_used(),
                        vstd::layout::align_of::<T>() as int,
                    ) as usize,
                )
                &&& final(stack).spec_used() == stack_alloc_addr(
                    old(stack).spec_used(),
                    vstd::layout::align_of::<T>() as int,
                ) + vstd::layout::size_of::<T>()
                &&& final(stack).spec_records() == old(stack).spec_records().push(
                    StackRecord {
                        addr: stack_alloc_addr(
                            old(stack).spec_used(),
                            vstd::layout::align_of::<T>() as int,
                        ) as usize,
                        size: vstd::layout::size_of::<T>() as usize,
                        prev: old(stack).spec_used() as usize,
                    },
                )
            },
            !stack_alloc_fits(
                old(stack).spec_used(),
                old(stack).spec_capacity(),
                vstd::layout::size_of::<T>() as int,
                vstd::layout::align_of::<T>() as int,
            ) ==> r == None::<usize> && *final(stack) == *old(stack),
    {
        stack.alloc_type::<T>()
    }

    /// Allocates room for `count` values of `T` from the guarded stack;
    /// same contract as [`StackAllocator::alloc_slice`].
    pub fn alloc_slice<T>(&self, stack: &mut StackAllocator, count: usize) -> (r: Option<usize>)
        requires
            old(stack).wf(),
            power_of_two(vstd::layout::align_of::<T>()),
        ensures
            final(stack).wf(),
            final(stack).spec_capacity() == old(stack).spec_capacity(),
            count == 0 ==> r == Some(0usize) && *final(stack) == *old(stack),
            count > 0 && vstd::layout::size_of::<T>() * count > isize::MAX ==> r
                == None::<usize> && *final(stack) == *old(stack),
            count > 0 && vstd::layout::size_of::<T>() * count <= isize::MAX ==> {
                &&& stack_alloc_fits(
                    old(stack).spec_used(),
                    old(stack).spec_capacity(),
                    vstd::layout::size_of::<T>() * count,
                    vstd::layout::align_of::<T>() as int,
                ) ==> {
                    &&& r == Some(
                        stack_alloc_addr(
                            old(stack).spec_used(),
                            vstd::layout::align_of::<T>() as int,
                        ) as usize,
                    )
                    &&& final(stack).spec_used() == stack_alloc_addr(
                        old(stack).spec_used(),
                        vstd::layout::align_of::<T>() as int,
                    ) + vstd::layout::size_of::<T>() * count
                    &&& final(stack).spec_records() == old(stack).spec_records().push(
                        StackRecord {
                            addr: stack_alloc_addr(
                                old(stack).spec_used(),
                                vstd::layout::align_of::<T>() as int,
                            ) as usize,
                            size: (vstd::layout::size_of::<T>() * count) as usize,
                            prev: old(stack).spec_used() as usize,
                        },
                    )
                }
                &&& !stack_alloc_fits(
                    old(stack).spec_used(),
                    old(stack).spec_capacity(),
                    vstd::layout::size_of::<T>() * count,
                    vstd::layout::align_of::<T>() as int,
                ) ==> r == None::<usize> && *final(stack) == *old(stack)
            },
    {
        stack.alloc_slice::<T>(count)
    }

    /// Rewinds the stack to the saved mark; same contract as
    /// [`StackAllocator::free_to_mark`].
    pub fn release(self, stack: &mut StackAllocator) -> (r: Result<(), MemoryError>)
        requires
            old(stack).wf(),
        ensures
            final(stack).wf(),
            final(stack).spec_capacity() == old(stack).spec_capacity(),
            self.spec_saved() <= old(stack).spec_used() ==> {
                &&& r == Ok::<(), MemoryError>(())
                &&& final(stack).spec_used() == self.spec_saved()
            },
            self.spec_saved() > old(stack).spec_used() ==> {
                &&& r == Err::<(), MemoryError>(MemoryError::InvalidCheckpoint)
                &&& *final(stack) == *old(stack)
            },
    {
        stack.free_to_mark(StackMark { offset: self.saved })
    }
}

/// The largest multiple of `align` that is at most `value`.
pub open spec fn spec_align_down(value: int, align: int) -> int
    recommends
        align > 0,
{
    (value / align) * align
}

/// `spec_align_down` rounds down: the result is a multiple of `align` no
/// greater than `value`, and within `align` of it.
pub proof fn lemma_align_down_bounds(value: int, align: int)
    requires
        value >= 0,
        align > 0,
    ensures
        value - align < spec_align_down(value, align) <= value,
        spec_align_down(value, align) == value - value % align,
{
    vstd::arithmetic::div_mod::lemma_fundamental_div_mod(value, align);
    vstd::arithmetic::div_mod::lemma_mod_division_less_than_divisor(value, align);
    vstd::arithmetic::mul::lemma_mul_is_commutative(align, value / align);
}

/// One block, two independent bump cursors growing toward each other from
/// opposite ends; the bottom cursor never passes the top cursor.
pub struct DoubleEndedStack {
    capacity: usize,
    bottom: usize,
    top: usize,
}

impl DoubleEndedStack {
    /// The fixed capacity of the backing block, in bytes.
    pub closed spec fn spec_capacity(&self) -> int {
        self.capacity as int
    }

    /// The bottom cursor, growing upward from 0.
    pub closed spec fn spec_bottom(&self) -> int {
        self.bottom as int
    }

    /// The top cursor, growing downward from the capacity.
    pub closed spec fn spec_top(&self) -> int {
        self.top as int
    }

    /// The two cursors never cross and stay within the block.
    pub open spec fn wf(&self) -> bool {
        0 <= self.spec_bottom() <= self.spec_top() <= self.spec_capacity()
    }

    /// Creates a double-ended stack over a block of `capacity` bytes.
    pub fn new(capacity: usize) -> (r: DoubleEndedStack)
        requires
            capacity > 0,
        ensures
            r.wf(),
            r.spec_capacity() == capacity,
            r.spec_bottom() == 0,
            r.spec_top() == capacity,
    {
        DoubleEndedStack { capacity, bottom: 0, top: capacity }
    }

    /// Allocates `size` bytes at alignment `align` from the bottom end;
    /// fails exactly when the advanced bottom cursor would pass the top
    /// cursor.
    pub fn alloc_bottom(&mut self, size: usize, align: usize) -> (r: Option<usize>)
        requires
            old(self).wf(),
            power_of_two(align as nat),
        ensures
            final(self).wf(),
            final(self).spec_capacity() == old(self).spec_capacity(),
            final(self).spec_top() == old(self).spec_top(),
            spec_align_up(old(self).spec_bottom(), align as int) + size <= old(self).spec_top()
                ==> {
                &&& r == Some(spec_align_up(old(self).spec_bottom(), align as int) as usize)
                &&& final(self).spec_bottom() == spec_align_up(
                    old(self).spec_bottom(),
                    align as int,
                ) + size
            },
            spec_align_up(old(self).spec_bottom(), align as int) + size > old(self).spec_top()
                ==> r == None::<usize> && *final(self) == *old(self),
    {
        proof {
            lemma_power_of_two_pos(align as nat);
            lemma_align_up_bounds(self.bottom as int, align as int);
        }
        let aligned = match align_up_checked(self.bottom, align) {
            Some(a) => a,
            None => {
                return None;
            },
        };
        let new_bottom = match aligned.checked_add(size) {
            Some(n) => n,
            None => {
                return None;
            },
        };
        if new_bottom > self.top {
            return None;
        }
        self.bottom = new_bottom;
        Some(aligned)
    }

    /// Allocates `size` bytes at alignment `align` from the top end,
    /// aligning the lowered cursor downward; fails exactly when the lowered
    /// top cursor would pass the bottom cursor.
    pub fn alloc_top(&mut self, size: usize, align: usize) -> (r: Option<usize>)
        requires
            old(self).wf(),
            power_of_two(align as nat),
        ensures
            final(self).wf(),
            final(self).spec_capacity() == old(self).spec_capacity(),
            final(self).spec_bottom() == old(self).spec_bottom(),
            size <= old(self).spec_top() && spec_align_down(
                old(self).spec_top() - size,
                align as int,
            ) >= old(self).spec_bottom() ==> {
                &&& r == Some(spec_align_down(old(self).spec_top() - size, align as int) as usize)
                &&& final(self).spec_top() == spec_align_down(
                    old(self).spec_top() - size,
                    align as int,
                )
            },
            !(size <= old(self).spec_top() && spec_align_down(
                old(self).spec_top() - size,
                align as int,
            ) >= old(self).spec_bottom()) ==> r == None::<usize> && *final(self) == *old(self),
    {
        proof {
            lemma_power_of_two_pos(align as nat);
        }
        let lowered = match self.top.checked_sub(size) {
            Some(t) => t,
            None => {
                proof {
                    lemma_align_down_bounds(
                        if old(self).spec_top() - size >= 0 {
                            old(self).spec_top() - size
                        } else {
                            0
                        },
                        align as int,
                    );
                }
                return None;
            },
        };
        proof {
            lemma_align_down_bounds(lowered as int, align as int);
        }
        let aligned = lowered - (lowered % align);
        if aligned < self.bottom {
            return None;
        }
        self.top = aligned;
        Some(aligned)
    }

    /// Resets the bottom cursor to 0.
    pub fn clear_bottom(&mut self)
        requires
            old(self).wf(),
        ensures
            final(self).wf(),
            final(self).spec_capacity() == old(self).spec_capacity(),
            final(self).spec_bottom() == 0,
            final(self).spec_top() == old(self).spec_top(),
    {
        self.bottom = 0;
    }

    /// Resets the top cursor to the capacity.
    pub fn clear_top(&mut self)
        requires
            old(self).wf(),
        ensures
            final(self).wf(),
            final(self).spec_capacity() == old(self).spec_capacity(),
            final(self).spec_bottom() == old(self).spec_bottom(),
            final(self).spec_top() == old(self).spec_capacity(),
    {
        self.top = self.capacity;
    }

    /// Resets both cursors to their initial positions.
    pub fn clear(&mut self)
        requires
            old(self).wf(),
        ensures
            final(self).wf(),
            final(self).spec_capacity() == old(self).spec_capacity(),
            final(self).spec_bottom() == 0,
            final(self).spec_top() == old(self).spec_capacity(),
    {
        self.clear_bottom();
        self.clear_top();
    }

    /// Bytes used by both ends together.
    pub fn used(&self) -> (r: usize)
        requires
            self.wf(),
        ensures
            r == self.spec_bottom() + (self.spec_capacity() - self.spec_top()),
    {
        self.bottom + (self.capacity - self.top)
    }

    /// Bytes still free between the two cursors.
    pub fn available(&self) -> (r: usize)
        requires
            self.wf(),
        ensures
            r == self.spec_top() - self.spec_bottom(),
    {
        self.capacity - self.used()
    }
}

} // verus!
