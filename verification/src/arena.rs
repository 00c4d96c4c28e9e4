//! Bump arena: allocates by advancing a single cursor through one fixed
//! block, releases only in bulk (`reset`) or by rewinding to a checkpoint.
//!
//! Allocations are returned as byte offsets from the block's base. The
//! arena never fails from fragmentation, only from exhaustion.

use vstd::prelude::*;

verus! {

use crate::alignment::{
    align_up_checked,
    lemma_align_up_bounds,
    lemma_power_of_two_pos,
    power_of_two,
    spec_align_up,
};
use crate::error::MemoryError;

/// Whether a request of `size` bytes at alignment `align` fits in an arena
/// whose cursor stands at `used` out of `capacity` bytes.
pub open spec fn arena_alloc_fits(used: int, capacity: int, size: int, align: int) -> bool
    recommends
        align > 0,
{
    spec_align_up(used, align) + size <= capacity
}

/// The address an arena at cursor `used` hands out for alignment `align`.
pub open spec fn arena_addr(used: int, align: int) -> int
    recommends
        align > 0,
{
    spec_align_up(used, align)
}

/// The cursor after one allocation request: advanced past the aligned
/// request when it fits, unchanged when it does not.
pub open spec fn arena_step(used: int, capacity: int, size: int, align: int) -> int
    recommends
        align > 0,
{
    if arena_alloc_fits(used, capacity, size, align) {
        arena_addr(used, align) + size
    } else {
        used
    }
}

/// The cursor after a whole sequence of allocation requests, each a
/// `(size, align)` pair.
pub open spec fn arena_run(used: int, capacity: int, reqs: Seq<(nat, nat)>) -> int
    decreases reqs.len(),
{
    if reqs.len() == 0 {
        used
    } else {
        arena_step(
            arena_run(used, capacity, reqs.drop_last()),
            capacity,
            reqs.last().0 as int,
            reqs.last().1 as int,
        )
    }
}

/// Every request in `reqs` carries a positive alignment.
pub open spec fn aligns_positive(reqs: Seq<(nat, nat)>) -> bool {
    forall|i: int| 0 <= i < reqs.len() ==> (#[trigger] reqs[i]).1 >= 1
}

/// One allocation step never moves the cursor backward and never moves it
/// past the capacity.
pub proof fn lemma_arena_step_bounds(used: int, capacity: int, size: int, align: int)
    requires
        0 <= used <= capacity,
        size >= 0,
        align >= 1,
    ensures
        used <= arena_step(used, capacity, size, align) <= capacity,
{
    lemma_align_up_bounds(used, align);
}

/// A run of allocations never moves the cursor backward and never moves it
/// past the capacity.
pub proof fn lemma_arena_run_bounds(used: int, capacity: int, reqs: Seq<(nat, nat)>)
    requires
        0 <= used <= capacity,
        aligns_positive(reqs),
    ensures
        used <= arena_run(used, capacity, reqs) <= capacity,
    decreases reqs.len(),
{
    if reqs.len() > 0 {
        assert(aligns_positive(reqs.drop_last())) by {
            assert(forall|i: int|
                0 <= i < reqs.drop_last().len() ==> reqs.drop_last()[i] == reqs[i]);
        }
        lemma_arena_run_bounds(used, capacity, reqs.drop_last());
        lemma_arena_step_bounds(
            arena_run(used, capacity, reqs.drop_last()),
            capacity,
            reqs.last().0 as int,
            reqs.last().1 as int,
        );
    }
}

/// The cursor after `i + 1` requests is one step past the cursor after `i`
/// requests.
pub proof fn lemma_arena_run_take_succ(used: int, capacity: int, reqs: Seq<(nat, nat)>, i: int)
    requires
        0 <= i < reqs.len(),
    ensures
        arena_run(used, capacity, reqs.take(i + 1)) == arena_step(
            arena_run(used, capacity, reqs.take(i)),
            capacity,
            reqs[i].0 as int,
            reqs[i].1 as int,
        ),
{
    assert(reqs.take(i + 1).drop_last() =~= reqs.take(i));
    assert(reqs.take(i + 1).last() == reqs[i]);
}

/// Growing the prefix of a run never moves the cursor backward.
pub proof fn lemma_arena_run_prefix_monotone(
    used: int,
    capacity: int,
    reqs: Seq<(nat, nat)>,
    i: int,
    j: int,
)
    requires
        0 <= used <= capacity,
        aligns_positive(reqs),
        0 <= i <= j <= reqs.len(),
    ensures
        arena_run(used, capacity, reqs.take(i)) <= arena_run(used, capacity, reqs.take(j)),
    decreases j - i,
{
    if i < j {
        lemma_arena_run_prefix_monotone(used, capacity, reqs, i, j - 1);
        lemma_arena_run_take_succ(used, capacity, reqs, j - 1);
        assert(aligns_positive(reqs.take(j - 1))) by {
            assert(forall|k: int|
                0 <= k < reqs.take(j - 1).len() ==> reqs.take(j - 1)[k] == reqs[k]);
        }
        lemma_arena_run_bounds(used, capacity, reqs.take(j - 1));
        lemma_arena_step_bounds(
            arena_run(used, capacity, reqs.take(j - 1)),
            capacity,
            reqs[j - 1].0 as int,
            reqs[j - 1].1 as int,
        );
    }
}

/// For any sequence of arena allocations: every address handed out for a
/// request that fits lies within the block.
pub proof fn lemma_arena_addresses_in_block(
    used0: int,
    capacity: int,
    reqs: Seq<(nat, nat)>,
    i: int,
)
    requires
        0 <= used0 <= capacity,
        aligns_positive(reqs),
        0 <= i < reqs.len(),
        arena_alloc_fits(
            arena_run(used0, capacity, reqs.take(i)),
            capacity,
            reqs[i].0 as int,
            reqs[i].1 as int,
        ),
    ensures
        0 <= used0 <= arena_addr(arena_run(used0, capacity, reqs.take(i)), reqs[i].1 as int),
        arena_addr(arena_run(used0, capacity, reqs.take(i)), reqs[i].1 as int) + reqs[i].0
            <= capacity,
{
    assert(aligns_positive(reqs.take(i))) by {
        assert(forall|k: int| 0 <= k < reqs.take(i).len() ==> reqs.take(i)[k] == reqs[k]);
    }
    lemma_arena_run_bounds(used0, capacity, reqs.take(i));
    lemma_align_up_bounds(arena_run(used0, capacity, reqs.take(i)), reqs[i].1 as int);
}

/// For any sequence of arena allocations: the addresses handed out are
/// strictly increasing; a later allocation starts at or after the end of
/// any earlier one.
pub proof fn lemma_arena_addresses_monotone(
    used0: int,
    capacity: int,
    reqs: Seq<(nat, nat)>,
    i: int,
    j: int,
)
    requires
        0 <= used0 <= capacity,
        aligns_positive(reqs),
        0 <= i < j < reqs.len(),
        arena_alloc_fits(
            arena_run(used0, capacity, reqs.take(i)),
            capacity,
            reqs[i].0 as int,
            reqs[i].1 as int,
        ),
    ensures
        arena_addr(arena_run(used0, capacity, reqs.take(i)), reqs[i].1 as int) + reqs[i].0
            <= arena_addr(arena_run(used0, capacity, reqs.take(j)), reqs[j].1 as int),
{
    lemma_arena_run_take_succ(used0, capacity, reqs, i);
    lemma_arena_run_prefix_monotone(used0, capacity, reqs, i + 1, j);
    assert(aligns_positive(reqs.take(j))) by {
        assert(forall|k: int| 0 <= k < reqs.take(j).len() ==> reqs.take(j)[k] == reqs[k]);
    }
    lemma_arena_run_bounds(used0, capacity, reqs.take(j));
    lemma_align_up_bounds(arena_run(used0, capacity, reqs.take(j)), reqs[j].1 as int);
}

/// After a checkpoint taken at cursor `used0`, any sequence of allocations
/// leaves the cursor at or beyond `used0`, so restoring that checkpoint is
/// accepted and, by `Arena::restore`'s contract, brings `used()` back to
/// exactly its value at checkpoint time.
pub proof fn lemma_arena_checkpoint_restore(used0: int, capacity: int, reqs: Seq<(nat, nat)>)
    requires
        0 <= used0 <= capacity,
        aligns_positive(reqs),
    ensures
        used0 <= arena_run(used0, capacity, reqs),
{
    lemma_arena_run_bounds(used0, capacity, reqs);
}

/// Bump allocator over a single block of `capacity` bytes.
///
/// Addresses are byte offsets from the block's base.
pub struct Arena {
    capacity: usize,
    cursor: usize,
}

/// A saved arena cursor; restoring it rewinds the arena to the state it had
/// when the checkpoint was taken.
#[derive(Clone, Copy, Debug)]
pub struct ArenaCheckpoint {
    offset: usize,
}

impl ArenaCheckpoint {
    /// The saved cursor value.
    pub closed spec fn spec_offset(&self) -> int {
        self.offset as int
    }
}

impl Arena {
    /// The fixed capacity of the backing block, in bytes.
    pub closed spec fn spec_capacity(&self) -> int {
        self.capacity as int
    }

    /// The current cursor: how many bytes are used, padding included.
    pub closed spec fn spec_used(&self) -> int {
        self.cursor as int
    }

    /// The cursor never leaves the block.
    pub open spec fn wf(&self) -> bool {
        0 <= self.spec_used() <= self.spec_capacity()
    }

    /// Creates an arena over a block of `capacity` bytes.
    pub fn new(capacity: usize) -> (r: Arena)
        requires
            capacity > 0,
        ensures
            r.wf(),
            r.spec_capacity() == capacity,
            r.spec_used() == 0,
    {
        Arena { capacity, cursor: 0 }
    }

    /// Creates an arena with a default capacity of 1 MiB.
    pub fn with_default_capacity() -> (r: Arena)
        ensures
            r.wf(),
            r.spec_capacity() == 1048576,
            r.spec_used() == 0,
    {
        Arena::new(1048576)
    }

    /// Allocates `size` bytes at alignment `align`, advancing the cursor;
    /// returns the aligned offset, or `None` exactly when the aligned
    /// request does not fit in the remaining capacity.
    pub fn allocate(&mut self, size: usize, align: usize) -> (r: Option<usize>)
        requires
            old(self).wf(),
            power_of_two(align as nat),
        ensures
            final(self).wf(),
            final(self).spec_capacity() == old(self).spec_capacity(),
            final(self).spec_used() == arena_step(
                old(self).spec_used(),
                old(self).spec_capacity(),
                size as int,
                align as int,
            ),
            r == if arena_alloc_fits(
                old(self).spec_used(),
                old(self).spec_capacity(),
                size as int,
                align as int,
            ) {
                Some(arena_addr(old(self).spec_used(), align as int) as usize)
            } else {
                None::<usize>
            },
    {
        proof {
            lemma_power_of_two_pos(align as nat);
            lemma_align_up_bounds(self.cursor as int, align as int);
        }
        let aligned = match align_up_checked(self.cursor, align) {
            Some(a) => a,
            None => {
                return None;
            },
        };
        let new_cursor = match aligned.checked_add(size) {
            Some(n) => n,
            None => {
                return None;
            },
        };
        if new_cursor > self.capacity {
            return None;
        }
        self.cursor = new_cursor;
        Some(aligned)
    }

    /// Allocates room for one value of type `T`.
    pub fn alloc_type<T>(&mut self) -> (r: Option<usize>)
        requires
            old(self).wf(),
            power_of_two(vstd::layout::align_of::<T>()),
        ensures
            final(self).wf(),
            final(self).spec_capacity() == old(self).spec_capacity(),
            final(self).spec_used() == arena_step(
                old(self).spec_used(),
                old(self).spec_capacity(),
                vstd::layout::size_of::<T>() as int,
                vstd::layout::align_of::<T>() as int,
            ),
            r == if arena_alloc_fits(
                old(self).spec_used(),
                old(self).spec_capacity(),
                vstd::layout::size_of::<T>() as int,
                vstd::layout::align_of::<T>() as int,
            ) {
                Some(
                    arena_addr(old(self).spec_used(), vstd::layout::align_of::<T>() as int)
                        as usize,
                )
            } else {
                None::<usize>
            },
    {
        self.allocate(core::mem::size_of::<T>(), core::mem::align_of::<T>())
    }

    /// Allocates room for `count` values of type `T` laid out as an array;
    /// a zero-length request succeeds at offset 0 without moving the
    /// cursor, and a request whose total size cannot be laid out is
    /// refused.
    pub fn alloc_slice<T>(&mut self, count: usize) -> (r: Option<usize>)
        requires
            old(self).wf(),
            power_of_two(vstd::layout::align_of::<T>()),
        ensures
            final(self).wf(),
            final(self).spec_capacity() == old(self).spec_capacity(),
            count == 0 ==> r == Some(0usize) && *final(self) == *old(self),
            count > 0 && vstd::layout::size_of::<T>() * count > isize::MAX ==> r
                == None::<usize> && *final(self) == *old(self),
            count > 0 && vstd::layout::size_of::<T>() * count <= isize::MAX ==> {
                &&& final(self).spec_used() == arena_step(
                    old(self).spec_used(),
                    old(self).spec_capacity(),
                    vstd::layout::size_of::<T>() * count,
                    vstd::layout::align_of::<T>() as int,
                )
                &&& r == if arena_alloc_fits(
                    old(self).spec_used(),
                    old(self).spec_capacity(),
                    vstd::layout::size_of::<T>() * count,
                    vstd::layout::align_of::<T>() as int,
                ) {
                    Some(
                        arena_addr(old(self).spec_used(), vstd::layout::align_of::<T>() as int)
                            as usize,
                    )
                } else {
                    None::<usize>
                }
            },
    {
        if count == 0 {
            return Some(0);
        }
        let total = match core::mem::size_of::<T>().checked_mul(count) {
            Some(t) => t,
            None => {
                return None;
            },
        };
        if total > isize::MAX as usize {
            return None;
        }
        self.allocate(total, core::mem::align_of::<T>())
    }

    /// Rewinds the cursor to zero; no per-object cleanup is performed.
    pub fn reset(&mut self)
        ensures
            final(self).wf(),
            final(self).spec_capacity() == old(self).spec_capacity(),
            final(self).spec_used() == 0,
    {
        self.cursor = 0;
    }

    /// Bytes used so far, padding included.
    pub fn used(&self) -> (r: usize)
        ensures
            r == self.spec_used(),
    {
        self.cursor
    }

    /// The fixed capacity of the backing block.
    pub fn capacity(&self) -> (r: usize)
        ensures
            r == self.spec_capacity(),
    {
        self.capacity
    }

    /// Bytes still free.
    pub fn available(&self) -> (r: usize)
        requires
            self.wf(),
        ensures
            r == self.spec_capacity() - self.spec_used(),
    {
        self.capacity - self.cursor
    }

    /// Saves the current cursor.
    pub fn checkpoint(&self) -> (c: ArenaCheckpoint)
        ensures
            c.spec_offset() == self.spec_used(),
    {
        ArenaCheckpoint { offset: self.cursor }
    }

    /// Rewinds the cursor to a saved checkpoint. Accepted exactly when the
    /// checkpoint does not lie ahead of the current cursor; a stale
    /// checkpoint is refused and the arena is left unchanged.
    pub fn restore(&mut self, checkpoint: ArenaCheckpoint) -> (r: Result<(), MemoryError>)
        ensures
            final(self).spec_capacity() == old(self).spec_capacity(),
            checkpoint.spec_offset() <= old(self).spec_used() ==> {
                &&& r == Ok::<(), MemoryError>(())
                &&& final(self).spec_used() == checkpoint.spec_offset()
            },
            checkpoint.spec_offset() > old(self).spec_used() ==> {
                &&& r == Err::<(), MemoryError>(MemoryError::InvalidCheckpoint)
                &&& *final(self) == *old(self)
            },
    {
        if checkpoint.offset > self.cursor {
            return Err(MemoryError::InvalidCheckpoint);
        }
        self.cursor = checkpoint.offset;
        Ok(())
    }
}

/// A guard that saves an arena checkpoint at construction and rewinds the
/// arena to it when released, so that everything allocated while the guard
/// was live is released in one step.
///
/// Release is explicit: call [`ScopedArena::release`] on every exit path.
pub struct ScopedArena {
    saved: usize,
}

impl ScopedArena {
    /// The cursor saved when the guard was created.
    pub closed spec fn spec_saved(&self) -> int {
        self.saved as int
    }

    /// Saves the arena's current cursor.
    pub fn new(arena: &Arena) -> (s: ScopedArena)
        ensures
            s.spec_saved() == arena.spec_used(),
    {
        ScopedArena { saved: arena.used() }
    }

    /// Allocates from the guarded arena; same contract as [`Arena::alloc`].
    pub fn allocate(&self, arena: &mut Arena, size: usize, align: usize) -> (r: Option<usize>)
        requires
            old(arena).wf(),
            power_of_two(align as nat),
        ensures
            final(arena).wf(),
            final(arena).spec_capacity() == old(arena).spec_capacity(),
            final(arena).spec_used() == arena_step(
                old(arena).spec_used(),
                old(arena).spec_capacity(),
                size as int,
                align as int,
            ),
            r == if arena_alloc_fits(
                old(arena).spec_used(),
                old(arena).spec_capacity(),
                size as int,
                align as int,
            ) {
                Some(arena_addr(old(arena).spec_used(), align as int) as usize)
            } else {
                None::<usize>
            },
    {
        arena.allocate(size, align)
    }

    /// Allocates room for one `T` from the guarded arena; same contract as
    /// [`Arena::alloc_type`].
    pub fn alloc_type<T>(&self, arena: &mut Arena) -> (r: Option<usize>)
        requires
            old(arena).wf(),
            power_of_two(vstd::layout::align_of::<T>()),
        ensures
            final(arena).wf(),
            final(arena).spec_capacity() == old(arena).spec_capacity(),
            final(arena).spec_used() == arena_step(
                old(arena).spec_used(),
                old(arena).spec_capacity(),
                vstd::layout::size_of::<T>() as int,
                vstd::layout::align_of::<T>() as int,
            ),
            r == if arena_alloc_fits(
                old(arena).spec_used(),
                old(arena).spec_capacity(),
                vstd::layout::size_of::<T>() as int,
                vstd::layout::align_of::<T>() as int,
            ) {
                Some(
                    arena_addr(old(arena).spec_used(), vstd::layout::align_of::<T>() as int)
                        as usize,
                )
            } else {
                None::<usize>
            },
    {
        arena.alloc_type::<T>()
    }

    /// Allocates room for `count` values of `T` from the guarded arena;
    /// same contract as [`Arena::alloc_slice`].
    pub fn alloc_slice<T>(&self, arena: &mut Arena, count: usize) -> (r: Option<usize>)
        requires
            old(arena).wf(),
            power_of_two(vstd::layout::align_of::<T>()),
        ensures
            final(arena).wf(),
            final(arena).spec_capacity() == old(arena).spec_capacity(),
            count == 0 ==> r == Some(0usize) && *final(arena) == *old(arena),
            count > 0 && vstd::layout::size_of::<T>() * count > isize::MAX ==> r
                == None::<usize> && *final(arena) == *old(arena),
            count > 0 && vstd::layout::size_of::<T>() * count <= isize::MAX ==> {
                &&& final(arena).spec_used() == arena_step(
                    old(arena).spec_used(),
                    old(arena).spec_capacity(),
                    vstd::layout::size_of::<T>() * count,
                    vstd::layout::align_of::<T>() as int,
                )
                &&& r == if arena_alloc_fits(
                    old(arena).spec_used(),
                    old(arena).spec_capacity(),
                    vstd::layout::size_of::<T>() * count,
                    vstd::layout::align_of::<T>() as int,
                ) {
                    Some(
                        arena_addr(old(arena).spec_used(), vstd::layout::align_of::<T>() as int)
                            as usize,
                    )
                } else {
                    None::<usize>
                }
            },
    {
        arena.alloc_slice::<T>(count)
    }

    /// Rewinds the arena to the saved checkpoint. Accepted exactly when the
    /// arena's cursor has not been rewound below the saved value since the
    /// guard was created.
    pub fn release(self, arena: &mut Arena) -> (r: Result<(), MemoryError>)
        ensures
            final(arena).spec_capacity() == old(arena).spec_capacity(),
            self.spec_saved() <= old(arena).spec_used() ==> {
                &&& r == Ok::<(), MemoryError>(())
                &&& final(arena).spec_used() == self.spec_saved()
            },
            self.spec_saved() > old(arena).spec_used() ==> {
                &&& r == Err::<(), MemoryError>(MemoryError::InvalidCheckpoint)
                &&& *final(arena) == *old(arena)
            },
    {
        arena.restore(ArenaCheckpoint { offset: self.saved })
    }
}

} // verus!
