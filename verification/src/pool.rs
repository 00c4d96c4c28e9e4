//! Fixed-chunk pool: a slab allocator that hands out chunks of one fixed
//! size, grows by whole blocks on demand, and reuses freed chunks through a
//! free list.
//!
//! Chunks are identified by their index; chunk `i` occupies bytes
//! `i * chunk_size .. (i + 1) * chunk_size` of the pool's storage. Freeing
//! is checked: an index the pool does not own, or one that is not currently
//! allocated, is refused as a foreign pointer instead of corrupting the
//! free list.

use vstd::prelude::*;

verus! {

use crate::alignment::power_of_two;
use crate::error::MemoryError;
use vstd::relations::injective;
use vstd::set_lib::{lemma_int_range, lemma_len_subset, set_int_range};

/// Snapshot of a pool's accounting, taken at call time.
#[derive(Debug, Clone, Copy)]
pub struct PoolStats {
    /// Size of each chunk in bytes.
    pub chunk_size: usize,
    /// Chunks added by each growth step.
    pub chunks_per_block: usize,
    /// Blocks allocated so far.
    pub total_blocks: usize,
    /// Chunks owned by the pool.
    pub total_chunks: usize,
    /// Chunks currently handed out.
    pub chunks_in_use: usize,
    /// Chunks waiting in the free list.
    pub chunks_free: usize,
    /// Allocations over the pool's lifetime.
    pub total_allocated: usize,
    /// Frees over the pool's lifetime.
    pub total_freed: usize,
    /// Bytes backing the chunks currently handed out.
    pub memory_used: usize,
    /// Bytes backing every chunk the pool owns.
    pub memory_reserved: usize,
}

/// Fixed-chunk slab allocator with free-list reuse and on-demand growth.
pub struct Pool {
    chunk_size: usize,
    chunk_align: usize,
    chunks_per_block: usize,
    total: usize,
    free_list: Vec<usize>,
    live: Vec<bool>,
    allocated: usize,
    freed: usize,
}

impl Pool {
    /// Size of each chunk in bytes.
    pub closed spec fn spec_chunk_size(&self) -> int {
        self.chunk_size as int
    }

    /// Alignment of each chunk.
    pub closed spec fn spec_chunk_align(&self) -> int {
        self.chunk_align as int
    }

    /// Chunks added by each growth step.
    pub closed spec fn spec_chunks_per_block(&self) -> int {
        self.chunks_per_block as int
    }

    /// Chunks owned by the pool.
    pub closed spec fn spec_total_chunks(&self) -> int {
        self.total as int
    }

    /// The free list, oldest entry first.
    pub closed spec fn spec_free_list(&self) -> Seq<usize> {
        self.free_list@
    }

    /// Which chunks are currently handed out.
    pub closed spec fn spec_live(&self) -> Seq<bool> {
        self.live@
    }

    /// Allocations over the pool's lifetime.
    pub closed spec fn spec_allocated(&self) -> int {
        self.allocated as int
    }

    /// Frees over the pool's lifetime.
    pub closed spec fn spec_freed(&self) -> int {
        self.freed as int
    }

    /// The pool's configuration: `new` establishes it and nothing changes
    /// it.
    pub open spec fn spec_config(&self) -> (int, int, int) {
        (self.spec_chunk_size(), self.spec_chunk_align(), self.spec_chunks_per_block())
    }

    /// No chunk is duplicated or lost: the free list names each chunk at
    /// most once, names only chunks that are not handed out, and every
    /// chunk that is not handed out stands in it; the lifetime counters
    /// account exactly for the chunks currently handed out.
    pub open spec fn wf(&self) -> bool {
        &&& self.spec_chunk_size() >= 1
        &&& power_of_two(self.spec_chunk_align() as nat)
        &&& self.spec_chunks_per_block() >= 1
        &&& self.spec_total_chunks() % self.spec_chunks_per_block() == 0
        &&& self.spec_total_chunks() * self.spec_chunk_size() <= usize::MAX
        &&& self.spec_live().len() == self.spec_total_chunks()
        &&& self.spec_free_list().len() <= self.spec_total_chunks()
        &&& forall|j: int|
            0 <= j < self.spec_free_list().len() ==> ((#[trigger] self.spec_free_list()[j]) as int) < self.spec_total_chunks()
        &&& forall|j: int|
            0 <= j < self.spec_free_list().len() ==> self.spec_live()[(
            #[trigger] self.spec_free_list()[j]) as int] == false
        &&& forall|j1: int, j2: int|
            0 <= j1 < j2 < self.spec_free_list().len() ==> (#[trigger] self.spec_free_list()[j1])
                != (#[trigger] self.spec_free_list()[j2])
        &&& forall|i: int|
            0 <= i < self.spec_total_chunks() && (#[trigger] self.spec_live()[i]) == false
                ==> self.spec_free_list().contains(i as usize)
        &&& self.spec_freed() <= self.spec_allocated()
        &&& self.spec_allocated() - self.spec_freed() == self.spec_total_chunks()
            - self.spec_free_list().len()
    }

    /// Creates a pool of `chunk_size`-byte chunks at alignment
    /// `chunk_align`, growing by `chunks_per_block` chunks at a time; it
    /// owns no memory until the first allocation.
    pub fn new(chunk_size: usize, chunk_align: usize, chunks_per_block: usize) -> (r: Pool)
        requires
            chunk_size > 0,
            power_of_two(chunk_align as nat),
            chunks_per_block > 0,
        ensures
            r.wf(),
            r.spec_config() == (chunk_size as int, chunk_align as int, chunks_per_block as int),
            r.spec_total_chunks() == 0,
            r.spec_allocated() == 0,
            r.spec_freed() == 0,
            r.spec_free_list().len() == 0,
    {
        proof {
            vstd::arithmetic::mul::lemma_mul_basics(chunk_size as int);
            vstd::arithmetic::div_mod::lemma_small_mod(0, chunks_per_block as nat);
        }
        Pool {
            chunk_size,
            chunk_align,
            chunks_per_block,
            total: 0,
            free_list: Vec::new(),
            live: Vec::new(),
            allocated: 0,
            freed: 0,
        }
    }

    /// Creates a pool whose chunks hold one value of type `T` each.
    pub fn for_type<T>(chunks_per_block: usize) -> (r: Pool)
        requires
            vstd::layout::size_of::<T>() > 0,
            power_of_two(vstd::layout::align_of::<T>()),
            chunks_per_block > 0,
        ensures
            r.wf(),
            r.spec_chunk_size() == vstd::layout::size_of::<T>(),
            r.spec_chunk_align() == vstd::layout::align_of::<T>(),
            r.spec_chunks_per_block() == chunks_per_block,
            r.spec_total_chunks() == 0,
            r.spec_allocated() == 0,
            r.spec_freed() == 0,
            r.spec_free_list().len() == 0,
    {
        Pool::new(core::mem::size_of::<T>(), core::mem::align_of::<T>(), chunks_per_block)
    }

    /// Whether an allocation will be served from the free list.
    pub open spec fn can_reuse(&self) -> bool {
        self.spec_free_list().len() > 0 && self.spec_allocated() < usize::MAX
    }

    /// Whether an allocation will be served by growing one block.
    pub open spec fn can_grow(&self) -> bool {
        &&& self.spec_free_list().len() == 0
        &&& self.spec_allocated() < usize::MAX
        &&& (self.spec_total_chunks() + self.spec_chunks_per_block()) * self.spec_chunk_size()
            <= usize::MAX
    }

    /// Allocates one chunk: pops the free list, or, when it is empty, grows
    /// the pool by one block of fresh chunks and takes one of them. Returns
    /// `None` exactly when the pool can neither reuse nor grow — when
    /// another block would no longer fit in the address space, or a
    /// lifetime counter would overflow.
    ///
    /// The chunk returned is never one that is already handed out.
    pub fn allocate(&mut self) -> (r: Option<usize>)
        requires
            old(self).wf(),
        ensures
            final(self).wf(),
            final(self).spec_config() == old(self).spec_config(),
            old(self).can_reuse() ==> {
                &&& r == Some(old(self).spec_free_list().last())
                &&& final(self).spec_total_chunks() == old(self).spec_total_chunks()
                &&& final(self).spec_free_list() == old(self).spec_free_list().drop_last()
                &&& final(self).spec_live() == old(self).spec_live().update(
                    old(self).spec_free_list().last() as int,
                    true,
                )
                &&& final(self).spec_allocated() == old(self).spec_allocated() + 1
                &&& final(self).spec_freed() == old(self).spec_freed()
            },
            old(self).can_grow() ==> {
                &&& r == Some(
                    (old(self).spec_total_chunks() + old(self).spec_chunks_per_block()
                        - 1) as usize,
                )
                &&& final(self).spec_total_chunks() == old(self).spec_total_chunks() + old(self).spec_chunks_per_block()
                &&& final(self).spec_free_list().len() == old(self).spec_chunks_per_block() - 1
                &&& forall|k: int|
                    0 <= k < final(self).spec_free_list().len() ==> (
                    #[trigger] final(self).spec_free_list()[k]) as int == old(self).spec_total_chunks() + k
                &&& final(self).spec_allocated() == old(self).spec_allocated() + 1
                &&& final(self).spec_freed() == old(self).spec_freed()
            },
            !old(self).can_reuse() && !old(self).can_grow() ==> r == None::<usize> && *final(self)
                == *old(self),
            r is Some ==> {
                &&& ((r->Some_0) as int) < final(self).spec_total_chunks()
                &&& final(self).spec_live()[(r->Some_0) as int] == true
                &&& (((r->Some_0) as int) < old(self).spec_total_chunks() ==> old(self).spec_live()[(
                r->Some_0) as int] == false)
            },
    {
        if self.allocated == usize::MAX {
            return None;
        }
        if self.free_list.len() == 0 {
            // Grow by one block of fresh chunks.
            let t = self.total;
            let new_total = match t.checked_add(self.chunks_per_block) {
                Some(n) => n,
                None => {
                    proof {
                        lemma_grow_product_bound(
                            t as int,
                            self.chunks_per_block as int,
                            self.chunk_size as int,
                        );
                    }
                    return None;
                },
            };
            match new_total.checked_mul(self.chunk_size) {
                Some(_) => (),
                None => {
                    return None;
                },
            };
            let mut i: usize = 0;
            while i < self.chunks_per_block
                invariant
                    i <= self.chunks_per_block,
                    t + self.chunks_per_block <= usize::MAX,
                    self.total == t,
                    self.chunk_size == old(self).chunk_size,
                    self.chunk_align == old(self).chunk_align,
                    self.chunks_per_block == old(self).chunks_per_block,
                    self.allocated == old(self).allocated,
                    self.freed == old(self).freed,
                    self.free_list@.len() == i,
                    forall|k: int| 0 <= k < i ==> (#[trigger] self.free_list@[k]) as int == t + k,
                    self.live@.len() == t + i,
                    forall|k: int| 0 <= k < t ==> self.live@[k] == old(self).spec_live()[k],
                    forall|k: int| t <= k < t + i ==> (#[trigger] self.live@[k]) == false,
                decreases self.chunks_per_block - i,
            {
                self.free_list.push(t + i);
                self.live.push(false);
                i = i + 1;
            }
            self.total = new_total;
            proof {
                vstd::arithmetic::div_mod::lemma_mod_add_multiples_vanish(
                    t as int,
                    self.chunks_per_block as int,
                );
            }
        }
        // At this point the free list holds at least one chunk, every
        // invariant of `wf` holds of the current state, and the lifetime
        // counter has room.
        let ghost g = *self;
        proof {
            assert(g.wf()) by {
                if old(self).spec_free_list().len() > 0 {
                } else {
                    let t = old(self).spec_total_chunks();
                    let cpb = g.spec_chunks_per_block();
                    assert forall|i: int|
                        0 <= i < g.spec_total_chunks() && (#[trigger] g.spec_live()[i])
                            == false implies g.spec_free_list().contains(i as usize) by {
                        if i < t {
                            assert(old(self).spec_live()[i] == g.spec_live()[i]);
                            assert(old(self).spec_free_list().contains(i as usize));
                            let j = choose|j: int|
                                0 <= j < old(self).spec_free_list().len() && old(self).spec_free_list()[j] == i as usize;
                            assert(false);
                        } else {
                            assert(g.spec_free_list()[i - t] == i as usize);
                        }
                    }
                    assert(old(self).spec_allocated() - old(self).spec_freed() == t);
                }
            }
        }
        let addr = match self.free_list.pop() {
            Some(a) => a,
            None => {
                proof {
                    assert(false);
                }
                return None;
            },
        };
        self.live[addr] = true;
        self.allocated = self.allocated + 1;
        proof {
            let n = g.spec_free_list().len() as int;
            assert(addr == g.spec_free_list()[n - 1]);
            assert(self.spec_free_list() == g.spec_free_list().drop_last());
            assert(self.wf()) by {
                assert forall|j: int|
                    0 <= j < self.spec_free_list().len() implies self.spec_live()[(
                #[trigger] self.spec_free_list()[j]) as int] == false by {
                    assert(self.spec_free_list()[j] == g.spec_free_list()[j]);
                    assert(g.spec_free_list()[j] != g.spec_free_list()[n - 1]);
                }
                assert forall|i: int|
                    0 <= i < self.spec_total_chunks() && (#[trigger] self.spec_live()[i])
                        == false implies self.spec_free_list().contains(i as usize) by {
                    assert(i != addr as int);
                    assert(g.spec_live()[i] == false);
                    let j = choose|j: int|
                        0 <= j < g.spec_free_list().len() && g.spec_free_list()[j] == i as usize;
                    assert(j != n - 1);
                    assert(self.spec_free_list()[j] == i as usize);
                }
            }
        }
        Some(addr)
    }

    /// Allocates one chunk sized and aligned for a value of type `T`; the
    /// pool must have been created for that layout.
    pub fn alloc_type<T>(&mut self) -> (r: Option<usize>)
        requires
            old(self).wf(),
            vstd::layout::size_of::<T>() == old(self).spec_chunk_size(),
            vstd::layout::align_of::<T>() == old(self).spec_chunk_align(),
        ensures
            final(self).wf(),
            final(self).spec_config() == old(self).spec_config(),
            r is Some <==> old(self).can_reuse() || old(self).can_grow(),
            final(self).spec_freed() == old(self).spec_freed(),
            r is Some ==> final(self).spec_allocated() == old(self).spec_allocated() + 1,
            r is None ==> *final(self) == *old(self),
            r is Some ==> ((r->Some_0) as int) < final(self).spec_total_chunks() && final(self).spec_live()[(r->Some_0) as int] == true,
            r is Some ==> (((r->Some_0) as int) < old(self).spec_total_chunks() ==> old(self).spec_live()[(r->Some_0) as int] == false),
    {
        self.allocate()
    }

    /// Returns one chunk to the free list. Accepted exactly when `addr` is
    /// a chunk this pool owns and currently has handed out; anything else —
    /// a foreign address, or a chunk freed twice — is refused and the pool
    /// is left unchanged.
    pub fn free(&mut self, addr: usize) -> (r: Result<(), MemoryError>)
        requires
            old(self).wf(),
        ensures
            final(self).wf(),
            final(self).spec_config() == old(self).spec_config(),
            ((addr as int) < old(self).spec_total_chunks() && old(self).spec_live()[addr as int]
                == true) ==> {
                &&& r == Ok::<(), MemoryError>(())
                &&& final(self).spec_total_chunks() == old(self).spec_total_chunks()
                &&& final(self).spec_free_list() == old(self).spec_free_list().push(addr)
                &&& final(self).spec_live() == old(self).spec_live().update(addr as int, false)
                &&& final(self).spec_allocated() == old(self).spec_allocated()
                &&& final(self).spec_freed() == old(self).spec_freed() + 1
            },
            !((addr as int) < old(self).spec_total_chunks() && old(self).spec_live()[addr as int]
                == true) ==> {
                &&& r == Err::<(), MemoryError>(MemoryError::ForeignPointer)
                &&& *final(self) == *old(self)
            },
    {
        if addr >= self.total {
            return Err(MemoryError::ForeignPointer);
        }
        if !self.live[addr] {
            return Err(MemoryError::ForeignPointer);
        }
        proof {
            lemma_live_chunk_counters(*old(self), addr as int);
        }
        self.live[addr] = false;
        self.free_list.push(addr);
        self.freed = self.freed + 1;
        proof {
            let g = *old(self);
            let n = g.spec_free_list().len() as int;
            assert(self.wf()) by {
                assert forall|j: int|
                    0 <= j < self.spec_free_list().len() implies self.spec_live()[(
                #[trigger] self.spec_free_list()[j]) as int] == false by {
                    if j < n {
                        assert(self.spec_free_list()[j] == g.spec_free_list()[j]);
                        assert(g.spec_free_list()[j] != addr);
                    } else {
                        assert(self.spec_free_list()[j] == addr);
                    }
                }
                assert forall|j1: int, j2: int|
                    0 <= j1 < j2 < self.spec_free_list().len() implies (
                #[trigger] self.spec_free_list()[j1]) != (
                #[trigger] self.spec_free_list()[j2]) by {
                    if j2 == n {
                        assert(self.spec_free_list()[j1] == g.spec_free_list()[j1]);
                        assert(g.spec_live()[g.spec_free_list()[j1] as int] == false);
                    }
                }
                assert forall|i: int|
                    0 <= i < self.spec_total_chunks() && (#[trigger] self.spec_live()[i])
                        == false implies self.spec_free_list().contains(i as usize) by {
                    if i == addr as int {
                        assert(self.spec_free_list()[n] == addr);
                    } else {
                        assert(g.spec_live()[i] == false);
                        let j = choose|j: int|
                            0 <= j < g.spec_free_list().len() && g.spec_free_list()[j]
                                == i as usize;
                        assert(self.spec_free_list()[j] == i as usize);
                    }
                }
            }
        }
        Ok(())
    }

    /// Frees a chunk that held a value of type `T`; the pool must have been
    /// created for that layout.
    pub fn free_type<T>(&mut self, addr: usize) -> (r: Result<(), MemoryError>)
        requires
            old(self).wf(),
            vstd::layout::size_of::<T>() == old(self).spec_chunk_size(),
            vstd::layout::align_of::<T>() == old(self).spec_chunk_align(),
        ensures
            final(self).wf(),
            final(self).spec_config() == old(self).spec_config(),
            ((addr as int) < old(self).spec_total_chunks() && old(self).spec_live()[addr as int]
                == true) ==> r == Ok::<(), MemoryError>(()) && final(self).spec_freed() == old(self).spec_freed() + 1 && final(self).spec_allocated() == old(self).spec_allocated(),
            !((addr as int) < old(self).spec_total_chunks() && old(self).spec_live()[addr as int]
                == true) ==> r == Err::<(), MemoryError>(MemoryError::ForeignPointer) && *final(self) == *old(self),
    {
        self.free(addr)
    }

    /// Derives the pool's statistics from its counters and block count.
    pub fn stats(&self) -> (r: PoolStats)
        requires
            self.wf(),
        ensures
            r.chunk_size == self.spec_chunk_size(),
            r.chunks_per_block == self.spec_chunks_per_block(),
            r.total_blocks == self.spec_total_chunks() / self.spec_chunks_per_block(),
            r.total_chunks == self.spec_total_chunks(),
            r.chunks_in_use == self.spec_allocated() - self.spec_freed(),
            r.chunks_free == self.spec_free_list().len(),
            r.total_allocated == self.spec_allocated(),
            r.total_freed == self.spec_freed(),
            r.memory_used == (self.spec_allocated() - self.spec_freed()) * self.spec_chunk_size(),
            r.memory_reserved == self.spec_total_chunks() * self.spec_chunk_size(),
    {
        let in_use = self.allocated - self.freed;
        proof {
            vstd::arithmetic::mul::lemma_mul_inequality(
                in_use as int,
                self.total as int,
                self.chunk_size as int,
            );
            vstd::arithmetic::div_mod::lemma_div_pos_is_pos(
                self.total as int,
                self.chunks_per_block as int,
            );
            vstd::arithmetic::div_mod::lemma_div_is_ordered(
                self.total as int,
                usize::MAX as int,
                self.chunks_per_block as int,
            );
            vstd::arithmetic::div_mod::lemma_div_nonincreasing(
                usize::MAX as int,
                self.chunks_per_block as int,
            );
        }
        PoolStats {
            chunk_size: self.chunk_size,
            chunks_per_block: self.chunks_per_block,
            total_blocks: self.total / self.chunks_per_block,
            total_chunks: self.total,
            chunks_in_use: in_use,
            chunks_free: self.free_list.len(),
            total_allocated: self.allocated,
            total_freed: self.freed,
            memory_used: in_use * self.chunk_size,
            memory_reserved: self.total * self.chunk_size,
        }
    }

    /// Releasing empty blocks is deliberately a no-op: the pool keeps every
    /// block it has grown, so chunk indices stay valid for its whole life.
    pub fn shrink_to_fit(&self) {
    }
}

/// If one more block cannot even be counted, its storage cannot fit in the
/// address space either.
proof fn lemma_grow_product_bound(total: int, chunks_per_block: int, chunk_size: int)
    requires
        chunk_size >= 1,
        total >= 0,
        chunks_per_block >= 0,
    ensures
        (total + chunks_per_block) * chunk_size >= total + chunks_per_block,
{
    if total + chunks_per_block > 0 {
        assert((total + chunks_per_block) * chunk_size >= total + chunks_per_block)
            by (nonlinear_arith)
            requires
                chunk_size >= 1,
                total + chunks_per_block > 0,
        ;
    }
}

/// While some chunk is live, the free list is shorter than the chunk count
/// and the pool has freed fewer chunks than it has allocated.
pub proof fn lemma_live_chunk_counters(p: Pool, addr: int)
    requires
        p.wf(),
        0 <= addr < p.spec_total_chunks(),
        p.spec_live()[addr] == true,
    ensures
        p.spec_free_list().len() < p.spec_total_chunks(),
        p.spec_freed() < p.spec_allocated(),
{
    let total = p.spec_total_chunks();
    let f = |v: usize| v as int;
    let m = p.spec_free_list().map_values(f);
    assert(injective(f)) by {
        assert(forall|x: usize, y: usize| #[trigger] f(x) == #[trigger] f(y) ==> x == y);
    }
    assert(p.spec_free_list().no_duplicates()) by {
        assert(forall|j1: int, j2: int|
            0 <= j1 < j2 < p.spec_free_list().len() ==> (#[trigger] p.spec_free_list()[j1]) != (
            #[trigger] p.spec_free_list()[j2]));
    }
    p.spec_free_list().lemma_no_duplicates_injective(f);
    m.unique_seq_to_set();
    let bounded = set_int_range(0, total).remove(addr);
    assert(m.to_set() <= bounded) by {
        assert forall|x: int| m.to_set().contains(x) implies bounded.contains(x) by {
            let j = choose|j: int| 0 <= j < m.len() && m[j] == x;
            assert(p.spec_free_list()[j] as int == x);
            assert(p.spec_live()[x] == false);
        }
    }
    lemma_int_range(0, total);
    assert(set_int_range(0, total).contains(addr));
    assert(bounded.len() == total - 1);
    lemma_len_subset(m.to_set(), bounded);
}

/// A pool statically bound to one value type: chunks are sized and aligned
/// for `T` and nothing else can be allocated from it.
pub struct TypedPool<T> {
    pool: Pool,
    _marker: core::marker::PhantomData<T>,
}

impl<T> TypedPool<T> {
    /// The underlying pool.
    pub closed spec fn spec_pool(&self) -> Pool {
        self.pool
    }

    /// The underlying pool is well formed and carved for `T`'s layout.
    pub open spec fn wf(&self) -> bool {
        &&& self.spec_pool().wf()
        &&& self.spec_pool().spec_chunk_size() == vstd::layout::size_of::<T>()
        &&& self.spec_pool().spec_chunk_align() == vstd::layout::align_of::<T>()
    }

    /// Creates a pool whose chunks each hold one `T`.
    pub fn new(chunks_per_block: usize) -> (r: TypedPool<T>)
        requires
            vstd::layout::size_of::<T>() > 0,
            power_of_two(vstd::layout::align_of::<T>()),
            chunks_per_block > 0,
        ensures
            r.wf(),
            r.spec_pool().spec_chunks_per_block() == chunks_per_block,
            r.spec_pool().spec_total_chunks() == 0,
            r.spec_pool().spec_allocated() == 0,
            r.spec_pool().spec_freed() == 0,
    {
        TypedPool { pool: Pool::for_type::<T>(chunks_per_block), _marker: core::marker::PhantomData }
    }

    /// Allocates one chunk; same contract as [`Pool::allocate`].
    pub fn allocate(&mut self) -> (r: Option<usize>)
        requires
            old(self).wf(),
        ensures
            final(self).wf(),
            final(self).spec_pool().spec_config() == old(self).spec_pool().spec_config(),
            r is Some <==> old(self).spec_pool().can_reuse() || old(self).spec_pool().can_grow(),
            r is Some ==> final(self).spec_pool().spec_allocated() == old(
                self,
            ).spec_pool().spec_allocated() + 1 && final(self).spec_pool().spec_freed() == old(
                self,
            ).spec_pool().spec_freed(),
            r is None ==> *final(self) == *old(self),
            r is Some ==> ((r->Some_0) as int) < final(self).spec_pool().spec_total_chunks()
                && final(self).spec_pool().spec_live()[(r->Some_0) as int] == true,
            r is Some ==> (((r->Some_0) as int) < old(self).spec_pool().spec_total_chunks()
                ==> old(self).spec_pool().spec_live()[(r->Some_0) as int] == false),
    {
        self.pool.allocate()
    }

    /// Frees one chunk; same contract as [`Pool::free`].
    pub fn free(&mut self, addr: usize) -> (r: Result<(), MemoryError>)
        requires
            old(self).wf(),
        ensures
            final(self).wf(),
            final(self).spec_pool().spec_config() == old(self).spec_pool().spec_config(),
            ((addr as int) < old(self).spec_pool().spec_total_chunks() && old(
                self,
            ).spec_pool().spec_live()[addr as int] == true) ==> r == Ok::<(), MemoryError>(())
                && final(self).spec_pool().spec_freed() == old(self).spec_pool().spec_freed() + 1
                && final(self).spec_pool().spec_allocated() == old(
                self,
            ).spec_pool().spec_allocated(),
            !((addr as int) < old(self).spec_pool().spec_total_chunks() && old(
                self,
            ).spec_pool().spec_live()[addr as int] == true) ==> r == Err::<(), MemoryError>(
                MemoryError::ForeignPointer,
            ) && *final(self) == *old(self),
    {
        self.pool.free(addr)
    }

    /// Derives the pool's statistics; same contract as [`Pool::stats`].
    pub fn stats(&self) -> (r: PoolStats)
        requires
            self.wf(),
        ensures
            r.chunk_size == self.spec_pool().spec_chunk_size(),
            r.chunks_per_block == self.spec_pool().spec_chunks_per_block(),
            r.total_blocks == self.spec_pool().spec_total_chunks()
                / self.spec_pool().spec_chunks_per_block(),
            r.total_chunks == self.spec_pool().spec_total_chunks(),
            r.chunks_in_use == self.spec_pool().spec_allocated() - self.spec_pool().spec_freed(),
            r.chunks_free == self.spec_pool().spec_free_list().len(),
            r.total_allocated == self.spec_pool().spec_allocated(),
            r.total_freed == self.spec_pool().spec_freed(),
            r.memory_used == (self.spec_pool().spec_allocated() - self.spec_pool().spec_freed())
                * self.spec_pool().spec_chunk_size(),
            r.memory_reserved == self.spec_pool().spec_total_chunks()
                * self.spec_pool().spec_chunk_size(),
    {
        self.pool.stats()
    }
}

/// One value stored in a pool chunk: holds the value together with the
/// chunk that backs it, and returns the chunk to the pool when destroyed.
///
/// Destruction is explicit: call [`PoolBox::destroy`] with the same pool
/// the box was created from.
pub struct PoolBox<T> {
    handle: usize,
    value: T,
}

impl<T> PoolBox<T> {
    /// The chunk backing this value.
    pub closed spec fn spec_handle(&self) -> int {
        self.handle as int
    }

    /// The stored value.
    pub closed spec fn spec_value(&self) -> T {
        self.value
    }

    /// Allocates a chunk for `value` from `pool`; returns `None` exactly
    /// when the pool can neither reuse nor grow, handing `value` back
    /// inside no box.
    pub fn new(pool: &mut Pool, value: T) -> (r: Option<PoolBox<T>>)
        requires
            old(pool).wf(),
            vstd::layout::size_of::<T>() == old(pool).spec_chunk_size(),
            vstd::layout::align_of::<T>() == old(pool).spec_chunk_align(),
        ensures
            final(pool).wf(),
            final(pool).spec_config() == old(pool).spec_config(),
            r is Some <==> old(pool).can_reuse() || old(pool).can_grow(),
            r is None ==> *final(pool) == *old(pool),
            r matches Some(b) ==> {
                &&& b.spec_value() == value
                &&& b.spec_handle() < final(pool).spec_total_chunks()
                &&& final(pool).spec_live()[b.spec_handle()] == true
                &&& final(pool).spec_allocated() == old(pool).spec_allocated() + 1
                &&& final(pool).spec_freed() == old(pool).spec_freed()
            },
    {
        match pool.alloc_type::<T>() {
            Some(handle) => Some(PoolBox { handle, value }),
            None => None,
        }
    }

    /// The stored value.
    pub fn value(&self) -> (r: &T)
        ensures
            *r == self.spec_value(),
    {
        &self.value
    }

    /// The stored value, for in-place update.
    pub fn value_mut(&mut self) -> (r: &mut T)
        ensures
            *r == old(self).spec_value(),
            final(self).spec_handle() == old(self).spec_handle(),
            final(self).spec_value() == *final(r),
    {
        &mut self.value
    }

    /// Returns the chunk to `pool` and hands the value back. The chunk is
    /// freed exactly when `pool` is the pool the box was created from and
    /// still has the chunk handed out; a foreign pool is left unchanged.
    pub fn destroy(self, pool: &mut Pool) -> (t: T)
        requires
            old(pool).wf(),
        ensures
            final(pool).wf(),
            t == self.spec_value(),
            final(pool).spec_config() == old(pool).spec_config(),
            (self.spec_handle() < old(pool).spec_total_chunks() && old(pool).spec_live()[
                self.spec_handle()] == true) ==> {
                &&& final(pool).spec_total_chunks() == old(pool).spec_total_chunks()
                &&& final(pool).spec_free_list() == old(pool).spec_free_list().push(
                    self.spec_handle() as usize,
                )
                &&& final(pool).spec_live() == old(pool).spec_live().update(
                    self.spec_handle(),
                    false,
                )
                &&& final(pool).spec_allocated() == old(pool).spec_allocated()
                &&& final(pool).spec_freed() == old(pool).spec_freed() + 1
            },
            !(self.spec_handle() < old(pool).spec_total_chunks() && old(pool).spec_live()[
                self.spec_handle()] == true) ==> *final(pool) == *old(pool),
    {
        let PoolBox { handle, value } = self;
        let _ = pool.free(handle);
        value
    }
}

} // verus!
