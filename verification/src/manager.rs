//! Central memory registry: lifetime counters for allocations, a named
//! registry of allocator snapshots with aggregate reports, and a throttled
//! sampler recording counter snapshots over time.

use vstd::prelude::*;

verus! {

use crate::format::{push_digits, push_fixed2, scaled_hundredths, spec_digits, spec_fixed2, spec_scaled_hundredths};
use vstd::string::StringExecFns;

/// Lifetime counters for allocations and deallocations, with current and
/// peak usage.
///
/// The peak is updated on every recorded allocation, so it never drops
/// below the current usage and never decreases except through an explicit
/// `reset`.
pub struct MemoryStats {
    total_allocations: usize,
    total_deallocations: usize,
    total_bytes_allocated: usize,
    total_bytes_deallocated: usize,
    peak_memory_usage: usize,
    current_memory_usage: usize,
}

impl MemoryStats {
    /// Allocations recorded so far.
    pub closed spec fn spec_allocations(&self) -> int {
        self.total_allocations as int
    }

    /// Deallocations recorded so far.
    pub closed spec fn spec_deallocations(&self) -> int {
        self.total_deallocations as int
    }

    /// Bytes recorded as allocated.
    pub closed spec fn spec_bytes_allocated(&self) -> int {
        self.total_bytes_allocated as int
    }

    /// Bytes recorded as deallocated.
    pub closed spec fn spec_bytes_deallocated(&self) -> int {
        self.total_bytes_deallocated as int
    }

    /// The highest usage seen so far.
    pub closed spec fn spec_peak(&self) -> int {
        self.peak_memory_usage as int
    }

    /// Bytes currently in use.
    pub closed spec fn spec_current(&self) -> int {
        self.current_memory_usage as int
    }

    /// The counters agree: current usage is the balance of the byte
    /// counters, deallocations never outnumber allocations, and the peak
    /// dominates the current usage.
    pub open spec fn wf(&self) -> bool {
        &&& self.spec_deallocations() <= self.spec_allocations()
        &&& self.spec_bytes_deallocated() <= self.spec_bytes_allocated()
        &&& self.spec_current() == self.spec_bytes_allocated() - self.spec_bytes_deallocated()
        &&& self.spec_peak() >= self.spec_current()
    }

    /// Whether one more allocation of `size` bytes can be recorded without
    /// a counter overflowing.
    pub open spec fn can_record_allocation(&self, size: int) -> bool {
        &&& self.spec_allocations() < usize::MAX
        &&& self.spec_bytes_allocated() + size <= usize::MAX
    }

    /// Creates a zeroed counter set.
    pub fn new() -> (r: MemoryStats)
        ensures
            r.wf(),
            r.spec_allocations() == 0,
            r.spec_deallocations() == 0,
            r.spec_bytes_allocated() == 0,
            r.spec_bytes_deallocated() == 0,
            r.spec_peak() == 0,
            r.spec_current() == 0,
    {
        MemoryStats {
            total_allocations: 0,
            total_deallocations: 0,
            total_bytes_allocated: 0,
            total_bytes_deallocated: 0,
            peak_memory_usage: 0,
            current_memory_usage: 0,
        }
    }

    /// Records one allocation of `size` bytes; the peak rises to the new
    /// current usage when that exceeds it, so the peak never decreases.
    pub fn record_allocation(&mut self, size: usize)
        requires
            old(self).wf(),
            old(self).can_record_allocation(size as int),
        ensures
            final(self).wf(),
            final(self).spec_allocations() == old(self).spec_allocations() + 1,
            final(self).spec_deallocations() == old(self).spec_deallocations(),
            final(self).spec_bytes_allocated() == old(self).spec_bytes_allocated() + size,
            final(self).spec_bytes_deallocated() == old(self).spec_bytes_deallocated(),
            final(self).spec_current() == old(self).spec_current() + size,
            final(self).spec_peak() == if old(self).spec_current() + size > old(
                self,
            ).spec_peak() {
                old(self).spec_current() + size
            } else {
                old(self).spec_peak()
            },
            final(self).spec_peak() >= old(self).spec_peak(),
            final(self).spec_peak() >= final(self).spec_current(),
    {
        self.total_allocations = self.total_allocations + 1;
        self.total_bytes_allocated = self.total_bytes_allocated + size;
        let current = self.current_memory_usage + size;
        self.current_memory_usage = current;
        if current > self.peak_memory_usage {
            self.peak_memory_usage = current;
        }
    }

    /// Records one deallocation of `size` bytes; the peak is untouched.
    /// The deallocation must balance recorded allocations: `size` may not
    /// exceed the current usage, and a deallocation needs an allocation to
    /// pair with.
    pub fn record_deallocation(&mut self, size: usize)
        requires
            old(self).wf(),
            size <= old(self).spec_current(),
            old(self).spec_deallocations() < old(self).spec_allocations(),
        ensures
            final(self).wf(),
            final(self).spec_allocations() == old(self).spec_allocations(),
            final(self).spec_deallocations() == old(self).spec_deallocations() + 1,
            final(self).spec_bytes_allocated() == old(self).spec_bytes_allocated(),
            final(self).spec_bytes_deallocated() == old(self).spec_bytes_deallocated() + size,
            final(self).spec_current() == old(self).spec_current() - size,
            final(self).spec_peak() == old(self).spec_peak(),
    {
        self.total_deallocations = self.total_deallocations + 1;
        self.total_bytes_deallocated = self.total_bytes_deallocated + size;
        self.current_memory_usage = self.current_memory_usage - size;
    }

    /// Allocations recorded so far.
    pub fn total_allocations(&self) -> (r: usize)
        ensures
            r == self.spec_allocations(),
    {
        self.total_allocations
    }

    /// Deallocations recorded so far.
    pub fn total_deallocations(&self) -> (r: usize)
        ensures
            r == self.spec_deallocations(),
    {
        self.total_deallocations
    }

    /// Bytes recorded as allocated.
    pub fn total_bytes_allocated(&self) -> (r: usize)
        ensures
            r == self.spec_bytes_allocated(),
    {
        self.total_bytes_allocated
    }

    /// Bytes recorded as deallocated.
    pub fn total_bytes_deallocated(&self) -> (r: usize)
        ensures
            r == self.spec_bytes_deallocated(),
    {
        self.total_bytes_deallocated
    }

    /// Bytes currently in use.
    pub fn current_memory_usage(&self) -> (r: usize)
        ensures
            r == self.spec_current(),
    {
        self.current_memory_usage
    }

    /// The highest usage seen so far; at least the current usage.
    pub fn peak_memory_usage(&self) -> (r: usize)
        ensures
            r == self.spec_peak(),
    {
        self.peak_memory_usage
    }

    /// Allocations not yet balanced by a deallocation.
    pub fn active_allocations(&self) -> (r: usize)
        requires
            self.wf(),
        ensures
            r == self.spec_allocations() - self.spec_deallocations(),
    {
        self.total_allocations - self.total_deallocations
    }

    /// Zeroes every counter, the peak included.
    pub fn reset(&mut self)
        ensures
            final(self).wf(),
            final(self).spec_allocations() == 0,
            final(self).spec_deallocations() == 0,
            final(self).spec_bytes_allocated() == 0,
            final(self).spec_bytes_deallocated() == 0,
            final(self).spec_peak() == 0,
            final(self).spec_current() == 0,
    {
        self.total_allocations = 0;
        self.total_deallocations = 0;
        self.total_bytes_allocated = 0;
        self.total_bytes_deallocated = 0;
        self.peak_memory_usage = 0;
        self.current_memory_usage = 0;
    }
}

impl Default for MemoryStats {
    /// The same zeroed counter set as `MemoryStats::new`.
    fn default() -> (r: MemoryStats)
        ensures
            r.wf(),
            r.spec_allocations() == 0,
            r.spec_deallocations() == 0,
            r.spec_bytes_allocated() == 0,
            r.spec_bytes_deallocated() == 0,
            r.spec_peak() == 0,
            r.spec_current() == 0,
    {
        MemoryStats::new()
    }
}

/// In a well-formed counter set the peak usage dominates the current usage
/// at every observation; `record_allocation` raises it together with the
/// current usage and `record_deallocation` leaves it untouched, so it never
/// decreases over the counters' lifetime.
pub proof fn lemma_peak_dominates_current(s: MemoryStats)
    requires
        s.wf(),
    ensures
        s.spec_peak() >= s.spec_current(),
{
}

/// The kind of allocator a snapshot describes.
#[derive(Debug, Clone, Copy, PartialEq, Eq, Structural)]
pub enum AllocatorType {
    /// Bump arena.
    Arena,
    /// Fixed-chunk pool.
    Pool,
    /// LIFO stack allocator.
    Stack,
    /// Double-ended stack.
    DoubleEndedStack,
    /// Anything else.
    Custom,
}

/// The label naming an allocator kind.
pub open spec fn spec_type_label(t: AllocatorType) -> Seq<char> {
    match t {
        AllocatorType::Arena => "Arena"@,
        AllocatorType::Pool => "Pool"@,
        AllocatorType::Stack => "Stack"@,
        AllocatorType::DoubleEndedStack => "DoubleEndedStack"@,
        AllocatorType::Custom => "Custom"@,
    }
}

impl AllocatorType {
    /// The label naming this allocator kind.
    pub fn label(&self) -> (r: &'static str)
        ensures
            r@ == spec_type_label(*self),
    {
        match self {
            AllocatorType::Arena => "Arena",
            AllocatorType::Pool => "Pool",
            AllocatorType::Stack => "Stack",
            AllocatorType::DoubleEndedStack => "DoubleEndedStack",
            AllocatorType::Custom => "Custom",
        }
    }
}

/// An immutable snapshot of one allocator, taken at registration time.
#[derive(Debug, Clone, Copy)]
pub struct AllocatorInfo {
    /// The kind of allocator described.
    pub allocator_type: AllocatorType,
    /// Capacity of its backing storage in bytes.
    pub total_capacity: usize,
    /// Bytes in use when the snapshot was taken.
    pub used: usize,
    /// Bytes still free when the snapshot was taken.
    pub available: usize,
    /// Allocations over the allocator's lifetime.
    pub allocation_count: usize,
    /// Deallocations over the allocator's lifetime.
    pub deallocation_count: usize,
}

impl AllocatorInfo {
    /// Allocations not yet balanced by a deallocation; zero when the
    /// snapshot records more deallocations than allocations.
    pub fn active_allocations(&self) -> (r: usize)
        ensures
            r == if self.allocation_count >= self.deallocation_count {
                self.allocation_count - self.deallocation_count
            } else {
                0
            },
    {
        if self.allocation_count >= self.deallocation_count {
            self.allocation_count - self.deallocation_count
        } else {
            0
        }
    }
}

/// The snapshot registered under `name`, if any.
pub open spec fn find_entry(s: Seq<(String, AllocatorInfo)>, name: Seq<char>) -> Option<
    AllocatorInfo,
>
    decreases s.len(),
{
    if s.len() == 0 {
        None
    } else if s.last().0@ == name {
        Some(s.last().1)
    } else {
        find_entry(s.drop_last(), name)
    }
}

/// No two entries share a name.
pub open spec fn unique_keys(s: Seq<(String, AllocatorInfo)>) -> bool {
    forall|j1: int, j2: int|
        0 <= j1 < j2 < s.len() ==> (#[trigger] s[j1]).0@ != (#[trigger] s[j2]).0@
}

/// The total capacity across all registered snapshots.
pub open spec fn sum_capacity(s: Seq<(String, AllocatorInfo)>) -> int
    decreases s.len(),
{
    if s.len() == 0 {
        0
    } else {
        sum_capacity(s.drop_last()) + s.last().1.total_capacity
    }
}

/// The total used bytes across all registered snapshots.
pub open spec fn sum_used(s: Seq<(String, AllocatorInfo)>) -> int
    decreases s.len(),
{
    if s.len() == 0 {
        0
    } else {
        sum_used(s.drop_last()) + s.last().1.used
    }
}

/// The total available bytes across all registered snapshots.
pub open spec fn sum_available(s: Seq<(String, AllocatorInfo)>) -> int
    decreases s.len(),
{
    if s.len() == 0 {
        0
    } else {
        sum_available(s.drop_last()) + s.last().1.available
    }
}

/// When no entry carries `name`, nothing is found under it.
proof fn lemma_find_entry_absent(s: Seq<(String, AllocatorInfo)>, name: Seq<char>)
    requires
        forall|j: int| 0 <= j < s.len() ==> (#[trigger] s[j]).0@ != name,
    ensures
        find_entry(s, name) == None::<AllocatorInfo>,
    decreases s.len(),
{
    if s.len() > 0 {
        lemma_find_entry_absent(s.drop_last(), name);
    }
}

/// With unique names, the entry at any index is the one found under its
/// name.
proof fn lemma_find_entry_at_index(s: Seq<(String, AllocatorInfo)>, i: int)
    requires
        unique_keys(s),
        0 <= i < s.len(),
    ensures
        find_entry(s, s[i].0@) == Some(s[i].1),
    decreases s.len(),
{
    if i == s.len() - 1 {
    } else {
        assert(s.last().0@ != s[i].0@);
        assert(unique_keys(s.drop_last())) by {
            assert(forall|j: int|
                0 <= j < s.drop_last().len() ==> s.drop_last()[j] == s[j]);
        }
        lemma_find_entry_at_index(s.drop_last(), i);
    }
}

/// Central registry of named allocator snapshots with global counters.
pub struct MemoryManager {
    stats: MemoryStats,
    allocators: Vec<(String, AllocatorInfo)>,
}

impl MemoryManager {
    /// The global counters.
    pub closed spec fn spec_stats(&self) -> MemoryStats {
        self.stats
    }

    /// The registered snapshots, in registration order.
    pub closed spec fn spec_entries(&self) -> Seq<(String, AllocatorInfo)> {
        self.allocators@
    }

    /// The registry never holds two snapshots under one name, and its
    /// counters agree.
    pub open spec fn wf(&self) -> bool {
        &&& unique_keys(self.spec_entries())
        &&& self.spec_stats().wf()
    }

    /// Creates an empty registry.
    pub fn new() -> (r: MemoryManager)
        ensures
            r.wf(),
            r.spec_entries().len() == 0,
            r.spec_stats().spec_allocations() == 0,
            r.spec_stats().spec_deallocations() == 0,
            r.spec_stats().spec_bytes_allocated() == 0,
            r.spec_stats().spec_bytes_deallocated() == 0,
            r.spec_stats().spec_current() == 0,
            r.spec_stats().spec_peak() == 0,
    {
        MemoryManager { stats: MemoryStats::new(), allocators: Vec::new() }
    }

    /// Stores `info` under `name`, replacing any snapshot already
    /// registered under that name; every other snapshot is untouched.
    pub fn register_allocator(&mut self, name: &str, info: AllocatorInfo)
        requires
            old(self).wf(),
        ensures
            final(self).wf(),
            final(self).spec_stats() == old(self).spec_stats(),
            find_entry(final(self).spec_entries(), name@) == Some(info),
            forall|n: Seq<char>|
                n != name@ ==> #[trigger] find_entry(final(self).spec_entries(), n) == find_entry(
                    old(self).spec_entries(),
                    n,
                ),
            final(self).spec_entries().len() == old(self).spec_entries().len() + (
            if find_entry(old(self).spec_entries(), name@) is Some {
                0int
            } else {
                1int
            }),
    {
        let owned: String = name.to_owned();
        let n = self.allocators.len();
        let mut i: usize = 0;
        let ghost entries = self.allocators@;
        while i < n
            invariant
                old(self).wf(),
                n == entries.len(),
                self.allocators@ == entries,
                entries == old(self).spec_entries(),
                self.stats == old(self).stats,
                unique_keys(entries),
                i <= n,
                forall|j: int| 0 <= j < i ==> (#[trigger] entries[j]).0@ != owned@,
                owned@ == name@,
            decreases n - i,
        {
            if self.allocators[i].0 == owned {
                self.allocators[i] = (owned, info);
                proof {
                    let updated = self.allocators@;
                    assert(updated =~= entries.update(i as int, (owned, info)));
                    assert(unique_keys(updated)) by {
                        assert(forall|j: int|
                            0 <= j < updated.len() && j != i ==> updated[j] == entries[j]);
                    }
                    lemma_find_entry_at_index(updated, i as int);
                    lemma_find_entry_at_index(entries, i as int);
                    assert forall|q: Seq<char>| q != name@ implies #[trigger] find_entry(
                        updated,
                        q,
                    ) == find_entry(entries, q) by {
                        lemma_find_entry_agrees(entries, updated, q);
                    }
                }
                return ;
            }
            i = i + 1;
        }
        self.allocators.push((owned, info));
        proof {
            lemma_find_entry_absent(entries, name@);
            let pushed = self.allocators@;
            assert(pushed.drop_last() =~= entries);
            assert(pushed.last() == (owned, info));
            assert(unique_keys(pushed)) by {
                assert(forall|j: int| 0 <= j < entries.len() ==> pushed[j] == entries[j]);
            }
        }
    }

    /// The global counters.
    pub fn global_stats(&self) -> (r: &MemoryStats)
        ensures
            r == &self.spec_stats(),
    {
        &self.stats
    }

    /// The snapshot registered under `name`, if any.
    pub fn allocator_stats(&self, name: &str) -> (r: Option<&AllocatorInfo>)
        requires
            self.wf(),
        ensures
            match r {
                Some(info) => find_entry(self.spec_entries(), name@) == Some(*info),
                None => find_entry(self.spec_entries(), name@) == None::<AllocatorInfo>,
            },
    {
        let owned: String = name.to_owned();
        let n = self.allocators.len();
        let mut i: usize = 0;
        while i < n
            invariant
                self.wf(),
                n == self.spec_entries().len(),
                i <= n,
                forall|j: int| 0 <= j < i ==> (#[trigger] self.spec_entries()[j]).0@ != owned@,
                owned@ == name@,
            decreases n - i,
        {
            if self.allocators[i].0 == owned {
                proof {
                    lemma_find_entry_at_index(self.spec_entries(), i as int);
                }
                return Some(&self.allocators[i].1);
            }
            i = i + 1;
        }
        proof {
            lemma_find_entry_absent(self.spec_entries(), name@);
        }
        None
    }

    /// All registered snapshots, in registration order.
    pub fn all_allocator_stats(&self) -> (r: &Vec<(String, AllocatorInfo)>)
        ensures
            r@ == self.spec_entries(),
    {
        &self.allocators
    }

    /// Aggregates every registered snapshot into one report: the sums of
    /// capacities, used and available bytes, with a copy of the registry.
    pub fn report(&self) -> (r: MemoryReport)
        requires
            self.wf(),
            sum_capacity(self.spec_entries()) <= usize::MAX,
            sum_used(self.spec_entries()) <= usize::MAX,
            sum_available(self.spec_entries()) <= usize::MAX,
        ensures
            r.total_allocated == sum_capacity(self.spec_entries()),
            r.total_used == sum_used(self.spec_entries()),
            r.total_free == sum_available(self.spec_entries()),
            r.allocator_count == self.spec_entries().len(),
            r.allocators@ == self.spec_entries(),
    {
        let n = self.allocators.len();
        let mut total_allocated: usize = 0;
        let mut total_used: usize = 0;
        let mut total_free: usize = 0;
        let mut copies: Vec<(String, AllocatorInfo)> = Vec::new();
        let mut i: usize = 0;
        proof {
            assert(self.spec_entries().take(0) =~= Seq::<(String, AllocatorInfo)>::empty());
        }
        while i < n
            invariant
                self.wf(),
                n == self.spec_entries().len(),
                i <= n,
                sum_capacity(self.spec_entries()) <= usize::MAX,
                sum_used(self.spec_entries()) <= usize::MAX,
                sum_available(self.spec_entries()) <= usize::MAX,
                total_allocated == sum_capacity(self.spec_entries().take(i as int)),
                total_used == sum_used(self.spec_entries().take(i as int)),
                total_free == sum_available(self.spec_entries().take(i as int)),
                copies@ == self.spec_entries().take(i as int),
            decreases n - i,
        {
            proof {
                lemma_sum_take_succ(self.spec_entries(), i as int);
                lemma_sum_prefix_bounds(self.spec_entries(), i as int + 1);
            }
            let entry = &self.allocators[i];
            total_allocated = total_allocated + entry.1.total_capacity;
            total_used = total_used + entry.1.used;
            total_free = total_free + entry.1.available;
            copies.push((entry.0.clone(), entry.1));
            proof {
                assert(copies@ =~= self.spec_entries().take(i as int + 1));
            }
            i = i + 1;
        }
        proof {
            assert(self.spec_entries().take(n as int) =~= self.spec_entries());
        }
        MemoryReport {
            total_allocated,
            total_used,
            total_free,
            allocator_count: n,
            allocators: copies,
        }
    }

    /// Clears the registry and zeroes the global counters.
    pub fn reset_stats(&mut self)
        ensures
            final(self).wf(),
            final(self).spec_entries().len() == 0,
            final(self).spec_stats().spec_allocations() == 0,
            final(self).spec_stats().spec_deallocations() == 0,
            final(self).spec_stats().spec_bytes_allocated() == 0,
            final(self).spec_stats().spec_bytes_deallocated() == 0,
            final(self).spec_stats().spec_current() == 0,
            final(self).spec_stats().spec_peak() == 0,
    {
        self.stats.reset();
        self.allocators.clear();
    }
}

impl Default for MemoryManager {
    /// The same empty registry as `MemoryManager::new`.
    fn default() -> (r: MemoryManager)
        ensures
            r.wf(),
            r.spec_entries().len() == 0,
            r.spec_stats().spec_allocations() == 0,
            r.spec_stats().spec_deallocations() == 0,
            r.spec_stats().spec_bytes_allocated() == 0,
            r.spec_stats().spec_bytes_deallocated() == 0,
            r.spec_stats().spec_current() == 0,
            r.spec_stats().spec_peak() == 0,
    {
        MemoryManager::new()
    }
}

/// Two registries that agree on every entry not named `q` are searched the
/// same way for `q`.
proof fn lemma_find_entry_agrees(
    s1: Seq<(String, AllocatorInfo)>,
    s2: Seq<(String, AllocatorInfo)>,
    q: Seq<char>,
)
    requires
        s1.len() == s2.len(),
        forall|j: int|
            0 <= j < s1.len() ==> (#[trigger] s1[j]).0@ == s2[j].0@ && (s1[j].0@ == q ==> s1[j].1
                == s2[j].1),
    ensures
        find_entry(s1, q) == find_entry(s2, q),
    decreases s1.len(),
{
    if s1.len() > 0 {
        assert(forall|j: int|
            0 <= j < s1.drop_last().len() ==> s1.drop_last()[j] == s1[j] && s2.drop_last()[j]
                == s2[j]);
        lemma_find_entry_agrees(s1.drop_last(), s2.drop_last(), q);
    }
}

/// One more entry adds its fields to each running sum.
proof fn lemma_sum_take_succ(s: Seq<(String, AllocatorInfo)>, i: int)
    requires
        0 <= i < s.len(),
    ensures
        sum_capacity(s.take(i + 1)) == sum_capacity(s.take(i)) + s[i].1.total_capacity,
        sum_used(s.take(i + 1)) == sum_used(s.take(i)) + s[i].1.used,
        sum_available(s.take(i + 1)) == sum_available(s.take(i)) + s[i].1.available,
{
    assert(s.take(i + 1).drop_last() =~= s.take(i));
    assert(s.take(i + 1).last() == s[i]);
}

/// Partial sums never exceed the whole: every prefix sum is bounded by the
/// sum over the full registry.
proof fn lemma_sum_prefix_bounds(s: Seq<(String, AllocatorInfo)>, i: int)
    requires
        0 <= i <= s.len(),
    ensures
        0 <= sum_capacity(s.take(i)) <= sum_capacity(s),
        0 <= sum_used(s.take(i)) <= sum_used(s),
        0 <= sum_available(s.take(i)) <= sum_available(s),
    decreases s.len() - i,
{
    if i == s.len() {
        assert(s.take(i) =~= s);
        lemma_sum_nonneg(s);
    } else {
        lemma_sum_take_succ(s, i);
        lemma_sum_prefix_bounds(s, i + 1);
        lemma_sum_nonneg(s.take(i));
    }
}

/// Each sum over snapshots is nonnegative.
proof fn lemma_sum_nonneg(s: Seq<(String, AllocatorInfo)>)
    ensures
        sum_capacity(s) >= 0,
        sum_used(s) >= 0,
        sum_available(s) >= 0,
    decreases s.len(),
{
    if s.len() > 0 {
        lemma_sum_nonneg(s.drop_last());
    }
}

/// An aggregate report over every registered snapshot, taken at call time.
#[derive(Debug, Clone)]
pub struct MemoryReport {
    /// Sum of the snapshots' capacities.
    pub total_allocated: usize,
    /// Sum of the snapshots' used bytes.
    pub total_used: usize,
    /// Sum of the snapshots' available bytes.
    pub total_free: usize,
    /// How many snapshots were registered.
    pub allocator_count: usize,
    /// The snapshots themselves, in registration order.
    pub allocators: Vec<(String, AllocatorInfo)>,
}

/// The utilization of `used` bytes out of `allocated`, in rounded
/// hundredths of a percent; zero when nothing is allocated.
pub open spec fn spec_utilization_hundredths(used: nat, allocated: nat) -> nat {
    if allocated == 0 {
        0
    } else {
        ((used * 10000 + allocated / 2) / allocated) as nat
    }
}

/// The machine-readable rendering of a report: one JSON object holding the
/// three totals, the utilization percentage with two fraction digits, and
/// the snapshot count.
pub open spec fn spec_report_json(r: MemoryReport) -> Seq<char> {
    "{\"total_allocated\": "@ + spec_digits(r.total_allocated as nat)
        + ", \"total_used\": "@ + spec_digits(r.total_used as nat) + ", \"total_free\": "@
        + spec_digits(r.total_free as nat) + ", \"utilization\": "@ + spec_fixed2(
        spec_utilization_hundredths(r.total_used as nat, r.total_allocated as nat),
    ) + ", \"allocator_count\": "@ + spec_digits(r.allocator_count as nat) + "}"@
}

impl MemoryReport {
    /// Renders the report as one JSON object.
    pub fn to_json(&self) -> (r: String)
        ensures
            r@ == spec_report_json(*self),
    {
        let mut s = String::new();
        proof {
            reveal_strlit("{\"total_allocated\": ");
            reveal_strlit(", \"total_used\": ");
            reveal_strlit(", \"total_free\": ");
            reveal_strlit(", \"utilization\": ");
            reveal_strlit(", \"allocator_count\": ");
            reveal_strlit("}");
        }
        s.append("{\"total_allocated\": ");
        push_digits(&mut s, self.total_allocated as u128);
        s.append(", \"total_used\": ");
        push_digits(&mut s, self.total_used as u128);
        s.append(", \"total_free\": ");
        push_digits(&mut s, self.total_free as u128);
        s.append(", \"utilization\": ");
        let util = utilization_hundredths(self.total_used, self.total_allocated);
        push_fixed2(&mut s, util);
        s.append(", \"allocator_count\": ");
        push_digits(&mut s, self.allocator_count as u128);
        s.append("}");
        proof {
            assert(s@ =~= spec_report_json(*self));
        }
        s
    }

    /// Renders the report as the human-readable summary.
    #[verifier::rlimit(60)]
    pub fn summary(&self) -> (r: String)
        ensures
            r@ == spec_report_summary(*self),
    {
        let mut s = String::new();
        proof {
            reveal_strlit("=== Memory Report ===\n");
            reveal_strlit("Total Allocated: ");
            reveal_strlit("Total Used: ");
            reveal_strlit("Total Free: ");
            reveal_strlit(" bytes (");
            reveal_strlit(" MB)\n");
            reveal_strlit("Utilization: ");
            reveal_strlit("%\n");
            reveal_strlit("Allocators: ");
            reveal_strlit("\n");
        }
        s.append("=== Memory Report ===\n");
        s.append("Total Allocated: ");
        push_digits(&mut s, self.total_allocated as u128);
        s.append(" bytes (");
        push_fixed2(&mut s, scaled_hundredths(self.total_allocated as u128, 1048576));
        s.append(" MB)\n");
        s.append("Total Used: ");
        push_digits(&mut s, self.total_used as u128);
        s.append(" bytes (");
        push_fixed2(&mut s, scaled_hundredths(self.total_used as u128, 1048576));
        s.append(" MB)\n");
        s.append("Total Free: ");
        push_digits(&mut s, self.total_free as u128);
        s.append(" bytes (");
        push_fixed2(&mut s, scaled_hundredths(self.total_free as u128, 1048576));
        s.append(" MB)\n");
        s.append("Utilization: ");
        let util = utilization_hundredths(self.total_used, self.total_allocated);
        push_fixed2(&mut s, util);
        s.append("%\n");
        s.append("Allocators: ");
        push_digits(&mut s, self.allocator_count as u128);
        s.append("\n");
        proof {
            assert(s@ =~= spec_summary_header(*self));
            assert(self.allocators@.take(0) =~= Seq::<(String, AllocatorInfo)>::empty());
        }
        let n = self.allocators.len();
        let mut i: usize = 0;
        while i < n
            invariant
                n == self.allocators@.len(),
                i <= n,
                s@ == spec_summary_header(*self) + spec_entries_summary(
                    self.allocators@.take(i as int),
                ),
            decreases n - i,
        {
            proof {
                reveal_strlit("  ");
                reveal_strlit(": ");
                reveal_strlit("\n    Capacity: ");
                reveal_strlit(" bytes\n    Used: ");
                reveal_strlit(" bytes\n    Available: ");
                reveal_strlit(" bytes\n    Active Allocations: ");
                reveal_strlit("\n");
                assert(self.allocators@.take(i as int + 1).drop_last() =~= self.allocators@.take(
                    i as int,
                ));
                assert(self.allocators@.take(i as int + 1).last() == self.allocators@[i as int]);
            }
            let entry = &self.allocators[i];
            s.append("  ");
            s.append(entry.0.as_str());
            s.append(": ");
            s.append(entry.1.allocator_type.label());
            s.append("\n    Capacity: ");
            push_digits(&mut s, entry.1.total_capacity as u128);
            s.append(" bytes\n    Used: ");
            push_digits(&mut s, entry.1.used as u128);
            s.append(" bytes\n    Available: ");
            push_digits(&mut s, entry.1.available as u128);
            s.append(" bytes\n    Active Allocations: ");
            push_digits(&mut s, entry.1.active_allocations() as u128);
            s.append("\n");
            proof {
                assert(s@ =~= spec_summary_header(*self) + spec_entries_summary(
                    self.allocators@.take(i as int + 1),
                ));
            }
            i = i + 1;
        }
        proof {
            assert(self.allocators@.take(n as int) =~= self.allocators@);
        }
        s
    }
}

/// The utilization of `used` out of `allocated` in rounded hundredths of a
/// percent.
fn utilization_hundredths(used: usize, allocated: usize) -> (r: u128)
    ensures
        r == spec_utilization_hundredths(used as nat, allocated as nat),
{
    if allocated == 0 {
        0
    } else {
        ((used as u128) * 10000 + (allocated as u128) / 2) / (allocated as u128)
    }
}

/// A snapshot's unbalanced allocations, floored at zero.
pub open spec fn spec_active_allocations(info: AllocatorInfo) -> nat {
    if info.allocation_count >= info.deallocation_count {
        (info.allocation_count - info.deallocation_count) as nat
    } else {
        0
    }
}

/// One registry entry's lines in the human-readable summary.
pub open spec fn spec_entry_summary(name: Seq<char>, info: AllocatorInfo) -> Seq<char> {
    "  "@ + name + ": "@ + spec_type_label(info.allocator_type) + "\n    Capacity: "@
        + spec_digits(info.total_capacity as nat) + " bytes\n    Used: "@ + spec_digits(
        info.used as nat,
    ) + " bytes\n    Available: "@ + spec_digits(info.available as nat)
        + " bytes\n    Active Allocations: "@ + spec_digits(spec_active_allocations(info))
        + "\n"@
}

/// Every registry entry's lines, in registration order.
pub open spec fn spec_entries_summary(s: Seq<(String, AllocatorInfo)>) -> Seq<char>
    decreases s.len(),
{
    if s.len() == 0 {
        Seq::empty()
    } else {
        spec_entries_summary(s.drop_last()) + spec_entry_summary(s.last().0@, s.last().1)
    }
}

/// The summary's heading: the three totals with their size in MB to two
/// fraction digits, the utilization percentage, and the snapshot count.
pub open spec fn spec_summary_header(r: MemoryReport) -> Seq<char> {
    "=== Memory Report ===\n"@ + "Total Allocated: "@ + spec_digits(r.total_allocated as nat)
        + " bytes ("@ + spec_fixed2(spec_scaled_hundredths(r.total_allocated as nat, 1048576))
        + " MB)\n"@ + "Total Used: "@ + spec_digits(r.total_used as nat) + " bytes ("@
        + spec_fixed2(spec_scaled_hundredths(r.total_used as nat, 1048576)) + " MB)\n"@
        + "Total Free: "@ + spec_digits(r.total_free as nat) + " bytes ("@ + spec_fixed2(
        spec_scaled_hundredths(r.total_free as nat, 1048576),
    ) + " MB)\n"@ + "Utilization: "@ + spec_fixed2(
        spec_utilization_hundredths(r.total_used as nat, r.total_allocated as nat),
    ) + "%\n"@ + "Allocators: "@ + spec_digits(r.allocator_count as nat) + "\n"@
}

/// The human-readable rendering of a report: the heading followed by one
/// block of lines per registered snapshot.
pub open spec fn spec_report_summary(r: MemoryReport) -> Seq<char> {
    spec_summary_header(r) + spec_entries_summary(r.allocators@)
}

/// One snapshot of a counter set, taken by the profiler.
#[derive(Debug, Clone, Copy)]
pub struct MemorySample {
    /// When the sample was taken, in nanoseconds of the caller's clock.
    pub timestamp_nanos: u64,
    /// Bytes in use at sample time.
    pub current_usage: usize,
    /// Peak usage at sample time.
    pub peak_usage: usize,
    /// Bytes recorded as allocated at sample time.
    pub total_allocated: usize,
    /// Bytes recorded as deallocated at sample time.
    pub total_deallocated: usize,
    /// Allocations not yet balanced at sample time.
    pub active_allocations: usize,
}

/// The sum of the samples' current usages.
pub open spec fn sum_current_usage(s: Seq<MemorySample>) -> int
    decreases s.len(),
{
    if s.len() == 0 {
        0
    } else {
        sum_current_usage(s.drop_last()) + s.last().current_usage
    }
}

/// The largest peak usage among the samples; zero when there are none.
pub open spec fn max_peak_usage(s: Seq<MemorySample>) -> int
    decreases s.len(),
{
    if s.len() == 0 {
        0
    } else if s.last().peak_usage >= max_peak_usage(s.drop_last()) {
        s.last().peak_usage as int
    } else {
        max_peak_usage(s.drop_last())
    }
}

/// Records time-stamped snapshots of a counter set, at most one per
/// sampling interval.
///
/// Callers supply the current time in nanoseconds; the profiler itself
/// never reads a clock.
pub struct MemoryProfiler {
    samples: Vec<MemorySample>,
    sample_interval: u64,
    last_sample: Option<u64>,
}

impl MemoryProfiler {
    /// The recorded samples, oldest first.
    pub closed spec fn spec_samples(&self) -> Seq<MemorySample> {
        self.samples@
    }

    /// The minimum spacing between samples, in nanoseconds.
    pub closed spec fn spec_interval(&self) -> int {
        self.sample_interval as int
    }

    /// When the last sample was taken, if any.
    pub closed spec fn spec_last(&self) -> Option<u64> {
        self.last_sample
    }

    /// Creates a profiler that keeps at most one sample per
    /// `sample_interval_nanos` nanoseconds.
    pub fn new(sample_interval_nanos: u64) -> (r: MemoryProfiler)
        ensures
            r.spec_samples().len() == 0,
            r.spec_interval() == sample_interval_nanos,
            r.spec_last() == None::<u64>,
    {
        MemoryProfiler { samples: Vec::new(), sample_interval: sample_interval_nanos, last_sample: None }
    }

    /// Whether a sample taken at `now` would be recorded: always for the
    /// first sample, afterwards only once the interval has elapsed.
    pub open spec fn would_sample(&self, now: int) -> bool {
        match self.spec_last() {
            None => true,
            Some(last) => now >= last + self.spec_interval(),
        }
    }

    /// Appends a snapshot of `stats` stamped `now_nanos` — exactly when the
    /// sampling interval has elapsed since the previous sample; otherwise
    /// the profiler is unchanged.
    pub fn sample(&mut self, stats: &MemoryStats, now_nanos: u64)
        requires
            stats.wf(),
        ensures
            final(self).spec_interval() == old(self).spec_interval(),
            old(self).would_sample(now_nanos as int) ==> {
                &&& final(self).spec_samples() == old(self).spec_samples().push(
                    MemorySample {
                        timestamp_nanos: now_nanos,
                        current_usage: stats.spec_current() as usize,
                        peak_usage: stats.spec_peak() as usize,
                        total_allocated: stats.spec_bytes_allocated() as usize,
                        total_deallocated: stats.spec_bytes_deallocated() as usize,
                        active_allocations: (stats.spec_allocations()
                            - stats.spec_deallocations()) as usize,
                    },
                )
                &&& final(self).spec_last() == Some(now_nanos)
            },
            !old(self).would_sample(now_nanos as int) ==> *final(self) == *old(self),
    {
        match self.last_sample {
            Some(last) => {
                if now_nanos < last || now_nanos - last < self.sample_interval {
                    return ;
                }
            },
            None => {},
        }
        self.samples.push(
            MemorySample {
                timestamp_nanos: now_nanos,
                current_usage: stats.current_memory_usage(),
                peak_usage: stats.peak_memory_usage(),
                total_allocated: stats.total_bytes_allocated(),
                total_deallocated: stats.total_bytes_deallocated(),
                active_allocations: stats.active_allocations(),
            },
        );
        self.last_sample = Some(now_nanos);
    }

    /// The recorded samples, oldest first.
    pub fn samples(&self) -> (r: &Vec<MemorySample>)
        ensures
            r@ == self.spec_samples(),
    {
        &self.samples
    }

    /// Drops every recorded sample.
    pub fn clear(&mut self)
        ensures
            final(self).spec_samples().len() == 0,
            final(self).spec_last() == None::<u64>,
            final(self).spec_interval() == old(self).spec_interval(),
    {
        self.samples.clear();
        self.last_sample = None;
    }

    /// The mean of the samples' current usages, rounded downward; `None`
    /// exactly when nothing has been sampled.
    pub fn average_usage(&self) -> (r: Option<usize>)
        ensures
            self.spec_samples().len() == 0 ==> r == None::<usize>,
            self.spec_samples().len() > 0 ==> r == Some(
                (sum_current_usage(self.spec_samples()) / self.spec_samples().len() as int)
                    as usize,
            ),
    {
        let n = self.samples.len();
        if n == 0 {
            return None;
        }
        let mut sum: u128 = 0;
        let mut i: usize = 0;
        proof {
            assert(self.spec_samples().take(0) =~= Seq::<MemorySample>::empty());
        }
        while i < n
            invariant
                n == self.spec_samples().len(),
                i <= n,
                sum == sum_current_usage(self.spec_samples().take(i as int)),
                sum <= (i as int) * (usize::MAX as int),
            decreases n - i,
        {
            proof {
                lemma_sample_sum_take_succ(self.spec_samples(), i as int);
                vstd::arithmetic::mul::lemma_mul_is_distributive_add_other_way(
                    usize::MAX as int,
                    i as int,
                    1,
                );
                vstd::arithmetic::mul::lemma_mul_inequality(
                    i as int + 1,
                    usize::MAX as int,
                    usize::MAX as int,
                );
            }
            sum = sum + (self.samples[i].current_usage as u128);
            i = i + 1;
        }
        proof {
            assert(self.spec_samples().take(n as int) =~= self.spec_samples());
            lemma_avg_fits(sum as int, n as int);
        }
        Some((sum / (n as u128)) as usize)
    }

    /// The largest peak usage among the samples; `None` exactly when
    /// nothing has been sampled.
    pub fn peak_usage(&self) -> (r: Option<usize>)
        ensures
            self.spec_samples().len() == 0 ==> r == None::<usize>,
            self.spec_samples().len() > 0 ==> r == Some(
                max_peak_usage(self.spec_samples()) as usize,
            ),
    {
        let n = self.samples.len();
        if n == 0 {
            return None;
        }
        let mut best: usize = 0;
        let mut i: usize = 0;
        proof {
            assert(self.spec_samples().take(0) =~= Seq::<MemorySample>::empty());
        }
        while i < n
            invariant
                n == self.spec_samples().len(),
                i <= n,
                best == max_peak_usage(self.spec_samples().take(i as int)),
            decreases n - i,
        {
            proof {
                lemma_sample_max_take_succ(self.spec_samples(), i as int);
            }
            let peak = self.samples[i].peak_usage;
            if peak > best {
                best = peak;
            }
            i = i + 1;
        }
        proof {
            assert(self.spec_samples().take(n as int) =~= self.spec_samples());
        }
        Some(best)
    }
}

/// One more sample adds its current usage to the running sum.
proof fn lemma_sample_sum_take_succ(s: Seq<MemorySample>, i: int)
    requires
        0 <= i < s.len(),
    ensures
        sum_current_usage(s.take(i + 1)) == sum_current_usage(s.take(i)) + s[i].current_usage,
{
    assert(s.take(i + 1).drop_last() =~= s.take(i));
    assert(s.take(i + 1).last() == s[i]);
}

/// One more sample raises the running maximum to its peak when that is
/// larger.
proof fn lemma_sample_max_take_succ(s: Seq<MemorySample>, i: int)
    requires
        0 <= i < s.len(),
    ensures
        max_peak_usage(s.take(i + 1)) == if s[i].peak_usage >= max_peak_usage(s.take(i)) {
            s[i].peak_usage as int
        } else {
            max_peak_usage(s.take(i))
        },
{
    assert(s.take(i + 1).drop_last() =~= s.take(i));
    assert(s.take(i + 1).last() == s[i]);
}

/// A mean of machine-word values fits in a machine word.
proof fn lemma_avg_fits(sum: int, n: int)
    requires
        n >= 1,
        0 <= sum <= n * (usize::MAX as int),
    ensures
        0 <= sum / n <= usize::MAX,
{
    vstd::arithmetic::div_mod::lemma_div_pos_is_pos(sum, n);
    vstd::arithmetic::div_mod::lemma_multiply_divide_le(sum, n, usize::MAX as int);
}

} // verus!
