//! Time measurement over caller-supplied instants: a clock, a countdown
//! timer, a stopwatch and a named-section profiler.
//!
//! Nothing here reads a clock. Every operation that involves the current
//! time takes it as an argument, in nanoseconds of whatever monotonic
//! clock the caller uses, and is verified for every value of it.

use vstd::prelude::*;

verus! {


/// `a - b`, floored at zero.
pub open spec fn sat_sub(a: int, b: int) -> int {
    if a >= b {
        a - b
    } else {
        0
    }
}

/// `a + b`, capped at the largest 64-bit value.
pub open spec fn sat_add_u64(a: int, b: int) -> int {
    if a + b <= u64::MAX {
        a + b
    } else {
        u64::MAX as int
    }
}

/// Measures the time elapsed since it was created or last reset.
pub struct Clock {
    start: u64,
}

impl Clock {
    /// The instant the clock started counting from.
    pub closed spec fn spec_start(&self) -> int {
        self.start as int
    }

    /// A clock starting at `now`.
    pub fn new(now_nanos: u64) -> (r: Clock)
        ensures
            r.spec_start() == now_nanos,
    {
        Clock { start: now_nanos }
    }

    /// Nanoseconds elapsed from the start to `now`; zero when `now` lies
    /// before the start.
    pub fn elapsed(&self, now_nanos: u64) -> (r: u64)
        ensures
            r == sat_sub(now_nanos as int, self.spec_start()),
    {
        if now_nanos >= self.start {
            now_nanos - self.start
        } else {
            0
        }
    }

    /// Milliseconds elapsed from the start to `now`.
    pub fn elapsed_millis(&self, now_nanos: u64) -> (r: u64)
        ensures
            r == sat_sub(now_nanos as int, self.spec_start()) / 1000000,
    {
        self.elapsed(now_nanos) / 1000000
    }

    /// Microseconds elapsed from the start to `now`.
    pub fn elapsed_micros(&self, now_nanos: u64) -> (r: u64)
        ensures
            r == sat_sub(now_nanos as int, self.spec_start()) / 1000,
    {
        self.elapsed(now_nanos) / 1000
    }

    /// Nanoseconds elapsed from the start to `now`.
    pub fn elapsed_nanos(&self, now_nanos: u64) -> (r: u64)
        ensures
            r == sat_sub(now_nanos as int, self.spec_start()),
    {
        self.elapsed(now_nanos)
    }

    /// Restarts the clock at `now`.
    pub fn reset(&mut self, now_nanos: u64)
        ensures
            final(self).spec_start() == now_nanos,
    {
        self.start = now_nanos;
    }
}

/// Counts down a fixed duration from a starting instant.
pub struct Timer {
    start: u64,
    duration: u64,
}

impl Timer {
    /// The instant the countdown started.
    pub closed spec fn spec_start(&self) -> int {
        self.start as int
    }

    /// The full countdown duration in nanoseconds.
    pub closed spec fn spec_duration(&self) -> int {
        self.duration as int
    }

    /// A timer of `duration_nanos` nanoseconds starting at `now`.
    pub fn new(duration_nanos: u64, now_nanos: u64) -> (r: Timer)
        ensures
            r.spec_start() == now_nanos,
            r.spec_duration() == duration_nanos,
    {
        Timer { start: now_nanos, duration: duration_nanos }
    }

    /// A timer of `secs` seconds starting at `now`; a duration beyond the
    /// 64-bit nanosecond range is capped there.
    pub fn from_secs(secs: u64, now_nanos: u64) -> (r: Timer)
        ensures
            r.spec_start() == now_nanos,
            r.spec_duration() == sat_add_u64(0, secs * 1000000000),
    {
        let d = if secs <= u64::MAX / 1000000000 {
            proof {
                lemma_mul_within(secs as int, 1000000000, u64::MAX as int);
            }
            secs * 1000000000
        } else {
            proof {
                lemma_mul_overflows(secs as int, 1000000000, u64::MAX as int);
            }
            u64::MAX
        };
        Timer { start: now_nanos, duration: d }
    }

    /// A timer of `millis` milliseconds starting at `now`; a duration
    /// beyond the 64-bit nanosecond range is capped there.
    pub fn from_millis(millis: u64, now_nanos: u64) -> (r: Timer)
        ensures
            r.spec_start() == now_nanos,
            r.spec_duration() == sat_add_u64(0, millis * 1000000),
    {
        let d = if millis <= u64::MAX / 1000000 {
            proof {
                lemma_mul_within(millis as int, 1000000, u64::MAX as int);
            }
            millis * 1000000
        } else {
            proof {
                lemma_mul_overflows(millis as int, 1000000, u64::MAX as int);
            }
            u64::MAX
        };
        Timer { start: now_nanos, duration: d }
    }

    /// Whether the full duration has elapsed by `now`.
    pub fn expired(&self, now_nanos: u64) -> (r: bool)
        ensures
            r == (sat_sub(now_nanos as int, self.spec_start()) >= self.spec_duration()),
    {
        let elapsed = if now_nanos >= self.start {
            now_nanos - self.start
        } else {
            0
        };
        elapsed >= self.duration
    }

    /// Nanoseconds left until expiry at `now`; zero once expired.
    pub fn remaining(&self, now_nanos: u64) -> (r: u64)
        ensures
            r == sat_sub(self.spec_duration(), sat_sub(now_nanos as int, self.spec_start())),
    {
        let elapsed = if now_nanos >= self.start {
            now_nanos - self.start
        } else {
            0
        };
        if self.duration >= elapsed {
            self.duration - elapsed
        } else {
            0
        }
    }

    /// Restarts the countdown at `now`.
    pub fn reset(&mut self, now_nanos: u64)
        ensures
            final(self).spec_start() == now_nanos,
            final(self).spec_duration() == old(self).spec_duration(),
    {
        self.start = now_nanos;
    }
}

/// A product within the divided bound stays within the bound.
proof fn lemma_mul_within(a: int, b: int, bound: int)
    requires
        b > 0,
        bound >= 0,
        0 <= a <= bound / b,
    ensures
        a * b <= bound,
{
    vstd::arithmetic::div_mod::lemma_fundamental_div_mod(bound, b);
    vstd::arithmetic::div_mod::lemma_mod_division_less_than_divisor(bound, b);
    vstd::arithmetic::mul::lemma_mul_inequality(a, bound / b, b);
    vstd::arithmetic::mul::lemma_mul_is_commutative(b, bound / b);
}

/// A product above the bound stays above it.
proof fn lemma_mul_overflows(a: int, b: int, bound: int)
    requires
        b > 0,
        bound >= 0,
        a > bound / b,
    ensures
        a * b > bound,
{
    vstd::arithmetic::div_mod::lemma_fundamental_div_mod(bound, b);
    vstd::arithmetic::div_mod::lemma_mod_division_less_than_divisor(bound, b);
    vstd::arithmetic::mul::lemma_mul_inequality(bound / b + 1, a, b);
    vstd::arithmetic::mul::lemma_mul_is_distributive_add_other_way(b, bound / b, 1);
    vstd::arithmetic::mul::lemma_mul_is_commutative(b, bound / b);
}

/// Accumulates elapsed time across start/stop spans.
pub struct Stopwatch {
    start: Option<u64>,
    accumulated: u64,
    running: bool,
}

impl Stopwatch {
    /// The instant the running span started, if one is running.
    pub closed spec fn spec_start(&self) -> Option<u64> {
        self.start
    }

    /// Nanoseconds accumulated over finished spans.
    pub closed spec fn spec_accumulated(&self) -> int {
        self.accumulated as int
    }

    /// Whether a span is running.
    pub closed spec fn spec_running(&self) -> bool {
        self.running
    }

    /// A span is running exactly when a start instant is held.
    pub open spec fn wf(&self) -> bool {
        self.spec_running() <==> self.spec_start() is Some
    }

    /// Nanoseconds shown at instant `now`: the accumulated spans plus the
    /// running span, if any.
    pub open spec fn spec_elapsed(&self, now: int) -> int {
        match self.spec_start() {
            Some(s) => sat_add_u64(
                self.spec_accumulated(),
                if self.spec_running() {
                    sat_sub(now, s as int)
                } else {
                    0
                },
            ),
            None => self.spec_accumulated(),
        }
    }

    /// A stopped stopwatch at zero.
    pub fn new() -> (r: Stopwatch)
        ensures
            r.wf(),
            !r.spec_running(),
            r.spec_accumulated() == 0,
    {
        Stopwatch { start: None, accumulated: 0, running: false }
    }

    /// Starts a span at `now`; a running stopwatch is unchanged.
    pub fn start(&mut self, now_nanos: u64)
        requires
            old(self).wf(),
        ensures
            final(self).wf(),
            final(self).spec_running(),
            final(self).spec_accumulated() == old(self).spec_accumulated(),
            old(self).spec_running() ==> *final(self) == *old(self),
            !old(self).spec_running() ==> final(self).spec_start() == Some(now_nanos),
    {
        if !self.running {
            self.start = Some(now_nanos);
            self.running = true;
        }
    }

    /// Stops the running span at `now`, adding it to the accumulated
    /// total; a stopped stopwatch is unchanged. Time beyond the 64-bit
    /// range is capped there.
    pub fn stop(&mut self, now_nanos: u64)
        requires
            old(self).wf(),
        ensures
            final(self).wf(),
            !final(self).spec_running(),
            !old(self).spec_running() ==> *final(self) == *old(self),
            old(self).spec_running() ==> final(self).spec_accumulated() == old(
                self,
            ).spec_elapsed(now_nanos as int),
    {
        if self.running {
            match self.start {
                Some(s) => {
                    let span = if now_nanos >= s {
                        now_nanos - s
                    } else {
                        0
                    };
                    self.accumulated = if self.accumulated <= u64::MAX - span {
                        self.accumulated + span
                    } else {
                        u64::MAX
                    };
                },
                None => {},
            }
            self.start = None;
            self.running = false;
        }
    }

    /// Stops and zeroes the stopwatch.
    pub fn reset(&mut self)
        ensures
            final(self).wf(),
            !final(self).spec_running(),
            final(self).spec_accumulated() == 0,
    {
        self.start = None;
        self.accumulated = 0;
        self.running = false;
    }

    /// Nanoseconds shown at instant `now`.
    pub fn elapsed(&self, now_nanos: u64) -> (r: u64)
        requires
            self.wf(),
        ensures
            r == self.spec_elapsed(now_nanos as int),
    {
        match self.start {
            Some(s) => {
                let span = if self.running {
                    if now_nanos >= s {
                        now_nanos - s
                    } else {
                        0
                    }
                } else {
                    0
                };
                if self.accumulated <= u64::MAX - span {
                    self.accumulated + span
                } else {
                    u64::MAX
                }
            },
            None => self.accumulated,
        }
    }

    /// Whether a span is running.
    pub fn is_running(&self) -> (r: bool)
        ensures
            r == self.spec_running(),
    {
        self.running
    }

    /// Reads the elapsed time at `now`, then restarts from zero with a
    /// running span beginning at `now`.
    pub fn lap(&mut self, now_nanos: u64) -> (r: u64)
        requires
            old(self).wf(),
        ensures
            final(self).wf(),
            r == old(self).spec_elapsed(now_nanos as int),
            final(self).spec_running(),
            final(self).spec_accumulated() == 0,
            final(self).spec_start() == Some(now_nanos),
    {
        let elapsed = self.elapsed(now_nanos);
        self.reset();
        self.start(now_nanos);
        elapsed
    }
}

/// The measurements recorded under `name`, if any.
pub open spec fn find_measurements(s: Seq<(String, Vec<u64>)>, name: Seq<char>) -> Option<
    Seq<u64>,
>
    decreases s.len(),
{
    if s.len() == 0 {
        None
    } else if s.last().0@ == name {
        Some(s.last().1@)
    } else {
        find_measurements(s.drop_last(), name)
    }
}

/// No two measurement lists share a name.
pub open spec fn unique_measurement_keys(s: Seq<(String, Vec<u64>)>) -> bool {
    forall|j1: int, j2: int|
        0 <= j1 < j2 < s.len() ==> (#[trigger] s[j1]).0@ != (#[trigger] s[j2]).0@
}

/// The sum of a list of durations.
pub open spec fn sum_durations(s: Seq<u64>) -> int
    decreases s.len(),
{
    if s.len() == 0 {
        0
    } else {
        sum_durations(s.drop_last()) + s.last()
    }
}

/// The average table over measurement lists: each section that has
/// measurements contributes its name and the floored mean of its list, in
/// order.
pub open spec fn averages_model(s: Seq<(String, Vec<u64>)>) -> Seq<(Seq<char>, int)>
    decreases s.len(),
{
    if s.len() == 0 {
        Seq::empty()
    } else if s.last().1@.len() > 0 {
        averages_model(s.drop_last()).push(
            (s.last().0@, sum_durations(s.last().1@) / s.last().1@.len() as int),
        )
    } else {
        averages_model(s.drop_last())
    }
}

/// Measures named sections: each `begin`/`end` pair appends one duration
/// to the section's measurement list.
///
/// Callers supply the instants; the profiler itself never reads a clock.
pub struct Profiler {
    measurements: Vec<(String, Vec<u64>)>,
    current: Option<(String, u64)>,
}

impl Profiler {
    /// The measurement lists, oldest section first.
    pub closed spec fn spec_measurements(&self) -> Seq<(String, Vec<u64>)> {
        self.measurements@
    }

    /// The section currently being measured, if any.
    pub closed spec fn spec_current(&self) -> Option<(String, u64)> {
        self.current
    }

    /// Section names stay unique.
    pub open spec fn wf(&self) -> bool {
        unique_measurement_keys(self.spec_measurements())
    }

    /// An empty profiler.
    pub fn new() -> (r: Profiler)
        ensures
            r.wf(),
            r.spec_measurements().len() == 0,
            r.spec_current() == None::<(String, u64)>,
    {
        Profiler { measurements: Vec::new(), current: None }
    }

    /// Starts measuring section `name` at `now`, replacing any measurement
    /// already in flight.
    pub fn begin(&mut self, name: &str, now_nanos: u64)
        requires
            old(self).wf(),
        ensures
            final(self).wf(),
            final(self).spec_measurements() == old(self).spec_measurements(),
            match final(self).spec_current() {
                Some(c) => c.0@ == name@ && c.1 == now_nanos,
                None => false,
            },
    {
        self.current = Some((name.to_owned(), now_nanos));
    }

    /// Ends the measurement in flight at `now`, appending the elapsed
    /// nanoseconds to its section's list; without one in flight, nothing
    /// changes.
    pub fn end(&mut self, now_nanos: u64)
        requires
            old(self).wf(),
        ensures
            final(self).wf(),
            final(self).spec_current() == None::<(String, u64)>,
            old(self).spec_current() is None ==> final(self).spec_measurements() == old(
                self,
            ).spec_measurements(),
            match old(self).spec_current() {
                Some(c) => find_measurements(final(self).spec_measurements(), c.0@) == Some(
                    match find_measurements(old(self).spec_measurements(), c.0@) {
                        Some(m) => m.push(sat_sub(now_nanos as int, c.1 as int) as u64),
                        None => seq![sat_sub(now_nanos as int, c.1 as int) as u64],
                    },
                ) && (forall|n: Seq<char>|
                    n != c.0@ ==> #[trigger] find_measurements(
                        final(self).spec_measurements(),
                        n,
                    ) == find_measurements(old(self).spec_measurements(), n)),
                None => true,
            },
    {
        let cur = self.current.take();
        match cur {
            Some((name, started)) => {
                let duration = if now_nanos >= started {
                    now_nanos - started
                } else {
                    0
                };
                let n = self.measurements.len();
                let mut i: usize = 0;
                let ghost entries = self.measurements@;
                while i < n
                    invariant
                        unique_measurement_keys(entries),
                        n == entries.len(),
                        self.measurements@ == entries,
                        entries == old(self).spec_measurements(),
                        self.current == None::<(String, u64)>,
                        old(self).spec_current() == Some((name, started)),
                        duration == sat_sub(now_nanos as int, started as int),
                        i <= n,
                        forall|j: int| 0 <= j < i ==> (#[trigger] entries[j]).0@ != name@,
                    decreases n - i,
                {
                    if self.measurements[i].0 == name {
                        let mut list = copy_durations(&self.measurements[i].1);
                        list.push(duration);
                        self.measurements[i] = (name, list);
                        proof {
                            let updated = self.measurements@;
                            assert(updated[i as int].0@ == entries[i as int].0@);
                            assert(updated[i as int].1@ == entries[i as int].1@.push(duration));
                            assert(forall|j: int|
                                0 <= j < updated.len() && j != i ==> updated[j] == entries[j]);
                            assert(unique_measurement_keys(updated));
                            lemma_find_measurements_at_index(updated, i as int);
                            lemma_find_measurements_at_index(entries, i as int);
                            assert forall|q: Seq<char>| q != name@ implies #[trigger] find_measurements(
                                updated,
                                q,
                            ) == find_measurements(entries, q) by {
                                lemma_find_measurements_agrees(entries, updated, q);
                            }
                        }
                        return ;
                    }
                    i = i + 1;
                }
                let mut fresh: Vec<u64> = Vec::new();
                fresh.push(duration);
                self.measurements.push((name, fresh));
                proof {
                    let pushed = self.measurements@;
                    assert(pushed.drop_last() =~= entries);
                    assert(unique_measurement_keys(pushed)) by {
                        assert(forall|j: int| 0 <= j < entries.len() ==> pushed[j] == entries[j]);
                    }
                    lemma_find_measurements_absent(entries, pushed.last().0@);
                    assert(pushed.last().1@ =~= seq![duration]);
                }
            },
            None => {},
        }
    }

    /// The mean duration recorded for section `name`, rounded downward;
    /// `None` when the section has no measurements.
    pub fn average(&self, name: &str) -> (r: Option<u64>)
        requires
            self.wf(),
        ensures
            match find_measurements(self.spec_measurements(), name@) {
                Some(m) => m.len() > 0 ==> r == Some((sum_durations(m) / m.len() as int) as u64),
                None => r == None::<u64>,
            },
    {
        let owned: String = name.to_owned();
        let n = self.measurements.len();
        let mut i: usize = 0;
        while i < n
            invariant
                self.wf(),
                n == self.spec_measurements().len(),
                i <= n,
                forall|j: int|
                    0 <= j < i ==> (#[trigger] self.spec_measurements()[j]).0@ != owned@,
                owned@ == name@,
            decreases n - i,
        {
            if self.measurements[i].0 == owned {
                proof {
                    lemma_find_measurements_at_index(self.spec_measurements(), i as int);
                }
                let m = &self.measurements[i].1;
                if m.len() == 0 {
                    return None;
                }
                return Some(average_of(m));
            }
            i = i + 1;
        }
        proof {
            lemma_find_measurements_absent(self.spec_measurements(), name@);
        }
        None
    }

    /// The mean duration of every section that has measurements, in
    /// registration order.
    pub fn averages(&self) -> (r: Vec<(String, u64)>)
        requires
            self.wf(),
        ensures
            r@.len() == averages_model(self.spec_measurements()).len(),
            forall|k: int|
                0 <= k < r@.len() ==> (#[trigger] r@[k]).0@ == averages_model(
                    self.spec_measurements(),
                )[k].0 && r@[k].1 == averages_model(self.spec_measurements())[k].1,
    {
        let n = self.measurements.len();
        let mut out: Vec<(String, u64)> = Vec::new();
        let mut i: usize = 0;
        proof {
            assert(self.spec_measurements().take(0) =~= Seq::<(String, Vec<u64>)>::empty());
        }
        while i < n
            invariant
                n == self.spec_measurements().len(),
                i <= n,
                out@.len() == averages_model(self.spec_measurements().take(i as int)).len(),
                forall|k: int|
                    0 <= k < out@.len() ==> (#[trigger] out@[k]).0@ == averages_model(
                        self.spec_measurements().take(i as int),
                    )[k].0 && out@[k].1 == averages_model(
                        self.spec_measurements().take(i as int),
                    )[k].1,
            decreases n - i,
        {
            proof {
                assert(self.spec_measurements().take(i as int + 1).drop_last()
                    =~= self.spec_measurements().take(i as int));
                assert(self.spec_measurements().take(i as int + 1).last()
                    == self.spec_measurements()[i as int]);
            }
            let m = &self.measurements[i].1;
            if m.len() > 0 {
                let avg = average_of(m);
                out.push((self.measurements[i].0.clone(), avg));
            }
            i = i + 1;
        }
        proof {
            assert(self.spec_measurements().take(n as int) =~= self.spec_measurements());
        }
        out
    }

    /// Drops every measurement and any section in flight.
    pub fn clear(&mut self)
        ensures
            final(self).wf(),
            final(self).spec_measurements().len() == 0,
            final(self).spec_current() == None::<(String, u64)>,
    {
        self.measurements.clear();
        self.current = None;
    }
}

/// A fresh list holding the same durations.
fn copy_durations(v: &Vec<u64>) -> (r: Vec<u64>)
    ensures
        r@ == v@,
{
    let n = v.len();
    let mut out: Vec<u64> = Vec::new();
    let mut i: usize = 0;
    proof {
        assert(out@ =~= v@.take(0));
    }
    while i < n
        invariant
            n == v@.len(),
            i <= n,
            out@ == v@.take(i as int),
        decreases n - i,
    {
        out.push(v[i]);
        proof {
            assert(out@ =~= v@.take(i as int + 1));
        }
        i = i + 1;
    }
    proof {
        assert(v@.take(n as int) =~= v@);
    }
    out
}

/// The mean of a nonempty list of durations, rounded downward.
fn average_of(m: &Vec<u64>) -> (r: u64)
    requires
        m@.len() > 0,
    ensures
        r == sum_durations(m@) / m@.len() as int,
{
    let n = m.len();
    let mut sum: u128 = 0;
    let mut i: usize = 0;
    proof {
        assert(m@.take(0) =~= Seq::<u64>::empty());
    }
    while i < n
        invariant
            n == m@.len(),
            i <= n,
            sum == sum_durations(m@.take(i as int)),
            sum <= (i as int) * (u64::MAX as int),
        decreases n - i,
    {
        proof {
            assert(m@.take(i as int + 1).drop_last() =~= m@.take(i as int));
            assert(m@.take(i as int + 1).last() == m@[i as int]);
            vstd::arithmetic::mul::lemma_mul_is_distributive_add_other_way(
                u64::MAX as int,
                i as int,
                1,
            );
            vstd::arithmetic::mul::lemma_mul_inequality(
                i as int + 1,
                u64::MAX as int,
                u64::MAX as int,
            );
        }
        sum = sum + (m[i] as u128);
        i = i + 1;
    }
    proof {
        assert(m@.take(n as int) =~= m@);
        vstd::arithmetic::div_mod::lemma_div_pos_is_pos(sum as int, n as int);
        vstd::arithmetic::div_mod::lemma_multiply_divide_le(
            sum as int,
            n as int,
            u64::MAX as int,
        );
    }
    (sum / (n as u128)) as u64
}

/// When no list carries `name`, nothing is found under it.
proof fn lemma_find_measurements_absent(s: Seq<(String, Vec<u64>)>, name: Seq<char>)
    requires
        forall|j: int| 0 <= j < s.len() ==> (#[trigger] s[j]).0@ != name,
    ensures
        find_measurements(s, name) == None::<Seq<u64>>,
    decreases s.len(),
{
    if s.len() > 0 {
        lemma_find_measurements_absent(s.drop_last(), name);
    }
}

/// With unique names, the list at any index is the one found under its
/// name.
proof fn lemma_find_measurements_at_index(s: Seq<(String, Vec<u64>)>, i: int)
    requires
        unique_measurement_keys(s),
        0 <= i < s.len(),
    ensures
        find_measurements(s, s[i].0@) == Some(s[i].1@),
    decreases s.len(),
{
    if i == s.len() - 1 {
    } else {
        assert(s.last().0@ != s[i].0@);
        assert(unique_measurement_keys(s.drop_last())) by {
            assert(forall|j: int| 0 <= j < s.drop_last().len() ==> s.drop_last()[j] == s[j]);
        }
        lemma_find_measurements_at_index(s.drop_last(), i);
    }
}

/// Two measurement tables that agree on names everywhere, and on contents
/// away from `q`, are searched the same way for `q`.
proof fn lemma_find_measurements_agrees(
    s1: Seq<(String, Vec<u64>)>,
    s2: Seq<(String, Vec<u64>)>,
    q: Seq<char>,
)
    requires
        s1.len() == s2.len(),
        forall|j: int|
            0 <= j < s1.len() ==> (#[trigger] s1[j]).0@ == s2[j].0@ && (s1[j].0@ == q ==> s1[j].1@
                == s2[j].1@),
    ensures
        find_measurements(s1, q) == find_measurements(s2, q),
    decreases s1.len(),
{
    if s1.len() > 0 {
        assert(forall|j: int|
            0 <= j < s1.drop_last().len() ==> s1.drop_last()[j] == s1[j] && s2.drop_last()[j]
                == s2[j]);
        lemma_find_measurements_agrees(s1.drop_last(), s2.drop_last(), q);
    }
}

} // verus!
