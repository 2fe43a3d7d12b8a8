//! Fixed-interval clock.
//!
//! A clock divides the time after its start into ticks of one fixed length. Everything it
//! computes is a function of its start, its tick length and the instant asked about; it holds
//! no other state. The clock never blocks by itself: it tells the caller which tick comes
//! next, when, and how long to wait for it.

use crate::duration::Duration;
use crate::error::Error;
use crate::instant::Instant;
use crate::util::NanoSeconds;
use vstd::prelude::*;

verus! {

/// The index of the tick that is running `now` nanoseconds after the origin, for a clock
/// started `start` nanoseconds after the origin whose ticks last `tick` nanoseconds.
pub open spec fn tick_index(start: nat, tick: nat, now: nat) -> int {
    (now - start) / (tick as int)
}

/// The point in time, in nanoseconds after the origin, at which tick `index` begins.
pub open spec fn tick_start(start: nat, tick: nat, index: int) -> int {
    start + tick * index
}

/// A clock that ticks in a fixed interval.
#[derive(Clone, Copy, Debug)]
pub struct Clock {
    /// Start of tick 0.
    started_at: Instant,
    /// Tick length.
    tick_len: Duration,
    /// Tick length in nanoseconds.
    tick_ns: u64,
}

/// The tick that follows a given instant.
#[derive(Clone, Copy, Debug, PartialEq, Eq, Structural)]
pub struct NextTick {
    /// Index of the tick.
    pub index: u64,
    /// The instant at which the tick begins.
    pub at: Instant,
    /// Time left until then, from the instant that was asked about.
    pub wait: Duration,
}

/// The tick that follows a given instant, placed relative to the clock's start.
#[derive(Clone, Copy, Debug, PartialEq, Eq, Structural)]
pub struct NextTickRelative {
    /// Index of the tick.
    pub index: u64,
    /// Time from the clock's start to the beginning of the tick.
    pub since_start: Duration,
    /// Time left until then, from the instant that was asked about.
    pub wait: Duration,
}

/// Steps through the ticks of a clock, reporting each tick's instant.
#[derive(Clone, Copy, Debug)]
pub struct ClockIter<'a> {
    clock: &'a Clock,
}

/// Steps through the ticks of a clock, reporting each tick's distance from the clock's start.
#[derive(Clone, Copy, Debug)]
pub struct ClockIterRelative<'a> {
    clock: &'a Clock,
}

impl Clock {
    /// The tick length is positive and `tick_ns` is its nanosecond count.
    #[verifier::type_invariant]
    pub closed spec fn wf(self) -> bool {
        &&& self.started_at.wf()
        &&& self.tick_len.wf()
        &&& self.tick_ns > 0
        &&& self.tick_ns == self.tick_len@
    }

    /// The start of tick 0.
    pub closed spec fn spec_started_at(self) -> Instant {
        self.started_at
    }

    /// The tick length.
    pub closed spec fn spec_tick_len(self) -> Duration {
        self.tick_len
    }

    /// The tick length in nanoseconds.
    pub open spec fn tick_nanos(self) -> nat {
        self.spec_tick_len()@
    }

    /// The index of the tick that is running at `now`.
    pub open spec fn spec_tick_num_at(self, now: Instant) -> int {
        tick_index(self.spec_started_at()@, self.tick_nanos(), now@)
    }

    /// Nanoseconds after the origin at which the tick after the one running at `now` begins.
    pub open spec fn spec_next_tick_at(self, now: Instant) -> int {
        tick_start(self.spec_started_at()@, self.tick_nanos(), self.spec_tick_num_at(now) + 1)
    }

    /// True when the tick after `now` cannot be computed: the time since the start, or the
    /// distance of the tick from the start, does not fit into 64 bits of nanoseconds, or the
    /// tick lies beyond the latest instant.
    pub open spec fn next_tick_overflows(self, now: Instant) -> bool {
        ||| now@ - self.spec_started_at()@ > u64::MAX
        ||| self.spec_next_tick_at(now) - self.spec_started_at()@ > u64::MAX
        ||| self.spec_next_tick_at(now) > Instant::max_nanos()
    }

    /// A well-formed clock has a positive tick length that fits into 64 bits of nanoseconds.
    pub proof fn lemma_tick_positive(self)
        requires
            self.wf(),
        ensures
            0 < self.tick_nanos() <= u64::MAX,
            self.spec_started_at().wf(),
            self.spec_tick_len().wf(),
    {
    }

    /// Creates a clock that starts now.
    ///
    /// Fails as [`Clock::new_with_start_time`] does.
    pub fn new(tick_len: Duration) -> (r: Result<Clock, Error>)
        ensures
            match r {
                Ok(c) => {
                    &&& 0 < tick_len@ <= u64::MAX
                    &&& c.spec_tick_len() == tick_len
                    &&& c.spec_started_at()@ <= u64::MAX
                },
                Err(Error::Overflow) => tick_len@ > u64::MAX,
                Err(Error::InvalidConfiguration) => tick_len@ == 0,
                Err(Error::InPast) => false,
            },
    {
        Clock::new_with_start_time(tick_len, Instant::now())
    }

    /// Creates a clock whose tick 0 begins at `start`.
    ///
    /// Fails with [`Error::Overflow`] when the tick length does not fit into 64 bits of
    /// nanoseconds and with [`Error::InvalidConfiguration`] when it is zero.
    pub fn new_with_start_time(tick_len: Duration, start: Instant) -> (r: Result<Clock, Error>)
        ensures
            match r {
                Ok(c) => 0 < tick_len@ <= u64::MAX && c.spec_tick_len() == tick_len
                    && c.spec_started_at() == start,
                Err(Error::Overflow) => tick_len@ > u64::MAX,
                Err(Error::InvalidConfiguration) => tick_len@ == 0,
                Err(Error::InPast) => false,
            },
    {
        proof {
            use_type_invariant(tick_len);
            use_type_invariant(start);
        }
        match tick_len.as_ns() {
            Err(_) => Err(Error::Overflow),
            Ok(tick_ns) => {
                if tick_ns == 0 {
                    Err(Error::InvalidConfiguration)
                } else {
                    Ok(Clock { started_at: start, tick_len, tick_ns })
                }
            },
        }
    }

    /// Creates a clock with another tick length whose tick 0 begins where this clock's does,
    /// so that the ticks of the two stay aligned.
    ///
    /// Fails as [`Clock::new_with_start_time`] does.
    pub fn synced(&self, tick_len: Duration) -> (r: Result<Clock, Error>)
        ensures
            match r {
                Ok(c) => 0 < tick_len@ <= u64::MAX && c.spec_tick_len() == tick_len
                    && c.spec_started_at() == self.spec_started_at(),
                Err(Error::Overflow) => tick_len@ > u64::MAX,
                Err(Error::InvalidConfiguration) => tick_len@ == 0,
                Err(Error::InPast) => false,
            },
    {
        Clock::new_with_start_time(tick_len, self.started_at)
    }

    /// The start of tick 0.
    pub fn started_at(&self) -> (start: Instant)
        ensures
            start == self.spec_started_at(),
    {
        self.started_at
    }

    /// The tick length.
    pub fn tick_len(&self) -> (len: Duration)
        ensures
            len == self.spec_tick_len(),
            0 < len@ <= u64::MAX,
    {
        proof {
            use_type_invariant(self);
        }
        self.tick_len
    }

    /// The index of the tick that is running at `now`: the whole number of tick lengths
    /// between the clock's start and `now`.
    ///
    /// Fails with [`Error::InPast`] when `now` lies before the clock's start, and with
    /// [`Error::Overflow`] when the time since the start does not fit into 64 bits of
    /// nanoseconds.
    pub fn tick_num_at(&self, now: Instant) -> (r: Result<u64, Error>)
        ensures
            match r {
                Ok(n) => {
                    &&& 0 <= now@ - self.spec_started_at()@ <= u64::MAX
                    &&& n == self.spec_tick_num_at(now)
                },
                Err(Error::InPast) => now@ < self.spec_started_at()@,
                Err(Error::Overflow) => now@ - self.spec_started_at()@ > u64::MAX,
                Err(Error::InvalidConfiguration) => false,
            },
    {
        proof {
            use_type_invariant(self);
        }
        match now.checked_duration_since(self.started_at) {
            None => Err(Error::InPast),
            Some(elapsed) => match elapsed.as_ns() {
                Err(_) => Err(Error::Overflow),
                Ok(elapsed_ns) => Ok(elapsed_ns / self.tick_ns),
            },
        }
    }

    /// The tick that follows the one running at `now`: its index, the instant at which it
    /// begins, and the time left from `now` until then, which is positive and at most one
    /// tick length.
    ///
    /// Fails with [`Error::InPast`] when `now` lies before the clock's start, and with
    /// [`Error::Overflow`] exactly when [`Clock::next_tick_overflows`] holds.
    pub fn next_tick(&self, now: Instant) -> (r: Result<NextTick, Error>)
        ensures
            match r {
                Ok(t) => {
                    &&& now@ >= self.spec_started_at()@
                    &&& !self.next_tick_overflows(now)
                    &&& t.index == self.spec_tick_num_at(now) + 1
                    &&& t.at@ == self.spec_next_tick_at(now)
                    &&& t.at@ == tick_start(
                        self.spec_started_at()@,
                        self.tick_nanos(),
                        t.index as int,
                    )
                    &&& t.wait@ == t.at@ - now@
                    &&& 0 < t.wait@ <= self.tick_nanos()
                },
                Err(Error::InPast) => now@ < self.spec_started_at()@,
                Err(Error::Overflow) => now@ >= self.spec_started_at()@
                    && self.next_tick_overflows(now),
                Err(Error::InvalidConfiguration) => false,
            },
    {
        proof {
            use_type_invariant(self);
            use_type_invariant(now);
            now.lemma_bounded();
        }
        let elapsed_ns: u64 = match now.checked_duration_since(self.started_at) {
            None => {
                return Err(Error::InPast);
            },
            Some(elapsed) => match elapsed.as_ns() {
                Err(_) => {
                    return Err(Error::Overflow);
                },
                Ok(ns) => ns,
            },
        };
        let current: u64 = elapsed_ns / self.tick_ns;
        proof {
            lemma_next_tick_bounds(elapsed_ns as int, self.tick_ns as int);
        }
        if current == u64::MAX {
            return Err(Error::Overflow);
        }
        let index: u64 = current + 1;
        let offset_ns: u64 = match self.tick_ns.checked_mul(index) {
            None => {
                return Err(Error::Overflow);
            },
            Some(ns) => ns,
        };
        let at: Instant = match self.started_at.checked_add(Duration::from_ns(offset_ns)) {
            None => {
                return Err(Error::Overflow);
            },
            Some(at) => at,
        };
        proof {
            use_type_invariant(at);
            at.lemma_bounded();
        }
        let wait: Duration = at.saturating_duration_since(now);
        Ok(NextTick { index, at, wait })
    }

    /// Steps through the ticks of this clock, reporting each tick's instant.
    pub fn iter(&self) -> (it: ClockIter<'_>)
        ensures
            it.spec_clock() == *self,
    {
        ClockIter { clock: self }
    }

    /// Steps through the ticks of this clock, reporting each tick's distance from the
    /// clock's start.
    pub fn rel_iter(&self) -> (it: ClockIterRelative<'_>)
        ensures
            it.spec_clock() == *self,
    {
        ClockIterRelative { clock: self }
    }
}

impl<'a> ClockIter<'a> {
    /// The clock that is stepped through.
    pub closed spec fn spec_clock(self) -> Clock {
        *self.clock
    }

    /// The tick to wait for at `now`: what [`Clock::next_tick`] reports for the clock.
    pub fn step(&self, now: Instant) -> (r: Result<NextTick, Error>)
        ensures
            match r {
                Ok(t) => {
                    &&& now@ >= self.spec_clock().spec_started_at()@
                    &&& !self.spec_clock().next_tick_overflows(now)
                    &&& t.index == self.spec_clock().spec_tick_num_at(now) + 1
                    &&& t.at@ == self.spec_clock().spec_next_tick_at(now)
                    &&& t.wait@ == t.at@ - now@
                    &&& 0 < t.wait@ <= self.spec_clock().tick_nanos()
                },
                Err(Error::InPast) => now@ < self.spec_clock().spec_started_at()@,
                Err(Error::Overflow) => now@ >= self.spec_clock().spec_started_at()@
                    && self.spec_clock().next_tick_overflows(now),
                Err(Error::InvalidConfiguration) => false,
            },
    {
        self.clock.next_tick(now)
    }
}

impl<'a> ClockIterRelative<'a> {
    /// The clock that is stepped through.
    pub closed spec fn spec_clock(self) -> Clock {
        *self.clock
    }

    /// The tick to wait for at `now`, as [`Clock::next_tick`] reports it for the clock, with
    /// the tick's distance from the clock's start in place of its instant.
    pub fn step(&self, now: Instant) -> (r: Result<NextTickRelative, Error>)
        ensures
            match r {
                Ok(t) => {
                    &&& now@ >= self.spec_clock().spec_started_at()@
                    &&& !self.spec_clock().next_tick_overflows(now)
                    &&& t.index == self.spec_clock().spec_tick_num_at(now) + 1
                    &&& t.since_start@ == self.spec_clock().spec_next_tick_at(now)
                        - self.spec_clock().spec_started_at()@
                    &&& t.since_start@ == self.spec_clock().tick_nanos() * t.index
                    &&& t.wait@ == self.spec_clock().spec_next_tick_at(now) - now@
                    &&& 0 < t.wait@ <= self.spec_clock().tick_nanos()
                },
                Err(Error::InPast) => now@ < self.spec_clock().spec_started_at()@,
                Err(Error::Overflow) => now@ >= self.spec_clock().spec_started_at()@
                    && self.spec_clock().next_tick_overflows(now),
                Err(Error::InvalidConfiguration) => false,
            },
    {
        match self.clock.next_tick(now) {
            Err(e) => Err(e),
            Ok(t) => {
                let since_start: Duration = t.at.saturating_duration_since(
                    self.clock.started_at(),
                );
                Ok(NextTickRelative { index: t.index, since_start, wait: t.wait })
            },
        }
    }
}

/// The tick after the one that is running `elapsed` nanoseconds after the start begins later
/// than that, and at most one tick length later.
proof fn lemma_next_tick_bounds(elapsed: int, tick: int)
    requires
        0 <= elapsed,
        0 < tick,
    ensures
        0 <= elapsed / tick <= elapsed,
        elapsed < tick * (elapsed / tick + 1) <= elapsed + tick,
        elapsed / tick + 1 <= tick * (elapsed / tick + 1),
{
    assert(elapsed == tick * (elapsed / tick) + elapsed % tick && 0 <= elapsed % tick < tick
        && tick * (elapsed / tick + 1) == tick * (elapsed / tick) + tick && 0 <= elapsed / tick
        <= elapsed && elapsed / tick + 1 <= tick * (elapsed / tick + 1)) by (nonlinear_arith)
        requires
            0 <= elapsed,
            0 < tick,
    ;
}

/// At the clock's start and up to one nanosecond before one tick length has passed, tick 0
/// is running; exactly one tick length after the start, tick 1 is.
pub proof fn lemma_tick_boundaries(start: nat, tick: nat)
    requires
        tick > 0,
    ensures
        tick_index(start, tick, start) == 0,
        tick_index(start, tick, (start + tick - 1) as nat) == 0,
        tick_index(start, tick, start + tick) == 1,
{
    let t = tick as int;
    assert(0int / t == 0 && (t - 1) / t == 0 && t / t == 1) by (nonlinear_arith)
        requires
            t > 0,
    ;
}

/// The tick index never decreases as time advances.
pub proof fn lemma_tick_index_monotonic(start: nat, tick: nat, earlier: nat, later: nat)
    requires
        tick > 0,
        start <= earlier <= later,
    ensures
        0 <= tick_index(start, tick, earlier) <= tick_index(start, tick, later),
{
    let t = tick as int;
    let a = earlier - start;
    let b = later - start;
    assert(0 <= a / t <= b / t) by (nonlinear_arith)
        requires
            t > 0,
            0 <= a <= b,
    ;
}

/// Waiting for the next tick again and again yields strictly increasing tick indices: a
/// caller that asks at `first`, waits until the tick it was given has begun and asks again at
/// `second` is given a later tick. Every tick that is handed out begins exactly
/// `tick * index` after the start, and after the instant that was asked about.
pub proof fn lemma_successive_ticks_increase(clock: Clock, first: Instant, second: Instant)
    requires
        clock.wf(),
        clock.spec_started_at()@ <= first@,
        clock.spec_next_tick_at(first) <= second@,
    ensures
        clock.spec_tick_num_at(first) + 1 < clock.spec_tick_num_at(second) + 1,
        clock.spec_next_tick_at(first) == clock.spec_started_at()@ + clock.tick_nanos() * (
        clock.spec_tick_num_at(first) + 1),
        clock.spec_next_tick_at(first) > first@,
        clock.spec_next_tick_at(second) > second@,
{
    let start = clock.spec_started_at()@ as int;
    let t = clock.tick_nanos() as int;
    let a = first@ - start;
    let b = second@ - start;
    lemma_next_tick_bounds(a, t);
    assert(a / t + 1 <= b / t) by (nonlinear_arith)
        requires
            t > 0,
            0 <= a,
            t * (a / t + 1) <= b,
    ;
    lemma_next_tick_bounds(b, t);
}

} // verus!
