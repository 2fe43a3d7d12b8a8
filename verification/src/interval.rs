//! Non-blocking interval timer.
//!
//! The timer keeps the instant at which it fires next. It never reads a clock and never
//! blocks: the caller probes it with the current instant. A timer is either armed (the
//! instant lies ahead) or due; only a probe takes it from due back to armed.

use crate::duration::Duration;
use crate::error::Error;
use crate::instant::Instant;
use crate::util::NanoSeconds;
use vstd::arithmetic::div_mod::lemma_mod_multiples_vanish;
use vstd::prelude::*;

verus! {

/// What becomes of the intervals that went by unnoticed before a probe.
#[derive(Clone, Copy, Debug, PartialEq, Eq, Structural)]
pub enum Policy {
    /// Missed intervals collapse into one firing: the timer moves past all of them at once.
    Skip,
    /// Missed intervals are replayed: the timer moves on by one interval per firing and stays
    /// due until it has caught up.
    CatchUp,
}

/// The number of whole intervals of `tick` nanoseconds between the point `next` at which a
/// timer was due and the later point `now`.
pub open spec fn missed_ticks(next: nat, tick: nat, now: nat) -> int {
    (now - next) / (tick as int)
}

/// A timer that fires every `tick_len`, driven from outside.
#[derive(Clone, Copy, Debug)]
pub struct IntervalTimer {
    /// The instant the timer was started at.
    start: Instant,
    /// The instant at which the timer fires next.
    next_fire: Instant,
    /// Interval between two firings.
    tick_len: Duration,
    /// The interval in nanoseconds.
    tick_ns: u64,
    /// Treatment of missed intervals.
    policy: Policy,
}

impl IntervalTimer {
    /// The interval is positive, and the next firing lies a whole, positive number of
    /// intervals after the start.
    #[verifier::type_invariant]
    pub closed spec fn wf(self) -> bool {
        &&& self.start.wf()
        &&& self.next_fire.wf()
        &&& self.tick_len.wf()
        &&& self.tick_ns > 0
        &&& self.tick_ns == self.tick_len@
        &&& self.next_fire@ >= self.start@ + self.tick_ns
        &&& (self.next_fire@ - self.start@) % (self.tick_ns as int) == 0
    }

    /// The instant the timer was started at.
    pub closed spec fn spec_start(self) -> Instant {
        self.start
    }

    /// The instant at which the timer fires next.
    pub closed spec fn spec_next_fire(self) -> Instant {
        self.next_fire
    }

    /// The interval between two firings.
    pub closed spec fn spec_tick_len(self) -> Duration {
        self.tick_len
    }

    /// The treatment of missed intervals.
    pub closed spec fn spec_policy(self) -> Policy {
        self.policy
    }

    /// The interval in nanoseconds.
    pub open spec fn tick_nanos(self) -> nat {
        self.spec_tick_len()@
    }

    /// True when the timer is due at `now`.
    pub open spec fn is_due(self, now: Instant) -> bool {
        self.spec_next_fire()@ <= now@
    }

    /// The number of intervals that a probe at `now` passes over without a firing of their
    /// own.
    pub open spec fn spec_skipped(self, now: Instant) -> int {
        match self.spec_policy() {
            Policy::Skip => missed_ticks(self.spec_next_fire()@, self.tick_nanos(), now@),
            Policy::CatchUp => 0,
        }
    }

    /// The span by which a probe at `now` moves the next firing, in nanoseconds.
    pub open spec fn spec_advance(self, now: Instant) -> int {
        self.tick_nanos() * (1 + self.spec_skipped(now))
    }

    /// True when a probe of the due timer at `now` cannot be carried out: under the skip
    /// policy the lateness, and under either policy the span to advance by, does not fit
    /// into 64 bits of nanoseconds, or the next firing would lie beyond the latest instant.
    pub open spec fn advance_overflows(self, now: Instant) -> bool {
        ||| self.spec_policy() == Policy::Skip && now@ - self.spec_next_fire()@ > u64::MAX
        ||| self.spec_advance(now) > u64::MAX
        ||| self.spec_next_fire()@ + self.spec_advance(now) > Instant::max_nanos()
    }

    /// True when `self` is the timer `before` after a successful probe at `now`, at which
    /// `before` was due: the next firing has moved on by the advance, and the start, the
    /// interval and the policy are the same. Under the skip policy the timer is armed again.
    pub open spec fn moved_on(self, before: IntervalTimer, now: Instant) -> bool {
        &&& self.spec_next_fire()@ == before.spec_next_fire()@ + before.spec_advance(now)
        &&& self.spec_start() == before.spec_start()
        &&& self.spec_tick_len() == before.spec_tick_len()
        &&& self.spec_policy() == before.spec_policy()
        &&& before.spec_policy() == Policy::Skip ==> !self.is_due(now)
    }

    /// The timer as a probe at `now` leaves it when it is due and the probe succeeds.
    pub closed spec fn spec_advanced(self, now: Instant) -> IntervalTimer {
        IntervalTimer {
            next_fire: Instant::spec_from_origin(
                Duration::spec_from_nanos(
                    (self.spec_next_fire()@ + self.spec_advance(now)) as nat,
                ),
            ),
            ..self
        }
    }

    /// What a successful probe of a due timer changes: the next firing moves on by the
    /// advance, past `now` under the skip policy, and nothing else changes.
    pub proof fn lemma_advanced(self, now: Instant)
        requires
            self.wf(),
            self.is_due(now),
            !self.advance_overflows(now),
        ensures
            self.spec_advanced(now).wf(),
            self.spec_advanced(now).moved_on(self, now),
            self.spec_skipped(now) >= 0,
    {
        let next = self.next_fire@ as int;
        let tick = self.tick_ns as int;
        let start = self.start@ as int;
        let skipped = self.spec_skipped(now);
        let target = (next + self.spec_advance(now)) as nat;
        lemma_advance_bounds(now@ - next, tick);
        Duration::lemma_spec_from_nanos(target);
        Instant::lemma_spec_from_origin(Duration::spec_from_nanos(target));
        lemma_mod_multiples_vanish(1 + skipped, next - start, tick);
    }

    /// The timer is always well formed in this sense: its interval is positive and fits into
    /// 64 bits of nanoseconds, and the next firing lies a whole, positive number of
    /// intervals after its start.
    pub proof fn lemma_aligned(self)
        requires
            self.wf(),
        ensures
            0 < self.tick_nanos() <= u64::MAX,
            self.spec_next_fire()@ >= self.spec_start()@ + self.tick_nanos(),
            (self.spec_next_fire()@ - self.spec_start()@) % (self.tick_nanos() as int) == 0,
            self.spec_start().wf(),
            self.spec_next_fire().wf(),
            self.spec_tick_len().wf(),
    {
    }

    /// Creates a timer that is started at `start` and fires for the first time one
    /// `tick_len` later. Missed intervals are skipped.
    ///
    /// Fails with [`Error::Overflow`] when the interval does not fit into 64 bits of
    /// nanoseconds or the first firing lies beyond the latest instant, and with
    /// [`Error::InvalidConfiguration`] when the interval is zero.
    pub fn new(tick_len: Duration, start: Instant) -> (r: Result<IntervalTimer, Error>)
        ensures
            match r {
                Ok(t) => {
                    &&& 0 < tick_len@ <= u64::MAX
                    &&& start@ + tick_len@ <= Instant::max_nanos()
                    &&& t.spec_tick_len() == tick_len
                    &&& t.spec_start() == start
                    &&& t.spec_next_fire()@ == start@ + tick_len@
                    &&& t.spec_policy() == Policy::Skip
                },
                Err(Error::Overflow) => tick_len@ > u64::MAX || start@ + tick_len@
                    > Instant::max_nanos(),
                Err(Error::InvalidConfiguration) => tick_len@ == 0,
                Err(Error::InPast) => false,
            },
    {
        IntervalTimer::with_policy(tick_len, start, Policy::Skip)
    }

    /// Creates a timer as [`IntervalTimer::new`] does, with the given treatment of missed
    /// intervals.
    pub fn with_policy(tick_len: Duration, start: Instant, policy: Policy) -> (r: Result<
        IntervalTimer,
        Error,
    >)
        ensures
            match r {
                Ok(t) => {
                    &&& 0 < tick_len@ <= u64::MAX
                    &&& start@ + tick_len@ <= Instant::max_nanos()
                    &&& t.spec_tick_len() == tick_len
                    &&& t.spec_start() == start
                    &&& t.spec_next_fire()@ == start@ + tick_len@
                    &&& t.spec_policy() == policy
                },
                Err(Error::Overflow) => tick_len@ > u64::MAX || start@ + tick_len@
                    > Instant::max_nanos(),
                Err(Error::InvalidConfiguration) => tick_len@ == 0,
                Err(Error::InPast) => false,
            },
    {
        proof {
            use_type_invariant(tick_len);
            use_type_invariant(start);
        }
        let tick_ns: u64 = match tick_len.as_ns() {
            Err(_) => {
                return Err(Error::Overflow);
            },
            Ok(ns) => ns,
        };
        if tick_ns == 0 {
            return Err(Error::InvalidConfiguration);
        }
        match start.checked_add(tick_len) {
            None => Err(Error::Overflow),
            Some(next_fire) => {
                proof {
                    use_type_invariant(next_fire);
                    assert((tick_ns as int) % (tick_ns as int) == 0) by (nonlinear_arith)
                        requires
                            tick_ns > 0,
                    ;
                }
                Ok(IntervalTimer { start, next_fire, tick_len, tick_ns, policy })
            },
        }
    }

    /// The interval between two firings.
    pub fn tick_len(&self) -> (len: Duration)
        ensures
            len == self.spec_tick_len(),
            0 < len@ <= u64::MAX,
    {
        proof {
            use_type_invariant(self);
        }
        self.tick_len
    }

    /// The instant at which the timer fires next: a whole, positive number of intervals
    /// after the instant it was started at.
    pub fn next_fire(&self) -> (next: Instant)
        ensures
            next == self.spec_next_fire(),
            next@ >= self.spec_start()@ + self.tick_nanos(),
            (next@ - self.spec_start()@) % (self.tick_nanos() as int) == 0,
    {
        proof {
            use_type_invariant(self);
        }
        self.next_fire
    }

    /// The instant one interval before the next firing: that of the firing before, or the
    /// start while the timer has not fired yet.
    pub fn previous_fire(&self) -> (previous: Instant)
        ensures
            previous@ == self.spec_next_fire()@ - self.tick_nanos(),
            previous@ >= self.spec_start()@,
    {
        proof {
            use_type_invariant(self);
        }
        Instant::from_origin(self.next_fire.since_origin().saturating_sub(self.tick_len))
    }

    /// The treatment of missed intervals.
    pub fn policy(&self) -> (policy: Policy)
        ensures
            policy == self.spec_policy(),
    {
        self.policy
    }

    /// True when the timer is due at `now`.
    pub fn has_fired(&self, now: Instant) -> (fired: bool)
        ensures
            fired == self.is_due(now),
    {
        self.next_fire.at_or_before(&now)
    }

    /// The time left from `now` until the timer is due; empty once it is.
    pub fn remaining(&self, now: Instant) -> (left: Duration)
        ensures
            left@ == if self.is_due(now) {
                0
            } else {
                self.spec_next_fire()@ - now@
            },
    {
        self.next_fire.saturating_duration_since(now)
    }

    /// What a probe at `now` does to the timer, without doing it: nothing when the timer is
    /// armed, else the number of intervals passed over and the instant of the next firing.
    ///
    /// Fails with [`Error::Overflow`] exactly when the timer is due and
    /// [`IntervalTimer::advance_overflows`] holds.
    fn plan(&self, now: Instant) -> (r: Result<Option<(u64, Instant)>, Error>)
        ensures
            match r {
                Ok(None) => !self.is_due(now),
                Ok(Some((skipped, next))) => {
                    &&& self.is_due(now)
                    &&& !self.advance_overflows(now)
                    &&& skipped == self.spec_skipped(now)
                    &&& next == self.spec_advanced(now).spec_next_fire()
                    &&& next@ == self.spec_next_fire()@ + self.spec_advance(now)
                },
                Err(e) => e == Error::Overflow && self.is_due(now) && self.advance_overflows(
                    now,
                ),
            },
    {
        proof {
            use_type_invariant(self);
        }
        let late: Duration = match now.checked_duration_since(self.next_fire) {
            None => {
                return Ok(None);
            },
            Some(late) => late,
        };
        let skipped: u64 = match self.policy {
            Policy::CatchUp => 0,
            Policy::Skip => match late.as_ns() {
                Err(_) => {
                    return Err(Error::Overflow);
                },
                Ok(late_ns) => late_ns / self.tick_ns,
            },
        };
        proof {
            lemma_advance_bounds(now@ - self.next_fire@, self.tick_ns as int);
        }
        let ticks: u64 = match skipped.checked_add(1) {
            None => {
                return Err(Error::Overflow);
            },
            Some(ticks) => ticks,
        };
        let advance_ns: u64 = match self.tick_ns.checked_mul(ticks) {
            None => {
                proof {
                    assert(self.tick_ns * ticks == self.tick_ns * (1 + skipped))
                        by (nonlinear_arith)
                        requires
                            ticks == skipped + 1,
                    ;
                }
                return Err(Error::Overflow);
            },
            Some(ns) => ns,
        };
        proof {
            assert(self.tick_ns * ticks == self.tick_ns * (1 + skipped)) by (nonlinear_arith)
                requires
                    ticks == skipped + 1,
            ;
        }
        match self.next_fire.checked_add(Duration::from_ns(advance_ns)) {
            None => Err(Error::Overflow),
            Some(next) => {
                proof {
                    use_type_invariant(next);
                    next.lemma_bounded();
                    self.lemma_advanced(now);
                    Instant::lemma_view_injective(
                        next,
                        self.spec_advanced(now).spec_next_fire(),
                    );
                }
                Ok(Some((skipped, next)))
            },
        }
    }

    /// Probes the timer at `now` and re-arms it when it is due, as [`IntervalTimer::reset`]
    /// does, without a limit on the number of intervals passed over: `None` while the timer
    /// is armed, else that number.
    pub(crate) fn advance(&mut self, now: Instant) -> (r: Result<Option<u64>, Error>)
        ensures
            match r {
                Ok(None) => !old(self).is_due(now) && *final(self) == *old(self),
                Ok(Some(skipped)) => {
                    &&& old(self).is_due(now)
                    &&& !old(self).advance_overflows(now)
                    &&& skipped == old(self).spec_skipped(now)
                    &&& *final(self) == old(self).spec_advanced(now)
                    &&& final(self).moved_on(*old(self), now)
                },
                Err(e) => {
                    &&& e == Error::Overflow
                    &&& *final(self) == *old(self)
                    &&& old(self).is_due(now)
                    &&& old(self).advance_overflows(now)
                },
            },
    {
        match self.plan(now) {
            Err(e) => Err(e),
            Ok(None) => Ok(None),
            Ok(Some((skipped, next))) => {
                proof {
                    use_type_invariant(&*self);
                    self.lemma_advanced(now);
                }
                self.next_fire = next;
                Ok(Some(skipped))
            },
        }
    }

    /// Probes the timer at `now` and re-arms it when it is due. Returns the number of
    /// intervals that were passed over without a firing of their own.
    ///
    /// While the timer is armed this changes nothing and returns 0. Once it is due, the next
    /// firing moves on: under the skip policy by one interval more than the number of whole
    /// intervals by which `now` is late, which is the number returned; under the catch-up
    /// policy by one interval, and 0 is returned.
    ///
    /// Fails with [`Error::Overflow`], leaving the timer as it was, exactly when the timer is
    /// due and [`IntervalTimer::advance_overflows`] holds or the number to return does not fit
    /// into 32 bits.
    pub fn reset(&mut self, now: Instant) -> (r: Result<u32, Error>)
        ensures
            match r {
                Ok(skipped) => if old(self).is_due(now) {
                    &&& !old(self).advance_overflows(now)
                    &&& skipped == old(self).spec_skipped(now)
                    &&& *final(self) == old(self).spec_advanced(now)
                    &&& final(self).moved_on(*old(self), now)
                } else {
                    &&& skipped == 0
                    &&& *final(self) == *old(self)
                },
                Err(e) => {
                    &&& e == Error::Overflow
                    &&& *final(self) == *old(self)
                    &&& old(self).is_due(now)
                    &&& old(self).advance_overflows(now) || old(self).spec_skipped(now)
                        > u32::MAX
                },
            },
    {
        match self.plan(now) {
            Err(e) => Err(e),
            Ok(None) => Ok(0),
            Ok(Some((skipped, next))) => {
                if skipped > 0xffff_ffff {
                    Err(Error::Overflow)
                } else {
                    proof {
                        use_type_invariant(&*self);
                        self.lemma_advanced(now);
                    }
                    self.next_fire = next;
                    Ok(skipped as u32)
                }
            },
        }
    }

    /// Probes the timer at `now`: tells whether it is due and re-arms it when it is, as
    /// [`IntervalTimer::has_fired`] followed by [`IntervalTimer::reset`] would.
    ///
    /// While the timer is armed this changes nothing and returns `false`. It fails as `reset`
    /// does, leaving the timer as it was.
    pub fn handle(&mut self, now: Instant) -> (r: Result<bool, Error>)
        ensures
            match r {
                Ok(fired) => if old(self).is_due(now) {
                    &&& fired
                    &&& !old(self).advance_overflows(now)
                    &&& old(self).spec_skipped(now) <= u32::MAX
                    &&& *final(self) == old(self).spec_advanced(now)
                    &&& final(self).moved_on(*old(self), now)
                } else {
                    &&& !fired
                    &&& *final(self) == *old(self)
                },
                Err(e) => {
                    &&& e == Error::Overflow
                    &&& *final(self) == *old(self)
                    &&& old(self).is_due(now)
                    &&& old(self).advance_overflows(now) || old(self).spec_skipped(now)
                        > u32::MAX
                },
            },
    {
        if self.has_fired(now) {
            match self.reset(now) {
                Ok(_) => Ok(true),
                Err(e) => Err(e),
            }
        } else {
            Ok(false)
        }
    }
}

/// Dividing a lateness by the interval: the quotient is not negative, and one interval more
/// than the whole intervals in the lateness is longer than the lateness, by at most one
/// interval.
pub proof fn lemma_advance_bounds(late: int, tick: int)
    requires
        0 < tick,
    ensures
        0 <= late ==> 0 <= late / tick <= late,
        0 <= late ==> late < tick * (1 + late / tick) <= late + tick,
        tick * (1 + 0) == tick,
{
    if 0 <= late {
        assert(late == tick * (late / tick) + late % tick && 0 <= late % tick < tick && tick
            * (1 + late / tick) == tick * (late / tick) + tick && 0 <= late / tick <= late)
            by (nonlinear_arith)
            requires
                0 <= late,
                0 < tick,
        ;
    }
    assert(tick * (1 + 0) == tick) by (nonlinear_arith);
}

} // verus!
