//! Interval timer with a stored value.
//!
//! A [`Timer`] owns a value and a function. Probed with the current instant, it calls the
//! function on the value whenever its interval has passed. It does not run by itself: time
//! is handed in from outside.

use crate::duration::Duration;
use crate::error::Error;
use crate::instant::Instant;
use crate::interval::{IntervalTimer, Policy};
use std::marker::PhantomData;
use vstd::pervasive::cloned;
use vstd::prelude::*;

verus! {

/// Collects what a [`Timer`] is made of. Obtained from [`Timer::apply`].
#[derive(Debug)]
#[verifier::reject_recursive_types(V)]
#[verifier::reject_recursive_types(R)]
pub struct TimerBuilder<F, V, R> where F: Fn(Duration, &mut V) -> R {
    func: F,
    initial: V,
    interval: Option<Duration>,
    repeat: bool,
    policy: Policy,
}

/// A function that accepts every elapsed time and every value.
#[derive(Debug)]
#[verifier::reject_recursive_types(V)]
#[verifier::reject_recursive_types(R)]
struct Action<F, V, R> where F: Fn(Duration, &mut V) -> R {
    func: F,
    marker: PhantomData<V>,
}

/// A timer that applies a function to a stored value each time its interval has passed.
#[derive(Debug)]
#[verifier::reject_recursive_types(V)]
#[verifier::reject_recursive_types(R)]
pub struct Timer<F, V, R> where F: Fn(Duration, &mut V) -> R {
    action: Action<F, V, R>,
    value: V,
    schedule: IntervalTimer,
    /// False for a timer that fires only once.
    repeat: bool,
    /// True once a timer that fires only once has fired.
    spent: bool,
}

impl<F, V, R> Action<F, V, R> where F: Fn(Duration, &mut V) -> R {
    #[verifier::type_invariant]
    closed spec fn wf(self) -> bool {
        forall|elapsed: Duration, value: &mut V|
            elapsed.wf() ==> call_requires(self.func, (elapsed, value))
    }
}

impl<F, V, R> TimerBuilder<F, V, R> where F: Fn(Duration, &mut V) -> R {
    /// The function accepts every elapsed time and every value.
    #[verifier::type_invariant]
    pub closed spec fn wf(self) -> bool {
        &&& forall|elapsed: Duration, value: &mut V|
            elapsed.wf() ==> call_requires(self.func, (elapsed, value))
        &&& self.interval matches Some(interval) ==> interval.wf()
    }

    /// The function that the timer will apply.
    pub closed spec fn spec_func(self) -> F {
        self.func
    }

    /// The value that the timer will start with.
    pub closed spec fn spec_initial(self) -> V {
        self.initial
    }

    /// The interval, once one was set.
    pub closed spec fn spec_interval(self) -> Option<Duration> {
        self.interval
    }

    /// False when the timer is to fire only once, after a delay.
    pub closed spec fn spec_repeat(self) -> bool {
        self.repeat
    }

    /// The treatment of missed intervals.
    pub closed spec fn spec_policy(self) -> Policy {
        self.policy
    }

    fn new(func: F, initial: V) -> (b: TimerBuilder<F, V, R>)
        requires
            forall|elapsed: Duration, value: &mut V|
                elapsed.wf() ==> call_requires(func, (elapsed, value)),
        ensures
            b.spec_func() == func,
            b.spec_initial() == initial,
            b.spec_interval() is None,
            b.spec_repeat(),
            b.spec_policy() == Policy::Skip,
    {
        TimerBuilder { func, initial, interval: None, repeat: true, policy: Policy::Skip }
    }

    /// Fire in fixed intervals: the timer is due each time `interval` has passed.
    pub fn every(self, interval: Duration) -> (b: TimerBuilder<F, V, R>)
        ensures
            b.spec_func() == self.spec_func(),
            b.spec_initial() == self.spec_initial(),
            b.spec_interval() == Some(interval),
            b.spec_repeat(),
            b.spec_policy() == self.spec_policy(),
    {
        proof {
            use_type_invariant(&self);
            use_type_invariant(interval);
        }
        let mut b = self;
        b.interval = Some(interval);
        b.repeat = true;
        b
    }

    /// Fire once, after a delay: the timer is due when `delay` has passed, and stays silent
    /// after it has fired.
    pub fn once(self, delay: Duration) -> (b: TimerBuilder<F, V, R>)
        ensures
            b.spec_func() == self.spec_func(),
            b.spec_initial() == self.spec_initial(),
            b.spec_interval() == Some(delay),
            !b.spec_repeat(),
            b.spec_policy() == self.spec_policy(),
    {
        proof {
            use_type_invariant(&self);
            use_type_invariant(delay);
        }
        let mut b = self;
        b.interval = Some(delay);
        b.repeat = false;
        b
    }

    /// Replay missed intervals one by one instead of skipping them.
    pub fn catch_up(self) -> (b: TimerBuilder<F, V, R>)
        ensures
            b.spec_func() == self.spec_func(),
            b.spec_initial() == self.spec_initial(),
            b.spec_interval() == self.spec_interval(),
            b.spec_repeat() == self.spec_repeat(),
            b.spec_policy() == Policy::CatchUp,
    {
        proof {
            use_type_invariant(&self);
        }
        let mut b = self;
        b.policy = Policy::CatchUp;
        b
    }

    /// Starts the timer: `now` is recorded as its start, and it is due for the first time
    /// one interval later.
    ///
    /// Fails with [`Error::InvalidConfiguration`] when no interval was set or the interval is
    /// zero, and with [`Error::Overflow`] when the interval does not fit into 64 bits of
    /// nanoseconds or the first firing lies beyond the latest instant.
    pub fn start(self, now: Instant) -> (r: Result<Timer<F, V, R>, Error>)
        ensures
            match r {
                Ok(t) => {
                    &&& self.spec_interval() matches Some(interval)
                    &&& 0 < interval@ <= u64::MAX
                    &&& now@ + interval@ <= Instant::max_nanos()
                    &&& t.spec_func() == self.spec_func()
                    &&& t.spec_value() == self.spec_initial()
                    &&& t.spec_repeat() == self.spec_repeat()
                    &&& !t.spec_spent()
                    &&& t.spec_schedule().spec_tick_len() == interval
                    &&& t.spec_schedule().spec_start() == now
                    &&& t.spec_schedule().spec_next_fire()@ == now@ + interval@
                    &&& t.spec_schedule().spec_policy() == self.spec_policy()
                },
                Err(Error::InvalidConfiguration) => match self.spec_interval() {
                    None => true,
                    Some(interval) => interval@ == 0,
                },
                Err(Error::Overflow) => self.spec_interval() matches Some(interval) && (
                interval@ > u64::MAX || now@ + interval@ > Instant::max_nanos()),
                Err(Error::InPast) => false,
            },
    {
        proof {
            use_type_invariant(&self);
        }
        let interval: Duration = match self.interval {
            None => {
                return Err(Error::InvalidConfiguration);
            },
            Some(interval) => interval,
        };
        match IntervalTimer::with_policy(interval, now, self.policy) {
            Err(e) => Err(e),
            Ok(schedule) => Ok(
                Timer {
                    action: Action { func: self.func, marker: PhantomData },
                    value: self.initial,
                    schedule,
                    repeat: self.repeat,
                    spent: false,
                },
            ),
        }
    }
}

impl<F, V, R> Timer<F, V, R> where F: Fn(Duration, &mut V) -> R {
    /// The function that the timer applies.
    pub closed spec fn spec_func(self) -> F {
        self.action.func
    }

    /// The stored value.
    pub closed spec fn spec_value(self) -> V {
        self.value
    }

    /// When the timer fires.
    pub closed spec fn spec_schedule(self) -> IntervalTimer {
        self.schedule
    }

    /// False for a timer that fires only once, after a delay.
    pub closed spec fn spec_repeat(self) -> bool {
        self.repeat
    }

    /// True once a timer that fires only once has fired: it stays silent from then on.
    pub closed spec fn spec_spent(self) -> bool {
        self.spent
    }

    /// True when a probe at `now` makes the timer fire.
    pub open spec fn is_due(self, now: Instant) -> bool {
        !self.spec_spent() && self.spec_schedule().is_due(now)
    }

    /// The time that the function is told has elapsed when the timer fires at `now`: the
    /// time since the firing was due plus one interval, which is the time since the firing
    /// before it was due. In nanoseconds.
    pub open spec fn spec_elapsed(self, now: Instant) -> int {
        now@ - self.spec_schedule().spec_next_fire()@ + self.spec_schedule().tick_nanos()
    }

    /// Begins a timer that will apply `func` to a value that starts as `initial`.
    ///
    /// Each time the timer fires, `func` is handed the time that has elapsed since the
    /// firing before was due, and the value to change; what it returns is handed on by
    /// [`Timer::update`]. It has to accept every elapsed time and every value.
    pub fn apply(func: F, initial: V) -> (b: TimerBuilder<F, V, R>)
        requires
            forall|elapsed: Duration, value: &mut V|
                elapsed.wf() ==> call_requires(func, (elapsed, value)),
        ensures
            b.spec_func() == func,
            b.spec_initial() == initial,
            b.spec_interval() is None,
            b.spec_repeat(),
            b.spec_policy() == Policy::Skip,
    {
        TimerBuilder::new(func, initial)
    }

    /// The timer's interval.
    pub fn interval(&self) -> (interval: Duration)
        ensures
            interval == self.spec_schedule().spec_tick_len(),
            0 < interval@ <= u64::MAX,
    {
        self.schedule.tick_len()
    }

    /// When the timer fires: its start, interval, next firing and policy.
    pub fn schedule(&self) -> (schedule: IntervalTimer)
        ensures
            schedule == self.spec_schedule(),
    {
        self.schedule
    }

    /// Replaces the stored value.
    pub fn set_value(&mut self, value: V)
        ensures
            final(self).spec_value() == value,
            final(self).spec_func() == old(self).spec_func(),
            final(self).spec_schedule() == old(self).spec_schedule(),
            final(self).spec_repeat() == old(self).spec_repeat(),
            final(self).spec_spent() == old(self).spec_spent(),
    {
        self.value = value;
    }

    /// Probes the timer at `now`.
    ///
    /// While the timer is armed, nothing happens and `None` is returned; the same holds for
    /// good once a timer that fires only once has fired. When the timer is due, the function
    /// is called exactly once, on the elapsed time [`Timer::spec_elapsed`] and the stored
    /// value, and its result is returned; the next firing moves on as
    /// [`IntervalTimer::reset`] describes, so that under the skip policy all missed intervals
    /// are answered by this one call.
    ///
    /// Fails with [`Error::Overflow`] exactly when the timer is due and
    /// [`IntervalTimer::advance_overflows`] holds; the function is then not called and the
    /// timer is left as it was.
    pub fn update(&mut self, now: Instant) -> (r: Result<Option<R>, Error>)
        ensures
            final(self).spec_func() == old(self).spec_func(),
            final(self).spec_repeat() == old(self).spec_repeat(),
            match r {
                Ok(None) => {
                    &&& !old(self).is_due(now)
                    &&& *final(self) == *old(self)
                },
                Ok(Some(out)) => {
                    &&& old(self).is_due(now)
                    &&& !old(self).spec_schedule().advance_overflows(now)
                    &&& final(self).spec_schedule() == old(self).spec_schedule().spec_advanced(
                        now,
                    )
                    &&& final(self).spec_schedule().moved_on(old(self).spec_schedule(), now)
                    &&& final(self).spec_spent() == !old(self).spec_repeat()
                    &&& exists|value: &mut V|
                        {
                            &&& *value == old(self).spec_value()
                            &&& *final(value) == final(self).spec_value()
                            &&& call_ensures(
                                old(self).spec_func(),
                                (
                                    Duration::spec_from_nanos(old(self).spec_elapsed(now) as nat),
                                    value,
                                ),
                                out,
                            )
                        }
                },
                Err(e) => {
                    &&& e == Error::Overflow
                    &&& old(self).is_due(now)
                    &&& old(self).spec_schedule().advance_overflows(now)
                    &&& *final(self) == *old(self)
                },
            },
    {
        if self.spent {
            return Ok(None);
        }
        proof {
            use_type_invariant(&self.action);
            use_type_invariant(now);
        }
        let previous: Instant = self.schedule.previous_fire();
        match self.schedule.advance(now) {
            Err(e) => {
                return Err(e);
            },
            Ok(None) => {
                return Ok(None);
            },
            Ok(Some(_)) => {},
        }
        let elapsed: Duration = now.saturating_duration_since(previous);
        proof {
            use_type_invariant(elapsed);
            elapsed.lemma_is_spec_from_nanos();
        }
        self.spent = !self.repeat;
        let out = (self.action.func)(elapsed, &mut self.value);
        Ok(Some(out))
    }

    /// The stored value.
    pub fn as_ref(&self) -> (value: &V)
        ensures
            *value == self.spec_value(),
    {
        &self.value
    }

    /// The stored value, to be changed in place.
    pub fn as_mut(&mut self) -> (value: &mut V)
        ensures
            *value == old(self).spec_value(),
            final(self).spec_value() == *final(value),
            final(self).spec_func() == old(self).spec_func(),
            final(self).spec_schedule() == old(self).spec_schedule(),
            final(self).spec_repeat() == old(self).spec_repeat(),
            final(self).spec_spent() == old(self).spec_spent(),
    {
        &mut self.value
    }
}

impl<F, V: Clone, R> Timer<F, V, R> where F: Fn(Duration, &mut V) -> R {
    /// A copy of the stored value.
    pub fn value(&self) -> (value: V)
        ensures
            cloned(self.spec_value(), value),
    {
        self.value.clone()
    }
}

} // verus!
