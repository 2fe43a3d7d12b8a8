//! Fixed pauses between attempts.
//!
//! A [`Delay`] hands out the pause to make before each step of a loop. Nothing here blocks:
//! the functions that retry take the means of pausing from the caller.

use crate::duration::Duration;
use vstd::prelude::*;

verus! {

/// A series of pauses of one fixed length, with or without a pause before the first step.
#[derive(Clone, Copy, Debug, PartialEq, Eq, Structural)]
pub struct Delay {
    /// Length of a pause.
    delay: Duration,
    /// True while the first step is still to come and goes without a pause.
    first_tick: bool,
}

/// True when an attempt that ended in `outcome` is to be made again: it failed and there
/// are retries left.
pub fn should_retry<T, E>(outcome: &Result<T, E>, retries_left: usize) -> (again: bool)
    ensures
        again == (outcome is Err && retries_left > 0),
{
    outcome.is_err() && retries_left > 0
}

impl Delay {
    /// The length of a pause.
    pub closed spec fn spec_delay(self) -> Duration {
        self.delay
    }

    /// True while the first step is still to come and goes without a pause.
    pub closed spec fn spec_first_tick(self) -> bool {
        self.first_tick
    }

    /// Pauses of `delay` between the steps: none before the first step.
    pub fn new(delay: Duration) -> (d: Delay)
        ensures
            d.spec_delay() == delay,
            d.spec_first_tick(),
    {
        Delay { delay, first_tick: true }
    }

    /// Pauses of `delay` before every step, the first one included.
    pub fn delayed(delay: Duration) -> (d: Delay)
        ensures
            d.spec_delay() == delay,
            !d.spec_first_tick(),
    {
        Delay { delay, first_tick: false }
    }

    /// The pause to make before the next step: `None` before a first step that goes without
    /// one, else the delay.
    pub fn next_pause(&mut self) -> (pause: Option<Duration>)
        ensures
            final(self).spec_delay() == old(self).spec_delay(),
            !final(self).spec_first_tick(),
            pause == if old(self).spec_first_tick() {
                None
            } else {
                Some(old(self).spec_delay())
            },
    {
        if self.first_tick {
            self.first_tick = false;
            None
        } else {
            Some(self.delay)
        }
    }

    /// Calls `f` until it succeeds, at most `retries` more times after the first call, and
    /// returns what the last call returned. Before each call but the first it makes the next
    /// pause of this series by calling `pause`.
    pub fn retry<T, E, F, P>(&mut self, retries: usize, f: F, pause: P) -> (rv: Result<T, E>)
        where
            F: Fn() -> Result<T, E>,
            P: Fn(Duration),
        requires
            call_requires(f, ()),
            call_requires(pause, (old(self).spec_delay(),)),
        ensures
            call_ensures(f, (), rv),
            final(self).spec_delay() == old(self).spec_delay(),
            !old(self).spec_first_tick() ==> !final(self).spec_first_tick(),
    {
        let mut rv = f();
        let mut left: usize = retries;
        while should_retry(&rv, left)
            invariant
                call_requires(f, ()),
                call_requires(pause, (self.spec_delay(),)),
                call_ensures(f, (), rv),
                self.spec_delay() == old(self).spec_delay(),
                left == retries ==> self.spec_first_tick() == old(self).spec_first_tick(),
                left < retries ==> !self.spec_first_tick(),
                left <= retries,
            decreases left,
        {
            match self.next_pause() {
                None => {},
                Some(length) => {
                    pause(length);
                },
            }
            rv = f();
            left = left - 1;
        }
        rv
    }
}

/// Calls `f` until it succeeds, at most `retries` more times after the first call, and
/// returns what the last call returned. Before each call but the first it pauses for `delay`
/// by calling `pause`.
pub fn retry<T, E, F, P>(retries: usize, delay: Duration, f: F, pause: P) -> (rv: Result<T, E>)
    where
        F: Fn() -> Result<T, E>,
        P: Fn(Duration),
    requires
        call_requires(f, ()),
        call_requires(pause, (delay,)),
    ensures
        call_ensures(f, (), rv),
{
    let mut pauses = Delay::delayed(delay);
    pauses.retry(retries, f, pause)
}

/// Calls `f` until it returns a value, at most `retries` more times after the first call, and
/// returns what the last call returned. Before each call but the first it pauses for `delay`
/// by calling `pause`.
pub fn retry_opt<T, F, P>(retries: usize, delay: Duration, f: F, pause: P) -> (rv: Option<T>)
    where
        F: Fn() -> Option<T>,
        P: Fn(Duration),
    requires
        call_requires(f, ()),
        call_requires(pause, (delay,)),
    ensures
        call_ensures(f, (), rv),
{
    let inner = &f;
    let attempt = || -> (outcome: Result<T, ()>)
        requires
            call_requires(inner, ()),
        ensures
            match outcome {
                Ok(value) => call_ensures(inner, (), Some(value)),
                Err(_) => call_ensures(inner, (), None),
            },
        {
            match inner() {
                Some(value) => Ok(value),
                None => Err(()),
            }
        };
    match retry(retries, delay, attempt, pause) {
        Ok(value) => Some(value),
        Err(_) => None,
    }
}

} // verus!
