//! Rate-limited streams.
//!
//! A [`ThrottledIo`] keeps count of the bytes that went through a stream in each direction
//! and works out, after every transfer, how long the caller has to pause so that the average
//! rate since the start stays within the limit. Transfers are never held back beforehand: a
//! burst goes through at once and is paid for by the pause that follows it.

use crate::duration::Duration;
use crate::error::Error;
use crate::instant::Instant;
use vstd::arithmetic::div_mod::{
    lemma_div_is_ordered, lemma_div_is_ordered_by_denominator, lemma_fundamental_div_mod,
    lemma_fundamental_div_mod_converse,
};
use vstd::prelude::*;

verus! {

/// Nanoseconds in one second.
pub const NS_PER_SECOND: u128 = 1_000_000_000;

/// The number of bytes that a rate of `bytes_per_second` allows within `elapsed_ns`
/// nanoseconds.
pub open spec fn allowed_bytes(elapsed_ns: nat, bytes_per_second: nat) -> nat {
    elapsed_ns * bytes_per_second / (NS_PER_SECOND as nat)
}

/// The pause, in nanoseconds, that brings a stream back within `bytes_per_second` after
/// `total` bytes went through it in `elapsed_ns` nanoseconds: the time that the bytes beyond
/// the allowed ones take at that rate.
pub open spec fn owed_nanos(total: nat, elapsed_ns: nat, bytes_per_second: nat) -> nat {
    let allowed = allowed_bytes(elapsed_ns, bytes_per_second);
    if allowed < total {
        ((total - allowed) * NS_PER_SECOND / (bytes_per_second as int)) as nat
    } else {
        0
    }
}

/// The pause ends, to the nanosecond, where the bytes allowed catch up with the bytes that
/// went through: when the pause is over no more than `total` bytes are allowed, so the
/// stream is held back no longer than its rate asks for, and one nanosecond later at least
/// `total` bytes are.
pub proof fn lemma_pause_restores_budget(total: nat, elapsed_ns: nat, bytes_per_second: nat)
    requires
        bytes_per_second > 0,
        allowed_bytes(elapsed_ns, bytes_per_second) < total,
    ensures
        allowed_bytes(
            elapsed_ns + owed_nanos(total, elapsed_ns, bytes_per_second),
            bytes_per_second,
        ) <= total,
        allowed_bytes(
            elapsed_ns + owed_nanos(total, elapsed_ns, bytes_per_second) + 1,
            bytes_per_second,
        ) >= total,
{
    let ns = NS_PER_SECOND as int;
    let rate = bytes_per_second as int;
    let used = elapsed_ns * rate;
    let allowed = used / ns;
    let beyond = total - allowed;
    let pause = (beyond * ns) / rate;
    lemma_fundamental_div_mod(used, ns);
    lemma_fundamental_div_mod(beyond * ns, rate);
    let at_end = (elapsed_ns + pause) * rate;
    let just_after = (elapsed_ns + pause + 1) * rate;
    assert(at_end == total * ns + used % ns - (beyond * ns) % rate && just_after == at_end
        + rate) by (nonlinear_arith)
        requires
            used == elapsed_ns * rate,
            used == ns * allowed + used % ns,
            beyond * ns == rate * pause + (beyond * ns) % rate,
            beyond == total - allowed,
            at_end == (elapsed_ns + pause) * rate,
            just_after == (elapsed_ns + pause + 1) * rate,
    ;
    lemma_div_is_ordered(at_end, total * ns + ns - 1, ns);
    lemma_div_is_ordered(total * ns, just_after, ns);
    lemma_fundamental_div_mod_converse(total * ns + ns - 1, ns, total as int, ns - 1);
    lemma_fundamental_div_mod_converse(total * ns, ns, total as int, 0);
}

/// A positive rate and the instant from which it is measured.
#[derive(Clone, Copy, Debug)]
struct Budget {
    bytes_per_second: u32,
    start: Instant,
}

/// A wrapper that limits the rate at which bytes are read from and written to what it holds.
#[derive(Debug)]
pub struct ThrottledIo<T> {
    /// Rate limit and start time.
    budget: Budget,
    /// Total bytes read since the start.
    total_read: u128,
    /// Total bytes written since the start.
    total_written: u128,
    /// What is read from and written to.
    io: T,
}

impl Budget {
    #[verifier::type_invariant]
    closed spec fn wf(self) -> bool {
        self.bytes_per_second > 0 && self.start.wf()
    }

    /// The pause owed at `now` once `total` bytes have gone through.
    fn delay(&self, total: u128, now: Instant) -> (r: Result<Duration, Error>)
        ensures
            self.bytes_per_second > 0,
            match r {
                Ok(pause) => now@ >= self.start@ && pause@ <= Duration::max_nanos() && pause@
                    == owed_nanos(
                    total as nat,
                    (now@ - self.start@) as nat,
                    self.bytes_per_second as nat,
                ),
                Err(Error::InPast) => now@ < self.start@,
                Err(Error::Overflow) => now@ >= self.start@ && owed_nanos(
                    total as nat,
                    (now@ - self.start@) as nat,
                    self.bytes_per_second as nat,
                ) > Duration::max_nanos(),
                Err(Error::InvalidConfiguration) => false,
            },
    {
        proof {
            use_type_invariant(self);
        }
        let elapsed: Duration = match now.checked_duration_since(self.start) {
            None => {
                return Err(Error::InPast);
            },
            Some(elapsed) => elapsed,
        };
        proof {
            use_type_invariant(elapsed);
            elapsed.lemma_parts();
        }
        let elapsed_ns: u128 = elapsed.as_nanos();
        let rate: u128 = self.bytes_per_second as u128;
        assert(elapsed_ns * rate <= 0xffff_ffff_ffff_ffff_ffff_ffff_ffff_ffff) by (nonlinear_arith)
            requires
                elapsed_ns <= 0xffff_ffff_ffff_ffff * 1_000_000_000 + 999_999_999,
                rate <= 0xffff_ffff,
        ;
        let max_bytes: u128 = elapsed_ns * rate / NS_PER_SECOND;
        if max_bytes < total {
            let beyond: u128 = total - max_bytes;
            match beyond.checked_mul(NS_PER_SECOND) {
                None => {
                    proof {
                        let scaled: int = beyond * NS_PER_SECOND;
                        let top: int = u128::MAX + 1;
                        lemma_div_is_ordered(top, scaled, rate as int);
                        lemma_div_is_ordered_by_denominator(top, rate as int, 0xffff_ffff);
                    }
                    Err(Error::Overflow)
                },
                Some(scaled) => match Duration::from_nanos_u128(scaled / rate) {
                    None => Err(Error::Overflow),
                    Some(pause) => Ok(pause),
                },
            }
        } else {
            Ok(Duration::zero())
        }
    }
}

impl<T> ThrottledIo<T> {
    /// The rate limit in bytes per second.
    pub closed spec fn spec_rate(self) -> nat {
        self.budget.bytes_per_second as nat
    }

    /// The instant from which the rate is measured.
    pub closed spec fn spec_start(self) -> Instant {
        self.budget.start
    }

    /// Total bytes read since the start.
    pub closed spec fn spec_total_read(self) -> nat {
        self.total_read as nat
    }

    /// Total bytes written since the start.
    pub closed spec fn spec_total_written(self) -> nat {
        self.total_written as nat
    }

    /// What is read from and written to.
    pub closed spec fn spec_inner(self) -> T {
        self.io
    }

    /// The pause owed at `now` when `total` bytes have gone through in one direction, in
    /// nanoseconds.
    pub open spec fn spec_delay(self, total: nat, now: Instant) -> nat {
        owed_nanos(total, (now@ - self.spec_start()@) as nat, self.spec_rate())
    }

    /// Wraps `io` with a limit of `bytes_per_second`, measured from now.
    ///
    /// Fails with [`Error::InvalidConfiguration`] exactly when the rate is zero.
    pub fn new(io: T, bytes_per_second: u32) -> (r: Result<ThrottledIo<T>, Error>)
        ensures
            match r {
                Ok(t) => {
                    &&& bytes_per_second > 0
                    &&& t.spec_rate() == bytes_per_second
                    &&& t.spec_start()@ <= u64::MAX
                    &&& t.spec_total_read() == 0
                    &&& t.spec_total_written() == 0
                    &&& t.spec_inner() == io
                },
                Err(e) => e == Error::InvalidConfiguration && bytes_per_second == 0,
            },
    {
        ThrottledIo::new_with_start_time(io, bytes_per_second, Instant::now())
    }

    /// Wraps `io` with a limit of `bytes_per_second`, measured from `now`.
    ///
    /// Fails with [`Error::InvalidConfiguration`] exactly when the rate is zero.
    pub fn new_with_start_time(io: T, bytes_per_second: u32, now: Instant) -> (r: Result<
        ThrottledIo<T>,
        Error,
    >)
        ensures
            match r {
                Ok(t) => {
                    &&& bytes_per_second > 0
                    &&& t.spec_rate() == bytes_per_second
                    &&& t.spec_start() == now
                    &&& t.spec_total_read() == 0
                    &&& t.spec_total_written() == 0
                    &&& t.spec_inner() == io
                },
                Err(e) => e == Error::InvalidConfiguration && bytes_per_second == 0,
            },
    {
        if bytes_per_second == 0 {
            Err(Error::InvalidConfiguration)
        } else {
            proof {
                use_type_invariant(now);
            }
            Ok(
                ThrottledIo {
                    budget: Budget { bytes_per_second, start: now },
                    total_read: 0,
                    total_written: 0,
                    io,
                },
            )
        }
    }

    /// Gives back what was wrapped, unchanged. The counts are dropped.
    pub fn into_inner(self) -> (io: T)
        ensures
            io == self.spec_inner(),
    {
        self.io
    }

    /// What is read from and written to.
    pub fn get_ref(&self) -> (io: &T)
        ensures
            *io == self.spec_inner(),
    {
        &self.io
    }

    /// What is read from and written to, for use in place. The limit and the counts stay as
    /// they are.
    pub fn get_mut(&mut self) -> (io: &mut T)
        ensures
            *io == old(self).spec_inner(),
            final(self).spec_inner() == *final(io),
            final(self).spec_rate() == old(self).spec_rate(),
            final(self).spec_start() == old(self).spec_start(),
            final(self).spec_total_read() == old(self).spec_total_read(),
            final(self).spec_total_written() == old(self).spec_total_written(),
    {
        &mut self.io
    }

    /// The rate limit in bytes per second: never zero.
    pub fn rate(&self) -> (bytes_per_second: u32)
        ensures
            bytes_per_second == self.spec_rate(),
            bytes_per_second > 0,
    {
        proof {
            use_type_invariant(&self.budget);
        }
        self.budget.bytes_per_second
    }

    /// The instant from which the rate is measured.
    pub fn start(&self) -> (start: Instant)
        ensures
            start == self.spec_start(),
    {
        self.budget.start
    }

    /// Total bytes read since the start.
    pub fn total_read(&self) -> (total: u128)
        ensures
            total == self.spec_total_read(),
    {
        self.total_read
    }

    /// Total bytes written since the start.
    pub fn total_written(&self) -> (total: u128)
        ensures
            total == self.spec_total_written(),
    {
        self.total_written
    }

    /// The pause that is owed at `now` when `total` bytes have gone through in one
    /// direction: none while the bytes that the rate allows for the time since the start
    /// cover `total`, else the time that the bytes beyond them take at the rate.
    ///
    /// Fails with [`Error::InPast`] when `now` lies before the start, and with
    /// [`Error::Overflow`] when the pause exceeds the longest duration.
    pub fn delay(&self, total: u128, now: Instant) -> (r: Result<Duration, Error>)
        ensures
            match r {
                Ok(pause) => {
                    &&& now@ >= self.spec_start()@
                    &&& pause@ == self.spec_delay(total as nat, now)
                    &&& pause@ <= Duration::max_nanos()
                },
                Err(Error::InPast) => now@ < self.spec_start()@,
                Err(Error::Overflow) => now@ >= self.spec_start()@ && self.spec_delay(
                    total as nat,
                    now,
                ) > Duration::max_nanos(),
                Err(Error::InvalidConfiguration) => false,
            },
    {
        self.budget.delay(total, now)
    }

    /// Takes note of `bytes` more bytes read, the read having ended at `now`, and returns the
    /// pause that is owed for the read direction.
    ///
    /// The pause is what [`ThrottledIo::delay`] gives for the new total of bytes read, and it
    /// fails as `delay` does. The bytes are counted whether or not the pause can be
    /// computed, unless the count itself leaves the 128 bit range: then nothing changes and
    /// [`Error::Overflow`] is returned.
    pub fn record_read(&mut self, bytes: usize, now: Instant) -> (r: Result<Duration, Error>)
        ensures
            final(self).spec_inner() == old(self).spec_inner(),
            final(self).spec_rate() == old(self).spec_rate(),
            final(self).spec_start() == old(self).spec_start(),
            final(self).spec_total_written() == old(self).spec_total_written(),
            final(self).spec_total_read() == if old(self).spec_total_read() + bytes
                <= u128::MAX {
                old(self).spec_total_read() + bytes
            } else {
                old(self).spec_total_read() as int
            },
            match r {
                Ok(pause) => {
                    &&& old(self).spec_total_read() + bytes <= u128::MAX
                    &&& now@ >= old(self).spec_start()@
                    &&& pause@ == old(self).spec_delay(final(self).spec_total_read(), now)
                    &&& pause@ <= Duration::max_nanos()
                },
                Err(Error::InPast) => {
                    &&& old(self).spec_total_read() + bytes <= u128::MAX
                    &&& now@ < old(self).spec_start()@
                },
                Err(Error::Overflow) => {
                    ||| old(self).spec_total_read() + bytes > u128::MAX
                    ||| now@ >= old(self).spec_start()@ && old(self).spec_delay(
                        final(self).spec_total_read(),
                        now,
                    ) > Duration::max_nanos()
                },
                Err(Error::InvalidConfiguration) => false,
            },
    {
        match self.total_read.checked_add(bytes as u128) {
            None => Err(Error::Overflow),
            Some(total) => {
                self.total_read = total;
                self.budget.delay(total, now)
            },
        }
    }

    /// Takes note of `bytes` more bytes written, the write having ended at `now`, and returns
    /// the pause that is owed for the write direction.
    ///
    /// Works on the count of bytes written as [`ThrottledIo::record_read`] does on the count
    /// of bytes read; the two counts do not touch each other.
    pub fn record_write(&mut self, bytes: usize, now: Instant) -> (r: Result<Duration, Error>)
        ensures
            final(self).spec_inner() == old(self).spec_inner(),
            final(self).spec_rate() == old(self).spec_rate(),
            final(self).spec_start() == old(self).spec_start(),
            final(self).spec_total_read() == old(self).spec_total_read(),
            final(self).spec_total_written() == if old(self).spec_total_written() + bytes
                <= u128::MAX {
                old(self).spec_total_written() + bytes
            } else {
                old(self).spec_total_written() as int
            },
            match r {
                Ok(pause) => {
                    &&& old(self).spec_total_written() + bytes <= u128::MAX
                    &&& now@ >= old(self).spec_start()@
                    &&& pause@ == old(self).spec_delay(final(self).spec_total_written(), now)
                    &&& pause@ <= Duration::max_nanos()
                },
                Err(Error::InPast) => {
                    &&& old(self).spec_total_written() + bytes <= u128::MAX
                    &&& now@ < old(self).spec_start()@
                },
                Err(Error::Overflow) => {
                    ||| old(self).spec_total_written() + bytes > u128::MAX
                    ||| now@ >= old(self).spec_start()@ && old(self).spec_delay(
                        final(self).spec_total_written(),
                        now,
                    ) > Duration::max_nanos()
                },
                Err(Error::InvalidConfiguration) => false,
            },
    {
        match self.total_written.checked_add(bytes as u128) {
            None => Err(Error::Overflow),
            Some(total) => {
                self.total_written = total;
                self.budget.delay(total, now)
            },
        }
    }
}

} // verus!
