//! Bit-rate limited reading.
//!
//! A [`ThrottledReader`] counts the bytes read from a source and works out, after every
//! read, how long the caller has to pause so that the source is not read faster than a given
//! number of bits per second. The limit is kept as a whole number of nanoseconds per byte.

use crate::duration::Duration;
use crate::error::Error;
use crate::instant::Instant;
use vstd::arithmetic::div_mod::{
    lemma_div_is_ordered_by_denominator, lemma_fundamental_div_mod,
    lemma_fundamental_div_mod_converse,
};
use vstd::prelude::*;

verus! {

/// Nanoseconds that eight bits take at one bit per second.
pub const BYTE_NS_AT_ONE_BIT_PER_SECOND: u128 = 8_000_000_000;

/// The whole nanoseconds that one byte takes at `bits_per_second`.
pub open spec fn byte_nanos(bits_per_second: nat) -> nat {
    BYTE_NS_AT_ONE_BIT_PER_SECOND as nat / bits_per_second
}

/// The pause, in nanoseconds, after which `total` bytes have taken `ns_per_byte` each, when
/// `elapsed_ns` nanoseconds have passed already: the time for the bytes beyond those that
/// fit into the elapsed time.
pub open spec fn owed_read_nanos(total: nat, elapsed_ns: nat, ns_per_byte: nat) -> nat {
    let covered = elapsed_ns / ns_per_byte;
    if covered < total {
        ((total - covered) * ns_per_byte) as nat
    } else {
        0
    }
}

/// The pause ends exactly where the time since the start covers the bytes read: not one
/// byte less, not one more.
pub proof fn lemma_pause_covers_bytes(total: nat, elapsed_ns: nat, ns_per_byte: nat)
    requires
        ns_per_byte > 0,
        elapsed_ns / ns_per_byte < total,
    ensures
        (elapsed_ns + owed_read_nanos(total, elapsed_ns, ns_per_byte)) / ns_per_byte == total,
{
    let per = ns_per_byte as int;
    let covered = elapsed_ns as int / per;
    let beyond = total - covered;
    lemma_fundamental_div_mod(elapsed_ns as int, per);
    assert(elapsed_ns + beyond * per == per * total + elapsed_ns as int % per)
        by (nonlinear_arith)
        requires
            elapsed_ns == per * covered + elapsed_ns as int % per,
            beyond == total - covered,
    ;
    lemma_fundamental_div_mod_converse(
        elapsed_ns + beyond * per,
        per,
        total as int,
        elapsed_ns as int % per,
    );
}

/// A positive time per byte and the instant from which it is measured.
#[derive(Clone, Copy, Debug)]
struct Pace {
    ns_per_byte: u128,
    start: Instant,
}

/// A reader that limits the rate at which its source is read.
#[derive(Debug)]
pub struct ThrottledReader<R> {
    /// Time per byte and start time.
    pace: Pace,
    /// Total bytes read since the start.
    total_read: u128,
    /// What is read from.
    reader: R,
}

impl Pace {
    #[verifier::type_invariant]
    closed spec fn wf(self) -> bool {
        self.ns_per_byte > 0 && self.start.wf()
    }

    /// The pause owed at `now` once `total` bytes have been read.
    fn delay(&self, total: u128, now: Instant) -> (r: Result<Duration, Error>)
        ensures
            self.ns_per_byte > 0,
            match r {
                Ok(pause) => now@ >= self.start@ && pause@ <= Duration::max_nanos() && pause@
                    == owed_read_nanos(
                    total as nat,
                    (now@ - self.start@) as nat,
                    self.ns_per_byte as nat,
                ),
                Err(Error::InPast) => now@ < self.start@,
                Err(Error::Overflow) => now@ >= self.start@ && owed_read_nanos(
                    total as nat,
                    (now@ - self.start@) as nat,
                    self.ns_per_byte as nat,
                ) > Duration::max_nanos(),
                Err(Error::InvalidConfiguration) => false,
            },
    {
        proof {
            use_type_invariant(self);
        }
        let elapsed: Duration = match now.checked_duration_since(self.start) {
            None => {
                return Err(Error::InPast);
            },
            Some(elapsed) => elapsed,
        };
        let covered: u128 = elapsed.as_nanos() / self.ns_per_byte;
        if covered < total {
            match (total - covered).checked_mul(self.ns_per_byte) {
                None => Err(Error::Overflow),
                Some(owed) => match Duration::from_nanos_u128(owed) {
                    None => Err(Error::Overflow),
                    Some(pause) => Ok(pause),
                },
            }
        } else {
            Ok(Duration::zero())
        }
    }
}

impl<R> ThrottledReader<R> {
    /// The whole nanoseconds that one byte takes.
    pub closed spec fn spec_ns_per_byte(self) -> nat {
        self.pace.ns_per_byte as nat
    }

    /// The instant from which the rate is measured.
    pub closed spec fn spec_start(self) -> Instant {
        self.pace.start
    }

    /// Total bytes read since the start.
    pub closed spec fn spec_total_read(self) -> nat {
        self.total_read as nat
    }

    /// What is read from.
    pub closed spec fn spec_inner(self) -> R {
        self.reader
    }

    /// The pause owed at `now` when `total` bytes have been read, in nanoseconds.
    pub open spec fn spec_delay(self, total: nat, now: Instant) -> nat {
        owed_read_nanos(total, (now@ - self.spec_start()@) as nat, self.spec_ns_per_byte())
    }

    /// Wraps `reader` with a limit of `bits_per_second`, measured from now.
    ///
    /// Fails with [`Error::InvalidConfiguration`] exactly when the rate is zero.
    pub fn new(reader: R, bits_per_second: u32) -> (r: Result<ThrottledReader<R>, Error>)
        ensures
            match r {
                Ok(t) => {
                    &&& bits_per_second > 0
                    &&& t.spec_ns_per_byte() == byte_nanos(bits_per_second as nat)
                    &&& t.spec_start()@ <= u64::MAX
                    &&& t.spec_total_read() == 0
                    &&& t.spec_inner() == reader
                },
                Err(e) => e == Error::InvalidConfiguration && bits_per_second == 0,
            },
    {
        ThrottledReader::new_with_start_time(reader, bits_per_second, Instant::now())
    }

    /// Wraps `reader` with a limit of `bits_per_second`, measured from `now`.
    ///
    /// Fails with [`Error::InvalidConfiguration`] exactly when the rate is zero.
    pub fn new_with_start_time(reader: R, bits_per_second: u32, now: Instant) -> (r: Result<
        ThrottledReader<R>,
        Error,
    >)
        ensures
            match r {
                Ok(t) => {
                    &&& bits_per_second > 0
                    &&& t.spec_ns_per_byte() == byte_nanos(bits_per_second as nat)
                    &&& t.spec_start() == now
                    &&& t.spec_total_read() == 0
                    &&& t.spec_inner() == reader
                },
                Err(e) => e == Error::InvalidConfiguration && bits_per_second == 0,
            },
    {
        if bits_per_second == 0 {
            Err(Error::InvalidConfiguration)
        } else {
            proof {
                use_type_invariant(now);
            }
            let ns_per_byte: u128 = BYTE_NS_AT_ONE_BIT_PER_SECOND / (bits_per_second as u128);
            proof {
                lemma_div_is_ordered_by_denominator(
                    8_000_000_000,
                    bits_per_second as int,
                    0xffff_ffff,
                );
            }
            Ok(ThrottledReader { pace: Pace { ns_per_byte, start: now }, total_read: 0, reader })
        }
    }

    /// What is read from, for use in place. The limit and the count stay as they are.
    pub fn get_mut(&mut self) -> (reader: &mut R)
        ensures
            *reader == old(self).spec_inner(),
            final(self).spec_inner() == *final(reader),
            final(self).spec_ns_per_byte() == old(self).spec_ns_per_byte(),
            final(self).spec_start() == old(self).spec_start(),
            final(self).spec_total_read() == old(self).spec_total_read(),
    {
        &mut self.reader
    }

    /// Total bytes read since the start.
    pub fn total_read(&self) -> (total: u128)
        ensures
            total == self.spec_total_read(),
    {
        self.total_read
    }

    /// Takes note of `bytes` more bytes read, the read having ended at `now`, and returns the
    /// pause that is owed: none while the time since the start covers the bytes read so far
    /// at the time per byte, else the time for the bytes beyond.
    ///
    /// Fails with [`Error::InPast`] when `now` lies before the start, and with
    /// [`Error::Overflow`] when the pause exceeds the longest duration. The bytes are counted
    /// in both cases. When the count itself leaves the 128 bit range, nothing changes and
    /// [`Error::Overflow`] is returned.
    pub fn record_read(&mut self, bytes: usize, now: Instant) -> (r: Result<Duration, Error>)
        ensures
            final(self).spec_inner() == old(self).spec_inner(),
            final(self).spec_ns_per_byte() == old(self).spec_ns_per_byte(),
            final(self).spec_start() == old(self).spec_start(),
            final(self).spec_total_read() == if old(self).spec_total_read() + bytes
                <= u128::MAX {
                old(self).spec_total_read() + bytes
            } else {
                old(self).spec_total_read() as int
            },
            match r {
                Ok(pause) => {
                    &&& old(self).spec_total_read() + bytes <= u128::MAX
                    &&& now@ >= old(self).spec_start()@
                    &&& pause@ == old(self).spec_delay(final(self).spec_total_read(), now)
                    &&& pause@ <= Duration::max_nanos()
                },
                Err(Error::InPast) => {
                    &&& old(self).spec_total_read() + bytes <= u128::MAX
                    &&& now@ < old(self).spec_start()@
                },
                Err(Error::Overflow) => {
                    ||| old(self).spec_total_read() + bytes > u128::MAX
                    ||| now@ >= old(self).spec_start()@ && old(self).spec_delay(
                        final(self).spec_total_read(),
                        now,
                    ) > Duration::max_nanos()
                },
                Err(Error::InvalidConfiguration) => false,
            },
    {
        match self.total_read.checked_add(bytes as u128) {
            None => Err(Error::Overflow),
            Some(total) => {
                self.total_read = total;
                self.pace.delay(total, now)
            },
        }
    }
}

} // verus!
