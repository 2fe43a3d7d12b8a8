//! Spans of elapsed time with nanosecond resolution.

use vstd::prelude::*;

verus! {

/// Nanoseconds in one second.
pub const NANOS_PER_SEC: u64 = 1_000_000_000;

/// Nanoseconds in one millisecond.
pub const NANOS_PER_MILLI: u64 = 1_000_000;

/// Milliseconds in one second.
pub const MILLIS_PER_SEC: u64 = 1_000;

/// A non-negative span of time: whole seconds plus a sub-second part in nanoseconds.
///
/// The sub-second part always stays below one second, so every span has exactly one
/// representation and `==` on two durations compares the time they stand for.
#[derive(Clone, Copy, Debug, PartialEq, Eq, Structural, Hash)]
pub struct Duration {
    secs: u64,
    nanos: u32,
}

impl View for Duration {
    type V = nat;

    /// The span in nanoseconds.
    closed spec fn view(&self) -> nat {
        (self.secs * NANOS_PER_SEC + self.nanos) as nat
    }
}

impl Duration {
    /// The sub-second part is below one second.
    #[verifier::type_invariant]
    pub closed spec fn wf(self) -> bool {
        self.nanos < NANOS_PER_SEC
    }

    /// The longest span a `Duration` can hold, in nanoseconds.
    pub open spec fn max_nanos() -> nat {
        (u64::MAX * NANOS_PER_SEC + (NANOS_PER_SEC - 1)) as nat
    }

    /// The whole seconds of the span.
    pub closed spec fn spec_secs(self) -> nat {
        self.secs as nat
    }

    /// The sub-second part of the span, in nanoseconds.
    pub closed spec fn spec_subsec_nanos(self) -> nat {
        self.nanos as nat
    }

    /// A well-formed duration is its seconds and its sub-second part, and nothing else.
    pub proof fn lemma_parts(self)
        requires
            self.wf(),
        ensures
            self@ == self.spec_secs() * NANOS_PER_SEC + self.spec_subsec_nanos(),
            self.spec_subsec_nanos() < NANOS_PER_SEC,
            self.spec_secs() <= u64::MAX,
            self.spec_secs() == self@ / (NANOS_PER_SEC as nat),
            self.spec_subsec_nanos() == self@ % (NANOS_PER_SEC as nat),
            self@ <= Self::max_nanos(),
    {
        let s = self.secs as int;
        let n = self.nanos as int;
        assert((s * 1_000_000_000 + n) / 1_000_000_000 == s && (s * 1_000_000_000 + n)
            % 1_000_000_000 == n) by (nonlinear_arith)
            requires
                0 <= n < 1_000_000_000,
        ;
    }

    /// Two well-formed durations of the same length are the same value.
    pub proof fn lemma_view_injective(a: Duration, b: Duration)
        requires
            a.wf(),
            b.wf(),
            a@ == b@,
        ensures
            a == b,
    {
        a.lemma_parts();
        b.lemma_parts();
    }

    /// The empty span.
    pub fn zero() -> (d: Duration)
        ensures
            d@ == 0,
    {
        Duration { secs: 0, nanos: 0 }
    }

    /// A span of `secs` seconds and `nanos` nanoseconds; nanoseconds beyond one second carry
    /// over into the seconds. `None` when the carry does not fit.
    pub fn new(secs: u64, nanos: u32) -> (r: Option<Duration>)
        ensures
            match r {
                Some(d) => d@ == secs * NANOS_PER_SEC + nanos && d@ <= Self::max_nanos(),
                None => secs * NANOS_PER_SEC + nanos > Self::max_nanos(),
            },
    {
        let carry: u64 = (nanos / 1_000_000_000) as u64;
        let rest: u32 = nanos % 1_000_000_000;
        match secs.checked_add(carry) {
            Some(total) => Some(Duration { secs: total, nanos: rest }),
            None => None,
        }
    }

    /// A span of whole seconds.
    pub fn from_secs(secs: u64) -> (d: Duration)
        ensures
            d@ == secs * NANOS_PER_SEC,
    {
        Duration { secs, nanos: 0 }
    }

    /// A span of whole milliseconds.
    pub fn from_millis(millis: u64) -> (d: Duration)
        ensures
            d@ == millis * NANOS_PER_MILLI,
    {
        let sub: u64 = (millis % MILLIS_PER_SEC) * NANOS_PER_MILLI;
        Duration { secs: millis / MILLIS_PER_SEC, nanos: sub as u32 }
    }

    /// The span of `nanos` nanoseconds, as a value. Meant for counts up to `max_nanos()`.
    pub closed spec fn spec_from_nanos(nanos: nat) -> Duration {
        Duration {
            secs: (nanos / (NANOS_PER_SEC as nat)) as u64,
            nanos: (nanos % (NANOS_PER_SEC as nat)) as u32,
        }
    }

    /// `spec_from_nanos` is well formed and, within the range of a duration, stands for the
    /// count it was made from.
    pub proof fn lemma_spec_from_nanos(nanos: nat)
        ensures
            Self::spec_from_nanos(nanos).wf(),
            nanos <= Self::max_nanos() ==> Self::spec_from_nanos(nanos)@ == nanos,
    {
        let n = nanos as int;
        assert(n == 1_000_000_000 * (n / 1_000_000_000) + n % 1_000_000_000 && 0 <= n
            % 1_000_000_000 < 1_000_000_000 && (n <= 0xffff_ffff_ffff_ffff * 1_000_000_000
            + 999_999_999 ==> n / 1_000_000_000 <= 0xffff_ffff_ffff_ffff)) by (nonlinear_arith)
            requires
                0 <= n,
        ;
    }

    /// A well-formed duration is the value that `spec_from_nanos` gives for its length.
    pub proof fn lemma_is_spec_from_nanos(self)
        requires
            self.wf(),
        ensures
            self == Self::spec_from_nanos(self@),
    {
        self.lemma_parts();
        Self::lemma_spec_from_nanos(self@);
        Self::lemma_view_injective(self, Self::spec_from_nanos(self@));
    }

    /// A span of whole nanoseconds.
    pub fn from_nanos(nanos: u64) -> (d: Duration)
        ensures
            d == Self::spec_from_nanos(nanos as nat),
            d@ == nanos,
    {
        Duration { secs: nanos / NANOS_PER_SEC, nanos: (nanos % NANOS_PER_SEC) as u32 }
    }

    /// A span of whole nanoseconds, or `None` when it exceeds the longest span.
    pub fn from_nanos_u128(nanos: u128) -> (r: Option<Duration>)
        ensures
            match r {
                Some(d) => d@ == nanos && nanos <= Self::max_nanos(),
                None => nanos > Self::max_nanos(),
            },
    {
        let secs: u128 = nanos / 1_000_000_000;
        let sub: u128 = nanos % 1_000_000_000;
        if secs > 0xffff_ffff_ffff_ffff {
            None
        } else {
            Some(Duration { secs: secs as u64, nanos: sub as u32 })
        }
    }

    /// The whole seconds of the span.
    pub fn as_secs(&self) -> (s: u64)
        ensures
            s == self.spec_secs(),
            s == self@ / (NANOS_PER_SEC as nat),
    {
        proof {
            use_type_invariant(self);
            self.lemma_parts();
        }
        self.secs
    }

    /// The sub-second part of the span, in nanoseconds: always below one second.
    pub fn subsec_nanos(&self) -> (n: u32)
        ensures
            n == self.spec_subsec_nanos(),
            n == self@ % (NANOS_PER_SEC as nat),
            n < NANOS_PER_SEC,
    {
        proof {
            use_type_invariant(self);
            self.lemma_parts();
        }
        self.nanos
    }

    /// The whole span in nanoseconds.
    pub fn as_nanos(&self) -> (n: u128)
        ensures
            n == self@,
    {
        let whole: u128 = (self.secs as u128) * 1_000_000_000;
        whole + (self.nanos as u128)
    }

    /// True when `self` is no longer than `other`.
    pub fn at_most(&self, other: &Duration) -> (b: bool)
        ensures
            b == (self@ <= other@),
    {
        proof {
            use_type_invariant(self);
            use_type_invariant(other);
        }
        self.secs < other.secs || (self.secs == other.secs && self.nanos <= other.nanos)
    }

    /// The sum of two spans, or `None` when it exceeds the longest span.
    pub fn checked_add(self, rhs: Duration) -> (r: Option<Duration>)
        ensures
            match r {
                Some(d) => d@ == self@ + rhs@ && d@ <= Self::max_nanos(),
                None => self@ + rhs@ > Self::max_nanos(),
            },
    {
        proof {
            use_type_invariant(self);
            use_type_invariant(rhs);
        }
        let sub: u32 = self.nanos + rhs.nanos;
        let carry: u64 = if sub >= 1_000_000_000 { 1 } else { 0 };
        let rest: u32 = if sub >= 1_000_000_000 { sub - 1_000_000_000 } else { sub };
        match self.secs.checked_add(rhs.secs) {
            Some(whole) => match whole.checked_add(carry) {
                Some(secs) => Some(Duration { secs, nanos: rest }),
                None => None,
            },
            None => None,
        }
    }

    /// The difference of two spans, or `None` when `rhs` is the longer one.
    pub fn checked_sub(self, rhs: Duration) -> (r: Option<Duration>)
        ensures
            match r {
                Some(d) => self@ >= rhs@ && d@ == self@ - rhs@,
                None => self@ < rhs@,
            },
    {
        proof {
            use_type_invariant(self);
            use_type_invariant(rhs);
        }
        if self.secs < rhs.secs || (self.secs == rhs.secs && self.nanos < rhs.nanos) {
            None
        } else if self.nanos >= rhs.nanos {
            Some(Duration { secs: self.secs - rhs.secs, nanos: self.nanos - rhs.nanos })
        } else {
            Some(
                Duration {
                    secs: self.secs - rhs.secs - 1,
                    nanos: self.nanos + 1_000_000_000 - rhs.nanos,
                },
            )
        }
    }

    /// The difference of two spans, or the empty span when `rhs` is the longer one.
    pub fn saturating_sub(self, rhs: Duration) -> (d: Duration)
        ensures
            d@ == if self@ >= rhs@ { self@ - rhs@ } else { 0 },
    {
        match self.checked_sub(rhs) {
            Some(d) => d,
            None => Duration::zero(),
        }
    }
}

} // verus!
