//! Points on a monotonic time line.

use crate::duration::Duration;
use vstd::prelude::*;

verus! {

/// A point on the monotonic time line, held as the span since the clock's origin.
///
/// The origin is fixed but unspecified: instants are only meaningful relative to one
/// another. They are plain values, freely copied.
#[derive(Clone, Copy, Debug, PartialEq, Eq, Structural, Hash)]
pub struct Instant {
    since_origin: Duration,
}

impl View for Instant {
    type V = nat;

    /// Nanoseconds since the clock's origin.
    closed spec fn view(&self) -> nat {
        self.since_origin@
    }
}

/// Reads the monotonic clock through `time::precise_time_ns`, which reports nanoseconds since
/// an origin that the platform picks. Nothing is claimed of the value read.
#[verifier::external_body]
pub(crate) fn monotonic_nanos() -> (ns: u64) {
    time::precise_time_ns()
}

impl Instant {
    /// The span since the origin is a well-formed duration.
    #[verifier::type_invariant]
    pub closed spec fn wf(self) -> bool {
        self.since_origin.wf()
    }

    /// The latest instant that can be held, in nanoseconds since the origin.
    pub open spec fn max_nanos() -> nat {
        Duration::max_nanos()
    }

    /// The instant that lies `offset` after the origin, as a value.
    pub closed spec fn spec_from_origin(offset: Duration) -> Instant {
        Instant { since_origin: offset }
    }

    /// `spec_from_origin` lies as far from the origin as the span it was made from is long.
    pub proof fn lemma_spec_from_origin(offset: Duration)
        ensures
            Self::spec_from_origin(offset)@ == offset@,
            offset.wf() ==> Self::spec_from_origin(offset).wf(),
    {
    }

    /// Two well-formed instants at the same distance from the origin are the same value.
    pub proof fn lemma_view_injective(a: Instant, b: Instant)
        requires
            a.wf(),
            b.wf(),
            a@ == b@,
        ensures
            a == b,
    {
        Duration::lemma_view_injective(a.since_origin, b.since_origin);
    }

    /// No instant lies beyond the latest one.
    pub proof fn lemma_bounded(self)
        requires
            self.wf(),
        ensures
            self@ <= Self::max_nanos(),
    {
        self.since_origin.lemma_parts();
    }

    /// The current reading of the monotonic clock. Whatever the clock reads, the instant lies
    /// within 64 bits of nanoseconds from the origin.
    pub fn now() -> (i: Instant)
        ensures
            i@ <= u64::MAX,
    {
        Instant::from_origin(Duration::from_nanos(monotonic_nanos()))
    }

    /// The instant that lies `offset` after the origin.
    pub fn from_origin(offset: Duration) -> (i: Instant)
        ensures
            i == Self::spec_from_origin(offset),
            i@ == offset@,
    {
        proof {
            use_type_invariant(offset);
        }
        Instant { since_origin: offset }
    }

    /// The span from the origin to this instant.
    pub fn since_origin(&self) -> (d: Duration)
        ensures
            d@ == self@,
            self == Self::spec_from_origin(d),
    {
        self.since_origin
    }

    /// True when `self` is not later than `other`.
    pub fn at_or_before(&self, other: &Instant) -> (b: bool)
        ensures
            b == (self@ <= other@),
    {
        self.since_origin.at_most(&other.since_origin)
    }

    /// The instant `span` after this one, or `None` when it lies beyond the latest instant.
    pub fn checked_add(self, span: Duration) -> (r: Option<Instant>)
        ensures
            match r {
                Some(i) => i@ == self@ + span@ && i@ <= Self::max_nanos(),
                None => self@ + span@ > Self::max_nanos(),
            },
    {
        match self.since_origin.checked_add(span) {
            Some(d) => Some(Instant::from_origin(d)),
            None => None,
        }
    }

    /// The span from `earlier` to this instant, or `None` when `earlier` is the later one.
    pub fn checked_duration_since(&self, earlier: Instant) -> (r: Option<Duration>)
        ensures
            match r {
                Some(d) => self@ >= earlier@ && d@ == self@ - earlier@,
                None => self@ < earlier@,
            },
    {
        self.since_origin.checked_sub(earlier.since_origin)
    }

    /// The span from `earlier` to this instant, or the empty span when `earlier` is the
    /// later one.
    pub fn saturating_duration_since(&self, earlier: Instant) -> (d: Duration)
        ensures
            d@ == if self@ >= earlier@ { self@ - earlier@ } else { 0 },
    {
        self.since_origin.saturating_sub(earlier.since_origin)
    }
}

} // verus!
