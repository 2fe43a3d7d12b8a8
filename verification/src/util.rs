//! Conversion between durations and plain nanosecond counts.

use crate::duration::{Duration, NANOS_PER_SEC};
use crate::error::Error;
use vstd::prelude::*;

verus! {

/// Conversion to and from a 64 bit nanosecond count.
pub trait NanoSeconds: Sized {
    /// The number of nanoseconds that the value stands for.
    spec fn spec_ns(&self) -> nat;

    /// The value that stands for `ns` nanoseconds.
    spec fn spec_from_ns(ns: u64) -> Self;

    /// The number of nanoseconds in the value.
    ///
    /// Fails with [`Error::Overflow`] exactly when the count does not fit into 64 bits, which
    /// for a duration is the case beyond roughly 584 years.
    fn as_ns(&self) -> (r: Result<u64, Error>)
        ensures
            match r {
                Ok(ns) => ns == self.spec_ns(),
                Err(e) => e == Error::Overflow && self.spec_ns() > u64::MAX,
            },
    ;

    /// The value of `ns` nanoseconds. Never fails.
    fn from_ns(ns: u64) -> (r: Self)
        ensures
            r == Self::spec_from_ns(ns),
            r.spec_ns() == ns,
    ;
}

impl NanoSeconds for Duration {
    open spec fn spec_ns(&self) -> nat {
        self@
    }

    open spec fn spec_from_ns(ns: u64) -> Duration {
        Duration::spec_from_nanos(ns as nat)
    }

    fn as_ns(&self) -> (r: Result<u64, Error>) {
        let secs: u64 = self.as_secs();
        let sub: u64 = self.subsec_nanos() as u64;
        proof {
            use_type_invariant(self);
            self.lemma_parts();
        }
        match secs.checked_mul(NANOS_PER_SEC) {
            Some(whole) => match whole.checked_add(sub) {
                Some(ns) => Ok(ns),
                None => Err(Error::Overflow),
            },
            None => Err(Error::Overflow),
        }
    }

    fn from_ns(ns: u64) -> (r: Duration) {
        Duration::from_nanos(ns)
    }
}

/// Converting a duration that fits into 64 bits of nanoseconds to its count and back gives
/// the duration itself.
pub proof fn lemma_ns_round_trip(d: Duration)
    requires
        d.wf(),
        d.spec_ns() <= u64::MAX,
    ensures
        Duration::spec_from_ns(d.spec_ns() as u64) == d,
        Duration::spec_from_ns(d.spec_ns() as u64).spec_ns() == d.spec_ns(),
{
    let back = Duration::spec_from_ns(d.spec_ns() as u64);
    Duration::lemma_spec_from_nanos(d.spec_ns());
    Duration::lemma_view_injective(back, d);
}

/// Converting a nanosecond count to a duration and back gives the count itself.
pub proof fn lemma_ns_round_trip_count(ns: u64)
    ensures
        Duration::spec_from_ns(ns).spec_ns() == ns,
{
    Duration::lemma_spec_from_nanos(ns as nat);
}

} // verus!
