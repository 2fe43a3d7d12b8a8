//! Failures shared by every component of the toolkit.

use vstd::prelude::*;

verus! {

/// Why a timing operation could not be carried out.
#[derive(Clone, Copy, Debug, PartialEq, Eq, Structural)]
pub enum Error {
    /// A nanosecond count, tick index or instant left the representable range.
    Overflow,
    /// A tick length, rate or slice size of zero, or a timer started without an interval.
    InvalidConfiguration,
    /// The instant handed in lies before the point in time it is measured against.
    InPast,
}

} // verus!
