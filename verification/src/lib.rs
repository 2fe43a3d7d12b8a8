//! Timing toolkit for frame-based applications and rate-limited streams.
//!
//! Everything here computes and nothing blocks. A [`Clock`] says which tick comes next and
//! how long to wait for it; an [`IntervalTimer`] or a [`Timer`] says whether its interval has
//! passed at the instant it is probed with; a [`throttled_io::ThrottledIo`] says how long a
//! stream has to pause after a transfer to keep within its rate. The caller does the
//! waiting.
//!
//! Time is measured in [`Instant`]s on a monotonic time line and [`Duration`]s between
//! them, both with nanosecond resolution. Arithmetic on them never wraps: what leaves the
//! representable range is reported as [`Error::Overflow`].

pub mod attempt;
pub mod clock;
pub mod delay;
pub mod duration;
pub mod error;
pub mod framecounter;
pub mod instant;
pub mod interval;
pub mod reader;
pub mod throttled_io;
pub mod timer;
pub mod util;

pub use crate::attempt::Attempt;
pub use crate::clock::Clock;
pub use crate::duration::Duration;
pub use crate::error::Error;
pub use crate::instant::Instant;
pub use crate::interval::{IntervalTimer, Policy};
pub use crate::timer::Timer;
pub use crate::util::NanoSeconds;
