//! Frame counter.
//!
//! Counts frames in slices of a fixed length and keeps, for the slice that ended last, the
//! number of frames and the time they took: the two numbers that a frames-per-second figure
//! is the quotient of.

use crate::duration::NANOS_PER_SEC;
use crate::error::Error;
use crate::instant::monotonic_nanos;
use vstd::prelude::*;

verus! {

/// Counts frames per slice of time. All times are nanoseconds on the monotonic clock.
#[derive(Clone, Copy, Debug, PartialEq, Eq, Structural)]
pub struct FrameCounter {
    /// Start of the running slice.
    start_ns: u64,
    /// Frames counted in the running slice.
    frame_count: u32,
    /// Length of a slice.
    slice_size_ns: u64,
    /// Frames counted in the measuring period that ended last.
    last_frames: u32,
    /// Length of the measuring period that ended last.
    last_span_ns: u64,
}

impl FrameCounter {
    /// The slice length is positive.
    #[verifier::type_invariant]
    pub closed spec fn wf(self) -> bool {
        self.slice_size_ns > 0
    }

    /// Start of the running slice.
    pub closed spec fn spec_start_ns(self) -> nat {
        self.start_ns as nat
    }

    /// Frames counted in the running slice.
    pub closed spec fn spec_frame_count(self) -> nat {
        self.frame_count as nat
    }

    /// Length of a slice.
    pub closed spec fn spec_slice_size_ns(self) -> nat {
        self.slice_size_ns as nat
    }

    /// Frames counted in the measuring period that ended last; 0 before the first has ended.
    pub closed spec fn spec_last_frames(self) -> nat {
        self.last_frames as nat
    }

    /// Length of the measuring period that ended last; 0 before the first has ended.
    pub closed spec fn spec_last_span_ns(self) -> nat {
        self.last_span_ns as nat
    }

    /// The number of whole slices between the start of the running slice and `now_ns`.
    pub open spec fn slices_passed(self, now_ns: u64) -> int {
        (now_ns - self.spec_start_ns()) / (self.spec_slice_size_ns() as int)
    }

    /// True when `after` and `r` are what counting a frame at `now_ns` makes of the counter
    /// `self` and returns.
    ///
    /// A reading before the start of the running slice is refused, and so is a frame that
    /// the count has no room for; both leave the counter as it was. Else, when at least one
    /// whole slice has passed, a measuring period ends: the frames counted and the time since
    /// the start of the slice are kept as the last measurement, the running slice moves on by
    /// the whole slices that have passed, and the frame is the first of the new slice. When no
    /// whole slice has passed, the frame is counted in the running slice.
    pub open spec fn counted(self, now_ns: u64, after: FrameCounter, r: Result<bool, Error>) -> bool {
        &&& after.spec_slice_size_ns() == self.spec_slice_size_ns()
        &&& if now_ns < self.spec_start_ns() {
            r == Err::<bool, Error>(Error::InPast) && after == self
        } else if self.slices_passed(now_ns) > 0 {
            &&& r == Ok::<bool, Error>(true)
            &&& after.spec_last_frames() == self.spec_frame_count()
            &&& after.spec_last_span_ns() == now_ns - self.spec_start_ns()
            &&& after.spec_frame_count() == 1
            &&& after.spec_start_ns() == self.spec_start_ns() + self.spec_slice_size_ns()
                * self.slices_passed(now_ns)
        } else if self.spec_frame_count() == u32::MAX {
            r == Err::<bool, Error>(Error::Overflow) && after == self
        } else {
            &&& r == Ok::<bool, Error>(false)
            &&& after.spec_last_frames() == self.spec_last_frames()
            &&& after.spec_last_span_ns() == self.spec_last_span_ns()
            &&& after.spec_frame_count() == self.spec_frame_count() + 1
            &&& after.spec_start_ns() == self.spec_start_ns()
        }
    }

    /// Creates a frame counter with slices of `slice_size_ns`, the first of which starts now.
    ///
    /// Fails with [`Error::InvalidConfiguration`] exactly when the slice length is zero.
    pub fn new_with_slice_size(slice_size_ns: u64) -> (r: Result<FrameCounter, Error>)
        ensures
            match r {
                Ok(c) => {
                    &&& slice_size_ns > 0
                    &&& c.spec_slice_size_ns() == slice_size_ns
                    &&& c.spec_frame_count() == 0
                    &&& c.spec_last_frames() == 0
                    &&& c.spec_last_span_ns() == 0
                },
                Err(e) => e == Error::InvalidConfiguration && slice_size_ns == 0,
            },
    {
        FrameCounter::new_with_slice_size_at(slice_size_ns, monotonic_nanos())
    }

    /// Creates a frame counter with slices of `slice_size_ns`, the first of which starts at
    /// `now_ns`.
    ///
    /// Fails with [`Error::InvalidConfiguration`] exactly when the slice length is zero.
    pub fn new_with_slice_size_at(slice_size_ns: u64, now_ns: u64) -> (r: Result<
        FrameCounter,
        Error,
    >)
        ensures
            match r {
                Ok(c) => {
                    &&& slice_size_ns > 0
                    &&& c.spec_slice_size_ns() == slice_size_ns
                    &&& c.spec_start_ns() == now_ns
                    &&& c.spec_frame_count() == 0
                    &&& c.spec_last_frames() == 0
                    &&& c.spec_last_span_ns() == 0
                },
                Err(e) => e == Error::InvalidConfiguration && slice_size_ns == 0,
            },
    {
        if slice_size_ns == 0 {
            Err(Error::InvalidConfiguration)
        } else {
            Ok(
                FrameCounter {
                    start_ns: now_ns,
                    frame_count: 0,
                    slice_size_ns,
                    last_frames: 0,
                    last_span_ns: 0,
                },
            )
        }
    }

    /// Creates a frame counter with slices of one second, the first of which starts now.
    pub fn new() -> (c: FrameCounter)
        ensures
            c.spec_slice_size_ns() == NANOS_PER_SEC,
            c.spec_frame_count() == 0,
            c.spec_last_frames() == 0,
            c.spec_last_span_ns() == 0,
    {
        FrameCounter {
            start_ns: monotonic_nanos(),
            frame_count: 0,
            slice_size_ns: NANOS_PER_SEC,
            last_frames: 0,
            last_span_ns: 0,
        }
    }

    /// Counts one frame at the current reading of the monotonic clock, as
    /// [`FrameCounter::next_frame_at`] does for that reading.
    ///
    /// Returns true when a measuring period ended with this frame.
    pub fn next_frame(&mut self) -> (r: Result<bool, Error>)
        ensures
            exists|now_ns: u64| old(self).counted(now_ns, *final(self), r),
    {
        let now_ns: u64 = monotonic_nanos();
        self.next_frame_at(now_ns)
    }

    /// Counts one frame at `now_ns`, as [`FrameCounter::counted`] describes.
    ///
    /// Returns true when a measuring period ended with this frame.
    pub fn next_frame_at(&mut self, now_ns: u64) -> (r: Result<bool, Error>)
        ensures
            old(self).counted(now_ns, *final(self), r),
    {
        proof {
            use_type_invariant(&*self);
        }
        if now_ns < self.start_ns {
            return Err(Error::InPast);
        }
        let span: u64 = now_ns - self.start_ns;
        let slices: u64 = span / self.slice_size_ns;
        if slices > 0 {
            assert(self.slice_size_ns * slices <= span) by (nonlinear_arith)
                requires
                    slices == span / self.slice_size_ns,
                    self.slice_size_ns > 0,
            ;
            self.last_frames = self.frame_count;
            self.last_span_ns = span;
            self.frame_count = 1;
            self.start_ns = self.start_ns + self.slice_size_ns * slices;
            Ok(true)
        } else if self.frame_count == 0xffff_ffff {
            Err(Error::Overflow)
        } else {
            self.frame_count = self.frame_count + 1;
            Ok(false)
        }
    }

    /// The frames counted in the measuring period that ended last and the nanoseconds that
    /// the period took. Both are 0 before the first period has ended.
    pub fn last_measurement(&self) -> (m: (u32, u64))
        ensures
            m.0 == self.spec_last_frames(),
            m.1 == self.spec_last_span_ns(),
    {
        (self.last_frames, self.last_span_ns)
    }
}

} // verus!
