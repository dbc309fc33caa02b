//! Frame pacing: how long the host rests after a frame so that frames
//! follow each other at sixty a second.

use vstd::prelude::*;

verus! {

/// The length of a frame in nanoseconds.
pub const FRAME_NS: u64 = 16_666_667;

/// The nanoseconds left of the frame that began at `start`, at the time
/// `now`: nothing once the frame is over; the whole frame if the clock
/// stands before `start`.
pub open spec fn frame_rest(start: u64, now: u64) -> u64 {
    if now < start {
        FRAME_NS
    } else if now - start < FRAME_NS {
        (FRAME_NS - (now - start)) as u64
    } else {
        0
    }
}

/// Computes [`frame_rest`].
pub fn rest_of_frame(start: u64, now: u64) -> (rest: u32)
    ensures
        rest == frame_rest(start, now),
        rest <= FRAME_NS,
{
    if now < start {
        FRAME_NS as u32
    } else if now - start < FRAME_NS {
        (FRAME_NS - (now - start)) as u32
    } else {
        0
    }
}

/// The reading of `time::precise_time_ns`: nanoseconds since an epoch that
/// is not specified. Nothing is known of the value.
#[verifier::external_body]
fn clock_ns() -> (now: u64) {
    time::precise_time_ns()
}

/// The start of the frame that the console is working on.
pub struct FramePacer {
    pub frame_start: u64,
}

impl FramePacer {
    /// A pacer whose first frame starts now.
    pub fn new() -> (pacer: FramePacer) {
        FramePacer::starting_at(clock_ns())
    }

    /// Reads the clock and returns the nanoseconds for which the host is to
    /// rest before the next frame: at most a frame's length, whatever the
    /// clock says.
    pub fn rest(&self) -> (rest: u32)
        ensures
            rest <= FRAME_NS,
            exists|now: u64| rest == frame_rest(self.frame_start, now),
    {
        let now = clock_ns();
        rest_of_frame(self.frame_start, now)
    }

    /// Starts the next frame at the clock's reading, which it returns.
    pub fn restart(&mut self) -> (now: u64)
        ensures
            final(self).frame_start == now,
    {
        let now = clock_ns();
        self.frame_start = now;
        now
    }

    /// A pacer whose first frame started at the clock reading `now`.
    pub fn starting_at(now: u64) -> (pacer: FramePacer)
        ensures
            pacer.frame_start == now,
    {
        FramePacer { frame_start: now }
    }
}

} // verus!
