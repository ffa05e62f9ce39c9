//! A frame counter and the framerate derived from it.
//!
//! The counter pairs an opaque clock reading with the number of frames
//! seen since that reading.  What the clock returns depends on the
//! machine and the moment, so nothing is promised of it; the framerate
//! computation itself, [`fps_from`], is exact for every elapsed time.

use vstd::prelude::*;

verus! {

#[verifier::external_type_specification]
#[verifier::external_body]
pub struct ExInstant(std::time::Instant);

/// Relies on std::time::Instant::now: an opaque monotonic clock reading.
#[verifier::external_body]
fn now() -> std::time::Instant {
    std::time::Instant::now()
}

/// Relies on std::time::Instant::elapsed: the time since the reading,
/// saturating at zero. The value depends on the clock, so nothing is
/// promised of it.
#[verifier::external_body]
fn elapsed(since: &std::time::Instant) -> std::time::Duration {
    since.elapsed()
}

/// Relies on std::time::Duration::as_millis: the duration in whole
/// milliseconds. Nothing here rests on the value.
#[verifier::external_body]
fn as_millis(duration: &std::time::Duration) -> u128 {
    duration.as_millis()
}

/// The framerate reported for a frame count over an elapsed time: the
/// frames per second, rounded down, saturating at the largest
/// representable value, and the largest representable value when no time
/// has passed at all.
pub open spec fn spec_fps(frames: u64, millis: u64) -> u64 {
    if millis == 0 {
        u64::MAX
    } else if (frames as int) * 1000 / (millis as int) > u64::MAX as int {
        u64::MAX
    } else {
        ((frames as int) * 1000 / (millis as int)) as u64
    }
}

/// Compute the framerate for a frame count over an elapsed time in
/// milliseconds.
pub fn fps_from(frames: u64, millis: u64) -> (r: u64)
    ensures
        r == spec_fps(frames, millis),
{
    if millis == 0 {
        u64::MAX
    } else {
        let v: u128 = frames as u128 * 1000 / millis as u128;
        if v > u64::MAX as u128 {
            u64::MAX
        } else {
            v as u64
        }
    }
}

/// A simple framerate counter: a start instant and the frames seen since.
pub struct Framerate {
    /// The clock reading the counter was started (or last reset) at.
    pub start_time: std::time::Instant,
    /// The number of frames counted since the start.
    pub frames: u64,
}

impl Framerate {
    /// Create a new framerate counter, started at the current time with
    /// no frames counted.
    pub fn new() -> (r: Self)
        ensures
            r.frames == 0,
    {
        Self { start_time: now(), frames: 0 }
    }

    /// Count one frame. The elapsed-time origin is unchanged.
    pub fn update(&mut self)
        requires
            old(self).frames < u64::MAX,
        ensures
            final(self).frames == old(self).frames + 1,
            final(self).start_time == old(self).start_time,
    {
        self.frames = self.frames + 1;
    }

    /// Return the current framerate: the counted frames over the elapsed
    /// time, as [`spec_fps`] states it for whatever the clock returned.
    /// An elapsed time beyond what fits in milliseconds of a machine word
    /// is treated as the largest representable one.
    pub fn fps(&self) -> (r: u64)
        ensures
            exists|millis: u64| r == spec_fps(self.frames, millis),
    {
        let duration = elapsed(&self.start_time);
        let raw = as_millis(&duration);
        let millis: u64 = if raw > u64::MAX as u128 {
            u64::MAX
        } else {
            raw as u64
        };
        let r = fps_from(self.frames, millis);
        proof {
            assert(r == spec_fps(self.frames, millis));
        }
        r
    }

    /// Return the number of frames counted since the start.
    pub fn counter(&self) -> (r: u64)
        ensures
            r == self.frames,
    {
        self.frames
    }

    /// Reset the counter: the frame count returns to zero and the start
    /// time to the current time.
    pub fn reset(&mut self)
        ensures
            final(self).frames == 0,
    {
        self.start_time = now();
        self.frames = 0;
    }
}

} // verus!
