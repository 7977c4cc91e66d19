use std::time::{Duration, Instant};
use vstd::prelude::*;

verus! {

#[verifier::external_type_specification]
#[verifier::external_body]
pub struct ExInstant(Instant);

/// Relies on `Instant::now`: reads the monotonic clock. Nothing is known of
/// the value it gives.
#[verifier::external_body]
fn now() -> (r: Instant) {
    Instant::now()
}

/// Relies on `Instant::saturating_duration_since`: the time from `earlier`
/// to `later`, zero when `later` is not after `earlier`. Nothing is known of
/// the value it gives.
#[verifier::external_body]
fn duration_between(earlier: &Instant, later: &Instant) -> (r: Duration) {
    later.saturating_duration_since(*earlier)
}

/// Relies on `Duration::as_micros`: the whole microseconds of `d`.
#[verifier::external_body]
fn whole_micros(d: &Duration) -> (r: u128) {
    d.as_micros()
}

/// Length of a sampling window: a rate is reported once more than this many
/// microseconds have passed since the last sample.
pub const SAMPLE_MICROS: u128 = 1_000_000;

/// A frame-rate sample: `frames` frames were drawn in `elapsed_micros`
/// microseconds.
#[derive(Clone, Copy, Debug, PartialEq, Eq, Structural)]
pub struct FrameRate {
    pub frames: u32,
    pub elapsed_micros: u128,
}

impl FrameRate {
    /// Frames per second, rounded down.
    pub fn per_second(&self) -> (r: u128)
        requires
            self.elapsed_micros > 0,
        ensures
            r == (self.frames as int * 1_000_000) / (self.elapsed_micros as int),
    {
        (self.frames as u128) * 1_000_000 / self.elapsed_micros
    }
}

/// Counts frames and measures the frame rate once per sampling window.
#[derive(Debug)]
pub struct FrameCounter {
    pub last_instant: Instant,
    pub frame_count: u32,
}

impl FrameCounter {
    /// A counter whose sampling window starts now, with no frame counted.
    pub fn new() -> (r: FrameCounter)
        ensures
            r.frame_count == 0,
    {
        FrameCounter { last_instant: now(), frame_count: 0 }
    }

    /// Counts one frame at time `at`, `elapsed_micros` after the start of the
    /// current sampling window. When the window has lasted more than a
    /// second, returns the rate measured over it and starts a new window at
    /// `at` with the count back at zero; otherwise returns `None` and only the
    /// count moves (it stays at its maximum once there).
    pub fn record_frame(&mut self, at: Instant, elapsed_micros: u128) -> (r: Option<FrameRate>)
        ensures
            elapsed_micros > SAMPLE_MICROS ==> {
                &&& r == Some(
                    FrameRate {
                        frames: next_count(old(self).frame_count),
                        elapsed_micros,
                    },
                )
                &&& final(self).frame_count == 0
                &&& final(self).last_instant == at
            },
            elapsed_micros <= SAMPLE_MICROS ==> {
                &&& r == None::<FrameRate>
                &&& final(self).frame_count == next_count(old(self).frame_count)
                &&& final(self).last_instant == old(self).last_instant
            },
    {
        self.frame_count = self.frame_count.saturating_add(1);
        if elapsed_micros > SAMPLE_MICROS {
            let rate = FrameRate { frames: self.frame_count, elapsed_micros };
            self.last_instant = at;
            self.frame_count = 0;
            Some(rate)
        } else {
            None
        }
    }

    /// Counts one frame now; see `record_frame`.
    pub fn update(&mut self) -> (r: Option<FrameRate>)
        ensures
            r is Some ==> final(self).frame_count == 0 && r->0.frames == next_count(
                old(self).frame_count,
            ) && r->0.elapsed_micros > SAMPLE_MICROS,
            r is None ==> final(self).frame_count == next_count(old(self).frame_count),
    {
        let at = now();
        let elapsed = whole_micros(&duration_between(&self.last_instant, &at));
        self.record_frame(at, elapsed)
    }
}

/// The frame count after one more frame, held at the largest `u32`.
pub open spec fn next_count(c: u32) -> u32 {
    if c < u32::MAX {
        (c + 1) as u32
    } else {
        c
    }
}

} // verus!
