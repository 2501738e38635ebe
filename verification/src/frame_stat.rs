//! Frame statistics and pacing.
//!
//! Timestamps are monotonic readings in nanoseconds. `end_frame` computes
//! the elapsed frame time, keeps a rolling tick counter whose value is
//! snapshotted as the frames-per-second figure once at least a second has
//! passed since the last sample, and reports how long the caller must
//! still wait to hit the target frame duration: pacing only ever adds
//! delay, it never drops a frame.

use vstd::prelude::*;

verus! {

/// Nanoseconds in one second.
pub const NANOS_PER_SECOND: u64 = 1_000_000_000;

/// Reads the wall clock, in nanoseconds.
///
/// Relies on `std::time::SystemTime::now` and
/// `SystemTime::duration_since`: the reading is a duration since the epoch
/// when the clock stands after it, and nothing is promised of its value.
#[verifier::external_body]
fn now_nanos() -> u64 {
    match std::time::SystemTime::now().duration_since(std::time::UNIX_EPOCH) {
        Ok(d) => d.as_nanos() as u64,
        Err(_) => 0,
    }
}

/// Nanoseconds from `start` to `now`, zero when the clock went backwards.
pub open spec fn elapsed_nanos(now: u64, start: u64) -> u64 {
    if now >= start {
        (now - start) as u64
    } else {
        0
    }
}

/// The reported frame time: the target duration when the frame finished
/// early (the caller is delayed to it), the actual elapsed time when the
/// frame ran behind schedule.
pub open spec fn paced_time(elapsed: u64, target: u64) -> u64 {
    if elapsed < target {
        target
    } else {
        elapsed
    }
}

/// How long the caller must still wait: the remainder to the target when
/// the frame finished early, nothing otherwise.
pub open spec fn pacing_delay(elapsed: u64, target: u64) -> u64 {
    if elapsed < target {
        (target - elapsed) as u64
    } else {
        0
    }
}

/// Per-frame timing state.
#[derive(Clone, Copy, Debug, PartialEq, Eq, Structural)]
pub struct FrameStats {
    /// When the current frame began.
    pub last_frame_time: u64,
    /// Frames finished since the last fps sample.
    pub frame_count: u32,
    /// The most recently sampled frames-per-second figure.
    pub fps: u32,
    /// When fps was last sampled.
    pub last_fps_update: u64,
    /// The target duration of one frame, in nanoseconds.
    pub target_frame_time: u64,
}

/// The statistics state after one frame ends at `now`: the tick counter
/// advances, and once at least a second has passed since the last sample,
/// its value becomes the fps figure and counter and sample clock reset.
pub open spec fn stats_after(s: FrameStats, now: u64) -> FrameStats {
    let sampled = elapsed_nanos(now, s.last_fps_update) >= NANOS_PER_SECOND;
    FrameStats {
        last_frame_time: s.last_frame_time,
        frame_count: if sampled {
            0u32
        } else {
            (s.frame_count + 1) as u32
        },
        fps: if sampled {
            (s.frame_count + 1) as u32
        } else {
            s.fps
        },
        last_fps_update: if sampled {
            now
        } else {
            s.last_fps_update
        },
        target_frame_time: s.target_frame_time,
    }
}

impl FrameStats {
    /// Fresh statistics for a target frame rate.
    pub fn new(target_fps: u32) -> (r: FrameStats)
        requires
            1 <= target_fps,
        ensures
            r.frame_count == 0,
            r.fps == 0,
            r.target_frame_time == NANOS_PER_SECOND / (target_fps as u64),
    {
        FrameStats {
            last_frame_time: now_nanos(),
            frame_count: 0,
            fps: 0,
            last_fps_update: now_nanos(),
            target_frame_time: NANOS_PER_SECOND / (target_fps as u64),
        }
    }

    /// Records the start of a frame.
    pub fn begin_frame(&mut self)
        ensures
            final(self).frame_count == old(self).frame_count,
            final(self).fps == old(self).fps,
            final(self).last_fps_update == old(self).last_fps_update,
            final(self).target_frame_time == old(self).target_frame_time,
    {
        self.last_frame_time = now_nanos();
    }

    /// Ends the frame as of the clock reading `now`: advances the
    /// statistics and returns the reported frame time and the delay still
    /// owed to the target duration. The reported time is never below the
    /// target: a fast frame is delayed to it, a slow one is reported as it
    /// ran.
    pub fn end_frame_at(&mut self, now: u64) -> (r: (u64, u64))
        requires
            old(self).frame_count < u32::MAX,
        ensures
            *final(self) == stats_after(*old(self), now),
            r.0 == paced_time(
                elapsed_nanos(now, old(self).last_frame_time),
                old(self).target_frame_time,
            ),
            r.1 == pacing_delay(
                elapsed_nanos(now, old(self).last_frame_time),
                old(self).target_frame_time,
            ),
            r.0 >= old(self).target_frame_time,
            r.0 == elapsed_nanos(now, old(self).last_frame_time) + r.1,
    {
        let elapsed: u64 = if now >= self.last_frame_time {
            now - self.last_frame_time
        } else {
            0
        };
        self.frame_count = self.frame_count + 1;
        let since_sample: u64 = if now >= self.last_fps_update {
            now - self.last_fps_update
        } else {
            0
        };
        if since_sample >= NANOS_PER_SECOND {
            self.fps = self.frame_count;
            self.frame_count = 0;
            self.last_fps_update = now;
        }
        if elapsed < self.target_frame_time {
            (self.target_frame_time, self.target_frame_time - elapsed)
        } else {
            (elapsed, 0)
        }
    }

    /// Ends the frame at the present clock reading. Whatever the clock
    /// returned, the reported frame time is at least the target duration
    /// and exceeds the measured elapsed time by exactly the returned
    /// delay; the caller waits out that delay.
    pub fn end_frame(&mut self) -> (r: (u64, u64))
        requires
            old(self).frame_count < u32::MAX,
        ensures
            r.0 >= old(self).target_frame_time,
            final(self).target_frame_time == old(self).target_frame_time,
            final(self).last_frame_time == old(self).last_frame_time,
            exists|now: u64|
                {
                    &&& *final(self) == stats_after(*old(self), now)
                    &&& r.0 == paced_time(
                        elapsed_nanos(now, old(self).last_frame_time),
                        old(self).target_frame_time,
                    )
                    &&& r.1 == pacing_delay(
                        elapsed_nanos(now, old(self).last_frame_time),
                        old(self).target_frame_time,
                    )
                },
    {
        let now = now_nanos();
        let r = self.end_frame_at(now);
        proof {
            assert(*self == stats_after(*old(self), now));
        }
        r
    }
}

} // verus!
