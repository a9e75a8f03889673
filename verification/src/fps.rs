//! Frame-rate bookkeeping: counting frames and producing a report once a
//! second. Time itself is read outside the library and handed in as elapsed
//! microseconds; the rate is reported in hundredths of a frame per second so
//! the arithmetic stays exact.

use vstd::prelude::*;

verus! {

/// The update interval: one second, in microseconds.
pub const FPS_UPDATE_INTERVAL_MICROS: u64 = 1_000_000;

/// A finished measurement over one update interval.
#[derive(Clone, Copy, Debug, PartialEq, Eq, Structural)]
pub struct FpsReport {
    /// Frames per second, in hundredths.
    pub fps_hundredths: u64,
    /// The last frame's duration in microseconds.
    pub frame_time_micros: u64,
}

/// A frame's increment of the counter, saturating at the type's maximum.
pub open spec fn spec_inc_saturating(c: u32) -> u32 {
    if c == u32::MAX {
        c
    } else {
        (c + 1) as u32
    }
}

/// Frames per second in hundredths: frames, scaled, over elapsed time.
pub open spec fn spec_fps_hundredths(frames: u32, elapsed_micros: u64) -> int
    recommends
        elapsed_micros > 0,
{
    frames * 100_000_000 / (elapsed_micros as int)
}

/// Counts the frames of the running update interval.
pub struct FpsCounter {
    pub frame_count: u32,
}

impl FpsCounter {
    /// A fresh counter with no frames seen.
    pub fn new() -> (c: FpsCounter)
        ensures
            c.frame_count == 0,
    {
        FpsCounter { frame_count: 0 }
    }

    /// Count one displayed frame. Once at least an interval has elapsed
    /// since the last report, report the rate over that interval and start
    /// the next one; otherwise only count.
    pub fn on_frame(&mut self, elapsed_since_report_micros: u64, frame_time_micros: u64) -> (r:
        Option<FpsReport>)
        ensures
            elapsed_since_report_micros < FPS_UPDATE_INTERVAL_MICROS ==> {
                &&& r is None
                &&& final (self).frame_count == spec_inc_saturating(old(self).frame_count)
            },
            elapsed_since_report_micros >= FPS_UPDATE_INTERVAL_MICROS ==> {
                &&& r == Some(
                    FpsReport {
                        fps_hundredths: spec_fps_hundredths(
                            spec_inc_saturating(old(self).frame_count),
                            elapsed_since_report_micros,
                        ) as u64,
                        frame_time_micros,
                    },
                )
                &&& final (self).frame_count == 0
            },
    {
        let frames = if self.frame_count == u32::MAX {
            self.frame_count
        } else {
            self.frame_count + 1
        };
        if elapsed_since_report_micros >= FPS_UPDATE_INTERVAL_MICROS {
            self.frame_count = 0;
            let fps = (frames as u64) * 100_000_000 / elapsed_since_report_micros;
            proof {
                assert((frames as u64) * 100_000_000 <= (u32::MAX as u64) * 100_000_000);
            }
            Some(FpsReport { fps_hundredths: fps, frame_time_micros })
        } else {
            self.frame_count = frames;
            None
        }
    }
}

} // verus!
