//! Frame-rate counter: counts frames and reports the count once a
//! second. The host reads the clock and passes timestamps in; the
//! counting and reporting rule is verified here.

use vstd::prelude::*;

verus! {

/// Milliseconds that must elapse before a frame count is reported.
pub const FPS_WINDOW_MILLIS: u64 = 1000;

/// Counts frames against a reference timestamp and reports the total
/// each time more than a second has passed since the last report.
pub struct FpsCounter {
    last_report_millis: u64,
    num_frames: usize,
}

impl FpsCounter {
    /// Timestamp of the last report, in milliseconds.
    pub closed spec fn spec_last_report(&self) -> u64 {
        self.last_report_millis
    }

    /// Frames seen since the last report.
    pub closed spec fn spec_frames(&self) -> usize {
        self.num_frames
    }

    /// Timestamp of the last report, in milliseconds.
    pub fn last_report_millis(&self) -> (r: u64)
        ensures
            r == self.spec_last_report(),
    {
        self.last_report_millis
    }

    /// Frames seen since the last report.
    pub fn frames(&self) -> (r: usize)
        ensures
            r == self.spec_frames(),
    {
        self.num_frames
    }

    /// A counter with no frames seen, reporting relative to `now_millis`.
    pub fn new(now_millis: u64) -> (r: FpsCounter)
        ensures
            r.spec_last_report() == now_millis,
            r.spec_frames() == 0,
    {
        FpsCounter { last_report_millis: now_millis, num_frames: 0 }
    }

    /// Count one frame at time `now_millis`. If more than the reporting
    /// window has passed since the last report, return the number of
    /// frames counted in that window (this frame included) and start a
    /// fresh window at `now_millis`; otherwise just count.
    pub fn get_fps(&mut self, now_millis: u64) -> (r: Option<usize>)
        requires
            now_millis >= old(self).spec_last_report(),
            old(self).spec_frames() < usize::MAX,
        ensures
            ({
                let counted = old(self).spec_frames() + 1;
                if now_millis - old(self).spec_last_report() > FPS_WINDOW_MILLIS {
                    &&& r == Some(counted as usize)
                    &&& final(self).spec_frames() == 0
                    &&& final(self).spec_last_report() == now_millis
                } else {
                    &&& r is None
                    &&& final(self).spec_frames() == counted
                    &&& final(self).spec_last_report() == old(self).spec_last_report()
                }
            }),
    {
        self.num_frames = self.num_frames + 1;
        if now_millis - self.last_report_millis > FPS_WINDOW_MILLIS {
            let fps = self.num_frames;
            self.num_frames = 0;
            self.last_report_millis = now_millis;
            Some(fps)
        } else {
            None
        }
    }
}

} // verus!
