//! Holding the simulation to sixty frames a second: how long to wait at the
//! end of a frame, and the frame rate to report once a second. The clock and
//! the wait are the caller's.
use vstd::prelude::*;

verus! {

/// The milliseconds a frame is given.
pub const TARGET_FRAME_TIME: u32 = 1000 / 60;

/// The milliseconds between two reports of the frame rate.
pub const REPORT_PERIOD: u32 = 1000;

/// What the pacer remembers, all times in milliseconds since the session
/// began: when the last frame stopped waiting, when the frame rate was last
/// reported, and how many frames have ended since that report.
#[derive(Clone, Copy, PartialEq, Eq, Structural, Debug)]
pub struct FramePacer {
    pub prev_frame_time: u32,
    pub start_timer: u32,
    pub frame_count: u32,
}

/// How long to wait after a frame that took `frame_time` milliseconds: what
/// is left of the frame's time, and nothing if the frame overran it.
pub open spec fn frame_delay_spec(frame_time: u32) -> u32 {
    if frame_time < TARGET_FRAME_TIME {
        (TARGET_FRAME_TIME - frame_time) as u32
    } else {
        0
    }
}

impl FramePacer {
    /// The pacer at the start of a session.
    pub open spec fn start() -> FramePacer {
        FramePacer { prev_frame_time: 0, start_timer: 0, frame_count: 0 }
    }

    /// Whether a frame that ends at `end` is the first since a full report
    /// period has passed.
    pub open spec fn report_due(self, end: u32) -> bool {
        REPORT_PERIOD <= end.wrapping_sub(self.start_timer)
    }

    /// The pacer after a frame that ended at `end`: the frame is counted,
    /// and a report that is due starts the count afresh from `end`.
    pub open spec fn frame_ended_spec(self, end: u32) -> FramePacer {
        if self.report_due(end) {
            FramePacer { start_timer: end, frame_count: 1, ..self }
        } else {
            FramePacer { frame_count: self.frame_count.wrapping_add(1), ..self }
        }
    }

    pub fn new() -> (pacer: FramePacer)
        ensures
            pacer == FramePacer::start(),
    {
        FramePacer { prev_frame_time: 0, start_timer: 0, frame_count: 0 }
    }

    /// Takes note of a frame that ended at `end`. Returns how long to wait
    /// before the next frame and, when a report is due, the number of frames
    /// that ended since the last one.
    pub fn frame_ended(&mut self, end: u32) -> (action: (u32, Option<u32>))
        ensures
            action.0 == frame_delay_spec(end.wrapping_sub(old(self).prev_frame_time)),
            action.1 == if old(self).report_due(end) {
                Some(old(self).frame_count)
            } else {
                None::<u32>
            },
            *final(self) == old(self).frame_ended_spec(end),
    {
        let delay: u32 = frame_delay(end.wrapping_sub(self.prev_frame_time));
        let mut fps: Option<u32> = None;
        if REPORT_PERIOD <= end.wrapping_sub(self.start_timer) {
            fps = Some(self.frame_count);
            self.start_timer = end;
            self.frame_count = 0;
        }
        self.frame_count = self.frame_count.wrapping_add(1);
        (delay, fps)
    }

    /// Takes note that the wait after a frame was over at `now`.
    pub fn resumed(&mut self, now: u32)
        ensures
            *final(self) == (FramePacer { prev_frame_time: now, ..*old(self) }),
    {
        self.prev_frame_time = now;
    }
}

pub fn frame_delay(frame_time: u32) -> (delay: u32)
    ensures
        delay == frame_delay_spec(frame_time),
{
    if frame_time < TARGET_FRAME_TIME {
        TARGET_FRAME_TIME - frame_time
    } else {
        0
    }
}

} // verus!
