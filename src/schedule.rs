//! What the frame driver does after each frame: report each new whole minute of
//! animation once, and stop after a fixed number of minutes.
use vstd::prelude::*;

verus! {

/// Frames per minute of animation at sixty frames a second.
pub const FRAMES_PER_MINUTE: u64 = 3600;

/// The driver's decision for one frame.
#[derive(Clone, Copy, Debug, PartialEq, Eq, Structural)]
pub struct FrameDecision {
    /// The whole minutes elapsed, when that count has not been reported yet.
    pub report: Option<u64>,
    /// Whether the run is over; otherwise the scene advances one tick.
    pub stop: bool,
}

/// Whole minutes of animation in `frames` frames.
pub open spec fn minutes_of(frames: u64) -> u64 {
    (frames / FRAMES_PER_MINUTE) as u64
}

/// Decides a frame, given the minutes already reported, the frames elapsed and
/// the length of the run in minutes.
pub fn frame_decision(reported: u64, elapsed_frames: u64, run_minutes: u64) -> (r: FrameDecision)
    ensures
        r.report == if reported < minutes_of(elapsed_frames) {
            Some(minutes_of(elapsed_frames))
        } else {
            None::<u64>
        },
        r.stop == (minutes_of(elapsed_frames) >= run_minutes),
{
    let minutes = elapsed_frames / FRAMES_PER_MINUTE;
    let report = if reported < minutes { Some(minutes) } else { None };
    FrameDecision { report, stop: minutes >= run_minutes }
}

} // verus!
