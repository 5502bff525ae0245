//! The worker loop's decisions and the per-cycle color pipeline.
//!
//! The loop itself runs on a dedicated thread in the surrounding
//! application, which polls the capture source, performs the sink write
//! and the sleeps, and hands every outcome to `worker_step`; the
//! decision of what happens next, and the whole computation from frame
//! to sink color, live here.

use vstd::prelude::*;

use crate::color::{hsv_to_rgb, rgb_to_hsv, spec_hsv_channels, spec_rgb_to_hsv, ColorRgb};
use crate::enhance::{boost, spec_boost};
use crate::frame::{aggregate, channel_sum, Frame, FrameError};
use crate::session::ErrorKind;

verus! {

/// The mean color of a frame, as the aggregator computes it.
pub open spec fn spec_mean_color(f: Frame) -> ColorRgb {
    ColorRgb {
        r: (channel_sum(f.data@, f.area(), 2) / f.area()) as u8,
        g: (channel_sum(f.data@, f.area(), 1) / f.area()) as u8,
        b: (channel_sum(f.data@, f.area(), 0) / f.area()) as u8,
    }
}

/// The color one full cycle pushes to the sink: the frame's mean color,
/// converted to HSV, saturation-boosted, and converted back to RGB.
pub open spec fn spec_cycle_color(f: Frame) -> (int, int, int) {
    spec_hsv_channels(spec_boost(spec_rgb_to_hsv(spec_mean_color(f))))
}

/// Runs the computational part of one cycle on a captured frame.
pub fn cycle_color(frame: &Frame) -> (res: Result<ColorRgb, FrameError>)
    requires
        frame.wf(),
    ensures
        match res {
            Ok(c) => frame.area() >= 1 && (c.r as int, c.g as int, c.b as int) == spec_cycle_color(
                *frame,
            ),
            Err(e) => e == FrameError::ZeroArea && frame.area() == 0,
        },
{
    let mean = match aggregate(frame) {
        Ok(c) => c,
        Err(e) => {
            return Err(e);
        },
    };
    assert(mean == spec_mean_color(*frame));
    let hsv = rgb_to_hsv(&mean);
    let boosted = boost(&hsv);
    let out = hsv_to_rgb(&boosted);
    Ok(out)
}

/// What the capture source produced when the worker polled it.
pub enum CapturePoll {
    /// A frame is available.
    Ready(Frame),
    /// No frame yet; transient backpressure.
    Unavailable,
    /// The capture source failed unrecoverably.
    Fatal,
}

/// What the worker must do next.
#[derive(Clone, Copy, PartialEq, Eq, Structural, Debug)]
pub enum WorkerAction {
    /// Cancellation was requested: leave the loop cleanly.
    Stop,
    /// Wait a short bounded interval, then poll again.
    Retry,
    /// Log the error and leave the loop; the run is over.
    Abort(ErrorKind),
    /// Push this color to the sink, then sleep one rate-limit interval.
    /// A failed sink write is logged and the loop continues: the next
    /// cycle retries naturally.
    Apply(ColorRgb),
}

/// One decision point of the worker loop: cancellation is checked first
/// and is the only clean exit; a transient capture miss is retried; a
/// fatal capture failure (or a frame with no pixels) ends the run; a
/// ready frame flows through the full color pipeline.
pub fn worker_step(cancel_requested: bool, poll: CapturePoll) -> (a: WorkerAction)
    requires
        poll matches CapturePoll::Ready(f) ==> f.wf(),
    ensures
        cancel_requested ==> a == WorkerAction::Stop,
        !cancel_requested && poll is Unavailable ==> a == WorkerAction::Retry,
        !cancel_requested && poll is Fatal ==> a == WorkerAction::Abort(ErrorKind::CaptureFatal),
        !cancel_requested ==> (poll matches CapturePoll::Ready(f) ==> (if f.area() == 0 {
            a == WorkerAction::Abort(ErrorKind::CaptureFatal)
        } else {
            a matches WorkerAction::Apply(c) && (c.r as int, c.g as int, c.b as int)
                == spec_cycle_color(f)
        })),
{
    if cancel_requested {
        return WorkerAction::Stop;
    }
    match poll {
        CapturePoll::Unavailable => WorkerAction::Retry,
        CapturePoll::Fatal => WorkerAction::Abort(ErrorKind::CaptureFatal),
        CapturePoll::Ready(frame) => match cycle_color(&frame) {
            Ok(c) => WorkerAction::Apply(c),
            Err(_) => WorkerAction::Abort(ErrorKind::CaptureFatal),
        },
    }
}

} // verus!
