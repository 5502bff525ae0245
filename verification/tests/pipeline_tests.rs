use ambient_backlight::color::ColorRgb;
use ambient_backlight::frame::{aggregate, Frame, FrameError};
use ambient_backlight::sink::color_command;
use ambient_backlight::session::ErrorKind;
use ambient_backlight::worker::{cycle_color, worker_step, CapturePoll, WorkerAction};

/// A frame whose pixels all hold one color, in blue-green-red-alpha order.
fn uniform_frame(width: usize, height: usize, c: ColorRgb) -> Frame {
    let mut data = Vec::new();
    for _ in 0..width * height {
        data.push(c.b);
        data.push(c.g);
        data.push(c.r);
        data.push(255);
    }
    Frame::new(width, height, data).unwrap()
}

#[test]
fn aggregate_uniform_frame_is_exact() {
    let c = ColorRgb { r: 10, g: 20, b: 30 };
    let frame = uniform_frame(3, 2, c);
    assert_eq!(aggregate(&frame), Ok(c));
}

#[test]
fn aggregate_rejects_zero_area() {
    let frame = Frame::new(0, 5, Vec::new()).unwrap();
    assert_eq!(aggregate(&frame), Err(FrameError::ZeroArea));
}

#[test]
fn frame_new_rejects_wrong_length() {
    let data = vec![0u8; 15];
    assert!(matches!(Frame::new(2, 2, data), Err(FrameError::LengthMismatch)));
}

#[test]
fn aggregate_truncates_half_red_half_blue() {
    // one red pixel, one blue pixel: means are 255/2 = 127 (truncated)
    let data = vec![
        0, 0, 255, 255, // red in BGRA
        255, 0, 0, 255, // blue in BGRA
    ];
    let frame = Frame::new(2, 1, data).unwrap();
    assert_eq!(aggregate(&frame), Ok(ColorRgb { r: 127, g: 0, b: 127 }));
}

#[test]
fn cycle_uniform_red_end_to_end() {
    // uniform red: aggregate (255,0,0), HSV (0, 1, 1), boost clamps at 1,
    // back to (255,0,0), sink command "255 0 0"
    let frame = uniform_frame(4, 3, ColorRgb { r: 255, g: 0, b: 0 });
    let out = cycle_color(&frame).unwrap();
    assert_eq!(out, ColorRgb { r: 255, g: 0, b: 0 });
    assert_eq!(color_command(&out), b"255 0 0".to_vec());
}

#[test]
fn cycle_uniform_gray_keeps_gray() {
    // saturation 0: the boost leaves it at 0 and the gray comes back
    let frame = uniform_frame(2, 2, ColorRgb { r: 128, g: 128, b: 128 });
    let out = cycle_color(&frame).unwrap();
    assert_eq!(out, ColorRgb { r: 128, g: 128, b: 128 });
}

#[test]
fn cycle_half_red_half_blue() {
    // mean (127, 0, 127) is fully saturated magenta; the boost cannot
    // raise saturation above 1, so the mean survives the pipeline
    let data = vec![0, 0, 255, 255, 255, 0, 0, 255];
    let frame = Frame::new(1, 2, data).unwrap();
    let out = cycle_color(&frame).unwrap();
    assert_eq!(out, ColorRgb { r: 127, g: 0, b: 127 });
}

#[test]
fn cycle_rejects_zero_area() {
    let frame = Frame::new(3, 0, Vec::new()).unwrap();
    assert_eq!(cycle_color(&frame), Err(FrameError::ZeroArea));
}

#[test]
fn worker_step_cancellation_wins() {
    let frame = uniform_frame(1, 1, ColorRgb { r: 1, g: 2, b: 3 });
    assert_eq!(worker_step(true, CapturePoll::Ready(frame)), WorkerAction::Stop);
    assert_eq!(worker_step(true, CapturePoll::Unavailable), WorkerAction::Stop);
    assert_eq!(worker_step(true, CapturePoll::Fatal), WorkerAction::Stop);
}

#[test]
fn worker_step_retries_on_backpressure() {
    assert_eq!(worker_step(false, CapturePoll::Unavailable), WorkerAction::Retry);
}

#[test]
fn worker_step_aborts_on_fatal_capture() {
    assert_eq!(
        worker_step(false, CapturePoll::Fatal),
        WorkerAction::Abort(ErrorKind::CaptureFatal)
    );
    let empty = Frame::new(0, 0, Vec::new()).unwrap();
    assert_eq!(
        worker_step(false, CapturePoll::Ready(empty)),
        WorkerAction::Abort(ErrorKind::CaptureFatal)
    );
}

#[test]
fn worker_step_applies_the_cycle_color() {
    let frame = uniform_frame(2, 2, ColorRgb { r: 255, g: 0, b: 0 });
    assert_eq!(
        worker_step(false, CapturePoll::Ready(frame)),
        WorkerAction::Apply(ColorRgb { r: 255, g: 0, b: 0 })
    );
}

#[test]
fn color_command_formats_decimals() {
    assert_eq!(color_command(&ColorRgb { r: 255, g: 0, b: 0 }), b"255 0 0".to_vec());
    assert_eq!(color_command(&ColorRgb { r: 0, g: 0, b: 0 }), b"0 0 0".to_vec());
    assert_eq!(color_command(&ColorRgb { r: 7, g: 42, b: 250 }), b"7 42 250".to_vec());
    assert_eq!(color_command(&ColorRgb { r: 10, g: 99, b: 100 }), b"10 99 100".to_vec());
}
