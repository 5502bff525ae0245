//! Drives an RGB backlight from the dominant color currently shown on a
//! display.
//!
//! The verified core is the sampling pipeline — reduce a captured frame to
//! its mean color, convert it to HSV, boost the saturation for vividness,
//! convert back to RGB, and encode it for the hardware sink — together with
//! the session state machine that lets exactly one sampling run be started,
//! queried and stopped at a time. Frame acquisition and the actual device
//! write are I/O and live outside this crate; they exchange plain values
//! with the functions here.

pub mod color;
pub mod enhance;
pub mod frame;
pub mod roundtrip;
pub mod session;
pub mod sink;
pub mod worker;
