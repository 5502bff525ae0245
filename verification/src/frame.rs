//! Frames and their reduction to one mean color.
//!
//! A frame is a raw pixel buffer in blue-green-red-alpha order, 4 bytes
//! per pixel, no row padding. Aggregation computes the arithmetic mean of
//! each channel over every pixel with widened accumulators, truncating on
//! the final integer division.

use vstd::prelude::*;

use crate::color::ColorRgb;

verus! {

/// Why a frame cannot be processed.
#[derive(Clone, Copy, PartialEq, Eq, Structural, Debug)]
pub enum FrameError {
    /// The frame has no pixels, so a mean color is undefined.
    ZeroArea,
    /// The buffer length does not match `width * height * 4`.
    LengthMismatch,
}

/// An immutable snapshot of pixel data.
pub struct Frame {
    pub width: usize,
    pub height: usize,
    pub data: Vec<u8>,
}

impl Frame {
    /// The buffer holds exactly `width * height` 4-byte pixels.
    pub open spec fn wf(self) -> bool {
        self.data@.len() == (self.width as int) * (self.height as int) * 4
    }

    /// Number of pixels.
    pub open spec fn area(self) -> int {
        (self.width as int) * (self.height as int)
    }

    /// Wraps a captured buffer, rejecting one whose length does not match
    /// the claimed dimensions.
    pub fn new(width: usize, height: usize, data: Vec<u8>) -> (res: Result<Frame, FrameError>)
        ensures
            match res {
                Ok(f) => f.wf() && f.width == width && f.height == height && f.data@ == data@,
                Err(e) => e == FrameError::LengthMismatch && data@.len() != (width as int) * (
                height as int) * 4,
            },
    {
        assert((width as int) * (height as int) <= 0xffff_ffff_ffff_ffffint
            * 0xffff_ffff_ffff_ffffint) by (nonlinear_arith)
            requires
                0 <= width as int <= 0xffff_ffff_ffff_ffffint,
                0 <= height as int <= 0xffff_ffff_ffff_ffffint,
        ;
        let wh = (width as u128) * (height as u128);
        let len = data.len();
        if wh > 0xffff_ffff_ffff_ffffu128 / 4 {
            assert(wh as int == (width as int) * (height as int));
            assert(len < wh * 4);
            return Err(FrameError::LengthMismatch);
        }
        if (len as u128) == wh * 4 {
            Ok(Frame { width, height, data })
        } else {
            Err(FrameError::LengthMismatch)
        }
    }
}

/// Sum of one channel (byte offset `off` within each 4-byte pixel) over
/// the first `n` pixels of the buffer.
pub open spec fn channel_sum(data: Seq<u8>, n: int, off: int) -> int
    decreases n,
{
    if n <= 0 {
        0
    } else {
        channel_sum(data, n - 1, off) + data[4 * (n - 1) + off]
    }
}

/// Reduces a frame to the arithmetic mean of each channel across every
/// pixel, truncating on the integer division. A zero-area frame is
/// rejected rather than dividing by zero.
pub fn aggregate(frame: &Frame) -> (res: Result<ColorRgb, FrameError>)
    requires
        frame.wf(),
    ensures
        match res {
            Ok(c) => frame.area() >= 1 && c.b as int == channel_sum(frame.data@, frame.area(), 0)
                / frame.area() && c.g as int == channel_sum(frame.data@, frame.area(), 1)
                / frame.area() && c.r as int == channel_sum(frame.data@, frame.area(), 2)
                / frame.area(),
            Err(e) => e == FrameError::ZeroArea && frame.area() == 0,
        },
{
    let len = frame.data.len();
    proof {
        vstd::arithmetic::mul::lemma_mul_nonnegative(frame.width as int, frame.height as int);
    }
    let n = frame.width * frame.height;
    if n == 0 {
        return Err(FrameError::ZeroArea);
    }
    let mut i: usize = 0;
    let mut sb: u128 = 0;
    let mut sg: u128 = 0;
    let mut sr: u128 = 0;
    while i < n
        invariant
            i <= n,
            n as int == frame.area(),
            frame.data@.len() == 4 * (n as int),
            4 * (n as int) <= usize::MAX as int,
            sb as int == channel_sum(frame.data@, i as int, 0),
            sg as int == channel_sum(frame.data@, i as int, 1),
            sr as int == channel_sum(frame.data@, i as int, 2),
            sb <= 255 * (i as int),
            sg <= 255 * (i as int),
            sr <= 255 * (i as int),
        decreases n - i,
    {
        let base = 4 * i;
        let pb = frame.data[base];
        let pg = frame.data[base + 1];
        let pr = frame.data[base + 2];
        sb = sb + pb as u128;
        sg = sg + pg as u128;
        sr = sr + pr as u128;
        i = i + 1;
    }
    let nn = n as u128;
    proof {
        lemma_mean_in_byte_range(sb as int, n as int);
        lemma_mean_in_byte_range(sg as int, n as int);
        lemma_mean_in_byte_range(sr as int, n as int);
    }
    let ab = (sb / nn) as u8;
    let ag = (sg / nn) as u8;
    let ar = (sr / nn) as u8;
    Ok(ColorRgb { r: ar, g: ag, b: ab })
}

/// A channel sum of `n` bytes divided by `n` stays within a byte.
proof fn lemma_mean_in_byte_range(s: int, n: int)
    requires
        1 <= n,
        0 <= s <= 255 * n,
    ensures
        0 <= s / n <= 255,
{
    vstd::arithmetic::div_mod::lemma_div_pos_is_pos(s, n);
    vstd::arithmetic::div_mod::lemma_div_is_ordered(s, 255 * n, n);
    vstd::arithmetic::div_mod::lemma_div_multiples_vanish(255, n);
    assert(n * 255 == 255 * n);
}

/// A channel that holds the same value in every pixel sums to `n` times
/// that value.
pub proof fn lemma_uniform_channel_sum(data: Seq<u8>, n: int, off: int, val: u8)
    requires
        0 <= n,
        forall|j: int| 0 <= j < n ==> #[trigger] data[4 * j + off] == val,
    ensures
        channel_sum(data, n, off) == n * (val as int),
    decreases n,
{
    if n <= 0 {
        assert(n * (val as int) == 0) by (nonlinear_arith)
            requires
                n == 0,
        ;
    } else {
        lemma_uniform_channel_sum(data, n - 1, off, val);
        assert(data[4 * (n - 1) + off] == val);
        assert(n * (val as int) == (n - 1) * (val as int) + val as int) by (nonlinear_arith);
    }
}

/// The mean of a frame whose pixels all hold one color is exactly that
/// color, channel for channel.
pub proof fn lemma_uniform_frame_mean(data: Seq<u8>, n: int, c: ColorRgb)
    requires
        1 <= n,
        forall|j: int| 0 <= j < n ==> #[trigger] data[4 * j + 0] == c.b,
        forall|j: int| 0 <= j < n ==> #[trigger] data[4 * j + 1] == c.g,
        forall|j: int| 0 <= j < n ==> #[trigger] data[4 * j + 2] == c.r,
    ensures
        channel_sum(data, n, 0) / n == c.b as int,
        channel_sum(data, n, 1) / n == c.g as int,
        channel_sum(data, n, 2) / n == c.r as int,
{
    lemma_uniform_channel_sum(data, n, 0, c.b);
    lemma_uniform_channel_sum(data, n, 1, c.g);
    lemma_uniform_channel_sum(data, n, 2, c.r);
    vstd::arithmetic::div_mod::lemma_div_multiples_vanish(c.b as int, n);
    vstd::arithmetic::div_mod::lemma_div_multiples_vanish(c.g as int, n);
    vstd::arithmetic::div_mod::lemma_div_multiples_vanish(c.r as int, n);
}

} // verus!
