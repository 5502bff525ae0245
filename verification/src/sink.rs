//! Encoding a color for the hardware sink.
//!
//! The device interface accepts ASCII text of the form
//! `"<red> <green> <blue>"` with decimal values 0-255 separated by single
//! spaces, no trailing newline. The write itself is I/O and happens
//! outside this crate; this module produces the exact bytes to write.

use vstd::prelude::*;

use crate::color::ColorRgb;

verus! {

/// ASCII decimal digits of a byte value: no leading zeros, `"0"` for 0.
pub open spec fn dec_digits(n: int) -> Seq<u8> {
    if n < 10 {
        seq![(48 + n) as u8]
    } else if n < 100 {
        seq![(48 + n / 10) as u8, (48 + n % 10) as u8]
    } else {
        seq![(48 + n / 100) as u8, (48 + (n / 10) % 10) as u8, (48 + n % 10) as u8]
    }
}

/// The byte string the sink accepts for a color.
pub open spec fn spec_color_command(c: ColorRgb) -> Seq<u8> {
    dec_digits(c.r as int) + seq![32u8] + dec_digits(c.g as int) + seq![32u8] + dec_digits(
        c.b as int,
    )
}

/// Appends the decimal digits of `v`.
fn push_decimal(out: &mut Vec<u8>, v: u8)
    ensures
        final(out)@ == old(out)@ + dec_digits(v as int),
{
    if v >= 100 {
        out.push(48 + v / 100);
        out.push(48 + (v / 10) % 10);
        out.push(48 + v % 10);
    } else if v >= 10 {
        out.push(48 + v / 10);
        out.push(48 + v % 10);
    } else {
        out.push(48 + v);
    }
    assert(out@ =~= old(out)@ + dec_digits(v as int));
}

/// Formats a color as the sink's command bytes.
pub fn color_command(c: &ColorRgb) -> (out: Vec<u8>)
    ensures
        out@ == spec_color_command(*c),
{
    let mut out: Vec<u8> = Vec::new();
    push_decimal(&mut out, c.r);
    out.push(32);
    push_decimal(&mut out, c.g);
    out.push(32);
    push_decimal(&mut out, c.b);
    assert(out@ =~= spec_color_command(*c));
    out
}

} // verus!
