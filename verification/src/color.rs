//! Color representations and exact RGB <-> HSV conversion.
//!
//! Hue, saturation and value are kept as exact rational numbers
//! (numerator/denominator pairs), so the conversions carry no rounding
//! error until the final quantization back to 8-bit channels.

use vstd::prelude::*;

verus! {

/// Largest denominator a well-formed `ColorHsv` may carry; keeps every
/// intermediate product of the conversions inside `u128`.
pub const DEN_MAX: u64 = 1_000_000_000;

/// An 8-bit RGB color with value semantics.
#[derive(Clone, Copy, PartialEq, Eq, Structural, Debug)]
pub struct ColorRgb {
    pub r: u8,
    pub g: u8,
    pub b: u8,
}

/// An HSV color: hue in degrees within `[0, 360)`, saturation and value
/// within `[0, 1]`, each stored as an exact fraction `num / den`.
#[derive(Clone, Copy, PartialEq, Eq, Structural, Debug)]
pub struct ColorHsv {
    pub h_num: u64,
    pub h_den: u64,
    pub s_num: u64,
    pub s_den: u64,
    pub v_num: u64,
    pub v_den: u64,
}

impl ColorHsv {
    /// Well-formedness: denominators are positive and bounded, hue is below
    /// 360 degrees, saturation and value are at most 1.
    pub open spec fn wf(self) -> bool {
        &&& 1 <= self.h_den <= DEN_MAX
        &&& 1 <= self.s_den <= DEN_MAX
        &&& 1 <= self.v_den <= DEN_MAX
        &&& (self.h_num as int) < 360 * (self.h_den as int)
        &&& self.s_num <= self.s_den
        &&& self.v_num <= self.v_den
    }
}

/// The largest of three channel values.
pub open spec fn max3(r: int, g: int, b: int) -> int {
    if r >= g && r >= b {
        r
    } else if g >= b {
        g
    } else {
        b
    }
}

/// The smallest of three channel values.
pub open spec fn min3(r: int, g: int, b: int) -> int {
    if r <= g && r <= b {
        r
    } else if g <= b {
        g
    } else {
        b
    }
}

/// Hue numerator of the RGB -> HSV conversion, over the denominator
/// `hue_den_of`: the standard 60-degree sector formulas, normalized into
/// `[0, 360)`, with ties among maximal channels resolved in the fixed
/// order red, then green, then blue.
pub open spec fn hue_num_of(r: int, g: int, b: int) -> int {
    let mx = max3(r, g, b);
    let d = mx - min3(r, g, b);
    if d == 0 {
        0
    } else if mx == r {
        if g >= b {
            60 * (g - b)
        } else {
            60 * (g - b) + 360 * d
        }
    } else if mx == g {
        60 * (b - r) + 120 * d
    } else {
        60 * (r - g) + 240 * d
    }
}

/// Hue denominator of the RGB -> HSV conversion: the chroma `max - min`,
/// or 1 for achromatic inputs (whose hue is 0 by convention).
pub open spec fn hue_den_of(r: int, g: int, b: int) -> int {
    let d = max3(r, g, b) - min3(r, g, b);
    if d == 0 {
        1
    } else {
        d
    }
}

/// The exact HSV image of an 8-bit RGB color: hue as above, saturation
/// `(max - min) / max` (0 when `max == 0`), value `max / 255`.
pub open spec fn spec_rgb_to_hsv(c: ColorRgb) -> ColorHsv {
    let r = c.r as int;
    let g = c.g as int;
    let b = c.b as int;
    let mx = max3(r, g, b);
    ColorHsv {
        h_num: hue_num_of(r, g, b) as u64,
        h_den: hue_den_of(r, g, b) as u64,
        s_num: (mx - min3(r, g, b)) as u64,
        s_den: (if mx == 0 { 1int } else { mx }) as u64,
        v_num: mx as u64,
        v_den: 255,
    }
}

/// Converts an RGB color to its exact HSV representation.
pub fn rgb_to_hsv(c: &ColorRgb) -> (hsv: ColorHsv)
    ensures
        hsv == spec_rgb_to_hsv(*c),
        hsv.wf(),
        hsv.h_den <= 255,
        hsv.s_den <= 255,
        hsv.v_den == 255,
{
    let r = c.r as u64;
    let g = c.g as u64;
    let b = c.b as u64;
    let mx = if r >= g && r >= b {
        r
    } else if g >= b {
        g
    } else {
        b
    };
    let mn = if r <= g && r <= b {
        r
    } else if g <= b {
        g
    } else {
        b
    };
    let d = mx - mn;
    let h_pair: (u64, u64) = if d == 0 {
        (0, 1)
    } else if mx == r {
        if g >= b {
            (60 * (g - b), d)
        } else {
            (360 * d - 60 * (b - g), d)
        }
    } else if mx == g {
        if b >= r {
            (60 * (b - r) + 120 * d, d)
        } else {
            (120 * d - 60 * (r - b), d)
        }
    } else {
        if r >= g {
            (60 * (r - g) + 240 * d, d)
        } else {
            (240 * d - 60 * (g - r), d)
        }
    };
    let s_den = if mx == 0 {
        1
    } else {
        mx
    };
    ColorHsv {
        h_num: h_pair.0,
        h_den: h_pair.1,
        s_num: d,
        s_den,
        v_num: mx,
        v_den: 255,
    }
}

/// Rounding of the exact ratio `num / den` to the nearest integer, halves
/// away from zero (both arguments are non-negative here).
pub open spec fn rnd(num: int, den: int) -> int {
    (2 * num + den) / (2 * den)
}

/// The three 8-bit channels that HSV -> RGB conversion produces, as
/// mathematical integers. Chroma `c = v*s`, the triangular-wave factor
/// `tri/(60*hd)` standing for `1 - |((h/60) mod 2) - 1|`, the intermediate
/// `x = c * tri/(60*hd)`, the offset `m = v - c`, a sector chosen from six
/// 60-degree intervals, and each channel rounded from `(component + m) * 255`.
/// All values share the exact common denominator `vd * sd * 60 * hd`.
pub open spec fn spec_hsv_channels(h: ColorHsv) -> (int, int, int) {
    let hn = h.h_num as int;
    let hd = h.h_den as int;
    let sn = h.s_num as int;
    let sd = h.s_den as int;
    let vn = h.v_num as int;
    let vd = h.v_den as int;
    let sector = hn / (60 * hd);
    let upos = hn % (120 * hd);
    let tri = if upos <= 60 * hd {
        upos
    } else {
        120 * hd - upos
    };
    let den = vd * sd * (60 * hd);
    let cnum = vn * sn * (60 * hd);
    let xnum = vn * sn * tri;
    let mnum = vn * (sd - sn) * (60 * hd);
    let comps = if sector == 0 {
        (cnum, xnum, 0int)
    } else if sector == 1 {
        (xnum, cnum, 0int)
    } else if sector == 2 {
        (0int, cnum, xnum)
    } else if sector == 3 {
        (0int, xnum, cnum)
    } else if sector == 4 {
        (xnum, 0int, cnum)
    } else {
        (cnum, 0int, xnum)
    };
    (rnd(255 * (comps.0 + mnum), den), rnd(255 * (comps.1 + mnum), den), rnd(
        255 * (comps.2 + mnum),
        den,
    ))
}

/// Rounding an exact multiple of the denominator recovers the factor.
pub proof fn lemma_rnd_exact(v: int, den: int)
    requires
        1 <= den,
    ensures
        rnd(v * den, den) == v,
{
    assert(2 * (v * den) + den == v * (2 * den) + den) by (nonlinear_arith);
    vstd::arithmetic::div_mod::lemma_fundamental_div_mod_converse_div(
        2 * (v * den) + den,
        2 * den,
        v,
        den,
    );
}

/// A rounded channel lies in the 8-bit range whenever the exact value
/// lies in `[0, 1]` (given as `0 <= num <= den`).
pub proof fn lemma_rnd_range(num: int, den: int)
    requires
        1 <= den,
        0 <= num <= den,
    ensures
        0 <= rnd(255 * num, den) <= 255,
{
    let x = 2 * (255 * num) + den;
    vstd::arithmetic::div_mod::lemma_div_pos_is_pos(x, 2 * den);
    assert(511 * den == 255 * (2 * den) + den);
    vstd::arithmetic::div_mod::lemma_fundamental_div_mod_converse_div(
        511 * den,
        2 * den,
        255,
        den,
    );
    assert(x <= 511 * den);
    vstd::arithmetic::div_mod::lemma_div_is_ordered(x, 511 * den, 2 * den);
}

/// Rounds `255 * (comp + mnum) / den` to an 8-bit channel.
fn rnd_channel(comp: u128, mnum: u128, den: u128) -> (v: u8)
    requires
        1 <= den <= 100_000_000_000_000_000_000_000_000_000u128,
        comp + mnum <= den,
    ensures
        v as int == rnd(255 * (comp as int + mnum as int), den as int),
{
    let num = 255 * (comp + mnum);
    proof {
        lemma_rnd_range(comp as int + mnum as int, den as int);
    }
    let q = (2 * num + den) / (2 * den);
    q as u8
}

/// Converts an HSV color back to 8-bit RGB, rounding each channel.
pub fn hsv_to_rgb(hsv: &ColorHsv) -> (c: ColorRgb)
    requires
        hsv.wf(),
    ensures
        ({
            let (r, g, b) = spec_hsv_channels(*hsv);
            c.r as int == r && c.g as int == g && c.b as int == b
        }),
{
    let hn = hsv.h_num as u128;
    let hd = hsv.h_den as u128;
    let sn = hsv.s_num as u128;
    let sd = hsv.s_den as u128;
    let vn = hsv.v_num as u128;
    let vd = hsv.v_den as u128;
    let sixty_hd = 60 * hd;
    let sector = hn / sixty_hd;
    let upos = hn % (120 * hd);
    let tri = if upos <= sixty_hd {
        upos
    } else {
        120 * hd - upos
    };
    assert((vd as int) * (sd as int) <= 1_000_000_000_000_000_000int) by (nonlinear_arith)
        requires
            vd <= 1_000_000_000,
            sd <= 1_000_000_000,
    ;
    assert((vn as int) * (sn as int) <= 1_000_000_000_000_000_000int) by (nonlinear_arith)
        requires
            vn <= 1_000_000_000,
            sn <= 1_000_000_000,
    ;
    assert((vn as int) * ((sd - sn) as int) <= 1_000_000_000_000_000_000int) by (nonlinear_arith)
        requires
            vn <= 1_000_000_000,
            sd - sn <= 1_000_000_000,
    ;
    let vdsd = vd * sd;
    let vnsn = vn * sn;
    let vnrest = vn * (sd - sn);
    assert((vdsd as int) * (sixty_hd as int) <= 100_000_000_000_000_000_000_000_000_000int)
        by (nonlinear_arith)
        requires
            vdsd <= 1_000_000_000_000_000_000u128,
            sixty_hd <= 60_000_000_000u128,
    ;
    assert((vnsn as int) * (sixty_hd as int) <= 100_000_000_000_000_000_000_000_000_000int)
        by (nonlinear_arith)
        requires
            vnsn <= 1_000_000_000_000_000_000u128,
            sixty_hd <= 60_000_000_000u128,
    ;
    assert((vnsn as int) * (tri as int) <= 100_000_000_000_000_000_000_000_000_000int)
        by (nonlinear_arith)
        requires
            vnsn <= 1_000_000_000_000_000_000u128,
            tri <= 60_000_000_000u128,
    ;
    assert((vnrest as int) * (sixty_hd as int) <= 100_000_000_000_000_000_000_000_000_000int)
        by (nonlinear_arith)
        requires
            vnrest <= 1_000_000_000_000_000_000u128,
            sixty_hd <= 60_000_000_000u128,
    ;
    let den = vdsd * sixty_hd;
    let cnum = vnsn * sixty_hd;
    let xnum = vnsn * tri;
    let mnum = vnrest * sixty_hd;
    assert(cnum + mnum <= den && den >= 1) by (nonlinear_arith)
        requires
            cnum == (vn * sn) * sixty_hd,
            mnum == (vn * (sd - sn)) * sixty_hd,
            den == (vd * sd) * sixty_hd,
            sn <= sd,
            vn <= vd,
            1 <= vd,
            1 <= sd,
            1 <= sixty_hd,
    ;
    assert(xnum <= cnum) by (nonlinear_arith)
        requires
            cnum == (vn * sn) * sixty_hd,
            xnum == (vn * sn) * tri,
            tri <= sixty_hd,
    ;
    let comps: (u128, u128, u128) = if sector == 0 {
        (cnum, xnum, 0)
    } else if sector == 1 {
        (xnum, cnum, 0)
    } else if sector == 2 {
        (0, cnum, xnum)
    } else if sector == 3 {
        (0, xnum, cnum)
    } else if sector == 4 {
        (xnum, 0, cnum)
    } else {
        (cnum, 0, xnum)
    };
    let r = rnd_channel(comps.0, mnum, den);
    let g = rnd_channel(comps.1, mnum, den);
    let b = rnd_channel(comps.2, mnum, den);
    ColorRgb { r, g, b }
}

} // verus!
