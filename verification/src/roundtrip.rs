//! The conversion round trip: HSV -> RGB applied to the exact HSV image of
//! an 8-bit color reproduces that color on every channel.
//!
//! Because both conversions are carried out over exact rationals, the round
//! trip is exact for every input, including achromatic ones.

use vstd::prelude::*;

use crate::color::{
    hue_den_of, hue_num_of, lemma_rnd_exact, max3, min3, spec_hsv_channels, spec_rgb_to_hsv,
    ColorHsv, ColorRgb,
};
use vstd::arithmetic::div_mod::{
    lemma_fundamental_div_mod_converse_div, lemma_fundamental_div_mod_converse_mod,
};

verus! {

/// Converting an RGB color to HSV and back yields the same color, channel
/// for channel, for every 8-bit input.
pub proof fn lemma_hsv_round_trip(c: ColorRgb)
    ensures
        spec_hsv_channels(spec_rgb_to_hsv(c)).0 == c.r as int,
        spec_hsv_channels(spec_rgb_to_hsv(c)).1 == c.g as int,
        spec_hsv_channels(spec_rgb_to_hsv(c)).2 == c.b as int,
{
    let r: int = c.r as int;
    let g: int = c.g as int;
    let b: int = c.b as int;
    let mx: int = max3(r, g, b);
    let d: int = mx - min3(r, g, b);
    let h = spec_rgb_to_hsv(c);
    assert(0 <= hue_num_of(r, g, b) <= 360 * 255);
    assert(1 <= hue_den_of(r, g, b) <= 255);
    let hn: int = h.h_num as int;
    let hd: int = h.h_den as int;
    let sn: int = h.s_num as int;
    let sd: int = h.s_den as int;
    let vn: int = h.v_num as int;
    let vd: int = h.v_den as int;
    assert(hn == hue_num_of(r, g, b));
    assert(hd == hue_den_of(r, g, b));
    assert(sn == d);
    assert(sd == if mx == 0 { 1int } else { mx });
    assert(vn == mx && vd == 255);
    let sector: int = hn / (60 * hd);
    let upos: int = hn % (120 * hd);
    let tri: int = if upos <= 60 * hd {
        upos
    } else {
        120 * hd - upos
    };
    let den: int = vd * sd * (60 * hd);
    let cnum: int = vn * sn * (60 * hd);
    let xnum: int = vn * sn * tri;
    let mnum: int = vn * (sd - sn) * (60 * hd);
    if d == 0 {
        assert(r == mx && g == mx && b == mx);
        assert(hn == 0 && hd == 1);
        vstd::arithmetic::div_mod::lemma_basic_div(hn, 60 * hd);
        vstd::arithmetic::div_mod::lemma_small_mod(hn as nat, (120 * hd) as nat);
        assert(sector == 0 && upos == 0 && tri == 0);
        assert(255 * (cnum + mnum) == mx * den && 255 * (xnum + mnum) == mx * den && 255 * (0
            + mnum) == mx * den && 1 <= den) by (nonlinear_arith)
            requires
                cnum == vn * sn * (60 * hd),
                xnum == vn * sn * tri,
                mnum == vn * (sd - sn) * (60 * hd),
                den == vd * sd * (60 * hd),
                vn == mx,
                vd == 255,
                sn == 0,
                tri == 0,
                1 <= sd,
                1 <= hd,
                0 <= mx,
        ;
        lemma_rnd_exact(mx, den);
        assert(spec_hsv_channels(h).0 == mx);
        assert(spec_hsv_channels(h).1 == mx);
        assert(spec_hsv_channels(h).2 == mx);
    } else {
        assert(1 <= mx && sd == mx && 1 <= d && hd == d);
        if mx == r {
            assert(b <= mx && g <= mx && mx - d <= g && mx - d <= b);
            if g >= b {
                assert(mx - d == b);
                if g - b < d {
                    // hue in the first sector: [0, 60) degrees
                    assert(hn == 60 * (g - b));
                    lemma_fundamental_div_mod_converse_div(hn, 60 * hd, 0, hn);
                    lemma_fundamental_div_mod_converse_mod(hn, 120 * hd, 0, hn);
                    assert(sector == 0 && upos == hn && tri == 60 * (g - b));
                    assert(255 * (cnum + mnum) == r * den && 255 * (xnum + mnum) == g * den && 255
                        * (0 + mnum) == b * den && 1 <= den) by (nonlinear_arith)
                        requires
                            cnum == vn * sn * (60 * hd),
                            xnum == vn * sn * tri,
                            mnum == vn * (sd - sn) * (60 * hd),
                            den == vd * sd * (60 * hd),
                            vn == mx,
                            vd == 255,
                            sn == d,
                            sd == mx,
                            hd == d,
                            tri == 60 * (g - b),
                            r == mx,
                            b == mx - d,
                            1 <= d,
                            1 <= mx,
                    ;
                    lemma_rnd_exact(r, den);
                    lemma_rnd_exact(g, den);
                    lemma_rnd_exact(b, den);
                    assert(spec_hsv_channels(h).0 == r);
                    assert(spec_hsv_channels(h).1 == g);
                    assert(spec_hsv_channels(h).2 == b);
                } else {
                    // hue exactly 60 degrees: green ties the maximum
                    assert(g - b == d && g == mx && hn == 60 * d);
                    lemma_fundamental_div_mod_converse_div(hn, 60 * hd, 1, 0);
                    lemma_fundamental_div_mod_converse_mod(hn, 120 * hd, 0, hn);
                    assert(sector == 1 && upos == hn && tri == 60 * d);
                    assert(255 * (xnum + mnum) == r * den && 255 * (cnum + mnum) == g * den && 255
                        * (0 + mnum) == b * den && 1 <= den) by (nonlinear_arith)
                        requires
                            cnum == vn * sn * (60 * hd),
                            xnum == vn * sn * tri,
                            mnum == vn * (sd - sn) * (60 * hd),
                            den == vd * sd * (60 * hd),
                            vn == mx,
                            vd == 255,
                            sn == d,
                            sd == mx,
                            hd == d,
                            tri == 60 * d,
                            r == mx,
                            g == mx,
                            b == mx - d,
                            1 <= d,
                            1 <= mx,
                    ;
                    lemma_rnd_exact(r, den);
                    lemma_rnd_exact(g, den);
                    lemma_rnd_exact(b, den);
                    assert(spec_hsv_channels(h).0 == r);
                    assert(spec_hsv_channels(h).1 == g);
                    assert(spec_hsv_channels(h).2 == b);
                }
            } else {
                // hue in the last sector: (300, 360) degrees
                assert(mx - d == g && b - g <= d);
                assert(hn == 60 * (g - b) + 360 * d);
                lemma_fundamental_div_mod_converse_div(hn, 60 * hd, 5, hn - 5 * (60 * hd));
                lemma_fundamental_div_mod_converse_mod(hn, 120 * hd, 2, hn - 2 * (120 * hd));
                assert(sector == 5 && upos == hn - 240 * d && tri == 60 * (b - g));
                assert(255 * (cnum + mnum) == r * den && 255 * (0 + mnum) == g * den && 255 * (xnum
                    + mnum) == b * den && 1 <= den) by (nonlinear_arith)
                    requires
                        cnum == vn * sn * (60 * hd),
                        xnum == vn * sn * tri,
                        mnum == vn * (sd - sn) * (60 * hd),
                        den == vd * sd * (60 * hd),
                        vn == mx,
                        vd == 255,
                        sn == d,
                        sd == mx,
                        hd == d,
                        tri == 60 * (b - g),
                        r == mx,
                        g == mx - d,
                        1 <= d,
                        1 <= mx,
                ;
                lemma_rnd_exact(r, den);
                lemma_rnd_exact(g, den);
                lemma_rnd_exact(b, den);
                assert(spec_hsv_channels(h).0 == r);
                assert(spec_hsv_channels(h).1 == g);
                assert(spec_hsv_channels(h).2 == b);
            }
        } else if mx == g {
            assert(r < mx && b <= mx && mx - d <= r && mx - d <= b);
            if b < r {
                // hue in the second sector: (60, 120) degrees
                assert(mx - d == b);
                assert(hn == 60 * (b - r) + 120 * d);
                lemma_fundamental_div_mod_converse_div(hn, 60 * hd, 1, hn - 60 * hd);
                lemma_fundamental_div_mod_converse_mod(hn, 120 * hd, 0, hn);
                assert(sector == 1 && upos == hn && tri == 60 * (r - b));
                assert(255 * (xnum + mnum) == r * den && 255 * (cnum + mnum) == g * den && 255 * (0
                    + mnum) == b * den && 1 <= den) by (nonlinear_arith)
                    requires
                        cnum == vn * sn * (60 * hd),
                        xnum == vn * sn * tri,
                        mnum == vn * (sd - sn) * (60 * hd),
                        den == vd * sd * (60 * hd),
                        vn == mx,
                        vd == 255,
                        sn == d,
                        sd == mx,
                        hd == d,
                        tri == 60 * (r - b),
                        g == mx,
                        b == mx - d,
                        1 <= d,
                        1 <= mx,
                ;
                lemma_rnd_exact(r, den);
                lemma_rnd_exact(g, den);
                lemma_rnd_exact(b, den);
                assert(spec_hsv_channels(h).0 == r);
                assert(spec_hsv_channels(h).1 == g);
                assert(spec_hsv_channels(h).2 == b);
            } else if b - r < d {
                // hue in the third sector: [120, 180) degrees
                assert(mx - d == r);
                assert(hn == 60 * (b - r) + 120 * d);
                lemma_fundamental_div_mod_converse_div(hn, 60 * hd, 2, hn - 2 * (60 * hd));
                lemma_fundamental_div_mod_converse_mod(hn, 120 * hd, 1, hn - 120 * hd);
                assert(sector == 2 && upos == 60 * (b - r) && tri == 60 * (b - r));
                assert(255 * (0 + mnum) == r * den && 255 * (cnum + mnum) == g * den && 255 * (xnum
                    + mnum) == b * den && 1 <= den) by (nonlinear_arith)
                    requires
                        cnum == vn * sn * (60 * hd),
                        xnum == vn * sn * tri,
                        mnum == vn * (sd - sn) * (60 * hd),
                        den == vd * sd * (60 * hd),
                        vn == mx,
                        vd == 255,
                        sn == d,
                        sd == mx,
                        hd == d,
                        tri == 60 * (b - r),
                        g == mx,
                        r == mx - d,
                        1 <= d,
                        1 <= mx,
                ;
                lemma_rnd_exact(r, den);
                lemma_rnd_exact(g, den);
                lemma_rnd_exact(b, den);
                assert(spec_hsv_channels(h).0 == r);
                assert(spec_hsv_channels(h).1 == g);
                assert(spec_hsv_channels(h).2 == b);
            } else {
                // hue exactly 180 degrees: blue ties the maximum
                assert(b - r == d && b == mx && r == mx - d && hn == 180 * d);
                lemma_fundamental_div_mod_converse_div(hn, 60 * hd, 3, 0);
                lemma_fundamental_div_mod_converse_mod(hn, 120 * hd, 1, hn - 120 * hd);
                assert(sector == 3 && upos == 60 * d && tri == 60 * d);
                assert(255 * (0 + mnum) == r * den && 255 * (xnum + mnum) == g * den && 255 * (cnum
                    + mnum) == b * den && 1 <= den) by (nonlinear_arith)
                    requires
                        cnum == vn * sn * (60 * hd),
                        xnum == vn * sn * tri,
                        mnum == vn * (sd - sn) * (60 * hd),
                        den == vd * sd * (60 * hd),
                        vn == mx,
                        vd == 255,
                        sn == d,
                        sd == mx,
                        hd == d,
                        tri == 60 * d,
                        g == mx,
                        b == mx,
                        r == mx - d,
                        1 <= d,
                        1 <= mx,
                ;
                lemma_rnd_exact(r, den);
                lemma_rnd_exact(g, den);
                lemma_rnd_exact(b, den);
                assert(spec_hsv_channels(h).0 == r);
                assert(spec_hsv_channels(h).1 == g);
                assert(spec_hsv_channels(h).2 == b);
            }
        } else {
            assert(mx == b && r < mx && g < mx && mx - d <= r && mx - d <= g);
            if r < g {
                // hue in the fourth sector: (180, 240) degrees
                assert(mx - d == r);
                assert(hn == 60 * (r - g) + 240 * d);
                lemma_fundamental_div_mod_converse_div(hn, 60 * hd, 3, hn - 3 * (60 * hd));
                lemma_fundamental_div_mod_converse_mod(hn, 120 * hd, 1, hn - 120 * hd);
                assert(sector == 3 && upos == hn - 120 * d && tri == 60 * (g - r));
                assert(255 * (0 + mnum) == r * den && 255 * (xnum + mnum) == g * den && 255 * (cnum
                    + mnum) == b * den && 1 <= den) by (nonlinear_arith)
                    requires
                        cnum == vn * sn * (60 * hd),
                        xnum == vn * sn * tri,
                        mnum == vn * (sd - sn) * (60 * hd),
                        den == vd * sd * (60 * hd),
                        vn == mx,
                        vd == 255,
                        sn == d,
                        sd == mx,
                        hd == d,
                        tri == 60 * (g - r),
                        b == mx,
                        r == mx - d,
                        1 <= d,
                        1 <= mx,
                ;
                lemma_rnd_exact(r, den);
                lemma_rnd_exact(g, den);
                lemma_rnd_exact(b, den);
                assert(spec_hsv_channels(h).0 == r);
                assert(spec_hsv_channels(h).1 == g);
                assert(spec_hsv_channels(h).2 == b);
            } else {
                // hue in the fifth sector: [240, 300) degrees
                assert(mx - d == g);
                assert(hn == 60 * (r - g) + 240 * d);
                lemma_fundamental_div_mod_converse_div(hn, 60 * hd, 4, 60 * (r - g));
                lemma_fundamental_div_mod_converse_mod(hn, 120 * hd, 2, 60 * (r - g));
                assert(sector == 4 && upos == 60 * (r - g) && tri == 60 * (r - g));
                assert(255 * (xnum + mnum) == r * den && 255 * (0 + mnum) == g * den && 255 * (cnum
                    + mnum) == b * den && 1 <= den) by (nonlinear_arith)
                    requires
                        cnum == vn * sn * (60 * hd),
                        xnum == vn * sn * tri,
                        mnum == vn * (sd - sn) * (60 * hd),
                        den == vd * sd * (60 * hd),
                        vn == mx,
                        vd == 255,
                        sn == d,
                        sd == mx,
                        hd == d,
                        tri == 60 * (r - g),
                        b == mx,
                        g == mx - d,
                        1 <= d,
                        1 <= mx,
                ;
                lemma_rnd_exact(r, den);
                lemma_rnd_exact(g, den);
                lemma_rnd_exact(b, den);
                assert(spec_hsv_channels(h).0 == r);
                assert(spec_hsv_channels(h).1 == g);
                assert(spec_hsv_channels(h).2 == b);
            }
        }
    }
}

} // verus!
