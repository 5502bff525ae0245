//! The fixed perceptual saturation boost.
//!
//! Raw screen averages are usually desaturated (grays dominate typical
//! content); multiplying saturation by a fixed gain of 1.85 — held here as
//! the exact fraction 37/20 — and clamping at 1 restores perceptible color
//! without per-content tuning. Hue and value pass through unchanged.

use vstd::prelude::*;

use crate::color::{ColorHsv, DEN_MAX};

verus! {

/// The boosted color: saturation multiplied by 37/20 and clamped to 1,
/// hue and value untouched.
pub open spec fn spec_boost(h: ColorHsv) -> ColorHsv {
    if 37 * (h.s_num as int) >= 20 * (h.s_den as int) {
        ColorHsv {
            h_num: h.h_num,
            h_den: h.h_den,
            s_num: 1,
            s_den: 1,
            v_num: h.v_num,
            v_den: h.v_den,
        }
    } else {
        ColorHsv {
            h_num: h.h_num,
            h_den: h.h_den,
            s_num: (37 * h.s_num) as u64,
            s_den: (20 * h.s_den) as u64,
            v_num: h.v_num,
            v_den: h.v_den,
        }
    }
}

/// Applies the saturation boost. The bound on the input denominator is a
/// machine limit: the scaled denominator must stay representable.
pub fn boost(hsv: &ColorHsv) -> (out: ColorHsv)
    requires
        hsv.wf(),
        20 * (hsv.s_den as int) <= DEN_MAX as int,
    ensures
        out == spec_boost(*hsv),
        out.wf(),
        out.h_num == hsv.h_num,
        out.h_den == hsv.h_den,
        out.v_num == hsv.v_num,
        out.v_den == hsv.v_den,
        out.s_num <= out.s_den,
        (out.s_num as int) * (20 * (hsv.s_den as int)) == vstd::math::min(
            37 * (hsv.s_num as int),
            20 * (hsv.s_den as int),
        ) * (out.s_den as int),
{
    if 37 * hsv.s_num >= 20 * hsv.s_den {
        ColorHsv {
            h_num: hsv.h_num,
            h_den: hsv.h_den,
            s_num: 1,
            s_den: 1,
            v_num: hsv.v_num,
            v_den: hsv.v_den,
        }
    } else {
        ColorHsv {
            h_num: hsv.h_num,
            h_den: hsv.h_den,
            s_num: 37 * hsv.s_num,
            s_den: 20 * hsv.s_den,
            v_num: hsv.v_num,
            v_den: hsv.v_den,
        }
    }
}

/// The boost never leaves saturation above 1, and the output saturation
/// equals `min(s * 37/20, 1)` exactly (stated by cross-multiplication of
/// the two fractions).
pub proof fn lemma_boost_saturation(h: ColorHsv)
    requires
        h.wf(),
        20 * (h.s_den as int) <= DEN_MAX as int,
    ensures
        spec_boost(h).s_num <= spec_boost(h).s_den,
        (spec_boost(h).s_num as int) * (20 * (h.s_den as int)) == vstd::math::min(
            37 * (h.s_num as int),
            20 * (h.s_den as int),
        ) * (spec_boost(h).s_den as int),
{
    let sn = h.s_num as int;
    let sd = h.s_den as int;
    if 37 * sn >= 20 * sd {
        assert(spec_boost(h).s_num == 1 && spec_boost(h).s_den == 1);
        assert(vstd::math::min(37 * sn, 20 * sd) == 20 * sd);
    } else {
        assert(spec_boost(h).s_num as int == 37 * sn);
        assert(spec_boost(h).s_den as int == 20 * sd);
        assert(vstd::math::min(37 * sn, 20 * sd) == 37 * sn);
    }
}

} // verus!
