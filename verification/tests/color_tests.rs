use ambient_backlight::color::{hsv_to_rgb, rgb_to_hsv, ColorHsv, ColorRgb};
use ambient_backlight::enhance::boost;

#[test]
fn rgb_to_hsv_pure_red() {
    let hsv = rgb_to_hsv(&ColorRgb { r: 255, g: 0, b: 0 });
    // hue 0 degrees, saturation 1, value 1
    assert_eq!(hsv.h_num, 0);
    assert_eq!(hsv.h_den, 255);
    assert_eq!(hsv.s_num, hsv.s_den);
    assert_eq!(hsv.v_num, 255);
    assert_eq!(hsv.v_den, 255);
}

#[test]
fn rgb_to_hsv_gray_is_achromatic() {
    let hsv = rgb_to_hsv(&ColorRgb { r: 128, g: 128, b: 128 });
    assert_eq!(hsv.h_num, 0);
    assert_eq!(hsv.h_den, 1);
    assert_eq!(hsv.s_num, 0);
    assert_eq!(hsv.v_num, 128);
    assert_eq!(hsv.v_den, 255);
}

#[test]
fn rgb_to_hsv_green_is_120_degrees() {
    let hsv = rgb_to_hsv(&ColorRgb { r: 0, g: 255, b: 0 });
    assert_eq!(hsv.h_num, 120 * hsv.h_den);
    assert_eq!(hsv.s_num, hsv.s_den);
    assert_eq!(hsv.v_num, 255);
}

#[test]
fn rgb_to_hsv_blue_is_240_degrees() {
    let hsv = rgb_to_hsv(&ColorRgb { r: 0, g: 0, b: 255 });
    assert_eq!(hsv.h_num, 240 * hsv.h_den);
}

#[test]
fn rgb_to_hsv_tie_breaks_red_before_green() {
    // red and green tie at the maximum: the red branch decides, hue 60
    let hsv = rgb_to_hsv(&ColorRgb { r: 200, g: 200, b: 0 });
    assert_eq!(hsv.h_num, 60 * hsv.h_den);
}

#[test]
fn hsv_to_rgb_pure_red() {
    let hsv = ColorHsv { h_num: 0, h_den: 1, s_num: 1, s_den: 1, v_num: 1, v_den: 1 };
    assert_eq!(hsv_to_rgb(&hsv), ColorRgb { r: 255, g: 0, b: 0 });
}

#[test]
fn hsv_to_rgb_rounds_half_up() {
    // value 1/2, full saturation, hue 0: red channel is 127.5, rounds to 128
    let hsv = ColorHsv { h_num: 0, h_den: 1, s_num: 1, s_den: 1, v_num: 1, v_den: 2 };
    assert_eq!(hsv_to_rgb(&hsv), ColorRgb { r: 128, g: 0, b: 0 });
}

#[test]
fn hsv_to_rgb_cyan() {
    let hsv = ColorHsv { h_num: 180, h_den: 1, s_num: 1, s_den: 1, v_num: 1, v_den: 1 };
    assert_eq!(hsv_to_rgb(&hsv), ColorRgb { r: 0, g: 255, b: 255 });
}

#[test]
fn round_trip_is_exact_on_a_grid() {
    let samples = [0u8, 1, 7, 63, 64, 127, 128, 200, 254, 255];
    for &r in samples.iter() {
        for &g in samples.iter() {
            for &b in samples.iter() {
                let c = ColorRgb { r, g, b };
                let back = hsv_to_rgb(&rgb_to_hsv(&c));
                assert_eq!(back, c);
            }
        }
    }
}

#[test]
fn boost_leaves_zero_saturation_at_zero() {
    let hsv = ColorHsv { h_num: 0, h_den: 1, s_num: 0, s_den: 1, v_num: 1, v_den: 2 };
    let out = boost(&hsv);
    assert_eq!(out.s_num, 0);
}

#[test]
fn boost_multiplies_by_37_over_20() {
    // s = 1/2 boosts to 37/40 (0.925), below the clamp
    let hsv = ColorHsv { h_num: 90, h_den: 1, s_num: 1, s_den: 2, v_num: 3, v_den: 4 };
    let out = boost(&hsv);
    assert_eq!(out.s_num, 37);
    assert_eq!(out.s_den, 40);
    // hue and value pass through unchanged
    assert_eq!(out.h_num, 90);
    assert_eq!(out.h_den, 1);
    assert_eq!(out.v_num, 3);
    assert_eq!(out.v_den, 4);
}

#[test]
fn boost_clamps_at_one() {
    // s = 3/4: 1.85 * 0.75 > 1, so the result is exactly 1
    let hsv = ColorHsv { h_num: 0, h_den: 1, s_num: 3, s_den: 4, v_num: 1, v_den: 1 };
    let out = boost(&hsv);
    assert_eq!(out.s_num, out.s_den);
    // full saturation stays clamped at 1
    let full = ColorHsv { h_num: 0, h_den: 1, s_num: 1, s_den: 1, v_num: 1, v_den: 1 };
    let kept = boost(&full);
    assert_eq!(kept.s_num, kept.s_den);
}
