use rdock::color::{alpha_blend, brighten_pixel};
use rdock::hex::{parse_color_bgr, parse_hex_color, parse_hex_rgb, lighten_color};

#[test]
fn opaque_source_replaces_destination() {
    assert_eq!(alpha_blend(0x80112233, 0xff445566), 0xff445566);
}

#[test]
fn transparent_source_leaves_destination() {
    assert_eq!(alpha_blend(0x80112233, 0x00445566), 0x80112233);
}

#[test]
fn half_transparent_over_opaque() {
    // sa = 128, da = 255: out_a = 128 + 255 * 127 / 255 = 255;
    // red = (200 * 128 + 100 * 255 * 127 / 255) / 255 = (25600 + 12700) / 255 = 150.
    let out = alpha_blend(0xff640000, 0x80c80000);
    assert_eq!(out, 0xff960000);
}

#[test]
fn brighten_scales_by_a_fifth_and_saturates() {
    // 100 -> 120, 250 -> 255 (saturated), 0 -> 0; alpha kept.
    assert_eq!(brighten_pixel(0x7f64fa00), 0x7f78ff00);
}

#[test]
fn hex_rgb_reads_six_digits() {
    assert_eq!(parse_hex_rgb("#cba6f7"), (0xcb, 0xa6, 0xf7));
    assert_eq!(parse_hex_rgb("1A2b3C"), (0x1a, 0x2b, 0x3c));
    assert_eq!(parse_hex_rgb("##000001"), (0, 0, 1));
}

#[test]
fn hex_rgb_falls_back_on_unreadable_text() {
    assert_eq!(parse_hex_rgb(""), (0xcb, 0xa6, 0xf7));
    assert_eq!(parse_hex_rgb("#"), (0xcb, 0xa6, 0xf7));
    assert_eq!(parse_hex_rgb("#zz0000"), (0xcb, 0xa6, 0xf7));
    assert_eq!(parse_hex_rgb("+"), (0xcb, 0xa6, 0xf7));
    assert_eq!(parse_hex_rgb("#1ffffffff"), (0xcb, 0xa6, 0xf7));
}

#[test]
fn hex_rgb_accepts_a_leading_plus() {
    assert_eq!(parse_hex_rgb("+0000ff"), (0, 0, 0xff));
}

#[test]
fn hex_color_packs_opacity_as_alpha() {
    // nine tenths in fixed point is 58982; 58982 * 255 / 65536 = 229.
    assert_eq!(parse_hex_color("#1e1e2e", 58982), 0xe51e1e2e);
    assert_eq!(parse_hex_color("#1e1e2e", 65536), 0xff1e1e2e);
    assert_eq!(parse_hex_color("nonsense", 0), 0x001e1e2e);
}

#[test]
fn bgr_swaps_red_and_blue() {
    assert_eq!(parse_color_bgr("#1e1e2e"), 0x2e1e1e);
    assert_eq!(parse_color_bgr("#112233"), 0x332211);
    assert_eq!(parse_color_bgr("#123"), 0x2e1e1e);
    assert_eq!(parse_color_bgr("#12345g"), 0x2e1e1e);
}

#[test]
fn lighten_saturates_each_channel() {
    assert_eq!(lighten_color(0x10f080, 0x20), 0x30ffa0);
}
