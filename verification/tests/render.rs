use rdock::brush::{dab, fill_block, Brush};
use rdock::config::{DockItem, DockSettings, ItemSpacing, Spacing};
use rdock::layout::DragState;
use rdock::paint::Stroke;
use rdock::render::clear;
use rdock::renderer::Renderer;
use rdock::sample::{bicubic_sample, bilinear_blend, bilinear_sample};

const INDICATOR: (u8, u8, u8) = (0xcb, 0xa6, 0xf7);

fn argb(a: u32, r: u32, g: u32, b: u32) -> u32 {
    (a << 24) | (r << 16) | (g << 8) | b
}

fn tinted(a: u32) -> u32 {
    argb(a, 0xcb, 0xa6, 0xf7)
}

fn app(name: &str, icon: Option<&str>) -> DockItem {
    DockItem {
        name: name.to_string(),
        path: format!("C:\\apps\\{}.exe", name),
        icon: icon.map(|s| s.to_string()),
        args: Vec::new(),
        separator: false,
        special: None,
    }
}

fn settings() -> DockSettings {
    let mut s = DockSettings::default();
    s.icon_size = 48;
    s.spacing = ItemSpacing::uniform(12);
    s.padding = Spacing::uniform(12);
    s.corner_radius = 6;
    s.background_opacity = 58982;
    s
}

fn renderer(items: &[DockItem]) -> Renderer {
    Renderer::new(&settings(), items).unwrap()
}

#[test]
fn bicubic_sample_of_a_flat_image_is_flat() {
    for colour in [0u32, 0xffffffff, 0x80112233, 0x01fe7f00] {
        for side in [1usize, 2, 5, 16] {
            let pixels = vec![colour; side * side];
            let last = (side as i64) * 65536 - 1;
            for (x, y) in [(0, 0), (1, 1), (32768, 12345), (last, last), (last / 3, last / 7)] {
                assert_eq!(bicubic_sample(&pixels, side, x, y), colour);
            }
        }
    }
}

#[test]
fn flat_icon_comes_out_flat_at_any_size() {
    let r = renderer(&[]);
    let pixels = vec![0xff336699u32; 64 * 64];
    for dst in [1u32, 7, 48, 64, 100] {
        let width = 120usize;
        let mut buffer = vec![0u32; width * 110];
        r.draw_icon_bicubic(&mut buffer, width, &pixels, 64, 3, 5, dst);
        for y in 0..110usize {
            for x in 0..width {
                let inside = x >= 3 && x < 3 + dst as usize && y >= 5 && y < 5 + dst as usize;
                let expected = if inside { 0xff336699 } else { 0 };
                assert_eq!(buffer[y * width + x], expected);
            }
        }
    }
}

#[test]
fn bicubic_sample_on_a_pixel_is_that_pixel() {
    let pixels: Vec<u32> = (0..16u32).map(|i| argb(255, i * 16, 255 - i * 10, i)).collect();
    for y in 0..4i64 {
        for x in 0..4i64 {
            assert_eq!(
                bicubic_sample(&pixels, 4, x * 65536, y * 65536),
                pixels[(y * 4 + x) as usize]
            );
        }
    }
}

#[test]
fn bicubic_sample_between_pixels_follows_the_spline() {
    // every row holds blue 10, 20, 40, 80; halfway between the second and
    // the third the spline gives (-10 + 9 * 20 + 9 * 40 - 80) / 16 = 28.125
    let row = [10u32, 20, 40, 80];
    let pixels: Vec<u32> = (0..16).map(|i| argb(255, 0, 0, row[i % 4])).collect();
    assert_eq!(bicubic_sample(&pixels, 4, 65536 + 32768, 65536), argb(255, 0, 0, 28));
    // a quarter of the way: 20 + (30 * 0.25 + (2*10 - 5*20 + 4*40 - 80) * 0.0625
    // + (-10 + 60 - 120 + 80) * 0.015625) / 2 = 20 + (7.5 + 0 + 0.15625) / 2
    assert_eq!(bicubic_sample(&pixels, 4, 65536 + 16384, 2 * 65536 + 77), argb(255, 0, 0, 23));
}

#[test]
fn bicubic_sample_is_held_to_eight_bits() {
    // an edge from black to white overshoots on both sides of the step
    let row = [0u32, 0, 255, 255];
    let pixels: Vec<u32> = (0..16).map(|i| argb(255, row[i % 4], 0, 0)).collect();
    let before = bicubic_sample(&pixels, 4, 32768, 65536);
    let after = bicubic_sample(&pixels, 4, 2 * 65536 + 32768, 65536);
    assert_eq!(before, argb(255, 0, 0, 0));
    assert_eq!(after, argb(255, 255, 0, 0));
}

#[test]
fn bicubic_sample_outside_the_buffer_is_transparent() {
    assert_eq!(bicubic_sample(&[], 0, 0, 0), 0);
    assert_eq!(bicubic_sample(&[], 4, 65536, 65536), 0);
}

#[test]
fn bilinear_blend_mixes_the_corners() {
    let black = argb(255, 0, 0, 0);
    let red = argb(255, 100, 0, 0);
    assert_eq!(bilinear_blend(black, red, black, red, 32768, 0), argb(255, 50, 0, 0));
    assert_eq!(bilinear_blend(black, black, red, red, 0, 16384), argb(255, 25, 0, 0));
    assert_eq!(bilinear_blend(black, red, red, black, 0, 0), black);
    assert_eq!(bilinear_blend(red, red, red, red, 12345, 54321), red);
}

#[test]
fn bilinear_sample_reads_between_pixels() {
    let pixels = vec![argb(255, 0, 0, 0), argb(255, 200, 0, 0), argb(255, 0, 0, 0), argb(255, 200, 0, 0)];
    assert_eq!(bilinear_sample(&pixels, 2, 32768, 0), argb(255, 100, 0, 0));
    assert_eq!(bilinear_sample(&pixels, 2, 65536, 65536), argb(255, 200, 0, 0));
}

#[test]
fn bilinear_icon_of_a_flat_image_is_flat() {
    let r = renderer(&[]);
    let pixels = vec![0xff336699u32; 16];
    let mut buffer = vec![0u32; 100];
    r.draw_icon_bilinear(&mut buffer, 10, &pixels, 4, 1, 1, 8);
    assert_eq!(buffer[11], 0xff336699);
    assert_eq!(buffer[88], 0xff336699);
    assert_eq!(buffer[0], 0);
    assert_eq!(buffer[99], 0);
}

#[test]
fn strokes_outside_the_buffer_paint_nothing() {
    let mut buffer = vec![7u32; 12];
    dab(&mut buffer, 4, -1, 1, Stroke::Put(9));
    dab(&mut buffer, 4, 1, -1, Stroke::Put(9));
    dab(&mut buffer, 4, 0, 3, Stroke::Put(9));
    dab(&mut buffer, 4, 1, 1, Stroke::Skip);
    assert_eq!(buffer, vec![7u32; 12]);
    dab(&mut buffer, 4, 1, 2, Stroke::Put(9));
    assert_eq!(buffer[9], 9);
    // a column beyond the right edge falls on the next row
    dab(&mut buffer, 4, 5, 0, Stroke::Put(3));
    assert_eq!(buffer[5], 3);
    dab(&mut buffer, 4, 0, 0, Stroke::Over(0x80ff0000));
    assert_eq!(buffer[0], rdock::color::alpha_blend(7, 0x80ff0000));
}

#[test]
fn background_has_rounded_corners_and_a_bright_top() {
    let mut r = renderer(&[]);
    r.bg_color = 0xe51e1e2e;
    r.corner_radius = 6;
    let mut buffer = vec![0u32; 40 * 20];
    r.draw_background(&mut buffer, 40, 20);
    let at = |x: usize, y: usize| buffer[y * 40 + x];
    // outside the corner circles nothing is painted
    for (x, y) in [(0, 0), (1, 1), (39, 0), (38, 1), (0, 19), (39, 19)] {
        assert_eq!(at(x, y), 0);
    }
    // in the one-pixel band around them the alpha thins out
    assert_eq!(at(5, 0), 0xd227273d);
    assert_eq!(at(34, 0), 0xd227273d);
    assert_eq!(at(0, 5), 0xd21f1f30);
    // inside: the colour, brightest in the first rows
    assert_eq!(at(6, 0), 0xe527273d);
    assert_eq!(at(20, 0), 0xe527273d);
    assert_eq!(at(2, 2), 0xe5222235);
    assert_eq!(at(20, 2), 0xe5222235);
    assert_eq!(at(20, 3), 0xe5202031);
    assert_eq!(at(20, 10), 0xe51f1f2f);
    assert_eq!(at(20, 19), 0xe51e1e2e);
    assert_eq!(at(0, 6), 0xe51f1f30);
}

#[test]
fn separator_is_a_faded_line_in_the_middle_of_its_slot() {
    let r = renderer(&[]);
    let width = 60usize;
    let mut buffer = vec![0u32; width * 60];
    r.draw_separator(&mut buffer, width, 10, 4, 48);
    // 28 rows high, beginning (48 - 28) / 2 rows below the slot's top, two
    // columns wide, beginning at 10 + 48 / 6 - 1
    let alphas = [
        0u32, 30, 60, 91, 121, 128, 128, 128, 128, 128, 128, 128, 128, 128, 128, 128, 128, 128,
        128, 128, 128, 128, 128, 128, 121, 91, 60, 30,
    ];
    for (row, a) in alphas.iter().enumerate() {
        let expected = if *a == 0 { 0 } else { tinted(*a) };
        assert_eq!(buffer[(14 + row) * width + 17], expected);
        assert_eq!(buffer[(14 + row) * width + 18], expected);
        assert_eq!(buffer[(14 + row) * width + 16], 0);
        assert_eq!(buffer[(14 + row) * width + 19], 0);
    }
    assert_eq!(buffer[13 * width + 17], 0);
    assert_eq!(buffer[42 * width + 17], 0);
}

#[test]
fn drop_mark_is_a_bright_bar_with_faded_ends() {
    let r = renderer(&[]);
    let width = 20usize;
    let mut buffer = vec![0u32; width * 50];
    r.draw_drop_indicator(&mut buffer, width, 5, 1, 48);
    let head = [0u32, 45, 91, 137, 183, 220];
    for (row, a) in head.iter().enumerate() {
        let expected = if *a == 0 { 0 } else { tinted(*a) };
        for dx in 0..3 {
            assert_eq!(buffer[(1 + row) * width + 5 + dx], expected);
        }
    }
    assert_eq!(buffer[25 * width + 6], tinted(220));
    assert_eq!(buffer[(1 + 44) * width + 6], tinted(183));
    assert_eq!(buffer[(1 + 47) * width + 6], tinted(45));
    assert_eq!(buffer[25 * width + 4], 0);
    assert_eq!(buffer[25 * width + 8], 0);
}

#[test]
fn running_indicator_is_a_dot_in_a_glow() {
    let r = renderer(&[]);
    let width = 40usize;
    let mut buffer = vec![0u32; width * 40];
    r.draw_indicator_glow(&mut buffer, width, 20, 20);
    let at = |x: usize, y: usize| buffer[y * width + x];
    // the dot: every pixel within 3 of the middle, fully opaque
    assert_eq!(at(20, 20), tinted(255));
    assert_eq!(at(23, 20), tinted(255));
    assert_eq!(at(20, 17), tinted(255));
    assert_eq!(at(22, 22), tinted(255));
    // around it the glow: 80 at the middle, falling with the square of
    // what is left of the radius of 8
    assert_eq!(at(24, 20), tinted(20));
    assert_eq!(at(25, 20), tinted(11));
    assert_eq!(at(27, 20), tinted(1));
    assert_eq!(at(20, 15), tinted(11));
    assert_eq!(at(23, 24), tinted(11));
    assert_eq!(at(23, 23), tinted(17));
    assert_eq!(at(28, 20), 0);
    assert_eq!(at(26, 26), 0);
    assert_eq!(at(29, 20), 0);
}

#[test]
fn indicator_at_the_corner_is_cut_off_not_wrapped_upward() {
    let r = renderer(&[]);
    let width = 10usize;
    let mut buffer = vec![0u32; width * 10];
    r.draw_indicator_glow(&mut buffer, width, 0, 0);
    assert_eq!(buffer[0], tinted(255));
    assert_eq!(buffer[3], tinted(255));
    assert_eq!(buffer[3 * width], tinted(255));
    assert_eq!(buffer[4], tinted(20));
    r.draw_indicator_glow(&mut buffer, width, -20, -20);
    assert_eq!(buffer[9 * width + 9], 0);
}

#[test]
fn glow_behind_an_icon_grows_with_the_intensity() {
    let r = renderer(&[]);
    let width = 80usize;
    let mut full = vec![0u32; width * 80];
    r.draw_glow_scaled(&mut full, width, 40, 40, 48, 65536);
    // radius 48 * 6 / 10 = 28; the middle has alpha 50
    assert_eq!(full[40 * width + 40], tinted(50));
    // half way out a quarter of it
    assert_eq!(full[40 * width + 54], tinted(12));
    assert_eq!(full[40 * width + 69], 0);
    let mut half = vec![0u32; width * 80];
    r.draw_glow_scaled(&mut half, width, 40, 40, 48, 32768);
    assert_eq!(half[40 * width + 40], tinted(25));
    let mut none = vec![0u32; width * 80];
    r.draw_glow_scaled(&mut none, width, 40, 40, 48, 0);
    assert!(none.iter().all(|p| *p == 0));
    // an intensity above 1 counts as 1
    let mut over = vec![0u32; width * 80];
    r.draw_glow_scaled(&mut over, width, 40, 40, 48, 10 * 65536);
    assert_eq!(over, full);
}

#[test]
fn placeholder_is_a_rounded_square() {
    let r = renderer(&[]);
    let width = 20usize;
    let mut buffer = vec![0u32; width * 20];
    r.draw_placeholder(&mut buffer, width, 2, 3, 12);
    let colour = argb(128, 0xcb / 2, 0xa6 / 2, 0xf7 / 2);
    let at = |x: usize, y: usize| buffer[(3 + y) * width + 2 + x];
    // the corners are cut at a radius of 12 / 6 = 2
    assert_eq!(at(0, 0), 0);
    assert_eq!(at(1, 0), 0);
    assert_eq!(at(0, 1), 0);
    assert_eq!(at(1, 1), colour);
    assert_eq!(at(2, 0), colour);
    assert_eq!(at(11, 0), 0);
    assert_eq!(at(11, 11), 0);
    assert_eq!(at(0, 11), 0);
    assert_eq!(at(6, 6), colour);
    assert_eq!(at(11, 6), colour);
    assert_eq!(buffer[(3 + 12) * width + 8], 0);
    assert_eq!(buffer[(3 + 6) * width + 2 + 12], 0);
}

#[test]
fn reflection_is_the_icon_upside_down_and_fading() {
    let r = renderer(&[]);
    // upper half red, lower half blue
    let mut pixels = vec![0xffff0000u32; 48 * 48];
    for p in pixels.iter_mut().skip(24 * 48) {
        *p = 0xff0000ff;
    }
    let width = 60usize;
    let mut buffer = vec![0u32; width * 60];
    r.draw_reflection_bicubic(&mut buffer, width, &pixels, 48, 5, 10, 48);
    // 48 * 35 / 100 = 16 rows, all from the lower, blue part of the icon
    let alphas = [60u32, 52, 45, 39, 33, 28, 23, 18, 15, 11, 8, 5, 3, 2, 0, 0];
    for (row, a) in alphas.iter().enumerate() {
        let expected = if *a == 0 { 0 } else { argb(*a, 0, 0, 255) };
        assert_eq!(buffer[(10 + row) * width + 5], expected);
        assert_eq!(buffer[(10 + row) * width + 52], expected);
        assert_eq!(buffer[(10 + row) * width + 4], 0);
        assert_eq!(buffer[(10 + row) * width + 53], 0);
    }
    assert_eq!(buffer[26 * width + 20], 0);
    let mut plain = vec![0u32; width * 60];
    r.draw_reflection(&mut plain, width, &pixels, 48, 5, 10, 48);
    assert_eq!(plain, buffer);
}

#[test]
fn blocks_are_painted_row_by_row() {
    let mut buffer = vec![0u32; 30];
    let brush = Brush::Dot { radius: 1, color: 5 };
    assert_eq!(brush.cols(), 3);
    assert_eq!(brush.rows(), 3);
    assert_eq!(brush.stroke_at(1, 1), Stroke::Put(5));
    assert_eq!(brush.stroke_at(0, 0), Stroke::Skip);
    fill_block(&mut buffer, 6, 1, 1, &brush);
    let expected = vec![
        0, 0, 0, 0, 0, 0, //
        0, 0, 5, 0, 0, 0, //
        0, 5, 5, 5, 0, 0, //
        0, 0, 5, 0, 0, 0, //
        0, 0, 0, 0, 0, 0,
    ];
    assert_eq!(buffer, expected);
}

#[test]
fn clear_empties_the_buffer() {
    let mut buffer = vec![0xdeadbeefu32; 17];
    clear(&mut buffer);
    assert_eq!(buffer, vec![0u32; 17]);
}

fn compose(
    r: &Renderer,
    items: &[DockItem],
    running: &[bool],
    scales: &[u32],
    len: usize,
) -> Vec<u32> {
    // the frame put together by hand from the pieces, at rest and without drag
    let mut buffer = vec![0xffffffffu32; len];
    clear(&mut buffer);
    r.draw_background(&mut buffer, r.width, r.height);
    let layout = r.compute_layout(items, scales, None);
    for slot in &layout.slots {
        let x = (slot.x / 65536) as i64;
        if slot.is_separator {
            r.draw_separator(&mut buffer, r.width as usize, x, r.padding.top as i64, r.icon_size);
        } else {
            r.draw_placeholder(&mut buffer, r.width as usize, x, r.padding.top as i64, r.icon_size);
            if running.get(slot.index).copied().unwrap_or(false) {
                r.draw_indicator_glow(
                    &mut buffer,
                    r.width as usize,
                    x + 24,
                    r.height as i64 - 5,
                );
            }
        }
    }
    buffer
}

#[test]
fn frame_at_rest_is_background_then_items() {
    let items = vec![app("a", None), DockItem::new_separator(), app("b", None)];
    let r = renderer(&items);
    let len = (r.width * r.height) as usize;
    let running = vec![false, false, true];
    let mut buffer = vec![0x12345678u32; len];
    r.render(&mut buffer, &items, &running, None, &[], None);
    assert_eq!(buffer, compose(&r, &items, &running, &[], len));
    // again, over the frame just painted: the same frame
    let first = buffer.clone();
    r.render(&mut buffer, &items, &running, Some(1), &[], None);
    assert_eq!(buffer, first);
}

#[test]
fn frame_shows_background_placeholder_and_indicator() {
    let items = vec![app("a", None)];
    let r = renderer(&items);
    // 48 + 12 + 12 + 19 wide, 48 + 12 + 12 + 9 + 4 high
    assert_eq!((r.width, r.height), (91, 85));
    let len = (r.width * r.height) as usize;
    let mut buffer = vec![0u32; len];
    r.render(&mut buffer, &items, &[true], None, &[65536], None);
    let at = |x: usize, y: usize| buffer[y * 91 + x];
    assert_eq!(at(0, 0), 0);
    // the last row of the background, in the base colour
    assert_eq!(at(10, 84), 0xe51e1e2e);
    // four pixels below the indicator its glow lies over the background
    assert_eq!(at(45, 84), 0xe72c293f);
    // the row begins at (91 - 48) / 2 = 21.5; the placeholder's middle
    let under = at(10, 40);
    let over = rdock::color::alpha_blend(under, argb(128, 0xcb / 2, 0xa6 / 2, 0xf7 / 2));
    assert_eq!(at(45, 40), over);
    assert_eq!(at(21, 40), over);
    assert_eq!(at(20, 40), under);
    // the indicator's dot, five rows above the lower edge
    assert_eq!(at(45, 80), tinted(255));
    assert_eq!(at(48, 80), tinted(255));
    assert_ne!(at(49, 80), tinted(255));
}

#[test]
fn magnified_icon_rises_and_glows() {
    let items = vec![app("a", None), app("b", None), app("c", None)];
    let r = renderer(&items);
    let len = (r.width * r.height) as usize;
    let mut rest = vec![0u32; len];
    r.render(&mut rest, &items, &[], None, &[65536, 65536, 65536], None);
    let mut grown = vec![0u32; len];
    r.render(&mut grown, &items, &[], None, &[65536, 98304, 65536], None);
    assert_ne!(rest, grown);
    let layout = r.compute_layout(&items, &[65536, 98304, 65536], None);
    assert_eq!(layout.slots[1].width, 72 * 65536);
    // the grown icon rises by 0.5 * 48 * 1.5 = 36 rows, but not above row 2
    let x = (layout.slots[1].x / 65536) as usize;
    let w = r.width as usize;
    let colour = argb(128, 0xcb / 2, 0xa6 / 2, 0xf7 / 2);
    let glow = |buffer: &Vec<u32>, px: usize, py: usize| {
        // what lies under the placeholder at a pixel
        buffer[py * w + px]
    };
    // row 1 is above the icon, row 2 is its first row
    assert_ne!(glow(&grown, x + 36, 2), glow(&grown, x + 36, 1));
    let under = {
        let mut below = vec![0u32; len];
        clear(&mut below);
        r.draw_background(&mut below, r.width, r.height);
        r.draw_placeholder(&mut below, w, (layout.slots[0].x / 65536) as i64, 12, 48);
        r.draw_glow_scaled(&mut below, w, x as i64 + 36, 2 + 36, 72, 65536);
        below[40 * w + x + 36]
    };
    assert_eq!(grown[40 * w + x + 36], rdock::color::alpha_blend(under, colour));
}

#[test]
fn dragged_item_leaves_its_slot_and_a_mark_shows_the_drop() {
    let items = vec![app("a", None), app("b", None), app("c", None)];
    let r = renderer(&items);
    let len = (r.width * r.height) as usize;
    let drag = Some(DragState { from: 0, to: 2, cursor_x: 30 });
    let mut buffer = vec![0u32; len];
    r.render(&mut buffer, &items, &[], None, &[], drag);
    let layout = r.compute_layout(&items, &[], drag);
    assert_eq!(layout.slots.len(), 2);
    let gap = layout.gap.unwrap();
    assert_eq!(gap.position, 2);
    let mut expected = vec![0u32; len];
    r.draw_background(&mut expected, r.width, r.height);
    for slot in &layout.slots {
        r.draw_placeholder(&mut expected, r.width as usize, (slot.x / 65536) as i64, 12, 48);
    }
    r.draw_drop_indicator(&mut expected, r.width as usize, (gap.x / 65536) as i64, 12, 48);
    assert_eq!(buffer, expected);
}

#[test]
fn indicator_colour_is_the_renderers() {
    let r = renderer(&[]);
    assert_eq!(r.indicator_color, INDICATOR);
}
