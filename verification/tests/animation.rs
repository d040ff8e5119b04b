use rdock::config::{DockItem, DockSettings, ItemSpacing, Spacing};
use rdock::dock::{Cadence, DockApp, Placement};
use rdock::events::{Intent, PointerEvent};
use rdock::fixed::ONE;
use rdock::renderer::Renderer;
use rdock::wave::{ease_position, ease_scale, falloff_at, wave_scale};


fn app(name: &str) -> DockItem {
    DockItem {
        name: name.to_string(),
        path: format!("C:\\apps\\{}.exe", name),
        icon: None,
        args: Vec::new(),
        separator: false,
        special: None,
    }
}

fn settings() -> DockSettings {
    let mut s = DockSettings::default();
    s.icon_size = 48;
    s.spacing = ItemSpacing::uniform(12);
    s.padding = Spacing::uniform(0);
    s.magnification = 98304;
    s.auto_hide = true;
    s.auto_hide_delay_ms = 300;
    s.auto_show_delay_ms = 250;
    s
}

fn items(n: usize) -> Vec<DockItem> {
    (0..n).map(|i| app(&format!("app{}", i))).collect()
}

fn session(n: usize) -> DockApp {
    let list = items(n);
    let renderer = Renderer::new(&settings(), &list).unwrap();
    let mut dock = DockApp::new(settings(), list, 10_000);
    dock.resumed(1920, 1080, renderer);
    dock
}

#[test]
fn falloff_is_one_at_the_pointer_and_nothing_at_the_radius() {
    assert_eq!(falloff_at(0), 65536);
    assert_eq!(falloff_at(32768), 32768);
    assert_eq!(falloff_at(65536), 0);
    // at 60 / 168 and 120 / 168 of the radius
    assert_eq!(falloff_at(23405), 47003);
    assert_eq!(falloff_at(46811), 12365);
}

#[test]
fn falloff_never_grows() {
    let mut last = falloff_at(0);
    let mut t = 0u32;
    while t <= 65536 {
        let f = falloff_at(t);
        assert!(f <= last);
        last = f;
        t += 97;
    }
}

#[test]
fn falloff_stays_close_to_the_raised_cosine() {
    let mut t = 0u32;
    while t <= 65536 {
        let exact = (1.0 + (std::f64::consts::PI * t as f64 / 65536.0).cos()) / 2.0;
        let got = falloff_at(t) as f64 / 65536.0;
        assert!((exact - got).abs() < 0.001);
        t += 64;
    }
}

#[test]
fn wave_scale_at_given_distances() {
    let radius = 48u64 * 7 * 32768;
    assert_eq!(wave_scale(0, radius, 98304), 98304);
    assert_eq!(wave_scale(60 * 65536, radius, 98304), 89037);
    assert_eq!(wave_scale(120 * 65536, radius, 98304), 71718);
    assert_eq!(wave_scale(168 * 65536, radius, 98304), 65536);
    assert_eq!(wave_scale(9999 * 65536, radius, 98304), 65536);
    // no magnification: every icon stays at its own size
    assert_eq!(wave_scale(60 * 65536, radius, 65536), 65536);
    // without a radius nothing grows
    assert_eq!(wave_scale(0, 0, 98304), 65536);
}

/// A renderer whose row begins on a whole pixel, so that the middles of
/// the slots are whole pixels too: at 34, 94, 154 and so on.
fn even_renderer(list: &[DockItem]) -> Renderer {
    let mut s = settings();
    s.padding = Spacing { top: 0, right: 0, bottom: 0, left: 1 };
    Renderer::new(&s, list).unwrap()
}

#[test]
fn scenario_pointer_on_the_middle_of_the_third_of_five() {
    let list = items(5);
    let r = Renderer::new(&settings(), &list).unwrap();
    // the surface is 307 wide and the row 288: the slots have their
    // middles at 33.5, 93.5, 153.5, 213.5 and 273.5
    let at = |i: usize| r.target_scale(&list, true, 153, 98304, i);
    // half a pixel from the middle the icon is within a thousandth of the
    // largest scale
    assert_eq!(at(2), 98303);
    assert!((at(2) as f64 / 65536.0 - 1.5).abs() < 0.001);
    assert_eq!(at(1), 89174);
    assert_eq!(at(3), 88900);
    // the outer icons are 120 pixels away, within the radius of 168
    assert_eq!(at(0), 71838);
    assert_eq!(at(4), 71600);
    // a scale that belongs to no item goes to 1
    assert_eq!(at(5), 65536);
}

#[test]
fn pointer_exactly_on_a_middle_gives_the_largest_scale() {
    let list = items(5);
    let r = even_renderer(&list);
    assert_eq!(r.width, 308);
    assert_eq!(r.rest_centers(&list), vec![34 * 65536, 94 * 65536, 154 * 65536, 214 * 65536, 274 * 65536]);
    let at = |i: usize| r.target_scale(&list, true, 154, 98304, i);
    assert_eq!(at(2), 98304);
    assert_eq!(at(1), 89037);
    assert_eq!(at(3), 89037);
    assert_eq!(at(0), 71718);
    assert_eq!(at(4), 71718);
    assert_eq!(r.target_scales(&list, true, 154, 98304, 6), vec![71718, 89037, 98304, 89037, 71718, 65536]);
}

#[test]
fn scenario_icons_beyond_the_radius_stay_at_their_size() {
    let list = items(7);
    let r = even_renderer(&list);
    // pointer on the middle of the fourth icon, at 34 + 3 * 60
    assert_eq!(r.target_scale(&list, true, 214, 98304, 3), 98304);
    assert_eq!(r.target_scale(&list, true, 214, 98304, 0), 65536);
    assert_eq!(r.target_scale(&list, true, 214, 98304, 6), 65536);
}

#[test]
fn wave_follows_the_slots_of_the_centred_row() {
    // in a surface wider than the row the slots begin further right
    let list = items(5);
    let mut r = Renderer::new(&settings(), &list).unwrap();
    r.width = 648;
    // the row begins at 180; the middles are at 204, 264, 324, 384, 444
    let at = |i: usize| r.target_scale(&list, true, 204, 98304, i);
    assert_eq!(at(0), 98304);
    assert_eq!(at(1), 89037);
    assert_eq!(at(2), 71718);
    // 180 pixels away, beyond the radius
    assert_eq!(at(3), 65536);
    assert_eq!(at(4), 65536);
}

#[test]
fn wave_is_symmetric_and_falls_with_the_distance() {
    let list = items(9);
    let r = even_renderer(&list);
    let center = 34 + 4 * 60;
    let mut last = r.target_scale(&list, true, center, 98304, 4);
    assert_eq!(last, 98304);
    for k in 1..=4usize {
        let left = r.target_scale(&list, true, center, 98304, 4 - k);
        let right = r.target_scale(&list, true, center, 98304, 4 + k);
        assert_eq!(left, right);
        assert!(left <= last);
        last = left;
    }
    assert_eq!(last, 65536);
}

#[test]
fn wave_falls_on_each_side_of_a_row_with_separators() {
    let mut list = items(6);
    list.insert(2, DockItem::new_separator());
    let r = Renderer::new(&settings(), &list).unwrap();
    let centers = r.rest_centers(&list);
    for k in 1..centers.len() {
        assert!(centers[k - 1] < centers[k]);
    }
    let cursor = (centers[3] / 65536) as i32;
    let scales = r.target_scales(&list, true, cursor, 98304, 7);
    for k in 0..3 {
        assert!(scales[k] <= scales[k + 1]);
    }
    for k in 3..6 {
        assert!(scales[k] >= scales[k + 1]);
    }
}

#[test]
fn no_wave_without_a_pointer() {
    let list = items(5);
    let r = Renderer::new(&settings(), &list).unwrap();
    for i in 0..5 {
        assert_eq!(r.target_scale(&list, false, 153, 98304, i), 65536);
    }
}

#[test]
fn scale_moves_three_tenths_of_the_way_each_step() {
    assert_eq!(ease_scale(65536, 98304), (75366, true));
    assert_eq!(ease_scale(75366, 98304), (82247, true));
    assert_eq!(ease_scale(82247, 98304), (87064, true));
    assert_eq!(ease_scale(98304, 65536), (88474, true));
}

#[test]
fn scale_snaps_to_its_target_within_a_thousandth() {
    assert_eq!(ease_scale(98304 - 65, 98304), (98304, false));
    assert_eq!(ease_scale(98304 + 65, 98304), (98304, false));
    assert_eq!(ease_scale(98304 - 66, 98304), (98304 - 66 + 19, true));
    assert_eq!(ease_scale(98304, 98304), (98304, false));
}

#[test]
fn scale_reaches_its_target() {
    let mut scale = 65536u32;
    let mut steps = 0;
    loop {
        let (next, moving) = ease_scale(scale, 98304);
        scale = next;
        steps += 1;
        if !moving {
            break;
        }
    }
    assert_eq!(scale, 98304);
    assert_eq!(steps, 19);
}

#[test]
fn position_moves_fifteen_hundredths_of_the_way_each_step() {
    assert_eq!(ease_position(1029 * ONE, 1019 * ONE), (67338240, true));
    assert_eq!(ease_position(67338240, 1019 * ONE), (67254682, true));
    assert_eq!(ease_position(0, 100 * ONE), (15 * ONE, true));
}

#[test]
fn position_rests_within_half_a_pixel() {
    assert_eq!(ease_position(1019 * ONE + 32768, 1019 * ONE), (1019 * ONE + 32768, false));
    assert_eq!(ease_position(1019 * ONE - 32768, 1019 * ONE), (1019 * ONE - 32768, false));
    let (next, moved) = ease_position(1019 * ONE + 32769, 1019 * ONE);
    assert!(moved);
    assert_eq!(next, 1019 * ONE + 32769 - 4915);
}

#[test]
fn session_starts_on_the_lower_screen_edge() {
    let list = items(5);
    let renderer = Renderer::new(&settings(), &list).unwrap();
    let mut dock = DockApp::new(settings(), list, 10_000);
    assert_eq!(dock.icon_scales, vec![65536; 5]);
    assert_eq!(dock.pointer.cursor_x, -1000);
    assert_eq!(dock.schedule.last_process_check, 8_000);
    let start = dock.resumed(1920, 1080, renderer);
    // (1920 - 307) / 2 and 1080 - 61
    assert_eq!(start.placement, Placement { x: 806, y: 1019 });
    assert!(!start.hide_taskbar);
    assert_eq!(dock.motion.dock_y_visible, 1019 * ONE);
    assert_eq!(dock.motion.dock_y_hidden, 1075 * ONE);
    assert_eq!(dock.motion.dock_y_target, 1019 * ONE);
    assert_eq!(dock.motion.dock_y_current, 1029 * ONE);
    assert_eq!(dock.running_states, vec![false; 5]);
}

#[test]
fn vertical_offset_pushes_the_dock_into_the_edge() {
    let list = items(5);
    let mut s = settings();
    s.negative_vertical_offset = 8;
    s.hide_windows_taskbar = true;
    let renderer = Renderer::new(&s, &list).unwrap();
    let mut dock = DockApp::new(s, list, 0);
    let start = dock.resumed(1920, 1080, renderer);
    assert_eq!(start.placement, Placement { x: 806, y: 1027 });
    assert!(start.hide_taskbar);
    assert!(dock.taskbar_hidden);
    assert!(dock.exiting());
    assert!(!dock.taskbar_hidden);
    assert!(!dock.exiting());
}

#[test]
fn dock_rises_into_place_and_comes_to_rest() {
    let mut dock = session(5);
    let first = dock.update_animations();
    assert!(first.moved);
    assert!(first.animating);
    assert_eq!(dock.motion.dock_y_current, 67338240);
    assert_eq!(dock.window_position(), Some(Placement { x: 806, y: 1027 }));
    let mut frames = 1;
    while dock.update_animations().animating {
        frames += 1;
        assert!(frames < 200);
    }
    assert!((dock.motion.dock_y_current - 1019 * ONE).abs() <= 32768);
    assert!(!dock.is_animating());
    assert!(!dock.needs_another_frame());
}

#[test]
fn icons_grow_under_the_pointer_and_shrink_when_it_leaves() {
    let mut dock = session(5);
    while dock.update_animations().animating {}
    dock.window_event(PointerEvent::Moved { x: 144, y: 20 }, 20_000);
    let step = dock.update_animations();
    assert!(step.animating);
    assert!(!step.moved);
    // the third slot has its middle at 153.5: its icon heads for 98043
    assert_eq!(dock.icon_scales[2], 75288);
    let mut frames = 0;
    while dock.update_animations().animating {
        frames += 1;
        assert!(frames < 200);
    }
    assert_eq!(dock.icon_scales, vec![74126, 91515, 98043, 86333, 69623]);
    assert!(dock.is_animating());
    dock.window_event(PointerEvent::Left, 21_000);
    while dock.update_animations().animating {}
    assert_eq!(dock.icon_scales, vec![65536; 5]);
}

#[test]
fn scenario_dock_hides_after_the_delay() {
    let mut dock = session(5);
    while dock.update_animations().animating {}
    assert_eq!(dock.motion.dock_y_target, dock.motion.dock_y_visible);
    dock.window_event(PointerEvent::Moved { x: 144, y: 20 }, 20_000);
    let intent = dock.window_event(PointerEvent::Left, 21_000);
    assert_eq!(intent, Intent::HideTooltip);
    assert_eq!(dock.motion.hide_timer, Some(21_000));
    dock.check_hide(21_299);
    assert_eq!(dock.motion.dock_y_target, dock.motion.dock_y_visible);
    assert_eq!(dock.motion.hide_timer, Some(21_000));
    dock.check_hide(21_300);
    assert_eq!(dock.motion.dock_y_target, dock.motion.dock_y_hidden);
    assert_eq!(dock.motion.hide_timer, None);
    // and it slides there
    let mut frames = 0;
    while dock.update_animations().animating {
        frames += 1;
        assert!(frames < 200);
    }
    assert!((dock.motion.dock_y_current - 1075 * ONE).abs() <= 32768);
}

#[test]
fn dock_that_never_hides_arms_no_timer() {
    let list = items(3);
    let mut s = settings();
    s.auto_hide = false;
    let renderer = Renderer::new(&s, &list).unwrap();
    let mut dock = DockApp::new(s, list, 0);
    dock.resumed(1920, 1080, renderer);
    while dock.update_animations().animating {}
    dock.window_event(PointerEvent::Left, 5_000);
    assert_eq!(dock.motion.hide_timer, None);
    dock.start_hide(5_000);
    assert_eq!(dock.motion.hide_timer, None);
    dock.check_hide(99_000);
    assert_eq!(dock.motion.dock_y_target, dock.motion.dock_y_visible);
}

#[test]
fn moving_the_pointer_cancels_hiding() {
    let mut dock = session(5);
    while dock.update_animations().animating {}
    dock.window_event(PointerEvent::Left, 21_000);
    assert_eq!(dock.motion.hide_timer, Some(21_000));
    dock.window_event(PointerEvent::Moved { x: 10, y: 10 }, 21_100);
    assert_eq!(dock.motion.hide_timer, None);
    dock.check_hide(30_000);
    assert_eq!(dock.motion.dock_y_target, dock.motion.dock_y_visible);
}

#[test]
fn leaving_a_dock_that_is_not_in_place_arms_no_timer() {
    let mut dock = session(5);
    // still ten pixels below its place
    dock.window_event(PointerEvent::Left, 21_000);
    assert_eq!(dock.motion.hide_timer, None);
}

#[test]
fn pointer_at_the_screen_edge_calls_the_dock_after_the_delay() {
    let mut dock = session(5);
    while dock.update_animations().animating {}
    dock.force_hide();
    assert_eq!(dock.motion.dock_y_target, dock.motion.dock_y_hidden);
    // too early: the polling interval has not passed
    assert!(!dock.check_mouse_position(10_010, Some((500, 1079)), Some((806, 1019))));
    assert_eq!(dock.motion.show_timer, None);
    assert!(dock.check_mouse_position(10_050, Some((500, 1079)), Some((806, 1075))));
    assert_eq!(dock.motion.show_timer, Some(10_050));
    dock.check_show(10_299);
    assert_eq!(dock.motion.dock_y_target, dock.motion.dock_y_hidden);
    dock.check_show(10_300);
    assert_eq!(dock.motion.dock_y_target, dock.motion.dock_y_visible);
    assert_eq!(dock.motion.show_timer, None);
}

#[test]
fn pointer_leaving_the_edge_stops_the_show_timer() {
    let mut dock = session(5);
    while dock.update_animations().animating {}
    dock.force_hide();
    assert!(dock.check_mouse_position(10_050, Some((500, 1078)), Some((806, 1075))));
    assert_eq!(dock.motion.show_timer, Some(10_050));
    assert!(!dock.check_mouse_position(10_100, Some((500, 900)), Some((806, 1075))));
    assert_eq!(dock.motion.show_timer, None);
}

#[test]
fn no_show_delay_shows_at_once() {
    let list = items(3);
    let mut s = settings();
    s.auto_show_delay_ms = 0;
    let renderer = Renderer::new(&s, &list).unwrap();
    let mut dock = DockApp::new(s, list, 0);
    dock.resumed(1920, 1080, renderer);
    dock.force_hide();
    assert!(dock.check_mouse_position(100, Some((500, 1079)), None));
    assert_eq!(dock.motion.dock_y_target, dock.motion.dock_y_visible);
    assert_eq!(dock.motion.show_timer, None);
}

#[test]
fn pointer_away_from_a_visible_dock_arms_the_hide_timer() {
    let mut dock = session(5);
    while dock.update_animations().animating {}
    assert!(!dock.check_mouse_position(10_060, Some((100, 500)), Some((806, 1019))));
    assert_eq!(dock.motion.hide_timer, Some(10_060));
    assert_eq!(dock.schedule.last_mouse_poll, 10_060);
}

#[test]
fn pointer_over_the_dock_arms_nothing() {
    let mut dock = session(5);
    while dock.update_animations().animating {}
    assert!(!dock.check_mouse_position(10_060, Some((900, 1030)), Some((806, 1019))));
    assert_eq!(dock.motion.hide_timer, None);
}

#[test]
fn fullscreen_window_hides_the_dock_at_once() {
    let list = items(3);
    let mut s = settings();
    s.hide_in_fullscreen = true;
    let renderer = Renderer::new(&s, &list).unwrap();
    let mut dock = DockApp::new(s, list, 0);
    dock.resumed(1920, 1080, renderer);
    assert!(!dock.fullscreen_check_due(499));
    assert!(dock.fullscreen_check_due(500));
    dock.check_fullscreen(499, true);
    assert!(!dock.fullscreen_active);
    dock.check_fullscreen(500, true);
    assert!(dock.fullscreen_active);
    assert_eq!(dock.motion.dock_y_target, dock.motion.dock_y_hidden);
    // while it is up, the pointer does not call the dock
    assert!(!dock.check_mouse_position(2_000, Some((500, 1079)), None));
    assert_eq!(dock.motion.dock_y_target, dock.motion.dock_y_hidden);
    // staying up does not hide a dock that was shown meanwhile
    dock.show_dock();
    dock.check_fullscreen(1_000, true);
    assert_eq!(dock.motion.dock_y_target, dock.motion.dock_y_visible);
}

#[test]
fn cadence_follows_what_is_going_on() {
    let mut dock = session(5);
    // rising into place
    assert_eq!(dock.about_to_wait(10_000), Cadence { redraw: true, wait_ms: 16 });
    while dock.update_animations().animating {}
    // the first lookup of the running programs is due
    assert_eq!(dock.about_to_wait(10_001), Cadence { redraw: true, wait_ms: 50 });
    dock.update_running_states(10_001, &Vec::new());
    assert_eq!(dock.about_to_wait(10_002), Cadence { redraw: false, wait_ms: 50 });
    // the pointer's place is looked up every 50 ms
    assert_eq!(dock.about_to_wait(10_050), Cadence { redraw: true, wait_ms: 50 });
}

#[test]
fn taskbar_is_hidden_again_once_a_second() {
    let list = items(3);
    let mut s = settings();
    s.hide_windows_taskbar = true;
    let renderer = Renderer::new(&s, &list).unwrap();
    let mut dock = DockApp::new(s, list, 0);
    dock.resumed(1920, 1080, renderer);
    assert!(!dock.check_taskbar_visibility(999));
    assert!(dock.check_taskbar_visibility(1_000));
    assert!(!dock.check_taskbar_visibility(1_500));
    assert!(dock.check_taskbar_visibility(2_000));
}

#[test]
fn show_at_cursor_centres_the_dock_on_the_pointer() {
    let mut dock = session(5);
    assert_eq!(dock.show_dock_at_cursor(Some(1000), true), Some(Placement { x: 847, y: 1019 }));
    assert_eq!(dock.motion.dock_y_current, 1019 * ONE);
    assert_eq!(dock.show_dock_at_cursor(Some(10), true), Some(Placement { x: 0, y: 1019 }));
    assert_eq!(dock.show_dock_at_cursor(Some(1919), true), Some(Placement { x: 1613, y: 1019 }));
    assert_eq!(dock.show_dock_at_cursor(None, true), None);
    assert_eq!(dock.show_dock_at_cursor(Some(5), false), None);
}

#[test]
fn tick_looks_at_the_timers_before_it_moves_the_dock() {
    let mut dock = session(5);
    while dock.update_animations().animating {}
    dock.window_event(PointerEvent::Moved { x: 144, y: 20 }, 20_000);
    dock.window_event(PointerEvent::Left, 21_000);
    while dock.tick(21_100).step.animating {}
    assert_eq!(dock.motion.dock_y_target, dock.motion.dock_y_visible);
    // the tick on which the delay has passed already moves toward hiding
    let tick = dock.tick(21_300);
    assert!(tick.step.moved);
    assert!(tick.step.animating);
    assert!(!tick.hide_taskbar);
    assert_eq!(dock.motion.dock_y_target, dock.motion.dock_y_hidden);
    assert_eq!(dock.motion.hide_timer, None);
    assert!(dock.motion.dock_y_current > dock.motion.dock_y_visible);
}

#[test]
fn redraw_paints_the_frame_of_the_session() {
    let mut dock = session(3);
    while dock.tick(10_000).step.animating {}
    let renderer = dock.renderer.as_ref().unwrap();
    let len = (renderer.width * renderer.height) as usize;
    let mut expected = vec![0u32; len];
    renderer.render(&mut expected, &dock.items, &dock.running_states, None, &dock.icon_scales, None);
    let mut buffer = vec![0xffu32; len];
    assert!(dock.redraw(&mut buffer));
    assert_eq!(buffer, expected);
    // without a renderer nothing is painted
    let bare = DockApp::new(settings(), items(3), 0);
    let mut untouched = vec![7u32; 10];
    assert!(!bare.redraw(&mut untouched));
    assert_eq!(untouched, vec![7u32; 10]);
}

#[test]
fn a_scale_that_has_not_settled_keeps_the_frames_coming() {
    let mut dock = session(1);
    while dock.update_animations().animating {}
    assert!(!dock.is_animating());
    // seven thousandths above its target of 1
    dock.icon_scales[0] = 66000;
    assert!(dock.is_animating());
    assert!(dock.needs_another_frame());
    // within a thousandth it counts as settled
    dock.icon_scales[0] = 65536 + 65;
    assert!(!dock.is_animating());
    dock.icon_scales[0] = 65536 + 66;
    assert!(dock.is_animating());
    // without a renderer no scale is heading anywhere
    let mut bare = DockApp::new(settings(), items(1), 10_000);
    bare.icon_scales[0] = 66000;
    assert!(!bare.is_animating());
}
