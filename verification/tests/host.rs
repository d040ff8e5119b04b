use rdock::checks::{is_fullscreen_window, ScreenRect};
use rdock::icon_cache::IconCache;
use rdock::menu::{menu_entries, menu_label, MenuEntry};
use rdock::tray::tray_icon_pixels;
use std::io::Cursor;

fn png(rgba: [u8; 4]) -> Vec<u8> {
    let img = image::RgbaImage::from_pixel(4, 4, image::Rgba(rgba));
    let mut bytes = Vec::new();
    image::DynamicImage::ImageRgba8(img)
        .write_to(&mut Cursor::new(&mut bytes), image::ImageFormat::Png)
        .unwrap();
    bytes
}

#[test]
fn cache_loads_an_icon_once() {
    let mut cache = IconCache::new();
    let red = png([255, 0, 0, 255]);
    let blue = png([0, 0, 255, 255]);
    assert_eq!(cache.get_or_load("a.png", "png", &red, 8), Some(&vec![0xffff0000u32; 64]));
    // once loaded, the bytes are not looked at again
    assert_eq!(cache.get_or_load("a.png", "png", &blue, 8), Some(&vec![0xffff0000u32; 64]));
    assert_eq!(cache.get_or_load("a.png", "png", b"broken", 8), Some(&vec![0xffff0000u32; 64]));
    assert_eq!(cache.get_or_load("b.png", "png", &blue, 2), Some(&vec![0xff0000ffu32; 4]));
    // what cannot be loaded is not kept
    assert_eq!(cache.get_or_load("c.png", "png", b"broken", 8), None);
    assert_eq!(cache.get_or_load("d.png", "png", &red, 0), None);
    assert_eq!(cache.get_or_load("e.txt", "txt", &red, 8), None);
    assert!(!cache.contains("c.png"));
    assert!(!cache.contains("d.png"));
    assert!(!cache.contains("e.txt"));
    assert!(cache.contains("a.png"));
    assert!(cache.contains("b.png"));
}

fn commands(entries: &[MenuEntry]) -> Vec<u32> {
    entries
        .iter()
        .map(|e| match e {
            MenuEntry::Command(id) => *id,
            MenuEntry::Separator => 0,
            MenuEntry::SpecialSubmenu => 1,
        })
        .collect()
}

#[test]
fn menu_beside_the_items_offers_adding_and_the_general_commands() {
    let entries = menu_entries(false, false, false, false);
    assert_eq!(
        commands(&entries),
        vec![1004, 1005, 1, 0, 1006, 0, 1007, 1010, 1011, 1012, 1013, 0, 1008]
    );
}

#[test]
fn menu_on_an_item_offers_editing_and_removing() {
    let entries = menu_entries(true, false, false, false);
    assert_eq!(
        commands(&entries),
        vec![1001, 1003, 0, 1004, 1005, 1, 0, 1006, 0, 1007, 1010, 1011, 1012, 1013, 0, 1008]
    );
    // a separator cannot be edited
    let on_separator = menu_entries(true, false, true, false);
    assert_eq!(commands(&on_separator)[..3].to_vec(), vec![1003, 0, 1004]);
}

#[test]
fn menu_on_a_locked_dock_changes_nothing_but_the_lock() {
    let entries = menu_entries(true, true, false, false);
    assert_eq!(commands(&entries), vec![1006, 0, 1007, 1010, 1011, 1012, 1013, 0, 1008]);
    // the recycle bin can be emptied all the same
    let bin = menu_entries(true, true, false, true);
    assert_eq!(commands(&bin), vec![1009, 0, 1006, 0, 1007, 1010, 1011, 1012, 1013, 0, 1008]);
    let unlocked_bin = menu_entries(true, false, false, true);
    assert_eq!(commands(&unlocked_bin)[..5].to_vec(), vec![1009, 0, 1001, 1003, 0]);
    // without an item there is no bin to empty
    assert_eq!(commands(&menu_entries(false, true, true, true))[0], 1006);
}

#[test]
fn menu_commands_have_their_texts() {
    assert_eq!(menu_label(1001, false), "Edit Item...");
    assert_eq!(menu_label(1003, false), "Remove");
    assert_eq!(menu_label(1004, false), "Add Item...");
    assert_eq!(menu_label(1005, false), "Add Separator");
    assert_eq!(menu_label(1006, false), "Lock Icons");
    assert_eq!(menu_label(1006, true), "Unlock Icons");
    assert_eq!(menu_label(1007, false), "Edit Config...");
    assert_eq!(menu_label(1008, false), "Quit");
    assert_eq!(menu_label(1009, false), "Empty Recycle Bin");
    assert_eq!(menu_label(1010, false), "Save Config As...");
    assert_eq!(menu_label(1011, false), "Load Config...");
    assert_eq!(menu_label(1012, false), "Reset Settings");
    assert_eq!(menu_label(1013, false), "Reset All");
    assert_eq!(menu_label(2002, false), "Recycle Bin");
    assert_eq!(menu_label(2015, true), "Run Dialog");
    assert_eq!(menu_label(2016, false), "");
    assert_eq!(menu_label(7, false), "");
}

#[test]
fn tray_picture_shows_three_squares() {
    let rgba = tray_icon_pixels("#112233");
    assert_eq!(rgba.len(), 32 * 32 * 4);
    let at = |x: usize, y: usize| {
        let k = (y * 32 + x) * 4;
        [rgba[k], rgba[k + 1], rgba[k + 2], rgba[k + 3]]
    };
    let on = [0x11, 0x22, 0x33, 255];
    let off = [0, 0, 0, 0];
    // the squares begin at columns 2, 12 and 22 and span rows 12 to 18
    for left in [2usize, 12, 22] {
        assert_eq!(at(left + 3, 15), on);
        assert_eq!(at(left + 1, 12), on);
        assert_eq!(at(left, 13), on);
        assert_eq!(at(left + 6, 17), on);
        // the four corners are cut
        assert_eq!(at(left, 12), off);
        assert_eq!(at(left + 6, 12), off);
        assert_eq!(at(left, 18), off);
        assert_eq!(at(left + 6, 18), off);
        // between the squares and around them nothing
        assert_eq!(at(left + 7, 15), off);
        assert_eq!(at(left + 3, 11), off);
        assert_eq!(at(left + 3, 19), off);
    }
    assert_eq!(at(1, 15), off);
    assert_eq!(at(31, 15), off);
    let painted = rgba.chunks(4).filter(|p| p[3] == 255).count();
    assert_eq!(painted, 3 * (49 - 4));
}

#[test]
fn tray_picture_falls_back_to_the_indicator_colour() {
    for text in ["", "#fff", "#12345", "nonsense", "#1234567890"] {
        let rgba = tray_icon_pixels(text);
        let k = (15 * 32 + 5) * 4;
        assert_eq!(&rgba[k..k + 4], &[0xcb, 0xa6, 0xf7, 255]);
    }
    let long = tray_icon_pixels("ff112233");
    let k = (15 * 32 + 5) * 4;
    assert_eq!(&long[k..k + 4], &[0x11, 0x22, 0x33, 255]);
}

#[test]
fn fullscreen_window_covers_its_screen_without_a_frame() {
    let screen = ScreenRect { left: 0, top: 0, right: 1920, bottom: 1080 };
    let exact = ScreenRect { left: 0, top: 0, right: 1920, bottom: 1080 };
    assert!(is_fullscreen_window(exact, screen, false, false));
    assert!(is_fullscreen_window(exact, screen, true, false));
    assert!(is_fullscreen_window(exact, screen, false, true));
    // a maximized window with caption and frame is no fullscreen window
    assert!(!is_fullscreen_window(exact, screen, true, true));
    let nearly = ScreenRect { left: 5, top: 5, right: 1915, bottom: 1075 };
    assert!(is_fullscreen_window(nearly, screen, false, false));
    let short = ScreenRect { left: 6, top: 0, right: 1920, bottom: 1080 };
    assert!(!is_fullscreen_window(short, screen, false, false));
    let low = ScreenRect { left: 0, top: 0, right: 1920, bottom: 1074 };
    assert!(!is_fullscreen_window(low, screen, false, false));
    let larger = ScreenRect { left: -8, top: -8, right: 1928, bottom: 1088 };
    assert!(is_fullscreen_window(larger, screen, false, false));
    let far = ScreenRect { left: i32::MIN, top: i32::MIN, right: i32::MAX, bottom: i32::MAX };
    assert!(is_fullscreen_window(far, far, false, false));
}
