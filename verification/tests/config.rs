use rdock::config::{
    default_auto_hide, default_auto_hide_delay, default_background_color,
    default_background_opacity, default_corner_radius, default_icon_size,
    default_indicator_color, default_magnification, is_default_path, is_running, DockItem,
    DockSettings, ItemSpacing, ItemSpacingForm, Spacing, SpacingForm,
};
use rdock::editor::{args_or_whole, edited_item, parse_args};
use rdock::text::str_equal;

#[test]
fn spacing_builders() {
    let u = Spacing::uniform(5);
    assert_eq!((u.top, u.right, u.bottom, u.left), (5, 5, 5, 5));
    let s = Spacing::xy(3, 9);
    assert_eq!((s.top, s.right, s.bottom, s.left), (9, 3, 9, 3));
    assert_eq!(s.x(), 6);
    assert_eq!(s.y(), 18);
    let d = Spacing::default();
    assert_eq!((d.top, d.right, d.bottom, d.left), (12, 12, 12, 12));
    let i = ItemSpacing::uniform(4);
    assert_eq!((i.x, i.y), (4, 4));
    assert_eq!(ItemSpacing::default().x, 8);
}

#[test]
fn spacing_is_written_in_its_shortest_form() {
    assert_eq!(Spacing::uniform(7).to_form(), SpacingForm::Single(7));
    assert_eq!(Spacing::xy(0, 12).to_form(), SpacingForm::Two(0, 12));
    let s = Spacing { top: 1, right: 2, bottom: 3, left: 4 };
    assert_eq!(s.to_form(), SpacingForm::Four(1, 2, 3, 4));
    for form in [SpacingForm::Single(7), SpacingForm::Two(0, 12), SpacingForm::Four(1, 2, 3, 4)] {
        assert_eq!(Spacing::from_form(form).to_form(), form);
    }
    assert_eq!(ItemSpacing::uniform(8).to_form(), ItemSpacingForm::Single(8));
    assert_eq!(ItemSpacing { x: 8, y: 2 }.to_form(), ItemSpacingForm::Two(8, 2));
    let back = ItemSpacing::from_form(ItemSpacingForm::Two(8, 2));
    assert_eq!((back.x, back.y), (8, 2));
}

#[test]
fn defaults() {
    assert_eq!(default_icon_size(), 48);
    assert_eq!(default_background_color(), "#1e1e2e");
    assert_eq!(default_background_opacity(), 58982);
    assert_eq!(default_indicator_color(), "#cba6f7");
    assert!(default_auto_hide());
    assert_eq!(default_auto_hide_delay(), 400);
    assert_eq!(default_corner_radius(), 12);
    assert_eq!(default_magnification(), 98304);
    let s = DockSettings::default();
    assert_eq!(s.icon_size, 48);
    assert_eq!(s.magnification, 98304);
    assert!(!s.locked);
}

#[test]
fn separators_and_special_items() {
    let sep = DockItem::new_separator();
    assert_eq!(sep.name, "---");
    assert!(sep.is_separator());
    assert!(!sep.is_special());
    assert!(is_default_path(&sep.path));
    let mut named = DockItem::new_special("x".to_string(), "settings".to_string());
    assert!(named.is_special());
    assert!(!named.is_separator());
    assert!(!named.is_recycle_bin());
    named.name = "---".to_string();
    assert!(named.is_separator());
    let bin = DockItem::new_special("Bin".to_string(), "recycle_bin".to_string());
    assert!(bin.is_recycle_bin());
    assert!(!is_default_path("C:\\x.exe"));
}

#[test]
fn running_programs_are_found_whatever_the_letter_case() {
    let running = vec!["C:\\Program Files\\App\\app.EXE".to_string(), "D:\\b.exe".to_string()];
    assert!(is_running("c:\\program files\\app\\APP.exe", &running));
    assert!(is_running("D:\\b.exe", &running));
    assert!(!is_running("D:\\c.exe", &running));
    assert!(!is_running("", &running));
    assert!(!is_running("D:\\b.exe", &Vec::new()));
}

#[test]
fn text_equality() {
    assert!(str_equal("", ""));
    assert!(str_equal("abc", "abc"));
    assert!(!str_equal("abc", "abd"));
    assert!(!str_equal("abc", "ab"));
    assert!(str_equal("\u{e9}t\u{e9}", "\u{e9}t\u{e9}"));
}

#[test]
fn arguments_are_split_like_a_shell_would() {
    assert_eq!(parse_args("--flag \"two words\" 'x y' z".to_string()), vec!["--flag", "two words", "x y", "z"]);
    assert_eq!(parse_args("one".to_string()), vec!["one"]);
    assert_eq!(parse_args(String::new()), Vec::<String>::new());
    assert_eq!(parse_args("   ".to_string()), Vec::<String>::new());
}

#[test]
fn arguments_that_cannot_be_split_stay_whole() {
    assert_eq!(parse_args("--name \"open".to_string()), vec!["--name \"open"]);
    assert_eq!(args_or_whole("a b".to_string(), None), vec!["a b"]);
    assert_eq!(
        args_or_whole("a b".to_string(), Some(vec!["a".to_string(), "b".to_string()])),
        vec!["a", "b"]
    );
    assert_eq!(args_or_whole(String::new(), Some(vec!["a".to_string()])), Vec::<String>::new());
}

#[test]
fn editor_fields_become_an_item() {
    let item = edited_item(
        "Editor".to_string(),
        "C:\\edit.exe".to_string(),
        "C:\\edit.ico".to_string(),
        "-n file.txt".to_string(),
        0,
    );
    assert_eq!(item.name, "Editor");
    assert_eq!(item.path, "C:\\edit.exe");
    assert_eq!(item.icon.as_deref(), Some("C:\\edit.ico"));
    assert_eq!(item.args, vec!["-n", "file.txt"]);
    assert!(!item.separator);
    assert!(item.special.is_none());
}

#[test]
fn editor_fills_in_what_is_left_empty() {
    let item = edited_item(String::new(), String::new(), String::new(), String::new(), 3);
    assert_eq!(item.name, "Unnamed");
    assert!(item.icon.is_none());
    assert!(item.args.is_empty());
    // entry 3 of the list is the third system action
    assert_eq!(item.special.as_deref(), Some("recycle_bin"));
    let last = edited_item(String::new(), String::new(), String::new(), String::new(), 16);
    assert_eq!(last.special.as_deref(), Some("run_dialog"));
    let none = edited_item(String::new(), String::new(), String::new(), String::new(), 17);
    assert!(none.special.is_none());
    let negative = edited_item(String::new(), String::new(), String::new(), String::new(), -1);
    assert!(negative.special.is_none());
}
