use rdock::codec::{ImageKind, ResizeFilter, RgbaImage};
use rdock::config::{DockItem, DockSettings};
use rdock::icon::{
    best_entry, eq_ignoring_case, finish_icon, image_kind, load_icon, load_source, pack_pixels,
    pick_filter, sharpen_image, IconError, IconFile, SHARPEN_STRENGTH,
};
use rdock::icon_cache::IconCache;
use rdock::renderer::Renderer;
use std::io::Cursor;

fn flat(width: u32, height: u32, rgba: [u8; 4]) -> image::RgbaImage {
    image::RgbaImage::from_pixel(width, height, image::Rgba(rgba))
}

fn encoded(img: image::RgbaImage, format: image::ImageFormat) -> Vec<u8> {
    let mut bytes = Vec::new();
    image::DynamicImage::ImageRgba8(img).write_to(&mut Cursor::new(&mut bytes), format).unwrap();
    bytes
}

fn png(width: u32, height: u32, rgba: [u8; 4]) -> Vec<u8> {
    encoded(flat(width, height, rgba), image::ImageFormat::Png)
}

fn ico_file(entries: &[(u32, u32, [u8; 4])]) -> Vec<u8> {
    let mut dir = ico::IconDir::new(ico::ResourceType::Icon);
    for (w, h, rgba) in entries {
        let data: Vec<u8> = rgba.iter().copied().cycle().take((w * h * 4) as usize).collect();
        let image = ico::IconImage::from_rgba_data(*w, *h, data);
        dir.add_entry(ico::IconDirEntry::encode(&image).unwrap());
    }
    let mut bytes = Vec::new();
    dir.write(&mut bytes).unwrap();
    bytes
}

#[test]
fn extensions_name_formats_whatever_the_letter_case() {
    assert_eq!(image_kind("png"), Some(ImageKind::Png));
    assert_eq!(image_kind("APNG"), Some(ImageKind::Png));
    assert_eq!(image_kind("jpg"), Some(ImageKind::Jpeg));
    assert_eq!(image_kind("Jpeg"), Some(ImageKind::Jpeg));
    assert_eq!(image_kind("jfif"), Some(ImageKind::Jpeg));
    assert_eq!(image_kind("GIF"), Some(ImageKind::Gif));
    assert_eq!(image_kind("bmp"), Some(ImageKind::Bmp));
    assert_eq!(image_kind("IcO"), Some(ImageKind::Ico));
    assert_eq!(image_kind("tiff"), None);
    assert_eq!(image_kind(""), None);
    assert_eq!(image_kind("pngx"), None);
    assert!(eq_ignoring_case("Hello", "hELLO"));
    assert!(!eq_ignoring_case("Hello", "Hallo"));
    assert!(!eq_ignoring_case("a", "ab"));
    assert!(!eq_ignoring_case("[", "{"));
}

#[test]
fn richest_entry_is_the_last_of_the_largest() {
    assert_eq!(best_entry(&vec![]), None);
    assert_eq!(best_entry(&vec![(16, 16)]), Some(0));
    assert_eq!(best_entry(&vec![(16, 16), (256, 256), (32, 32)]), Some(1));
    assert_eq!(best_entry(&vec![(48, 48), (16, 16), (48, 48), (32, 32)]), Some(2));
    // area decides, not the width
    assert_eq!(best_entry(&vec![(100, 1), (20, 20)]), Some(1));
    assert_eq!(best_entry(&vec![(u32::MAX, u32::MAX), (1, 1)]), Some(0));
}

#[test]
fn enlarging_takes_the_sharp_filter() {
    assert_eq!(pick_filter(32, 32, 384), ResizeFilter::CatmullRom);
    assert_eq!(pick_filter(512, 100, 384), ResizeFilter::CatmullRom);
    assert_eq!(pick_filter(384, 384, 384), ResizeFilter::Lanczos3);
    assert_eq!(pick_filter(1024, 512, 384), ResizeFilter::Lanczos3);
}

#[test]
fn flat_png_loads_as_a_flat_square() {
    for (side, size) in [(8u32, 32u32), (64, 32), (32, 32)] {
        let bytes = png(side, side, [10, 20, 30, 255]);
        let pixels = load_icon(&bytes, "png", size).unwrap();
        assert_eq!(pixels.len(), (size * size) as usize);
        assert!(pixels.iter().all(|p| *p == 0xff0a141e));
    }
}

#[test]
fn picture_keeps_its_layout_when_resized() {
    // left half red, right half blue
    let mut img = flat(16, 16, [255, 0, 0, 255]);
    for y in 0..16 {
        for x in 8..16 {
            img.put_pixel(x, y, image::Rgba([0, 0, 255, 255]));
        }
    }
    let bytes = encoded(img, image::ImageFormat::Png);
    let pixels = load_icon(&bytes, "PNG", 64).unwrap();
    assert_eq!(pixels.len(), 64 * 64);
    assert_eq!(pixels[32 * 64 + 4], 0xffff0000);
    assert_eq!(pixels[32 * 64 + 60], 0xff0000ff);
}

#[test]
fn icon_file_gives_its_richest_entry() {
    let bytes = ico_file(&[
        (16, 16, [255, 0, 0, 255]),
        (32, 32, [0, 255, 0, 255]),
        (24, 24, [0, 0, 255, 255]),
    ]);
    let source = load_source(&bytes, "ico").unwrap();
    assert_eq!((source.width, source.height), (32, 32));
    assert_eq!(source.data.len(), 32 * 32 * 4);
    assert_eq!(&source.data[0..4], &[0, 255, 0, 255]);
    let pixels = load_icon(&bytes, "ICO", 48).unwrap();
    assert_eq!(pixels.len(), 48 * 48);
    assert!(pixels.iter().all(|p| *p == 0xff00ff00));
}

#[test]
fn of_equal_entries_the_last_is_taken() {
    let bytes = ico_file(&[(16, 16, [255, 0, 0, 255]), (16, 16, [0, 0, 255, 255])]);
    let source = load_source(&bytes, "ico").unwrap();
    assert_eq!(&source.data[0..4], &[0, 0, 255, 255]);
}

#[test]
fn other_formats_load_by_their_extension() {
    let bmp = encoded(flat(4, 4, [1, 2, 3, 255]), image::ImageFormat::Bmp);
    let source = load_source(&bmp, "bmp").unwrap();
    assert_eq!((source.width, source.height), (4, 4));
    assert_eq!(&source.data[0..4], &[1, 2, 3, 255]);
    // the extension decides, not the content
    assert_eq!(load_source(&bmp, "png").unwrap_err(), IconError::Undecodable);
}

#[test]
fn what_cannot_be_loaded_is_refused() {
    let bytes = png(8, 8, [1, 2, 3, 255]);
    assert_eq!(load_icon(&bytes, "png", 0).unwrap_err(), IconError::BadSize);
    assert_eq!(load_icon(&bytes, "xyz", 32).unwrap_err(), IconError::UnknownFormat);
    assert_eq!(load_icon(&bytes, "", 32).unwrap_err(), IconError::UnknownFormat);
    assert_eq!(load_icon(&bytes, "ico", 32).unwrap_err(), IconError::Undecodable);
    assert_eq!(load_icon(b"not an image", "png", 32).unwrap_err(), IconError::Undecodable);
    assert_eq!(load_icon(&[], "ico", 32).unwrap_err(), IconError::Undecodable);
    assert_eq!(load_icon(&bytes[..20], "png", 32).unwrap_err(), IconError::Undecodable);
}

#[test]
fn sharpening_raises_what_stands_out() {
    // blue 50 everywhere, 100 in the middle of a 3 by 3 image
    let mut data = Vec::new();
    for i in 0..9 {
        let blue = if i == 4 { 100 } else { 50 };
        data.extend_from_slice(&[0, 0, blue, 255]);
    }
    let out = sharpen_image(RgbaImage { width: 3, height: 3, data: data.clone() }, SHARPEN_STRENGTH);
    assert_eq!((out.width, out.height), (3, 3));
    // (100 * (65536 + 4 * 19661) - 19661 * 200) / 65536 = 160
    assert_eq!(&out.data[16..20], &[0, 0, 160, 255]);
    for i in [0usize, 1, 2, 3, 5, 6, 7, 8] {
        assert_eq!(&out.data[4 * i..4 * i + 4], &data[4 * i..4 * i + 4]);
    }
}

#[test]
fn sharpening_is_held_to_eight_bits() {
    let mut data = Vec::new();
    for i in 0..9 {
        let (r, g) = if i == 4 { (250, 5) } else { (0, 255) };
        data.extend_from_slice(&[r, g, 7, 255]);
    }
    let out = sharpen_image(RgbaImage { width: 3, height: 3, data }, SHARPEN_STRENGTH);
    assert_eq!(&out.data[16..20], &[255, 0, 7, 255]);
}

#[test]
fn sharpening_leaves_flat_and_transparent_pixels() {
    let flat: Vec<u8> = [9u8, 99, 199, 255].iter().copied().cycle().take(5 * 4 * 4).collect();
    let out = sharpen_image(RgbaImage { width: 5, height: 4, data: flat.clone() }, SHARPEN_STRENGTH);
    assert_eq!(out.data, flat);
    let mut data = Vec::new();
    for i in 0..9 {
        let a = if i == 4 { 0 } else { 255 };
        data.extend_from_slice(&[10 * i as u8, 0, 0, a]);
    }
    let out = sharpen_image(RgbaImage { width: 3, height: 3, data: data.clone() }, 65536);
    assert_eq!(out.data, data);
    let none = sharpen_image(RgbaImage { width: 0, height: 0, data: Vec::new() }, 65536);
    assert!(none.data.is_empty());
    let line = sharpen_image(RgbaImage { width: 1, height: 3, data: vec![1; 12] }, 65536);
    assert_eq!(line.data, vec![1; 12]);
}

#[test]
fn pixels_are_packed_with_alpha_first() {
    assert_eq!(pack_pixels(&vec![1, 2, 3, 4, 0xaa, 0xbb, 0xcc, 0xdd]), vec![0x04010203, 0xddaabbcc]);
    assert_eq!(pack_pixels(&vec![]), Vec::<u32>::new());
    // bytes that make no whole pixel are left out
    assert_eq!(pack_pixels(&vec![1, 2, 3, 4, 5, 6]), vec![0x04010203]);
}

#[test]
fn finishing_sharpens_and_packs() {
    let data: Vec<u8> = [10u8, 20, 30, 255].iter().copied().cycle().take(4 * 4 * 4).collect();
    assert_eq!(finish_icon(data, 4), vec![0xff0a141e; 16]);
}

#[test]
fn cache_keeps_one_buffer_per_path() {
    let mut cache = IconCache::new();
    assert!(cache.get("a.png").is_none());
    assert!(!cache.contains("a.png"));
    cache.insert("a.png".to_string(), vec![1, 2, 3]);
    cache.insert("b.png".to_string(), vec![4]);
    assert_eq!(cache.get("a.png"), Some(&vec![1, 2, 3]));
    assert_eq!(cache.get("b.png"), Some(&vec![4]));
    assert!(cache.get("A.png").is_none());
    cache.insert("a.png".to_string(), vec![9]);
    assert_eq!(cache.get("a.png"), Some(&vec![9]));
    assert_eq!(cache.get("b.png"), Some(&vec![4]));
    cache.clear();
    assert!(!cache.contains("a.png"));
    assert!(!cache.contains("b.png"));
}

#[test]
fn loaded_icon_is_drawn_in_its_slot() {
    let item = DockItem {
        name: "a".to_string(),
        path: "C:\\a.exe".to_string(),
        icon: Some("C:\\a.png".to_string()),
        args: Vec::new(),
        separator: false,
        special: None,
    };
    let items = vec![item];
    let mut r = Renderer::new(&DockSettings::default(), &items).unwrap();
    let len = (r.width * r.height) as usize;
    let w = r.width as usize;
    // before the icon is loaded a placeholder stands in for it
    let mut before = vec![0u32; len];
    r.render(&mut before, &items, &[true], None, &[], None);
    let bytes = png(16, 16, [200, 100, 50, 255]);
    assert_eq!(r.load_icon("C:\\a.png".to_string(), "png", &bytes), Ok(()));
    assert!(r.icons.contains("C:\\a.png"));
    assert_eq!(r.icons.get("C:\\a.png").unwrap().len(), 384 * 384);
    let mut after = vec![0u32; len];
    r.render(&mut after, &items, &[true], None, &[], None);
    let layout = r.compute_layout(&items, &[], None);
    let x = (layout.slots[0].x / 65536) as usize;
    let top = r.padding.top as usize;
    for (dx, dy) in [(0, 0), (24, 24), (47, 47), (0, 47), (47, 0)] {
        assert_eq!(after[(top + dy) * w + x + dx], 0xffc86432);
    }
    assert_ne!(before[(top + 24) * w + x + 24], 0xffc86432);
    // the reflection lies two rows below the icon, and fades
    let under = before[(top + 50) * w + x + 24];
    assert_eq!(
        after[(top + 50) * w + x + 24],
        rdock::color::alpha_blend(under, 0x3cc86432)
    );
    assert_ne!(before, after);
    // an icon that cannot be loaded leaves the cache as it is
    assert_eq!(
        r.load_icon("C:\\b.png".to_string(), "png", b"broken"),
        Err(IconError::Undecodable)
    );
    assert!(!r.icons.contains("C:\\b.png"));
    assert!(r.icons.contains("C:\\a.png"));
}

#[test]
fn icon_entry_too_large_to_address_is_not_decoded() {
    // one bitmap entry that declares 65536 by 65536 pixels at 32 bits and
    // brings four bytes of pixel data
    let mut bytes: Vec<u8> = Vec::new();
    bytes.extend_from_slice(&[0, 0, 1, 0, 1, 0]);
    bytes.extend_from_slice(&[0, 0, 0, 0, 1, 0, 32, 0]);
    bytes.extend_from_slice(&44u32.to_le_bytes());
    bytes.extend_from_slice(&22u32.to_le_bytes());
    bytes.extend_from_slice(&40u32.to_le_bytes());
    bytes.extend_from_slice(&65536i32.to_le_bytes());
    bytes.extend_from_slice(&131072i32.to_le_bytes());
    bytes.extend_from_slice(&1u16.to_le_bytes());
    bytes.extend_from_slice(&32u16.to_le_bytes());
    bytes.extend_from_slice(&[0u8; 24]);
    bytes.extend_from_slice(&[1, 2, 3, 4]);
    let dir = ico::IconDir::read(Cursor::new(&bytes)).unwrap();
    assert_eq!((dir.entries()[0].width(), dir.entries()[0].height()), (65536, 65536));
    assert_eq!(load_source(&bytes, "ico").unwrap_err(), IconError::Undecodable);
    assert_eq!(load_icon(&bytes, "ico", 32).unwrap_err(), IconError::Undecodable);
}

#[test]
fn icon_entry_with_rows_too_long_to_count_is_not_decoded() {
    // one bitmap entry of a single row of 134217728 pixels at 32 bits: the
    // row has more bits than 32 bits can count
    let mut bytes: Vec<u8> = Vec::new();
    bytes.extend_from_slice(&[0, 0, 1, 0, 1, 0]);
    bytes.extend_from_slice(&[0, 0, 0, 0, 1, 0, 32, 0]);
    bytes.extend_from_slice(&44u32.to_le_bytes());
    bytes.extend_from_slice(&22u32.to_le_bytes());
    bytes.extend_from_slice(&40u32.to_le_bytes());
    bytes.extend_from_slice(&134217728i32.to_le_bytes());
    bytes.extend_from_slice(&2i32.to_le_bytes());
    bytes.extend_from_slice(&1u16.to_le_bytes());
    bytes.extend_from_slice(&32u16.to_le_bytes());
    bytes.extend_from_slice(&[0u8; 24]);
    bytes.extend_from_slice(&[1, 2, 3, 4]);
    let dir = ico::IconDir::read(Cursor::new(&bytes)).unwrap();
    assert_eq!((dir.entries()[0].width(), dir.entries()[0].height()), (134217728, 1));
    assert_eq!(load_source(&bytes, "ico").unwrap_err(), IconError::Undecodable);
    assert_eq!(load_icon(&bytes, "ico", 32).unwrap_err(), IconError::Undecodable);
}

#[test]
fn widest_icon_entry_that_can_be_counted_is_tried() {
    // a single row of 134217727 pixels is handed to the decoder, which
    // finds the pixel data short
    let mut bytes: Vec<u8> = Vec::new();
    bytes.extend_from_slice(&[0, 0, 1, 0, 1, 0]);
    bytes.extend_from_slice(&[0, 0, 0, 0, 1, 0, 32, 0]);
    bytes.extend_from_slice(&44u32.to_le_bytes());
    bytes.extend_from_slice(&22u32.to_le_bytes());
    bytes.extend_from_slice(&40u32.to_le_bytes());
    bytes.extend_from_slice(&134217727i32.to_le_bytes());
    bytes.extend_from_slice(&2i32.to_le_bytes());
    bytes.extend_from_slice(&1u16.to_le_bytes());
    bytes.extend_from_slice(&32u16.to_le_bytes());
    bytes.extend_from_slice(&[0u8; 24]);
    bytes.extend_from_slice(&[1, 2, 3, 4]);
    assert_eq!(load_source(&bytes, "ico").unwrap_err(), IconError::Undecodable);
}

fn file(path: &str, extension: &str, bytes: Option<Vec<u8>>) -> IconFile {
    IconFile { path: path.to_string(), extension: extension.to_string(), bytes }
}

#[test]
fn icons_that_cannot_be_loaded_are_passed_over() {
    let items: Vec<DockItem> = Vec::new();
    let mut r = Renderer::new(&DockSettings::default(), &items).unwrap();
    let (width, height) = (r.width, r.height);
    let files = vec![
        file("a.png", "png", Some(png(16, 16, [200, 100, 50, 255]))),
        file("broken.png", "png", Some(b"broken".to_vec())),
        file("missing.png", "png", None),
        file("b.ICO", "ICO", Some(ico_file(&[(16, 16, [1, 2, 3, 255]), (32, 32, [9, 8, 7, 255])]))),
        file("c.xyz", "xyz", Some(png(4, 4, [1, 2, 3, 255]))),
        file("d.bmp", "bmp", Some(encoded(flat(500, 400, [5, 6, 7, 255]), image::ImageFormat::Bmp))),
    ];
    r.load_icons(&files);
    assert_eq!((r.width, r.height), (width, height));
    for path in ["a.png", "b.ICO", "d.bmp"] {
        assert_eq!(r.icons.get(path).unwrap().len(), 384 * 384);
    }
    for path in ["broken.png", "missing.png", "c.xyz"] {
        assert!(!r.icons.contains(path));
    }
    assert_eq!(r.icons.get("a.png").unwrap()[0], 0xffc86432);
    assert_eq!(r.icons.get("b.ICO").unwrap()[0], 0xff090807);
    assert_eq!(r.icons.get("d.bmp").unwrap()[383 * 384 + 383], 0xff050607);
}

#[test]
fn later_file_of_a_path_replaces_the_earlier_one_if_it_loads() {
    let items: Vec<DockItem> = Vec::new();
    let mut r = Renderer::new(&DockSettings::default(), &items).unwrap();
    r.load_icons(&[
        file("a.png", "png", Some(png(8, 8, [10, 20, 30, 255]))),
        file("b.png", "png", Some(png(8, 8, [1, 1, 1, 255]))),
    ]);
    r.load_icons(&[
        file("a.png", "png", Some(png(8, 8, [40, 50, 60, 255]))),
        file("b.png", "png", Some(b"broken".to_vec())),
        file("a.png", "png", None),
    ]);
    assert_eq!(r.icons.get("a.png").unwrap()[0], 0xff28323c);
    assert_eq!(r.icons.get("b.png").unwrap()[0], 0xff010101);
    r.load_icons(&[]);
    assert_eq!(r.icons.get("a.png").unwrap()[0], 0xff28323c);
}

#[test]
fn icons_are_kept_at_six_times_a_large_icon_size() {
    let mut settings = DockSettings::default();
    settings.icon_size = 100;
    let items: Vec<DockItem> = Vec::new();
    let mut r = Renderer::new(&settings, &items).unwrap();
    r.load_icons(&[file("a.png", "png", Some(png(8, 8, [10, 20, 30, 255])))]);
    assert_eq!(r.icons.get("a.png").unwrap().len(), 600 * 600);
}

fn item_with_icon(name: &str, icon: &str) -> DockItem {
    DockItem {
        name: name.to_string(),
        path: format!("C:\\{}.exe", name),
        icon: Some(icon.to_string()),
        args: Vec::new(),
        separator: false,
        special: None,
    }
}

#[test]
fn construction_goes_on_without_an_icon_that_cannot_be_loaded() {
    let items = vec![
        item_with_icon("a", "a.png"),
        item_with_icon("b", "b.png"),
        item_with_icon("c", "c.png"),
    ];
    let files = vec![
        file("a.png", "png", Some(png(16, 16, [200, 100, 50, 255]))),
        file("b.png", "png", Some(b"broken".to_vec())),
        file("c.png", "png", Some(png(16, 16, [10, 20, 30, 255]))),
    ];
    let settings = DockSettings::default();
    let r = Renderer::with_icons(&settings, &items, &files).unwrap();
    let bare = Renderer::new(&settings, &items).unwrap();
    assert_eq!((r.width, r.height), (bare.width, bare.height));
    assert_eq!((r.bg_color, r.indicator_color), (bare.bg_color, bare.indicator_color));
    assert_eq!(r.icons.get("a.png").unwrap().len(), 384 * 384);
    assert_eq!(r.icons.get("c.png").unwrap().len(), 384 * 384);
    assert!(!r.icons.contains("b.png"));
    // the item without an icon is painted as it is with no icon loaded
    // at all, the others with their icons
    let len = (r.width * r.height) as usize;
    let w = r.width as usize;
    let mut with = vec![0u32; len];
    let mut without = vec![0u32; len];
    r.render(&mut with, &items, &[false, false, false], None, &[], None);
    bare.render(&mut without, &items, &[false, false, false], None, &[], None);
    let layout = r.compute_layout(&items, &[], None);
    let top = r.padding.top as usize;
    let x = |i: usize| (layout.slots[i].x / 65536) as usize;
    for dy in 0..48 {
        for dx in 0..48 {
            let at = (top + dy) * w + x(1) + dx;
            assert_eq!(with[at], without[at]);
        }
    }
    assert_eq!(with[(top + 24) * w + x(0) + 24], 0xffc86432);
    assert_eq!(with[(top + 24) * w + x(2) + 24], 0xff0a141e);
    assert_ne!(without[(top + 24) * w + x(0) + 24], 0xffc86432);
}

#[test]
fn construction_fails_only_for_a_surface_that_does_not_fit() {
    let mut settings = DockSettings::default();
    settings.icon_size = 0xffff_ffff;
    let items = vec![item_with_icon("a", "a.png")];
    let files = vec![file("a.png", "png", Some(png(4, 4, [1, 2, 3, 255])))];
    assert!(Renderer::with_icons(&settings, &items, &files).is_err());
    assert!(Renderer::with_icons(&DockSettings::default(), &items, &[]).is_ok());
}
