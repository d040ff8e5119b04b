//! Loading icons: from the bytes of an image file to the square buffer
//! of packed pixels that the renderer samples.

use vstd::prelude::*;
use crate::codec::{
    decode_as, decode_entry, decoded, dir_entries, entry_sizes, ico_file, read_icon_dir,
    resize_rgba, ImageKind, ResizeFilter, RgbaImage,
};
use crate::color::argb;
use crate::config::{DockItem, DockSettings};
use crate::icon_cache::IconCache;
use crate::renderer::{surface_height, surface_width, RenderError, Renderer};
use crate::text::{lowercased, str_equal, to_lowercase};

verus! {

/// How strongly icons are sharpened after resizing: three tenths, in
/// 16.16 fixed point.
pub const SHARPEN_STRENGTH: u32 = 19661;

/// Why an icon could not be loaded.
#[derive(Debug, Clone, Copy, PartialEq, Eq, Structural)]
pub enum IconError {
    /// The file's extension names no format that the library reads.
    UnknownFormat,
    /// The bytes could not be decoded.
    Undecodable,
    /// The side asked for is 0, or a square of it has more bytes than can
    /// be addressed.
    BadSize,
}

/// A letter of the ASCII alphabet in lower case; any other character as
/// it is.
pub open spec fn ascii_lower(c: char) -> char {
    if 'A' <= c <= 'Z' {
        ((c as u8) + 32) as char
    } else {
        c
    }
}

/// Whether two texts are equal but for the case of ASCII letters.
pub open spec fn same_ignoring_case(a: Seq<char>, b: Seq<char>) -> bool {
    a.len() == b.len() && forall|i: int| 0 <= i < a.len() ==> ascii_lower(a[i]) == ascii_lower(b[i])
}

fn lower(c: char) -> (r: char)
    ensures
        r == ascii_lower(c),
{
    if 'A' <= c && c <= 'Z' {
        ((c as u8) + 32) as char
    } else {
        c
    }
}

/// Whether two texts are equal but for the case of ASCII letters.
pub fn eq_ignoring_case(a: &str, b: &str) -> (r: bool)
    ensures
        r == same_ignoring_case(a@, b@),
{
    let n: usize = a.unicode_len();
    if n != b.unicode_len() {
        return false;
    }
    let mut i: usize = 0;
    while i < n
        invariant
            n == a@.len(),
            n == b@.len(),
            i <= n,
            forall|k: int| 0 <= k < i ==> ascii_lower(a@[k]) == ascii_lower(b@[k]),
        decreases n - i,
    {
        if lower(a.get_char(i)) != lower(b.get_char(i)) {
            return false;
        }
        i += 1;
    }
    true
}

/// The format that a file extension names, letter case set aside.
pub open spec fn kind_of_extension(ext: Seq<char>) -> Option<ImageKind> {
    if same_ignoring_case(ext, "png"@) || same_ignoring_case(ext, "apng"@) {
        Some(ImageKind::Png)
    } else if same_ignoring_case(ext, "jpg"@) || same_ignoring_case(ext, "jpeg"@)
        || same_ignoring_case(ext, "jfif"@) {
        Some(ImageKind::Jpeg)
    } else if same_ignoring_case(ext, "gif"@) {
        Some(ImageKind::Gif)
    } else if same_ignoring_case(ext, "bmp"@) {
        Some(ImageKind::Bmp)
    } else if same_ignoring_case(ext, "ico"@) {
        Some(ImageKind::Ico)
    } else {
        None
    }
}

/// The format that a file extension names.
pub fn image_kind(ext: &str) -> (kind: Option<ImageKind>)
    ensures
        kind == kind_of_extension(ext@),
{
    if eq_ignoring_case(ext, "png") || eq_ignoring_case(ext, "apng") {
        Some(ImageKind::Png)
    } else if eq_ignoring_case(ext, "jpg") || eq_ignoring_case(ext, "jpeg") || eq_ignoring_case(
        ext,
        "jfif",
    ) {
        Some(ImageKind::Jpeg)
    } else if eq_ignoring_case(ext, "gif") {
        Some(ImageKind::Gif)
    } else if eq_ignoring_case(ext, "bmp") {
        Some(ImageKind::Bmp)
    } else if eq_ignoring_case(ext, "ico") {
        Some(ImageKind::Ico)
    } else {
        None
    }
}

/// The number of pixels of an image of the size given.
pub open spec fn area(size: (u32, u32)) -> int {
    size.0 as int * size.1 as int
}

/// Whether `i` is the richest entry among the sizes: none has more
/// pixels, and none after it has as many.
pub open spec fn is_richest(sizes: Seq<(u32, u32)>, i: int) -> bool {
    &&& 0 <= i < sizes.len()
    &&& forall|j: int| 0 <= j < sizes.len() ==> area(sizes[j]) <= area(sizes[i])
    &&& forall|j: int| i < j < sizes.len() ==> area(sizes[j]) < area(sizes[i])
}

/// The richest entry among the sizes, if there is any entry.
pub open spec fn richest(sizes: Seq<(u32, u32)>) -> Option<int> {
    if sizes.len() == 0 {
        None
    } else {
        Some(choose|i: int| is_richest(sizes, i))
    }
}

/// Among entries of given sizes there is one richest entry.
pub proof fn lemma_richest_unique(sizes: Seq<(u32, u32)>, i: int, j: int)
    requires
        is_richest(sizes, i),
        is_richest(sizes, j),
    ensures
        i == j,
{
    if i < j {
        assert(area(sizes[j]) < area(sizes[i]));
        assert(area(sizes[i]) <= area(sizes[j]));
    } else if j < i {
        assert(area(sizes[i]) < area(sizes[j]));
        assert(area(sizes[j]) <= area(sizes[i]));
    }
}

/// The entry of an icon file with the most pixels; of several with as
/// many, the last.
pub fn best_entry(sizes: &Vec<(u32, u32)>) -> (best: Option<usize>)
    ensures
        match best {
            Some(i) => is_richest(sizes@, i as int) && richest(sizes@) == Some(i as int),
            None => sizes@.len() == 0 && richest(sizes@) is None,
        },
{
    if sizes.len() == 0 {
        return None;
    }
    let mut best: usize = 0;
    assert(0 <= area(sizes@[0]) <= 0xffff_ffff * 0xffff_ffff) by (nonlinear_arith)
        requires
            area(sizes@[0]) == sizes@[0].0 as int * sizes@[0].1 as int,
    ;
    let mut best_area: u64 = sizes[0].0 as u64 * sizes[0].1 as u64;
    let mut i: usize = 1;
    while i < sizes.len()
        invariant
            1 <= i <= sizes@.len(),
            best < i,
            best_area == area(sizes@[best as int]),
            forall|j: int| 0 <= j < i ==> area(sizes@[j]) <= best_area,
            forall|j: int| best < j < i ==> area(sizes@[j]) < best_area,
        decreases sizes@.len() - i,
    {
        assert(0 <= area(sizes@[i as int]) <= 0xffff_ffff * 0xffff_ffff) by (nonlinear_arith)
            requires
                area(sizes@[i as int]) == sizes@[i as int].0 as int * sizes@[i as int].1 as int,
        ;
        let a: u64 = sizes[i].0 as u64 * sizes[i].1 as u64;
        if a >= best_area {
            best = i;
            best_area = a;
        }
        i += 1;
    }
    proof {
        assert(is_richest(sizes@, best as int));
        let c = choose|c: int| is_richest(sizes@, c);
        lemma_richest_unique(sizes@, c, best as int);
    }
    Some(best)
}

/// Whether an image of the size given can be placed in 32 bits: its
/// pixels take no more bytes than 32 bits can count, and neither do the
/// bits of one row at 32 bits to the pixel, rounded up to whole bytes.
pub open spec fn fits_32_bits(size: (u32, u32)) -> bool {
    4 * area(size) <= u32::MAX && 32 * size.0 + 7 <= u32::MAX
}

/// The image that the richest entry of an icon file holds, if the file
/// can be read, the entry can be placed in 32 bits, and the entry can be
/// decoded.
pub open spec fn ico_image(bytes: Seq<u8>) -> Option<(u32, u32, Seq<u8>)> {
    match ico_file(bytes) {
        Some(entries) => {
            let sizes = Seq::new(entries.len(), |i: int| (entries[i].0, entries[i].1));
            match richest(sizes) {
                Some(i) => match entries[i].2 {
                    Some(data) => if fits_32_bits(sizes[i]) {
                        Some((entries[i].0, entries[i].1, data))
                    } else {
                        None
                    },
                    None => None,
                },
                None => None,
            }
        },
        None => None,
    }
}

/// Whether a file extension, in lower case, is that of icon files.
pub open spec fn names_ico(ext: Seq<char>) -> bool {
    lowercased(ext) == "ico"@
}

/// The size of the image that a file holds, going by its extension. An
/// icon file gives the richest of its entries; where that cannot be had,
/// it is read as the `image` crate reads icon files. `None` where the file
/// cannot be decoded or the extension names no format.
pub open spec fn source_extent(bytes: Seq<u8>, ext: Seq<char>) -> Option<(u32, u32)> {
    if names_ico(ext) {
        match ico_image(bytes) {
            Some(img) => Some((img.0, img.1)),
            None => decoded(bytes, ImageKind::Ico),
        }
    } else {
        match kind_of_extension(ext) {
            Some(kind) => decoded(bytes, kind),
            None => None,
        }
    }
}

/// The filter for resizing an image of the size given to a square of the
/// side `size`: the sharp one where the image's shorter side is smaller
/// than the square, the one for reduction otherwise.
pub open spec fn filter_for(width: u32, height: u32, size: u32) -> ResizeFilter {
    if width < size || height < size {
        ResizeFilter::CatmullRom
    } else {
        ResizeFilter::Lanczos3
    }
}

/// The filter for resizing an image of the size given to a square of the
/// side `size`.
pub fn pick_filter(width: u32, height: u32, size: u32) -> (filter: ResizeFilter)
    ensures
        filter == filter_for(width, height, size),
{
    let shorter: u32 = if width < height {
        width
    } else {
        height
    };
    if shorter < size {
        ResizeFilter::CatmullRom
    } else {
        ResizeFilter::Lanczos3
    }
}

fn ico_entry_image(bytes: &[u8]) -> (r: Option<RgbaImage>)
    ensures
        match r {
            Some(img) => ico_image(bytes@) == Some(img@) && img.wf(),
            None => ico_image(bytes@) is None,
        },
{
    let dir = match read_icon_dir(bytes) {
        Ok(dir) => dir,
        Err(_) => {
            return None;
        },
    };
    let sizes: Vec<(u32, u32)> = entry_sizes(&dir);
    proof {
        let entries = dir_entries(dir);
        assert(sizes@ =~= Seq::new(entries.len(), |i: int| (entries[i].0, entries[i].1)));
    }
    match best_entry(&sizes) {
        Some(i) => {
            let size: (u32, u32) = sizes[i];
            proof {
                assert(0 <= area(size) <= 0xffff_ffff * 0xffff_ffff) by (nonlinear_arith)
                    requires
                        area(size) == size.0 as int * size.1 as int,
                ;
                assert(4 * size.0 * size.1 == 4 * area(size)) by (nonlinear_arith)
                    requires
                        area(size) == size.0 as int * size.1 as int,
                ;
            }
            let byte_count: u128 = 4 * (size.0 as u128 * size.1 as u128);
            let row_bits: u64 = 32 * (size.0 as u64) + 7;
            if byte_count > 0xffff_ffff || row_bits > 0xffff_ffff {
                return None;
            }
            match decode_entry(&dir, i) {
                Ok(img) => Some(img),
                Err(_) => None,
            }
        },
        None => None,
    }
}

/// Reads the image that a file holds, going by its extension. The image
/// has the size that the file gives; its pixels are stated only for an
/// entry of an icon file.
pub fn load_source(bytes: &[u8], extension: &str) -> (r: Result<RgbaImage, IconError>)
    ensures
        match r {
            Ok(img) => {
                &&& source_extent(bytes@, extension@) == Some((img.width, img.height))
                &&& img.wf()
                &&& names_ico(extension@) && ico_image(bytes@) is Some ==> ico_image(bytes@)
                    == Some(img@)
            },
            Err(e) => source_extent(bytes@, extension@) is None && e == (if !names_ico(
                extension@,
            ) && kind_of_extension(extension@) is None {
                IconError::UnknownFormat
            } else {
                IconError::Undecodable
            }),
        },
{
    let ext: String = to_lowercase(extension);
    if str_equal(ext.as_str(), "ico") {
        match ico_entry_image(bytes) {
            Some(img) => {
                return Ok(img);
            },
            None => {},
        }
        match decode_as(bytes, ImageKind::Ico) {
            Ok(img) => Ok(img),
            Err(_) => Err(IconError::Undecodable),
        }
    } else {
        match image_kind(extension) {
            Some(kind) => match decode_as(bytes, kind) {
                Ok(img) => Ok(img),
                Err(_) => Err(IconError::Undecodable),
            },
            None => Err(IconError::UnknownFormat),
        }
    }
}

/// One byte of an image: channel `ch` of the pixel at `(x, y)`.
pub open spec fn byte_at(data: Seq<u8>, w: int, x: int, y: int, ch: int) -> int {
    data[(y * w + x) * 4 + ch] as int
}

/// Byte `k` of the sharpened image. A colour byte of a pixel that is
/// not on the image's border and not fully transparent is raised by
/// `strength` times what it exceeds the mean of its four neighbours by,
/// four times over, and held to eight bits; every other byte stays.
pub open spec fn sharpened_byte(data: Seq<u8>, w: int, h: int, strength: int, k: int) -> u8 {
    let x = (k / 4) % w;
    let y = (k / 4) / w;
    let ch = k % 4;
    if 1 <= x < w - 1 && 1 <= y < h - 1 && ch < 3 && byte_at(data, w, x, y, 3) != 0 {
        let v = (byte_at(data, w, x, y, ch) * (65536 + 4 * strength) - strength * (byte_at(
            data,
            w,
            x,
            y - 1,
            ch,
        ) + byte_at(data, w, x, y + 1, ch) + byte_at(data, w, x - 1, y, ch) + byte_at(
            data,
            w,
            x + 1,
            y,
            ch,
        ))) / 65536;
        if v < 0 {
            0
        } else if v > 255 {
            255
        } else {
            v as u8
        }
    } else {
        data[k]
    }
}

/// The image sharpened by an unsharp mask over each pixel and its four
/// neighbours.
pub open spec fn sharpened(data: Seq<u8>, w: int, h: int, strength: int) -> Seq<u8> {
    Seq::new(data.len(), |k: int| sharpened_byte(data, w, h, strength, k))
}

/// The pixels of an image, packed: alpha in the highest byte, then red,
/// green and blue.
pub open spec fn packed(data: Seq<u8>) -> Seq<u32> {
    Seq::new(
        data.len() / 4,
        |i: int|
            argb(
                data[4 * i + 3] as int,
                data[4 * i] as int,
                data[4 * i + 1] as int,
                data[4 * i + 2] as int,
            ),
    )
}

/// Packs the bytes of an image into pixels.
pub fn pack_pixels(data: &Vec<u8>) -> (pixels: Vec<u32>)
    ensures
        pixels@ == packed(data@),
{
    let n: usize = data.len() / 4;
    let mut pixels: Vec<u32> = Vec::new();
    let mut i: usize = 0;
    while i < n
        invariant
            n == data@.len() / 4,
            data@.len() <= usize::MAX,
            i <= n,
            pixels@.len() == i,
            forall|k: int| 0 <= k < i ==> pixels@[k] == packed(data@)[k],
        decreases n - i,
    {
        assert(4 * i + 3 < data@.len());
        let p: u32 = crate::color::pack(
            data[4 * i + 3] as u32,
            data[4 * i] as u32,
            data[4 * i + 1] as u32,
            data[4 * i + 2] as u32,
        );
        pixels.push(p);
        i += 1;
    }
    assert(pixels@ =~= packed(data@));
    pixels
}

fn pixel_base(w: usize, h: usize, len: usize, x: usize, y: usize) -> (base: usize)
    requires
        len == 4 * w * h,
        x < w,
        y < h,
    ensures
        base == (y * w + x) * 4,
        base + 3 < len,
        (base as int / 4) % (w as int) == x,
        (base as int / 4) / (w as int) == y,
{
    proof {
        assert(0 <= y * w + x < w * h) by (nonlinear_arith)
            requires
                0 <= x < w,
                0 <= y < h,
        ;
        assert(4 * w * h == 4 * (w * h)) by (nonlinear_arith);
        assert(0 <= y * w <= y * w + x);
        assert(y * w + x == w * y + x) by (nonlinear_arith);
        vstd::arithmetic::div_mod::lemma_fundamental_div_mod_converse(
            y * w + x,
            w as int,
            y as int,
            x as int,
        );
    }
    (y * w + x) * 4
}

fn sharpen_byte(data: &Vec<u8>, w: usize, h: usize, x: usize, y: usize, ch: usize, strength: u32) -> (v:
    u8)
    requires
        data@.len() == 4 * w * h,
        w <= 0xffff_ffff,
        h <= 0xffff_ffff,
        x < w,
        y < h,
        ch < 4,
    ensures
        v == sharpened_byte(
            data@,
            w as int,
            h as int,
            strength as int,
            (y * w + x) * 4 + ch,
        ),
{
    let len: usize = data.len();
    let base: usize = pixel_base(w, h, len, x, y);
    proof {
        let k = base + ch;
        assert(k / 4 == base / 4);
        assert(k % 4 == ch);
    }
    let interior: bool = 1 <= x && x + 1 < w && 1 <= y && y + 1 < h;
    if !(interior && ch < 3 && data[base + 3] != 0) {
        return data[base + ch];
    }
    let up: usize = pixel_base(w, h, len, x, y - 1);
    let down: usize = pixel_base(w, h, len, x, y + 1);
    let left: usize = pixel_base(w, h, len, x - 1, y);
    let right: usize = pixel_base(w, h, len, x + 1, y);
    let c: i128 = data[base + ch] as i128;
    let around: i128 = data[up + ch] as i128 + data[down + ch] as i128 + data[left + ch] as i128
        + data[right + ch] as i128;
    let s: i128 = strength as i128;
    proof {
        crate::fixed::lemma_mul_bound(c as int, 255, 65536 + 4 * s, 65536 + 4 * 0xffff_ffffint);
        crate::fixed::lemma_mul_bound(around as int, 1020, s as int, 0xffff_ffff);
        assert(s * around == around * s) by (nonlinear_arith);
    }
    let v: i128 = crate::fixed::floor_div(c * (65536 + 4 * s) - s * around, 65536);
    if v < 0 {
        0
    } else if v > 255 {
        255
    } else {
        v as u8
    }
}

/// Sharpens an image with an unsharp mask over each pixel and its four
/// neighbours. `strength` is in 16.16 fixed point. Pixels on the border
/// and fully transparent pixels stay as they are, and so does every alpha.
pub fn sharpen_image(img: RgbaImage, strength: u32) -> (out: RgbaImage)
    requires
        img.wf(),
    ensures
        out.width == img.width,
        out.height == img.height,
        out.data@ == sharpened(
            img.data@,
            img.width as int,
            img.height as int,
            strength as int,
        ),
        out.wf(),
{
    let w: usize = img.width as usize;
    let h: usize = img.height as usize;
    let mut out: Vec<u8> = Vec::new();
    let mut y: usize = 0;
    assert(0 * w == 0) by (nonlinear_arith);
    while y < h
        invariant
            y <= h,
            w == img.width,
            h == img.height,
            img.data@.len() == 4 * w * h,
            out@.len() == (y * w) * 4,
            forall|k: int|
                0 <= k < out@.len() ==> out@[k] == sharpened_byte(
                    img.data@,
                    w as int,
                    h as int,
                    strength as int,
                    k,
                ),
        decreases h - y,
    {
        let mut x: usize = 0;
        while x < w
            invariant
                y < h,
                x <= w,
                w == img.width,
                h == img.height,
                img.data@.len() == 4 * w * h,
                out@.len() == (y * w + x) * 4,
                forall|k: int|
                    0 <= k < out@.len() ==> out@[k] == sharpened_byte(
                        img.data@,
                        w as int,
                        h as int,
                        strength as int,
                        k,
                    ),
            decreases w - x,
        {
            let r: u8 = sharpen_byte(&img.data, w, h, x, y, 0, strength);
            let g: u8 = sharpen_byte(&img.data, w, h, x, y, 1, strength);
            let b: u8 = sharpen_byte(&img.data, w, h, x, y, 2, strength);
            let a: u8 = sharpen_byte(&img.data, w, h, x, y, 3, strength);
            out.push(r);
            out.push(g);
            out.push(b);
            out.push(a);
            x += 1;
        }
        proof {
            assert((y * w + w) * 4 == ((y + 1) * w) * 4) by (nonlinear_arith);
        }
        y += 1;
    }
    proof {
        assert((h * w) * 4 == 4 * w * h) by (nonlinear_arith);
        assert(out@ =~= sharpened(
            img.data@,
            img.width as int,
            img.height as int,
            strength as int,
        ));
    }
    RgbaImage { width: img.width, height: img.height, data: out }
}

/// Whether icons can be kept at the side given: it is not 0, and a
/// square of it has no more bytes than can be addressed.
pub open spec fn size_ok(size: u32) -> bool {
    0 < size && 4 * size * size <= usize::MAX
}

/// Whether the pixels are those of an icon of the side given: an image of
/// that side, four bytes to the pixel, sharpened and packed.
pub open spec fn is_icon_of_side(pixels: Seq<u32>, size: u32) -> bool {
    &&& pixels.len() == size * size
    &&& exists|data: Seq<u8>|
        data.len() == 4 * size * size && pixels == #[trigger] packed(
            sharpened(data, size as int, size as int, SHARPEN_STRENGTH as int),
        )
}

/// Makes the buffer of packed pixels from an image that was resized to
/// the square of the side `size`: sharpens it and packs it.
pub fn finish_icon(data: Vec<u8>, size: u32) -> (pixels: Vec<u32>)
    requires
        data@.len() == 4 * size * size,
    ensures
        pixels@ == packed(sharpened(data@, size as int, size as int, SHARPEN_STRENGTH as int)),
        pixels@.len() == size * size,
{
    let sharp: RgbaImage = sharpen_image(
        RgbaImage { width: size, height: size, data },
        SHARPEN_STRENGTH,
    );
    proof {
        assert(4 * size * size == 4 * (size * size)) by (nonlinear_arith);
        assert(sharp.data@.len() / 4 == size * size);
    }
    pack_pixels(&sharp.data)
}

fn check_size(size: u32) -> (ok: bool)
    ensures
        ok == size_ok(size),
{
    assert(4 * size * size == 4 * (size * size) && size * size <= 0xffff_ffff * 0xffff_ffff)
        by (nonlinear_arith)
        requires
            0 <= size <= 0xffff_ffff,
    ;
    size > 0 && 4 * (size as u128 * size as u128) <= usize::MAX as u128
}

/// Loads an icon from the bytes of an image file: decodes it as its
/// extension says, resizes it to a square of the side `size`, sharpens it
/// lightly and packs it. It fails for a side that cannot be had, for an
/// extension that names no format, and for bytes that cannot be decoded.
/// The result is the resized image sharpened and packed; what resizing
/// makes of the source is not stated.
pub fn load_icon(bytes: &[u8], extension: &str, size: u32) -> (r: Result<Vec<u32>, IconError>)
    ensures
        match r {
            Ok(pixels) => {
                &&& size_ok(size)
                &&& source_extent(bytes@, extension@) is Some
                &&& is_icon_of_side(pixels@, size)
            },
            Err(e) => e == (if !size_ok(size) {
                IconError::BadSize
            } else if !names_ico(extension@) && kind_of_extension(extension@) is None {
                IconError::UnknownFormat
            } else {
                IconError::Undecodable
            }) && (!size_ok(size) || source_extent(bytes@, extension@) is None),
        },
{
    if !check_size(size) {
        return Err(IconError::BadSize);
    }
    let source: RgbaImage = match load_source(bytes, extension) {
        Ok(img) => img,
        Err(e) => {
            return Err(e);
        },
    };
    let filter = pick_filter(source.width, source.height, size);
    let data: Vec<u8> = resize_rgba(&source, size, filter);
    let ghost resized = data@;
    let pixels: Vec<u32> = finish_icon(data, size);
    assert(is_icon_of_side(pixels@, size)) by {
        assert(pixels@ == packed(
            sharpened(resized, size as int, size as int, SHARPEN_STRENGTH as int),
        ));
    }
    Ok(pixels)
}

/// An image file that may hold the icon of an item: where it lies, the
/// extension of its name, and its bytes where it could be read.
pub struct IconFile {
    pub path: String,
    pub extension: String,
    pub bytes: Option<Vec<u8>>,
}

/// Whether the file can be loaded as an icon of the side given: buffers
/// of that side can be had, the file was read, and its bytes can be
/// decoded as its extension says.
pub open spec fn loads(file: IconFile, side: u32) -> bool {
    &&& size_ok(side)
    &&& file.bytes matches Some(bytes) && source_extent(bytes@, file.extension@) is Some
}

/// Whether one of the first `n` files lies at `path` and can be loaded as
/// an icon of the side given.
pub open spec fn loaded_among(files: Seq<IconFile>, n: int, path: Seq<char>, side: u32) -> bool {
    exists|i: int| 0 <= i < n && files[i].path@ == path && #[trigger] loads(files[i], side)
}

impl IconCache {
    /// The pixels of the icon at `path`, from the cache if they are there,
    /// and else loaded from the bytes of the file and kept: `size * size`
    /// pixels then. An icon that cannot be loaded leaves the cache as it
    /// is, and nothing is returned.
    pub fn get_or_load(&mut self, path: &str, extension: &str, bytes: &[u8], size: u32) -> (r:
        Option<&Vec<u32>>)
        ensures
            old(self)@.contains_key(path@) ==> final(self)@ == old(self)@ && (r matches Some(
                pixels,
            ) && pixels@ == old(self)@[path@]),
            !old(self)@.contains_key(path@) ==> (if size_ok(size) && source_extent(
                bytes@,
                extension@,
            ) is Some {
                &&& r matches Some(pixels)
                &&& final(self)@ == old(self)@.insert(path@, pixels@)
                &&& is_icon_of_side(pixels@, size)
            } else {
                final(self)@ == old(self)@ && r is None
            }),
    {
        if !self.contains(path) {
            match load_icon(bytes, extension, size) {
                Ok(pixels) => {
                    self.insert(String::from_str(path), pixels);
                },
                Err(_) => {},
            }
        }
        self.get(path)
    }
}

impl Renderer {
    /// The side of the square buffers in the cache, as far as 32 bits can
    /// say it.
    pub open spec fn cache_side(&self) -> u32 {
        crate::render::held_u32(crate::renderer::icon_resolution(self.icon_size as int))
    }

    /// Loads the icon of the file at `path` from the file's bytes and
    /// keeps it in the cache, at the resolution that this renderer samples
    /// icons from. It succeeds exactly when buffers of that resolution can
    /// be had and the file can be decoded as its extension says. An icon
    /// that cannot be loaded leaves the cache as it is; the item is then
    /// shown as a placeholder.
    pub fn load_icon(&mut self, path: String, extension: &str, bytes: &[u8]) -> (r: Result<
        (),
        IconError,
    >)
        ensures
            final(self).width == old(self).width,
            final(self).height == old(self).height,
            final(self).icon_size == old(self).icon_size,
            final(self).spacing == old(self).spacing,
            final(self).padding == old(self).padding,
            final(self).negative_vertical_offset == old(self).negative_vertical_offset,
            final(self).corner_radius == old(self).corner_radius,
            final(self).bg_color == old(self).bg_color,
            final(self).indicator_color == old(self).indicator_color,
            r is Ok <==> size_ok(old(self).cache_side()) && source_extent(bytes@, extension@)
                is Some,
            match r {
                Ok(_) => {
                    &&& final(self).icons@.contains_key(path@)
                    &&& final(self).icons@ == old(self).icons@.insert(
                        path@,
                        final(self).icons@[path@],
                    )
                    &&& is_icon_of_side(final(self).icons@[path@], old(self).cache_side())
                    &&& final(self).icons@[path@].len() == old(self).cache_side() * old(
                        self,
                    ).cache_side()
                },
                Err(e) => {
                    &&& final(self).icons@ == old(self).icons@
                    &&& e == (if !size_ok(old(self).cache_side()) {
                        IconError::BadSize
                    } else if !names_ico(extension@) && kind_of_extension(extension@) is None {
                        IconError::UnknownFormat
                    } else {
                        IconError::Undecodable
                    })
                },
            },
    {
        let side: u64 = self.source_size();
        let size: u32 = if side > 0xffff_ffff {
            0xffff_ffff
        } else {
            side as u32
        };
        match load_icon(bytes, extension, size) {
            Ok(pixels) => {
                self.icons.insert(path, pixels);
                Ok(())
            },
            Err(e) => Err(e),
        }
    }

    /// A renderer for the settings and the items given, with the icons of
    /// the files given loaded. It fails exactly when the surface would not
    /// fit. A file that could not be read or cannot be decoded does not
    /// make it fail: its path is left without an icon, and an item that
    /// names it is shown as a placeholder.
    pub fn with_icons(settings: &DockSettings, items: &[DockItem], files: &[IconFile]) -> (r:
        Result<Renderer, RenderError>)
        ensures
            match r {
                Ok(renderer) => {
                    &&& renderer.made_for(*settings, items@.len() as int)
                    &&& forall|path: Seq<char>|
                        renderer.icons@.contains_key(path) <==> loaded_among(
                            files@,
                            files@.len() as int,
                            path,
                            renderer.cache_side(),
                        )
                    &&& forall|path: Seq<char>|
                        renderer.icons@.contains_key(path) ==> is_icon_of_side(
                            #[trigger] renderer.icons@[path],
                            renderer.cache_side(),
                        )
                },
                Err(e) => {
                    &&& e == RenderError::SurfaceTooLarge
                    &&& (surface_width(*settings, items@.len() as int) > u32::MAX
                        || surface_height(*settings) > u32::MAX)
                },
            },
    {
        let mut renderer: Renderer = match Renderer::new(settings, items) {
            Ok(renderer) => renderer,
            Err(e) => {
                return Err(e);
            },
        };
        renderer.load_icons(files);
        Ok(renderer)
    }

    /// Loads the icons of the files given, in their order, and keeps each
    /// one that can be loaded in the cache, at the resolution that this
    /// renderer samples icons from. A file that could not be read or
    /// cannot be decoded is passed over: it leaves the cache as it is, and
    /// the others are loaded all the same.
    pub fn load_icons(&mut self, files: &[IconFile])
        ensures
            final(self).width == old(self).width,
            final(self).height == old(self).height,
            final(self).icon_size == old(self).icon_size,
            final(self).spacing == old(self).spacing,
            final(self).padding == old(self).padding,
            final(self).negative_vertical_offset == old(self).negative_vertical_offset,
            final(self).corner_radius == old(self).corner_radius,
            final(self).bg_color == old(self).bg_color,
            final(self).indicator_color == old(self).indicator_color,
            forall|path: Seq<char>|
                final(self).icons@.contains_key(path) <==> old(self).icons@.contains_key(path)
                    || loaded_among(files@, files@.len() as int, path, old(self).cache_side()),
            forall|path: Seq<char>|
                loaded_among(files@, files@.len() as int, path, old(self).cache_side())
                    ==> is_icon_of_side(
                    #[trigger] final(self).icons@[path],
                    old(self).cache_side(),
                ),
            forall|path: Seq<char>|
                old(self).icons@.contains_key(path) && !loaded_among(
                    files@,
                    files@.len() as int,
                    path,
                    old(self).cache_side(),
                ) ==> #[trigger] final(self).icons@[path] == old(self).icons@[path],
    {
        let ghost before = *self;
        let ghost side = self.cache_side();
        let mut k: usize = 0;
        while k < files.len()
            invariant
                k <= files@.len(),
                before == *old(self),
                side == before.cache_side(),
                side == self.cache_side(),
                self.width == before.width,
                self.height == before.height,
                self.icon_size == before.icon_size,
                self.spacing == before.spacing,
                self.padding == before.padding,
                self.negative_vertical_offset == before.negative_vertical_offset,
                self.corner_radius == before.corner_radius,
                self.bg_color == before.bg_color,
                self.indicator_color == before.indicator_color,
                forall|path: Seq<char>|
                    self.icons@.contains_key(path) <==> before.icons@.contains_key(path)
                        || loaded_among(files@, k as int, path, side),
                forall|path: Seq<char>|
                    loaded_among(files@, k as int, path, side) ==> is_icon_of_side(
                        #[trigger] self.icons@[path],
                        side,
                    ),
                forall|path: Seq<char>|
                    before.icons@.contains_key(path) && !loaded_among(
                        files@,
                        k as int,
                        path,
                        side,
                    ) ==> #[trigger] self.icons@[path] == before.icons@[path],
            decreases files@.len() - k,
        {
            let file = &files[k];
            let mut done: bool = false;
            match &file.bytes {
                Some(bytes) => {
                    let r = self.load_icon(
                        file.path.clone(),
                        file.extension.as_str(),
                        bytes.as_slice(),
                    );
                    done = r.is_ok();
                },
                None => {},
            }
            let ghost prev: int = k as int;
            k += 1;
            proof {
                let here = file.path@;
                assert(done == loads(*file, side));
                assert(files@[prev] == *file);
                assert forall|path: Seq<char>|
                    loaded_among(files@, k as int, path, side) == (loaded_among(
                        files@,
                        prev,
                        path,
                        side,
                    ) || (path == here && done)) by {
                    if loaded_among(files@, k as int, path, side) {
                        let i = choose|i: int|
                            0 <= i < k && files@[i].path@ == path && loads(files@[i], side);
                        if i < prev {
                            assert(loaded_among(files@, prev, path, side));
                        }
                    }
                    if path == here && done {
                        assert(loads(files@[prev], side));
                    }
                }
            }
        }
    }
}

} // verus!
