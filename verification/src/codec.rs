//! Decoding and resizing of images, done by the `image` and `ico` crates.
//!
//! The functions here are not verified: each makes one call into an
//! outside crate, and its contract states what this library relies on of
//! that call. What a call computes from its arguments alone is given a
//! name, so that the contracts of the callers can speak of it. Of an image
//! that the `image` crate decodes only the size is named, since a decoder
//! may choose its path by the processor; resizing, whose result rests on
//! floating-point functions, is given no name.

use vstd::prelude::*;

verus! {

/// An image as plain values: `width * height` pixels of four bytes each,
/// red, green, blue, alpha, row by row from the top.
#[derive(Debug, Clone)]
pub struct RgbaImage {
    pub width: u32,
    pub height: u32,
    pub data: Vec<u8>,
}

impl RgbaImage {
    /// Whether the data has four bytes for every pixel.
    pub open spec fn wf(&self) -> bool {
        self.data@.len() == 4 * self.width * self.height
    }

    /// The image as its width, height and bytes.
    pub open spec fn view(&self) -> (u32, u32, Seq<u8>) {
        (self.width, self.height, self.data@)
    }
}

/// The formats of image files that the library reads.
#[derive(Debug, Clone, Copy, PartialEq, Eq, Structural)]
pub enum ImageKind {
    Png,
    Jpeg,
    Gif,
    Bmp,
    Ico,
}

/// The filters an image is resized with.
#[derive(Debug, Clone, Copy, PartialEq, Eq, Structural)]
pub enum ResizeFilter {
    /// Catmull-Rom: keeps an enlarged image sharp.
    CatmullRom,
    /// Lanczos with a window of 3: keeps a reduced image free of aliasing.
    Lanczos3,
}

/// The directory of an icon file, as the `ico` crate holds it. Nothing is
/// known of it but what the functions below say.
#[verifier::external_type_specification]
#[verifier::external_body]
pub struct ExIconDir(ico::IconDir);

/// The error of the standard library's readers, which the `ico` crate
/// reports its failures with.
#[verifier::external_type_specification]
#[verifier::external_body]
pub struct ExIoError(std::io::Error);

/// The error of the `image` crate.
#[verifier::external_type_specification]
#[verifier::external_body]
pub struct ExImageError(image::ImageError);

/// What an icon file holds: for each entry its width, its height, and
/// its pixels if the entry can be decoded. `None` for bytes that are no
/// icon file.
pub uninterp spec fn ico_file(bytes: Seq<u8>) -> Option<Seq<(u32, u32, Option<Seq<u8>>)>>;

/// The entries of an icon directory: for each its width, its height,
/// and its pixels if it can be decoded.
pub uninterp spec fn dir_entries(dir: ico::IconDir) -> Seq<(u32, u32, Option<Seq<u8>>)>;

/// The size, as width and height, of the image that a file of the kind
/// given holds. `None` for bytes that cannot be decoded as that kind.
pub uninterp spec fn decoded(bytes: Seq<u8>, kind: ImageKind) -> Option<(u32, u32)>;

/// `ico::IconDir::read`, on the bytes of a file. It yields the directory
/// that the bytes hold, or an error for bytes that are no icon file.
#[verifier::external_body]
pub(crate) fn read_icon_dir(bytes: &[u8]) -> (r: Result<ico::IconDir, std::io::Error>)
    ensures
        match r {
            Ok(dir) => ico_file(bytes@) == Some(dir_entries(dir)),
            Err(_) => ico_file(bytes@) is None,
        },
{
    ico::IconDir::read(std::io::Cursor::new(bytes))
}

/// `ico::IconDir::entries`, with `width` and `height` of each entry: the
/// sizes of the entries, in the order of the directory.
#[verifier::external_body]
pub(crate) fn entry_sizes(dir: &ico::IconDir) -> (sizes: Vec<(u32, u32)>)
    ensures
        sizes@.len() == dir_entries(*dir).len(),
        forall|i: int|
            0 <= i < sizes@.len() ==> #[trigger] sizes@[i] == (
                dir_entries(*dir)[i].0,
                dir_entries(*dir)[i].1,
            ),
{
    dir.entries().iter().map(|e| (e.width(), e.height())).collect()
}

/// `ico::IconDirEntry::decode`, on the entry at `index`. A decoded entry
/// has the size that the directory gives for it, and four bytes for every
/// pixel; an entry that cannot be decoded yields an error. The entry's
/// pixels take no more bytes than 32 bits can count, and so do the bits of
/// one of its rows at 32 bits to the pixel, rounded up to whole bytes: the
/// crate computes both in 32 bits.
#[verifier::external_body]
pub(crate) fn decode_entry(dir: &ico::IconDir, index: usize) -> (r: Result<
    RgbaImage,
    std::io::Error,
>)
    requires
        index < dir_entries(*dir).len(),
        4 * dir_entries(*dir)[index as int].0 * dir_entries(*dir)[index as int].1 <= u32::MAX,
        32 * dir_entries(*dir)[index as int].0 + 7 <= u32::MAX,
    ensures
        match r {
            Ok(img) => dir_entries(*dir)[index as int] == (img.width, img.height, Some(img.data@))
                && img.wf(),
            Err(_) => dir_entries(*dir)[index as int].2 is None,
        },
{
    let image = dir.entries()[index].decode()?;
    Ok(RgbaImage { width: image.width(), height: image.height(), data: image.rgba_data().to_vec() })
}

/// `image::load`, on the bytes of a file of the kind given, with the
/// result converted to eight-bit RGBA by `DynamicImage::to_rgba8`. A
/// decoded image has the size that the file gives and four bytes for every
/// pixel; bytes that cannot be decoded as the kind given yield an error.
/// Nothing is claimed of what the pixels are: a decoder may take one of
/// several paths, by what the processor offers.
#[verifier::external_body]
pub(crate) fn decode_as(bytes: &[u8], kind: ImageKind) -> (r: Result<RgbaImage, image::ImageError>)
    ensures
        match r {
            Ok(img) => decoded(bytes@, kind) == Some((img.width, img.height)) && img.wf(),
            Err(_) => decoded(bytes@, kind) is None,
        },
{
    let format = match kind {
        ImageKind::Png => image::ImageFormat::Png,
        ImageKind::Jpeg => image::ImageFormat::Jpeg,
        ImageKind::Gif => image::ImageFormat::Gif,
        ImageKind::Bmp => image::ImageFormat::Bmp,
        ImageKind::Ico => image::ImageFormat::Ico,
    };
    let image = image::load(std::io::Cursor::new(bytes), format)?.to_rgba8();
    Ok(RgbaImage { width: image.width(), height: image.height(), data: image.into_raw() })
}

/// `image::imageops::resize`, to a square of the side `size`, on the image
/// that `image::RgbaImage::from_raw` makes of the data. The result has four
/// bytes for every pixel of the square; nothing is claimed of what the
/// bytes are, since the filters are computed in floating point. The side
/// is not 0 and the square can be addressed: the crate panics on a buffer
/// that cannot.
#[verifier::external_body]
pub(crate) fn resize_rgba(img: &RgbaImage, size: u32, filter: ResizeFilter) -> (out: Vec<u8>)
    requires
        img.wf(),
        0 < size,
        4 * size * size <= usize::MAX,
    ensures
        out@.len() == 4 * size * size,
{
    let source = image::RgbaImage::from_raw(img.width, img.height, img.data.clone()).unwrap();
    let filter = match filter {
        ResizeFilter::CatmullRom => image::imageops::FilterType::CatmullRom,
        ResizeFilter::Lanczos3 => image::imageops::FilterType::Lanczos3,
    };
    image::imageops::resize(&source, size, size, filter).into_raw()
}

} // verus!
