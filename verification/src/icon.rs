//! The application icon: a PNG decoded to 8-bit RGBA pixels, and the tray
//! icon resampled to 32 by 32 pixels, both with the `image` crate.

use vstd::prelude::*;
use vstd::string::*;

verus! {

/// An RGBA image with 8 bits per channel, rows top to bottom, four bytes
/// per pixel.
#[derive(Debug)]
pub struct RgbaImage {
    pub rgba: Vec<u8>,
    pub width: u32,
    pub height: u32,
}

impl RgbaImage {
    /// Whether the buffer holds exactly four bytes for each pixel.
    pub open spec fn well_formed(&self) -> bool {
        self.rgba@.len() == self.width as int * self.height as int * 4
    }
}

/// Whether `rgba` (`width` by `height` pixels) is a decoding of `png` to
/// 8-bit RGBA by `image::load_from_memory` and `into_rgba8`. This is a
/// relation, not a function: which of the possible decodings comes back is
/// left open (the crate consults hooks that any code in the process may
/// register).
pub uninterp spec fn rgba8_decoding(png: Seq<u8>, rgba: Seq<u8>, width: u32, height: u32) -> bool;

/// Whether `out` is a Lanczos3 resampling by `image::imageops::resize` of
/// the image `src` (`src_width` by `src_height` pixels) to `new_width` by
/// `new_height` pixels. A relation, not a function: the filter's weights
/// come from `f32::sin`, whose precision std leaves unspecified.
pub uninterp spec fn lanczos3_resample(
    src: Seq<u8>,
    src_width: u32,
    src_height: u32,
    new_width: u32,
    new_height: u32,
    out: Seq<u8>,
) -> bool;

/// Side length of the tray icon in pixels.
pub const TRAY_ICON_SIZE: u32 = 32;

/// Decodes an encoded image with `image::load_from_memory` (format guessed
/// from the bytes) and converts it with `DynamicImage::into_rgba8`. The
/// contract claims that a decoded image is a decoding of the given bytes
/// ([`rgba8_decoding`]) and that its buffer holds exactly four bytes per
/// pixel, as the built-in decoders allocate it. It does not claim which
/// image or error comes back: the crate first consults format-detection and
/// decoding hooks that any code in the process may register, so the same
/// bytes need not decode the same way twice.
#[verifier::external_body]
fn load_rgba8(png: &[u8]) -> (r: Result<RgbaImage, String>)
    ensures
        r matches Ok(img) ==> img.well_formed() && rgba8_decoding(png@, img.rgba@, img.width, img.height),
{
    match image::load_from_memory(png) {
        Ok(decoded) => {
            let buffer = decoded.into_rgba8();
            let (width, height) = buffer.dimensions();
            Ok(RgbaImage { rgba: buffer.into_raw(), width, height })
        },
        Err(e) => Err(e.to_string()),
    }
}

/// Resamples an RGBA image with `image::imageops::resize` and the Lanczos3
/// filter. The contract claims the new size, a buffer of exactly four
/// bytes per pixel (the crate allocates the output with
/// `ImageBuffer::new`), and that an image already of the new size comes
/// back as a copy (the crate copies it without resampling), and that the
/// output is a resampling of the input ([`lanczos3_resample`]). It does not
/// fix the pixel values: the filter's weights come from `f32::sin`, whose
/// precision std leaves unspecified, so two calls on the same image need
/// not give the same pixels. The `requires` keeps the crate's
/// intermediate 32-bit float buffer within memory limits.
#[verifier::external_body]
fn resize_lanczos3(img: &RgbaImage, new_width: u32, new_height: u32) -> (r: RgbaImage)
    requires
        img.well_formed(),
        new_width as int * new_height as int * 16 <= isize::MAX,
        img.width as int * new_height as int * 16 <= isize::MAX,
    ensures
        r.width == new_width,
        r.height == new_height,
        r.well_formed(),
        img.width == new_width && img.height == new_height ==> r.rgba@ == img.rgba@,
        lanczos3_resample(img.rgba@, img.width, img.height, new_width, new_height, r.rgba@),
{
    let buffer = image::RgbaImage::from_raw(img.width, img.height, img.rgba.clone()).unwrap();
    let resized = image::imageops::resize(&buffer, new_width, new_height, image::imageops::FilterType::Lanczos3);
    let (width, height) = resized.dimensions();
    RgbaImage { rgba: resized.into_raw(), width, height }
}

/// The window icon: the embedded PNG decoded to RGBA at its own size, or
/// the decoder's error text.
pub fn app_icon(png: &[u8]) -> (r: Result<RgbaImage, String>)
    ensures
        r matches Ok(img) ==> img.well_formed() && rgba8_decoding(png@, img.rgba@, img.width, img.height),
{
    load_rgba8(png)
}

/// Bytes of the resampler's intermediate buffer per source column: one
/// 16-byte float pixel for each of the icon's rows.
pub const RESAMPLE_BYTES_PER_COLUMN: u32 = 512;

/// Whether an image `width` pixels wide can be resampled to the tray icon
/// on this machine (always on a 64-bit machine).
pub open spec fn resamplable(width: u32) -> bool {
    width as int * RESAMPLE_BYTES_PER_COLUMN <= isize::MAX
}

/// Text of the error for an image too wide to resample.
pub open spec fn too_wide_text() -> Seq<char> {
    "image too wide to resample"@
}

/// The tray icon made from a decoded image: resampled to
/// [`TRAY_ICON_SIZE`] pixels square (small icons suit the tray best), and
/// the image itself when it already has that size. For other sizes the
/// icon is a Lanczos3 resampling of the image, whose pixel values are not
/// fixed (see the resampling call).
pub fn tray_icon_from(decoded: &RgbaImage) -> (r: Result<RgbaImage, String>)
    requires
        decoded.well_formed(),
    ensures
        resamplable(decoded.width) ==> (r matches Ok(icon) && {
            &&& icon.width == TRAY_ICON_SIZE
            &&& icon.height == TRAY_ICON_SIZE
            &&& icon.well_formed()
            &&& lanczos3_resample(decoded.rgba@, decoded.width, decoded.height, TRAY_ICON_SIZE, TRAY_ICON_SIZE, icon.rgba@)
            &&& (decoded.width == TRAY_ICON_SIZE && decoded.height == TRAY_ICON_SIZE ==> icon.rgba@
                == decoded.rgba@)
        }),
        !resamplable(decoded.width) ==> (r matches Err(msg) && msg@ == too_wide_text()),
{
    let limit: usize = (isize::MAX as usize) / (RESAMPLE_BYTES_PER_COLUMN as usize);
    assert(limit as int == isize::MAX as int / RESAMPLE_BYTES_PER_COLUMN as int);
    if decoded.width as usize > limit {
        assert(decoded.width as int * RESAMPLE_BYTES_PER_COLUMN > isize::MAX);
        return Err(String::from_str("image too wide to resample"));
    }
    assert(decoded.width as int * RESAMPLE_BYTES_PER_COLUMN <= isize::MAX);
    Ok(resize_lanczos3(decoded, TRAY_ICON_SIZE, TRAY_ICON_SIZE))
}

/// The tray icon: the embedded PNG decoded to RGBA and made into the tray
/// icon by [`tray_icon_from`]; the decoder's error text when the PNG cannot
/// be decoded, or the too-wide error. A successful result is a well-formed
/// [`TRAY_ICON_SIZE`]-square resampling of some decoding of `png`; a
/// decoding already of that size is the icon itself.
pub fn load_tray_icon(png: &[u8]) -> (r: Result<RgbaImage, String>)
    ensures
        r matches Ok(icon) ==> {
            &&& icon.width == TRAY_ICON_SIZE
            &&& icon.height == TRAY_ICON_SIZE
            &&& icon.well_formed()
            &&& exists|rgba: Seq<u8>, width: u32, height: u32| {
                &&& rgba8_decoding(png@, rgba, width, height)
                &&& rgba.len() == width as int * height as int * 4
                &&& resamplable(width)
                &&& #[trigger] lanczos3_resample(rgba, width, height, TRAY_ICON_SIZE, TRAY_ICON_SIZE, icon.rgba@)
                &&& (width == TRAY_ICON_SIZE && height == TRAY_ICON_SIZE ==> icon.rgba@ == rgba)
            }
        },
{
    match load_rgba8(png) {
        Ok(image) => tray_icon_from(&image),
        Err(e) => Err(e),
    }
}

} // verus!
