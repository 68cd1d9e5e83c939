//! Encoded images: PNG and ICO through the `image` crate, Base64 through the
//! `base64` crate, and the data URIs that carry an icon to the views.

use base64::Engine;
use image::ImageEncoder;
use vstd::prelude::*;
use crate::bitmap::Bitmap;
use crate::text::{joined, opt_view};

verus! {

/// The Base64 text of a byte sequence, standard alphabet, padded.
pub uninterp spec fn base64_of(bytes: Seq<u8>) -> Seq<char>;

/// The PNG file that holds the given RGBA pixels, where one can be written.
pub uninterp spec fn png_of(pixels: Seq<u8>, width: u32, height: u32) -> Option<Seq<u8>>;

/// The image that an ICO file holds, as width, height and RGBA pixels, where
/// the file can be decoded.
pub uninterp spec fn ico_image_of(bytes: Seq<u8>) -> Option<(u32, u32, Seq<u8>)>;

/// An image as RGBA pixels, row by row.
#[derive(Debug, PartialEq)]
pub struct RgbaImage {
    pub width: u32,
    pub height: u32,
    pub pixels: Vec<u8>,
}

/// Whether the Base64 text of `len` bytes has a length that fits in `usize`.
pub open spec fn base64_fits(len: int) -> bool {
    len / 3 * 4 + 4 <= usize::MAX
}

/// A data URI: the prefix that names the media type, then the Base64 text of
/// the bytes.
pub open spec fn data_uri_of(prefix: Seq<char>, bytes: Seq<u8>) -> Option<Seq<char>> {
    if base64_fits(bytes.len() as int) {
        Some(prefix + base64_of(bytes))
    } else {
        None
    }
}

/// The PNG data URI of RGBA pixels.
pub open spec fn png_uri_of(pixels: Seq<u8>, width: u32, height: u32) -> Option<Seq<char>> {
    if pixels.len() != 4 * width * height {
        None
    } else {
        match png_of(pixels, width, height) {
            Some(png) => data_uri_of(PNG_PREFIX@, png),
            None => None,
        }
    }
}

/// The PNG data URI of the image in an ICO file.
pub open spec fn ico_uri_of(bytes: Seq<u8>) -> Option<Seq<char>> {
    match ico_image_of(bytes) {
        Some((width, height, pixels)) => png_uri_of(pixels, width, height),
        None => None,
    }
}

/// The PNG data URI of a native bitmap.
pub open spec fn bitmap_uri_of(bitmap: Bitmap) -> Option<Seq<char>> {
    if bitmap.convertible() {
        png_uri_of(bitmap.rgba(), bitmap.width, bitmap.height)
    } else {
        None
    }
}

/// What begins the data URI of a PNG image.
pub const PNG_PREFIX: &'static str = "data:image/png;base64,";

/// What begins the data URI of a site icon.
pub const ICON_PREFIX: &'static str = "data:image/x-icon;base64,";

/// Base64 text of bytes.
///
/// Trusted: `Engine::encode` of `base64::engine::general_purpose::STANDARD`
/// depends on the bytes alone; its result is named `base64_of`. The call
/// panics when the length of the text overflows, which `requires` rules out.
#[verifier::external_body]
fn base64_encode(bytes: &Vec<u8>) -> (r: String)
    requires
        base64_fits(bytes@.len() as int),
    ensures
        r@ == base64_of(bytes@),
{
    base64::engine::general_purpose::STANDARD.encode(bytes)
}

/// PNG file of RGBA pixels.
///
/// Trusted: `ImageEncoder::write_image` of `image::codecs::png::PngEncoder`,
/// called with `ColorType::Rgba8`, writes a file that depends on the pixels
/// and the dimensions alone, or fails; the outcome is named `png_of`. The
/// call panics unless there are four bytes for each pixel, which `requires`
/// asks for.
#[verifier::external_body]
fn encode_png(pixels: &Vec<u8>, width: u32, height: u32) -> (r: Option<Vec<u8>>)
    requires
        pixels@.len() == 4 * width * height,
    ensures
        match r {
            Some(png) => png_of(pixels@, width, height) == Some(png@),
            None => png_of(pixels@, width, height) is None,
        },
{
    let mut png: Vec<u8> = Vec::new();
    let encoder = image::codecs::png::PngEncoder::new(&mut png);
    match encoder.write_image(pixels, width, height, image::ColorType::Rgba8) {
        Ok(()) => Some(png),
        Err(_) => None,
    }
}

/// Image of an ICO file.
///
/// Trusted: `image::load_from_memory_with_format` with `ImageFormat::Ico`,
/// followed by `DynamicImage::to_rgba8`, yields an image that depends on the
/// bytes alone, or fails; the outcome is named `ico_image_of`.
#[verifier::external_body]
fn decode_ico(bytes: &Vec<u8>) -> (r: Option<RgbaImage>)
    ensures
        match r {
            Some(img) => ico_image_of(bytes@) == Some((img.width, img.height, img.pixels@)),
            None => ico_image_of(bytes@) is None,
        },
{
    match image::load_from_memory_with_format(bytes, image::ImageFormat::Ico) {
        Ok(decoded) => {
            let rgba = decoded.to_rgba8();
            Some(RgbaImage { width: rgba.width(), height: rgba.height(), pixels: rgba.into_raw() })
        },
        Err(_) => None,
    }
}

/// Puts a media-type prefix before an encoded text.
pub fn frame_data_uri(prefix: &str, encoded: &str) -> (uri: String)
    ensures
        uri@ == prefix@ + encoded@,
{
    joined(prefix, encoded)
}

/// Whether the Base64 text of `len` bytes has a length that fits in `usize`.
pub fn fits_base64(len: usize) -> (r: bool)
    ensures
        r == base64_fits(len as int),
{
    len / 3 <= (usize::MAX - 4) / 4
}

/// The data URI of bytes under the given prefix. Fails only when the bytes
/// are too many for their Base64 text to be held.
pub fn data_uri(prefix: &str, bytes: &Vec<u8>) -> (uri: Option<String>)
    ensures
        opt_view(uri) == data_uri_of(prefix@, bytes@),
{
    if fits_base64(bytes.len()) {
        let encoded = base64_encode(bytes);
        Some(frame_data_uri(prefix, encoded.as_str()))
    } else {
        None
    }
}

/// The data URI of a site icon, whatever its format.
pub fn site_icon_data_uri(bytes: &Vec<u8>) -> (uri: Option<String>)
    ensures
        opt_view(uri) == data_uri_of(ICON_PREFIX@, bytes@),
{
    data_uri(ICON_PREFIX, bytes)
}

/// Whether `len` bytes hold four bytes for each pixel of the image.
pub fn is_rgba_len(len: usize, width: u32, height: u32) -> (r: bool)
    ensures
        r == (len == 4 * width * height),
{
    let w: u128 = width as u128;
    let h: u128 = height as u128;
    assert(w * h <= 0xFFFF_FFFF * 0xFFFF_FFFF) by (nonlinear_arith)
        requires
            0 <= w <= 0xFFFF_FFFF,
            0 <= h <= 0xFFFF_FFFF,
    ;
    assert(4 * width * height == 4 * (w * h)) by (nonlinear_arith)
        requires
            w == width,
            h == height,
    ;
    len as u128 == 4 * (w * h)
}

/// The PNG data URI of RGBA pixels. Fails when the pixels do not match the
/// dimensions, when no PNG can be written, or when the file is too large to
/// be encoded.
pub fn png_data_uri(pixels: &Vec<u8>, width: u32, height: u32) -> (uri: Option<String>)
    ensures
        opt_view(uri) == png_uri_of(pixels@, width, height),
{
    if !is_rgba_len(pixels.len(), width, height) {
        return None;
    }
    match encode_png(pixels, width, height) {
        Some(png) => data_uri(PNG_PREFIX, &png),
        None => None,
    }
}

/// The PNG data URI of the image in an ICO file.
pub fn ico_data_uri(bytes: &Vec<u8>) -> (uri: Option<String>)
    ensures
        opt_view(uri) == ico_uri_of(bytes@),
{
    match decode_ico(bytes) {
        Some(img) => png_data_uri(&img.pixels, img.width, img.height),
        None => None,
    }
}

/// The PNG data URI of a native bitmap.
pub fn bitmap_data_uri(bitmap: &Bitmap) -> (uri: Option<String>)
    ensures
        opt_view(uri) == bitmap_uri_of(*bitmap),
{
    match bitmap.to_rgba() {
        Some(pixels) => png_data_uri(&pixels, bitmap.width, bitmap.height),
        None => None,
    }
}

/// Whatever image a PNG data URI carries, it begins with the prefix of its
/// media type.
pub proof fn lemma_png_uri_begins_with_prefix(pixels: Seq<u8>, width: u32, height: u32)
    ensures
        png_uri_of(pixels, width, height) matches Some(uri) ==> crate::text::starts_with(
            uri,
            PNG_PREFIX@,
        ),
{
    match png_uri_of(pixels, width, height) {
        Some(uri) => {
            let png = png_of(pixels, width, height)->0;
            assert(uri == PNG_PREFIX@ + base64_of(png));
            assert(uri.subrange(0, PNG_PREFIX@.len() as int) =~= PNG_PREFIX@);
        },
        None => {},
    }
}

} // verus!
