//! Image encoding: serializes a normalized RGBA pixel buffer into one of the
//! supported container formats.
//!
//! The encoders themselves come from outside crates; each is reached through
//! one trusted wrapper whose contract names the byte sequence it produces as
//! a function of the pixel data and dimensions alone.

use vstd::prelude::*;

use crate::CaptureErrorKind;
use crate::OutputFormat;

verus! {

/// The PNG stream that encoding an RGBA buffer of the given dimensions
/// produces.
pub uninterp spec fn png_bytes_of(pixels: Seq<u8>, width: u32, height: u32) -> Seq<u8>;

/// The JPEG stream (implementation-default quality) that encoding an RGBA
/// buffer of the given dimensions produces.
pub uninterp spec fn jpeg_bytes_of(pixels: Seq<u8>, width: u32, height: u32) -> Seq<u8>;

/// The lossless WebP stream that encoding an RGBA buffer of the given
/// dimensions produces.
pub uninterp spec fn webp_lossless_bytes_of(pixels: Seq<u8>, width: u32, height: u32) -> Seq<u8>;

/// The WebP container refuses either dimension above this bound.
pub const WEBP_MAX_DIMENSION: u32 = 16383;

/// Dimensions the WebP encoder accepts: both sides positive and within the
/// format's hard limit.
pub open spec fn webp_dims_ok(width: u32, height: u32) -> bool {
    1 <= width <= WEBP_MAX_DIMENSION && 1 <= height <= WEBP_MAX_DIMENSION
}

/// The byte stream the chosen format's encoder produces for an RGBA buffer.
pub open spec fn spec_encoded(
    format: OutputFormat,
    pixels: Seq<u8>,
    width: u32,
    height: u32,
) -> Seq<u8> {
    match format {
        OutputFormat::Png => png_bytes_of(pixels, width, height),
        OutputFormat::Jpeg => jpeg_bytes_of(pixels, width, height),
        OutputFormat::WebP => webp_lossless_bytes_of(pixels, width, height),
    }
}

/// Whether the buffer holds exactly `width * height` 4-byte pixels.
pub fn buffer_matches_dims(data: &Vec<u8>, width: u32, height: u32) -> (r: bool)
    ensures
        r == (data@.len() == width * height * 4),
{
    proof {
        assert((width as int) * (height as int) <= 0xffff_ffff * 0xffff_ffff)
            by (nonlinear_arith)
            requires
                width <= 0xffff_ffffu32,
                height <= 0xffff_ffffu32,
        ;
    }
    let expected: u128 = (width as u128) * (height as u128) * 4;
    (data.len() as u128) == expected
}

/// Relies on `image::codecs::png::PngEncoder` (via `ImageEncoder::write_image`
/// with 8-bit RGBA color): on success the output holds exactly the PNG stream
/// for this buffer, a function of the data and dimensions alone.
#[verifier::external_body]
fn encode_png_rgba(data: &Vec<u8>, width: u32, height: u32) -> (r: Option<Vec<u8>>)
    requires
        data@.len() == width * height * 4,
    ensures
        r matches Some(b) ==> b@ == png_bytes_of(data@, width, height),
{
    let mut out: Vec<u8> = Vec::new();
    let enc = image::codecs::png::PngEncoder::new(&mut out);
    match image::ImageEncoder::write_image(enc, data.as_slice(), width, height, image::ColorType::Rgba8) {
        Ok(()) => Some(out),
        Err(_) => None,
    }
}

/// Relies on `image::codecs::jpeg::JpegEncoder::encode` with 8-bit RGBA color
/// and the encoder's default quality: on success the output holds exactly the
/// JPEG stream for this buffer, a function of the data and dimensions alone.
/// The length precondition keeps the call off the encoder's own size check,
/// which panics on a mismatch.
#[verifier::external_body]
fn encode_jpeg_rgba(data: &Vec<u8>, width: u32, height: u32) -> (r: Option<Vec<u8>>)
    requires
        data@.len() == width * height * 4,
    ensures
        r matches Some(b) ==> b@ == jpeg_bytes_of(data@, width, height),
{
    let mut out: Vec<u8> = Vec::new();
    let mut enc = image::codecs::jpeg::JpegEncoder::new(&mut out);
    match enc.encode(data.as_slice(), width, height, image::ColorType::Rgba8) {
        Ok(()) => Some(out),
        Err(_) => None,
    }
}

/// Relies on `webp::Encoder::encode_lossless` over an RGBA pixel layout: the
/// output holds exactly the lossless WebP stream for this buffer, a function
/// of the data and dimensions alone. The preconditions keep the call off the
/// two paths on which that crate panics: a buffer shorter than the stated
/// dimensions, and dimensions the format itself rejects (zero, or above
/// `WEBP_MAX_DIMENSION` on either side).
#[verifier::external_body]
fn encode_webp_lossless_rgba(data: &Vec<u8>, width: u32, height: u32) -> (r: Vec<u8>)
    requires
        data@.len() == width * height * 4,
        webp_dims_ok(width, height),
    ensures
        r@ == webp_lossless_bytes_of(data@, width, height),
{
    let enc = webp::Encoder::new(data.as_slice(), webp::PixelLayout::Rgba, width, height);
    enc.encode_lossless().to_vec()
}

/// Serializes a normalized RGBA buffer in the chosen container format.
///
/// A buffer whose length does not match the stated dimensions is rejected
/// before any encoder runs, as are dimensions the WebP container cannot
/// represent; every other WebP request succeeds. A PNG or JPEG request
/// either yields that format's stream for this buffer or reports that the
/// encoder rejected the data; nothing partial is ever returned.
pub fn encode(data: &Vec<u8>, width: u32, height: u32, format: &OutputFormat) -> (r: Result<
    Vec<u8>,
    CaptureErrorKind,
>)
    ensures
        data@.len() != width * height * 4 ==> r == Err::<Vec<u8>, CaptureErrorKind>(
            CaptureErrorKind::EncodeError,
        ),
        r matches Ok(b) ==> data@.len() == width * height * 4 && b@ == spec_encoded(
            *format,
            data@,
            width,
            height,
        ),
        r is Err ==> r == Err::<Vec<u8>, CaptureErrorKind>(CaptureErrorKind::EncodeError),
        data@.len() == width * height * 4 && *format is WebP && webp_dims_ok(width, height)
            ==> r is Ok,
        *format is WebP && !webp_dims_ok(width, height) ==> r == Err::<Vec<u8>, CaptureErrorKind>(
            CaptureErrorKind::EncodeError,
        ),
{
    if !buffer_matches_dims(data, width, height) {
        return Err(CaptureErrorKind::EncodeError);
    }
    match format {
        OutputFormat::Png => match encode_png_rgba(data, width, height) {
            Some(b) => Ok(b),
            None => Err(CaptureErrorKind::EncodeError),
        },
        OutputFormat::Jpeg => match encode_jpeg_rgba(data, width, height) {
            Some(b) => Ok(b),
            None => Err(CaptureErrorKind::EncodeError),
        },
        OutputFormat::WebP => {
            if width >= 1 && width <= WEBP_MAX_DIMENSION && height >= 1 && height
                <= WEBP_MAX_DIMENSION {
                Ok(encode_webp_lossless_rgba(data, width, height))
            } else {
                Err(CaptureErrorKind::EncodeError)
            }
        },
    }
}

} // verus!
