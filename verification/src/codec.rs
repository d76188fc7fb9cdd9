//! Decoding frame bytes into frames and encoding rendered frames as PNG.
//!
//! The codecs of the image library do the byte-level work; the library
//! states what they hand back and builds its own plain-value types from it.

use vstd::prelude::*;
use crate::errors::AsciiError;
use crate::frame::Frame;
use crate::frame::rgba_pixel;

verus! {

/// What the image decoder makes of a byte string: nothing where the bytes
/// are not a decodable image, else the width, the height, and the row-major
/// RGBA samples.  The decoding is a function of the bytes alone.
pub uninterp spec fn decoded_rgba(bytes: Seq<u8>) -> Option<(u32, u32, Seq<u8>)>;

/// What the PNG encoder writes for a row-major RGB image of the given size:
/// a function of the dimensions and the samples alone.
pub uninterp spec fn png_of(width: u32, height: u32, rgb: Seq<u8>) -> Seq<u8>;

/// Relies on image::load_from_memory and DynamicImage::to_rgba8: guesses the
/// format from the bytes alone, decodes, and converts to row-major RGBA with
/// four bytes per pixel, so the samples are four bytes per decoded pixel.
#[verifier::external_body]
fn decode_rgba(bytes: &Vec<u8>) -> (r: Result<(u32, u32, Vec<u8>), AsciiError>)
    ensures
        match r {
            Ok((w, h, raw)) => decoded_rgba(bytes@) == Some((w, h, raw@)) && raw@.len() == 4 * (
            w as int) * (h as int),
            Err(e) => e == AsciiError::DecodeError && decoded_rgba(bytes@) is None,
        },
{
    match image::load_from_memory(bytes) {
        Ok(img) => {
            let buf = img.to_rgba8();
            let w = buf.width();
            let h = buf.height();
            Ok((w, h, buf.into_raw()))
        },
        Err(_) => Err(AsciiError::DecodeError),
    }
}

/// Relies on ImageBuffer::from_raw and ImageBuffer::write_to with the PNG
/// format: encodes row-major RGB samples, three bytes per pixel, into PNG
/// bytes, a function of the dimensions and the samples alone.  Writing goes
/// to an in-memory buffer, which cannot fail, and the PNG format rejects a
/// zero width or height, so encoding succeeds exactly on nonzero dimensions.
#[verifier::external_body]
fn encode_png(width: u32, height: u32, rgb: &Vec<u8>) -> (r: Result<Vec<u8>, AsciiError>)
    requires
        rgb@.len() == 3 * (width as int) * (height as int),
    ensures
        (r is Ok) == (width >= 1 && height >= 1),
        match r {
            Ok(out) => out@ == png_of(width, height, rgb@),
            Err(e) => e == AsciiError::EncodingError,
        },
{
    let img: image::RgbImage = match image::RgbImage::from_raw(width, height, rgb.clone()) {
        Some(img) => img,
        None => {
            return Err(AsciiError::EncodingError);
        },
    };
    let mut out = std::io::Cursor::new(Vec::new());
    match img.write_to(&mut out, image::ImageFormat::Png) {
        Ok(()) => Ok(out.into_inner()),
        Err(_) => Err(AsciiError::EncodingError),
    }
}

/// Decodes one frame's bytes into a frame of plain RGBA pixels.
pub fn decode_frame(bytes: &Vec<u8>) -> (r: Result<Frame, AsciiError>)
    ensures
        match r {
            Ok(f) => decoded_rgba(bytes@) matches Some((w, h, raw)) && f.spec_width() == w
                && f.spec_height() == h && (forall|x: int, y: int|
                0 <= x < w && 0 <= y < h ==> f.pixel_at(x, y) == rgba_pixel(
                    raw,
                    y * (w as int) + x,
                )),
            Err(e) => e == AsciiError::DecodeError && decoded_rgba(bytes@) is None,
        },
{
    match decode_rgba(bytes) {
        Ok((w, h, raw)) => Ok(Frame::from_rgba(w, h, &raw)),
        Err(e) => Err(e),
    }
}

/// Encodes row-major RGB samples, three bytes per pixel, as PNG bytes.
/// Encoding succeeds exactly when the samples have the one length that
/// describes an image of the given size and neither dimension is zero;
/// anything else is rejected.
pub fn encode_frame(width: u32, height: u32, rgb: &Vec<u8>) -> (r: Result<Vec<u8>, AsciiError>)
    ensures
        (r is Ok) == (rgb@.len() == 3 * (width as int) * (height as int) && width >= 1 && height
            >= 1),
        match r {
            Ok(out) => out@ == png_of(width, height, rgb@),
            Err(e) => e == AsciiError::EncodingError,
        },
{
    proof {
        assert(3 * (width as int) * (height as int) < u128::MAX) by (nonlinear_arith)
            requires
                0 <= width as int <= 0xffff_ffff,
                0 <= height as int <= 0xffff_ffff,
        ;
    }
    let expected: u128 = 3u128 * (width as u128) * (height as u128);
    if (rgb.len() as u128) != expected {
        return Err(AsciiError::EncodingError);
    }
    encode_png(width, height, rgb)
}

} // verus!
