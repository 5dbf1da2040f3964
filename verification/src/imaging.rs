//! Calls into the `image` crate: decoding, Lanczos resizing and PNG/WebP
//! encoding of RGBA buffers. Each result is named by a specification
//! function of the call's arguments; the verified code around these calls
//! decides when each is made and with what.

use vstd::prelude::*;

verus! {

/// An RGBA buffer of `len` bytes holds a `width` x `height` image
/// (`RgbaImage::from_raw` accepts it): `4 * width * height <= len`.
pub open spec fn rgba_fits(width: u32, height: u32, len: nat) -> bool {
    4 * ((width as nat) * (height as nat)) <= len
}

/// An RGBA buffer of `len` bytes holds exactly a `width` x `height` image:
/// `4 * width * height == len`.
pub open spec fn rgba_exact(width: u32, height: u32, len: nat) -> bool {
    4 * ((width as nat) * (height as nat)) == len
}

/// Checks [`rgba_fits`].
pub fn rgba_buffer_fits(width: u32, height: u32, len: usize) -> (r: bool)
    ensures
        r == rgba_fits(width, height, len as nat),
{
    assert((width as nat) * (height as nat) <= 0xffff_ffff * 0xffff_ffff) by (nonlinear_arith)
        requires
            width <= 0xffff_ffff,
            height <= 0xffff_ffff,
    ;
    let need: u128 = 4u128 * ((width as u128) * (height as u128));
    need <= len as u128
}

/// An image decoded to 8-bit RGBA.
#[derive(Debug)]
pub struct DecodedImage {
    pub width: u32,
    pub height: u32,
    pub rgba: Vec<u8>,
}

/// Why decoding failed, with the `image` crate's message.
#[derive(Debug)]
pub enum DecodeFailure {
    /// The format could not be guessed from the bytes.
    GuessFormat(String),
    /// The bytes could not be decoded.
    Decode(String),
}

/// The mathematical view of a decoding outcome.
pub enum DecodeOutcome {
    Decoded(u32, u32, Seq<u8>),
    GuessFormatFailed(Seq<char>),
    DecodeFailed(Seq<char>),
}

/// What `ImageReader::new(Cursor::new(bytes)).with_guessed_format()`,
/// `.decode()` and `.to_rgba8()` make of `bytes`.
pub uninterp spec fn decoded_image(bytes: Seq<u8>) -> DecodeOutcome;

/// The view of a [`decode_image`] result.
pub open spec fn decode_outcome_of(r: Result<DecodedImage, DecodeFailure>) -> DecodeOutcome {
    match r {
        Ok(img) => DecodeOutcome::Decoded(img.width, img.height, img.rgba@),
        Err(DecodeFailure::GuessFormat(m)) => DecodeOutcome::GuessFormatFailed(m@),
        Err(DecodeFailure::Decode(m)) => DecodeOutcome::DecodeFailed(m@),
    }
}

/// Decodes an encoded image (PNG, WebP, JPEG) to RGBA with the `image`
/// crate (`ImageReader::with_guessed_format`, `decode`, `to_rgba8`). The
/// decoder fills a buffer of exactly `width * height` pixels, so the RGBA
/// bytes are exactly `4 * width * height`.
#[verifier::external_body]
pub(crate) fn decode_image(bytes: &[u8]) -> (r: Result<DecodedImage, DecodeFailure>)
    ensures
        decode_outcome_of(r) == decoded_image(bytes@),
        r matches Ok(img) ==> rgba_exact(img.width, img.height, img.rgba@.len()),
{
    let reader = image::ImageReader::new(std::io::Cursor::new(bytes))
        .with_guessed_format()
        .map_err(|e| DecodeFailure::GuessFormat(e.to_string()))?;
    let img = reader.decode().map_err(|e| DecodeFailure::Decode(e.to_string()))?;
    let rgba = img.to_rgba8();
    let (width, height) = rgba.dimensions();
    Ok(DecodedImage { width, height, rgba: rgba.into_raw() })
}

/// What `DynamicImage::resize_exact(target_w, target_h, Lanczos3)` makes of
/// the RGBA image `rgba` of size `width` x `height`.
pub uninterp spec fn lanczos3_resized(
    width: u32,
    height: u32,
    rgba: Seq<u8>,
    target_w: u32,
    target_h: u32,
) -> Seq<u8>;

/// Resizes an RGBA image to exactly `target_w` x `target_h` with the
/// Lanczos3 filter (`DynamicImage::resize_exact`). The result is a fresh
/// buffer of exactly `4 * target_w * target_h` bytes.
#[verifier::external_body]
pub(crate) fn resize_lanczos3(rgba: &[u8], width: u32, height: u32, target_w: u32, target_h: u32) -> (r:
    Vec<u8>)
    requires
        rgba_fits(width, height, rgba@.len()),
    ensures
        r@ == lanczos3_resized(width, height, rgba@, target_w, target_h),
        r@.len() == 4 * ((target_w as nat) * (target_h as nat)),
{
    let buffer = image::RgbaImage::from_raw(width, height, rgba.to_vec()).unwrap();
    image::DynamicImage::ImageRgba8(buffer).resize_exact(
        target_w,
        target_h,
        image::imageops::FilterType::Lanczos3,
    ).to_rgba8().into_raw()
}

/// What writing the RGBA image `rgba` (`width` x `height`) as PNG with
/// `DynamicImage::write_to` produces: the bytes, or the error's message.
pub uninterp spec fn png_encoding(width: u32, height: u32, rgba: Seq<u8>) -> Result<
    Seq<u8>,
    Seq<char>,
>;

/// What writing the RGBA image `rgba` (`width` x `height`) as WebP with
/// `DynamicImage::write_to` produces: the bytes, or the error's message.
pub uninterp spec fn webp_encoding(width: u32, height: u32, rgba: Seq<u8>) -> Result<
    Seq<u8>,
    Seq<char>,
>;

/// The view of an encoding result.
pub open spec fn encoded_view(r: Result<Vec<u8>, String>) -> Result<Seq<u8>, Seq<char>> {
    match r {
        Ok(b) => Ok(b@),
        Err(m) => Err(m@),
    }
}

/// Encodes an RGBA image as PNG (`DynamicImage::write_to`, `ImageFormat::Png`).
/// The encoder asserts that it is handed exactly the image's bytes, so the
/// buffer holds exactly `4 * width * height` bytes. Writing into memory
/// cannot fail, so the only refusal is the PNG encoder's check of a zero
/// width or height.
#[verifier::external_body]
pub(crate) fn encode_png_bytes(rgba: &[u8], width: u32, height: u32) -> (r: Result<Vec<u8>, String>)
    requires
        rgba_exact(width, height, rgba@.len()),
    ensures
        encoded_view(r) == png_encoding(width, height, rgba@),
        r is Ok <==> (width >= 1 && height >= 1),
{
    let buffer = image::RgbaImage::from_raw(width, height, rgba.to_vec()).unwrap();
    let mut cursor = std::io::Cursor::new(Vec::new());
    image::DynamicImage::ImageRgba8(buffer).write_to(&mut cursor, image::ImageFormat::Png).map_err(
        |e| e.to_string(),
    )?;
    Ok(cursor.into_inner())
}

/// Encodes an RGBA image as WebP (`DynamicImage::write_to`, `ImageFormat::WebP`).
/// The encoder asserts that it is handed exactly the image's bytes, so the
/// buffer holds exactly `4 * width * height` bytes. Writing into memory
/// cannot fail, so the only refusal is the lossless WebP encoder's check that
/// each side lies in `1..=16384`.
#[verifier::external_body]
pub(crate) fn encode_webp_bytes(rgba: &[u8], width: u32, height: u32) -> (r: Result<Vec<u8>, String>)
    requires
        rgba_exact(width, height, rgba@.len()),
    ensures
        encoded_view(r) == webp_encoding(width, height, rgba@),
        r is Ok <==> (1 <= width <= 16384 && 1 <= height <= 16384),
{
    let buffer = image::RgbaImage::from_raw(width, height, rgba.to_vec()).unwrap();
    let mut cursor = std::io::Cursor::new(Vec::new());
    image::DynamicImage::ImageRgba8(buffer).write_to(&mut cursor, image::ImageFormat::WebP).map_err(
        |e| e.to_string(),
    )?;
    Ok(cursor.into_inner())
}

} // verus!
