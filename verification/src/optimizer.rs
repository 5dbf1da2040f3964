//! Image optimization for LLM input: resize to the universal long-edge cap
//! and encode as WebP.

use vstd::prelude::*;
use vstd::slice::slice_to_vec;
use crate::imaging::{encode_webp_bytes, resize_lanczos3, rgba_buffer_fits};
use crate::sizing::calculate_optimal_dimensions;
use crate::text::string_of;

verus! {

/// Default WebP quality (1-100); 85 keeps text legible at screenshot sizes.
pub const DEFAULT_QUALITY: u8 = 85;

/// Options for image optimization.
#[derive(Debug, Clone)]
pub struct OptimizeOptions {
    pub quality: u8,
}

impl Default for OptimizeOptions {
    fn default() -> (r: Self)
        ensures
            r.quality == DEFAULT_QUALITY,
    {
        OptimizeOptions { quality: DEFAULT_QUALITY }
    }
}

/// Result of image optimization: the encoded bytes and the RGBA pixels of
/// the resized image, with its dimensions.
#[derive(Debug)]
pub struct OptimizeResult {
    /// Encoded image bytes (WebP) for LLM input.
    pub encoded: Vec<u8>,
    /// RGBA pixel data of the resized image (for the clipboard, without a re-decode).
    pub rgba: Vec<u8>,
    pub width: u32,
    pub height: u32,
}

/// Why image processing failed.
#[derive(Debug)]
pub enum PipelineError {
    /// The input is not a usable image.
    InvalidImage(String),
    /// The format is not supported.
    UnsupportedFormat(String),
    /// The `image` crate failed (its message).
    ProcessingFailed(String),
}

/// The mathematical view of a [`PipelineError`].
pub enum PipelineErrorView {
    InvalidImage(Seq<char>),
    UnsupportedFormat(Seq<char>),
    ProcessingFailed(Seq<char>),
}

impl View for PipelineError {
    type V = PipelineErrorView;

    open spec fn view(&self) -> PipelineErrorView {
        match self {
            PipelineError::InvalidImage(m) => PipelineErrorView::InvalidImage(m@),
            PipelineError::UnsupportedFormat(m) => PipelineErrorView::UnsupportedFormat(m@),
            PipelineError::ProcessingFailed(m) => PipelineErrorView::ProcessingFailed(m@),
        }
    }
}

/// The description of a pipeline error.
pub open spec fn pipeline_error_message(e: PipelineErrorView) -> Seq<char> {
    match e {
        PipelineErrorView::InvalidImage(m) => "Invalid image data: "@ + m,
        PipelineErrorView::UnsupportedFormat(m) => "Unsupported format: "@ + m,
        PipelineErrorView::ProcessingFailed(m) => "Image processing failed: "@ + m,
    }
}

impl PipelineError {
    /// The human-readable description of the error.
    pub fn message(&self) -> (r: String)
        ensures
            r@ == pipeline_error_message(self@),
    {
        let (prefix, detail) = match self {
            PipelineError::InvalidImage(m) => ("Invalid image data: ", m),
            PipelineError::UnsupportedFormat(m) => ("Unsupported format: ", m),
            PipelineError::ProcessingFailed(m) => ("Image processing failed: ", m),
        };
        let mut out = String::from_str(prefix);
        out.append(detail.as_str());
        out
    }
}

/// The pixels an optimized image is made of: the Lanczos3 resize when the
/// target size differs from the input, else the input buffer as it is.
pub open spec fn optimized_pixels(rgba: Seq<u8>, width: u32, height: u32) -> Seq<u8> {
    let (tw, th) = crate::sizing::spec_optimal_dimensions(width, height);
    if tw != width || th != height {
        crate::imaging::lanczos3_resized(width, height, rgba, tw, th)
    } else {
        rgba
    }
}

/// The inputs [`optimize_image`] takes: where the image needs no resize, its
/// buffer goes to the encoder as it is, and the encoder requires exactly the
/// image's bytes, so a longer buffer is only taken where the image is
/// resized first.
pub open spec fn optimize_accepts(rgba_len: nat, width: u32, height: u32) -> bool {
    crate::sizing::spec_optimal_dimensions(width, height) == (width, height) ==> rgba_len <= 4 * (
    (width as nat) * (height as nat))
}

/// What [`optimize_image`] gives: the WebP bytes, pixels and size, or the error.
pub open spec fn spec_optimize(rgba: Seq<u8>, width: u32, height: u32) -> Result<
    (Seq<u8>, Seq<u8>, u32, u32),
    PipelineErrorView,
> {
    if !crate::imaging::rgba_fits(width, height, rgba.len()) {
        Err(PipelineErrorView::InvalidImage("Invalid RGBA dimensions"@))
    } else {
        let (tw, th) = crate::sizing::spec_optimal_dimensions(width, height);
        let pixels = optimized_pixels(rgba, width, height);
        match crate::imaging::webp_encoding(tw, th, pixels) {
            Ok(e) => Ok((e, pixels, tw, th)),
            Err(m) => Err(PipelineErrorView::ProcessingFailed(m)),
        }
    }
}

/// The view of an [`optimize_image`] result.
pub open spec fn optimize_outcome(r: Result<OptimizeResult, PipelineError>) -> Result<
    (Seq<u8>, Seq<u8>, u32, u32),
    PipelineErrorView,
> {
    match r {
        Ok(o) => Ok((o.encoded@, o.rgba@, o.width, o.height)),
        Err(e) => Err(e@),
    }
}

/// Optimizes an RGBA image for LLM input: resizes it (Lanczos3) so the long
/// edge fits the universal cap, never upscaling, and encodes it as WebP.
/// A buffer too small for `width` x `height` is rejected as `InvalidImage`.
/// The options do not change the outcome (the WebP encoder used is lossless).
pub fn optimize_image(rgba_data: &[u8], width: u32, height: u32, options: &OptimizeOptions) -> (r:
    Result<OptimizeResult, PipelineError>)
    requires
        optimize_accepts(rgba_data@.len(), width, height),
    ensures
        optimize_outcome(r) == spec_optimize(rgba_data@, width, height),
        r matches Ok(o) ==> crate::imaging::rgba_exact(o.width, o.height, o.rgba@.len()),
        width >= 1 && height >= 1 && crate::imaging::rgba_fits(width, height, rgba_data@.len())
            ==> r is Ok,
{
    if !rgba_buffer_fits(width, height, rgba_data.len()) {
        return Err(PipelineError::InvalidImage(String::from_str("Invalid RGBA dimensions")));
    }
    let (target_w, target_h) = calculate_optimal_dimensions(width, height);
    let pixels: Vec<u8> = if target_w != width || target_h != height {
        resize_lanczos3(rgba_data, width, height, target_w, target_h)
    } else {
        slice_to_vec(rgba_data)
    };
    match encode_webp_bytes(pixels.as_slice(), target_w, target_h) {
        Ok(encoded) => Ok(OptimizeResult { encoded, rgba: pixels, width: target_w, height: target_h }),
        Err(m) => Err(PipelineError::ProcessingFailed(m)),
    }
}

} // verus!
