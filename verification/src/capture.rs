//! The shared capture flow: raw pixels or encoded bytes in, an encoded
//! image plus metadata (sizes, token estimate, Base64) out.

use vstd::prelude::*;
use vstd::slice::slice_to_vec;
use crate::encoding::{base64_standard, local_timestamp_rfc3339};
use crate::imaging::{decode_image, encode_png_bytes, rgba_buffer_fits, DecodeFailure};
use crate::optimizer::{optimize_image, OptimizeOptions, PipelineError};
use crate::text::{push_decimal, string_of};

verus! {

/// The LLM an image is prepared for; it decides the token estimate.
#[derive(Debug, Clone, Copy, PartialEq, Eq, Structural)]
pub enum LlmProvider {
    Sonnet,
    Gpt4o,
    Gemini,
}

/// `ceil(a / b)`.
pub open spec fn ceil_div(a: nat, b: nat) -> nat {
    ((a + b - 1) as nat) / b
}

/// Estimated input tokens for an image of the given size:
/// Sonnet about one token per 750 pixels; GPT-4o 85 plus 170 per 512-pixel
/// tile; Gemini 258 per 768-pixel tile (at least one tile). Saturates at
/// `u32::MAX`.
pub open spec fn spec_estimate_tokens(p: LlmProvider, width: u32, height: u32) -> nat {
    let w = width as nat;
    let h = height as nat;
    let raw: nat = match p {
        LlmProvider::Sonnet => ceil_div(w * h, 750),
        LlmProvider::Gpt4o => 85 + 170 * (ceil_div(w, 512) * ceil_div(h, 512)),
        LlmProvider::Gemini => {
            let tiles = ceil_div(w, 768) * ceil_div(h, 768);
            258 * (if tiles == 0 { 1 } else { tiles })
        },
    };
    if raw > u32::MAX { u32::MAX as nat } else { raw }
}

/// The provider's name as recorded in metadata.
pub open spec fn provider_name(p: LlmProvider) -> Seq<char> {
    match p {
        LlmProvider::Sonnet => "Sonnet"@,
        LlmProvider::Gpt4o => "Gpt4o"@,
        LlmProvider::Gemini => "Gemini"@,
    }
}

impl LlmProvider {
    /// Estimated input tokens for an image of the given size.
    pub fn estimate_tokens(&self, width: u32, height: u32) -> (r: u32)
        ensures
            r as nat == spec_estimate_tokens(*self, width, height),
    {
        let w = width as u128;
        let h = height as u128;
        assert(w * h <= 0xffff_ffff * 0xffff_ffff) by (nonlinear_arith)
            requires
                w <= 0xffff_ffff,
                h <= 0xffff_ffff,
        ;
        assert(((w + 511) / 512) * ((h + 511) / 512) <= 0x80_0000 * 0x80_0000) by (nonlinear_arith)
            requires
                w <= 0xffff_ffff,
                h <= 0xffff_ffff,
        ;
        assert(((w + 767) / 768) * ((h + 767) / 768) <= 0x80_0000 * 0x80_0000) by (nonlinear_arith)
            requires
                w <= 0xffff_ffff,
                h <= 0xffff_ffff,
        ;
        let raw: u128 = match self {
            LlmProvider::Sonnet => (w * h + 749) / 750,
            LlmProvider::Gpt4o => 85 + 170 * (((w + 511) / 512) * ((h + 511) / 512)),
            LlmProvider::Gemini => {
                let tiles = ((w + 767) / 768) * ((h + 767) / 768);
                258 * (if tiles == 0 { 1 } else { tiles })
            },
        };
        if raw > u32::MAX as u128 {
            u32::MAX
        } else {
            raw as u32
        }
    }

    /// The provider's name (`"Sonnet"`, `"Gpt4o"`, `"Gemini"`).
    pub fn name(&self) -> (r: &'static str)
        ensures
            r@ == provider_name(*self),
    {
        match self {
            LlmProvider::Sonnet => "Sonnet",
            LlmProvider::Gpt4o => "Gpt4o",
            LlmProvider::Gemini => "Gemini",
        }
    }
}

/// What a processed capture reports.
#[derive(Debug, Clone)]
pub struct CaptureMetadata {
    pub original_width: u32,
    pub original_height: u32,
    pub optimized_width: u32,
    pub optimized_height: u32,
    pub file_size: usize,
    pub token_estimate: u32,
    pub provider: String,
    pub timestamp: String,
    pub image_base64: String,
}

/// A processed capture: its metadata, the encoded image and its RGBA pixels.
#[derive(Debug, Clone)]
pub struct ProcessedCapture {
    pub metadata: CaptureMetadata,
    pub encoded: Vec<u8>,
    pub rgba: Vec<u8>,
}

/// Whether a capture is optimized for LLM input or kept at full size.
#[derive(Debug, Clone, Copy, PartialEq, Eq, Structural)]
pub enum CaptureProcessingMode {
    /// Resize to the long-edge cap and encode as WebP.
    Optimized,
    /// Keep the size and encode as PNG.
    Raw,
}

/// Why processing a capture failed.
#[derive(Debug)]
pub enum CaptureFlowError {
    GuessImageFormat(String),
    DecodeImage(String),
    Optimize(PipelineError),
    InvalidRgbaDimensions { width: u32, height: u32 },
    EncodeImage(String),
}

/// The mathematical view of a [`CaptureFlowError`].
pub enum CaptureFlowErrorView {
    GuessImageFormat(Seq<char>),
    DecodeImage(Seq<char>),
    Optimize(crate::optimizer::PipelineErrorView),
    InvalidRgbaDimensions(u32, u32),
    EncodeImage(Seq<char>),
}

impl View for CaptureFlowError {
    type V = CaptureFlowErrorView;

    open spec fn view(&self) -> CaptureFlowErrorView {
        match self {
            CaptureFlowError::GuessImageFormat(m) => CaptureFlowErrorView::GuessImageFormat(m@),
            CaptureFlowError::DecodeImage(m) => CaptureFlowErrorView::DecodeImage(m@),
            CaptureFlowError::Optimize(e) => CaptureFlowErrorView::Optimize(e@),
            CaptureFlowError::InvalidRgbaDimensions { width, height } =>
                CaptureFlowErrorView::InvalidRgbaDimensions(*width, *height),
            CaptureFlowError::EncodeImage(m) => CaptureFlowErrorView::EncodeImage(m@),
        }
    }
}

/// The description of a capture-flow error.
pub open spec fn capture_error_message(e: CaptureFlowErrorView) -> Seq<char> {
    match e {
        CaptureFlowErrorView::GuessImageFormat(m) => "Failed to guess image format: "@ + m,
        CaptureFlowErrorView::DecodeImage(m) => "Failed to decode captured image: "@ + m,
        CaptureFlowErrorView::Optimize(p) => "Optimization failed: "@
            + crate::optimizer::pipeline_error_message(p),
        CaptureFlowErrorView::InvalidRgbaDimensions(w, h) => "Invalid RGBA buffer for "@
            + crate::text::decimal(w as nat) + "x"@ + crate::text::decimal(h as nat) + " image"@,
        CaptureFlowErrorView::EncodeImage(m) => "Failed to encode image: "@ + m,
    }
}

impl CaptureFlowError {
    /// The human-readable description of the error.
    pub fn message(&self) -> (r: String)
        ensures
            r@ == capture_error_message(self@),
    {
        match self {
            CaptureFlowError::GuessImageFormat(m) => {
                let mut out = String::from_str("Failed to guess image format: ");
                out.append(m.as_str());
                out
            },
            CaptureFlowError::DecodeImage(m) => {
                let mut out = String::from_str("Failed to decode captured image: ");
                out.append(m.as_str());
                out
            },
            CaptureFlowError::Optimize(p) => {
                let mut out = String::from_str("Optimization failed: ");
                let inner = p.message();
                out.append(inner.as_str());
                out
            },
            CaptureFlowError::InvalidRgbaDimensions { width, height } => {
                let mut out = String::from_str("Invalid RGBA buffer for ");
                push_decimal(&mut out, *width as u64);
                out.append("x");
                push_decimal(&mut out, *height as u64);
                out.append(" image");
                out
            },
            CaptureFlowError::EncodeImage(m) => {
                let mut out = String::from_str("Failed to encode image: ");
                out.append(m.as_str());
                out
            },
        }
    }
}

/// The encoded bytes, pixels and size a capture of RGBA pixels becomes, or
/// the error: optimized captures go through the optimizer (WebP, resized);
/// raw ones keep their size and are encoded as PNG.
pub open spec fn spec_process_rgba(
    rgba: Seq<u8>,
    width: u32,
    height: u32,
    mode: CaptureProcessingMode,
) -> Result<(Seq<u8>, Seq<u8>, u32, u32), CaptureFlowErrorView> {
    match mode {
        CaptureProcessingMode::Optimized => match crate::optimizer::spec_optimize(
            rgba,
            width,
            height,
        ) {
            Ok(o) => Ok(o),
            Err(e) => Err(CaptureFlowErrorView::Optimize(e)),
        },
        CaptureProcessingMode::Raw => if !crate::imaging::rgba_fits(width, height, rgba.len()) {
            Err(CaptureFlowErrorView::InvalidRgbaDimensions(width, height))
        } else {
            match crate::imaging::png_encoding(width, height, rgba) {
                Ok(e) => Ok((e, rgba, width, height)),
                Err(m) => Err(CaptureFlowErrorView::EncodeImage(m)),
            }
        },
    }
}

/// The view of a processing result: bytes, pixels, size, or the error.
pub open spec fn capture_outcome(r: Result<ProcessedCapture, CaptureFlowError>) -> Result<
    (Seq<u8>, Seq<u8>, u32, u32),
    CaptureFlowErrorView,
> {
    match r {
        Ok(p) => Ok(
            (p.encoded@, p.rgba@, p.metadata.optimized_width, p.metadata.optimized_height),
        ),
        Err(e) => Err(e@),
    }
}

/// The metadata describes the capture: original and optimized sizes, the
/// encoded size, the provider's token estimate and name, and the Base64 of
/// the encoded bytes (the timestamp is the clock's).
pub open spec fn metadata_describes(
    m: CaptureMetadata,
    encoded: Seq<u8>,
    width: u32,
    height: u32,
    provider: LlmProvider,
) -> bool {
    &&& m.original_width == width
    &&& m.original_height == height
    &&& m.file_size == encoded.len()
    &&& m.token_estimate as nat == spec_estimate_tokens(
        provider,
        m.optimized_width,
        m.optimized_height,
    )
    &&& m.provider@ == provider_name(provider)
    &&& m.image_base64@ == crate::encoding::base64_encode(encoded)
}

/// Assembles the metadata of a processed capture.
pub fn build_capture_metadata(
    encoded: &Vec<u8>,
    width: u32,
    height: u32,
    optimized_width: u32,
    optimized_height: u32,
    provider: LlmProvider,
    timestamp: String,
) -> (m: CaptureMetadata)
    ensures
        metadata_describes(m, encoded@, width, height, provider),
        m.optimized_width == optimized_width,
        m.optimized_height == optimized_height,
        m.timestamp == timestamp,
{
    CaptureMetadata {
        original_width: width,
        original_height: height,
        optimized_width,
        optimized_height,
        file_size: encoded.len(),
        token_estimate: provider.estimate_tokens(optimized_width, optimized_height),
        provider: string_of(provider.name()),
        timestamp,
        image_base64: base64_standard(encoded.as_slice()),
    }
}

/// Encodes RGBA pixels as PNG; a buffer too small for the size is rejected.
fn encode_png(rgba_data: &[u8], width: u32, height: u32) -> (r: Result<Vec<u8>, CaptureFlowError>)
    requires
        rgba_data@.len() <= 4 * ((width as nat) * (height as nat)),
    ensures
        !crate::imaging::rgba_fits(width, height, rgba_data@.len()) ==> (r matches Err(
            CaptureFlowError::InvalidRgbaDimensions { width: w, height: h },
        ) && w == width && h == height),
        width >= 1 && height >= 1 && crate::imaging::rgba_fits(width, height, rgba_data@.len()) ==> r is Ok,
        crate::imaging::rgba_fits(width, height, rgba_data@.len()) ==> match crate::imaging::png_encoding(
            width,
            height,
            rgba_data@,
        ) {
            Ok(e) => (r matches Ok(b) && b@ == e),
            Err(m) => (r matches Err(CaptureFlowError::EncodeImage(msg)) && msg@ == m),
        },
{
    if !rgba_buffer_fits(width, height, rgba_data.len()) {
        return Err(CaptureFlowError::InvalidRgbaDimensions { width, height });
    }
    match encode_png_bytes(rgba_data, width, height) {
        Ok(b) => Ok(b),
        Err(m) => Err(CaptureFlowError::EncodeImage(m)),
    }
}

/// The inputs [`process_rgba_capture_with_mode`] takes: the encoder requires
/// exactly the image's bytes, so a buffer longer than the image is taken
/// only where it is resized before encoding (optimized mode, image over the
/// size cap); raw mode encodes the buffer itself.
pub open spec fn processing_accepts(rgba_len: nat, width: u32, height: u32, mode: CaptureProcessingMode) -> bool {
    match mode {
        CaptureProcessingMode::Optimized => crate::optimizer::optimize_accepts(rgba_len, width, height),
        CaptureProcessingMode::Raw => rgba_len <= 4 * ((width as nat) * (height as nat)),
    }
}

/// Processes raw RGBA pixels in the given mode (see [`spec_process_rgba`])
/// and describes the result in metadata; the pixels kept hold exactly the
/// processed image.
pub fn process_rgba_capture_with_mode(
    rgba_data: &[u8],
    width: u32,
    height: u32,
    provider: LlmProvider,
    mode: CaptureProcessingMode,
) -> (r: Result<ProcessedCapture, CaptureFlowError>)
    requires
        processing_accepts(rgba_data@.len(), width, height, mode),
    ensures
        capture_outcome(r) == spec_process_rgba(rgba_data@, width, height, mode),
        r matches Ok(p) ==> metadata_describes(p.metadata, p.encoded@, width, height, provider),
        r matches Ok(p) ==> crate::imaging::rgba_exact(
            p.metadata.optimized_width,
            p.metadata.optimized_height,
            p.rgba@.len(),
        ),
        width >= 1 && height >= 1 && crate::imaging::rgba_fits(width, height, rgba_data@.len())
            ==> r is Ok,
{
    let (encoded, rgba, optimized_width, optimized_height) = match mode {
        CaptureProcessingMode::Optimized => {
            let options = OptimizeOptions::default();
            match optimize_image(rgba_data, width, height, &options) {
                Ok(o) => (o.encoded, o.rgba, o.width, o.height),
                Err(e) => return Err(CaptureFlowError::Optimize(e)),
            }
        },
        CaptureProcessingMode::Raw => {
            let encoded = match encode_png(rgba_data, width, height) {
                Ok(b) => b,
                Err(e) => return Err(e),
            };
            (encoded, slice_to_vec(rgba_data), width, height)
        },
    };
    let timestamp = local_timestamp_rfc3339();
    let metadata = build_capture_metadata(
        &encoded,
        width,
        height,
        optimized_width,
        optimized_height,
        provider,
        timestamp,
    );
    Ok(ProcessedCapture { metadata, encoded, rgba })
}

/// Processes raw RGBA pixels for LLM input (optimized mode).
pub fn process_rgba_capture(rgba_data: &[u8], width: u32, height: u32, provider: LlmProvider) -> (r:
    Result<ProcessedCapture, CaptureFlowError>)
    requires
        crate::optimizer::optimize_accepts(rgba_data@.len(), width, height),
    ensures
        capture_outcome(r) == spec_process_rgba(
            rgba_data@,
            width,
            height,
            CaptureProcessingMode::Optimized,
        ),
        r matches Ok(p) ==> metadata_describes(p.metadata, p.encoded@, width, height, provider),
        r matches Ok(p) ==> crate::imaging::rgba_exact(
            p.metadata.optimized_width,
            p.metadata.optimized_height,
            p.rgba@.len(),
        ),
        width >= 1 && height >= 1 && crate::imaging::rgba_fits(width, height, rgba_data@.len())
            ==> r is Ok,
{
    process_rgba_capture_with_mode(rgba_data, width, height, provider, CaptureProcessingMode::Optimized)
}

/// What processing encoded bytes gives: the decoding error, or what the
/// decoded pixels give.
pub open spec fn spec_process_bytes(bytes: Seq<u8>, mode: CaptureProcessingMode) -> Result<
    (Seq<u8>, Seq<u8>, u32, u32),
    CaptureFlowErrorView,
> {
    match crate::imaging::decoded_image(bytes) {
        crate::imaging::DecodeOutcome::Decoded(w, h, px) => spec_process_rgba(px, w, h, mode),
        crate::imaging::DecodeOutcome::GuessFormatFailed(m) => Err(
            CaptureFlowErrorView::GuessImageFormat(m),
        ),
        crate::imaging::DecodeOutcome::DecodeFailed(m) => Err(CaptureFlowErrorView::DecodeImage(m)),
    }
}

/// The size an image decodes to (zero when it does not decode).
pub open spec fn decoded_size(bytes: Seq<u8>) -> (u32, u32) {
    match crate::imaging::decoded_image(bytes) {
        crate::imaging::DecodeOutcome::Decoded(w, h, _) => (w, h),
        _ => (0, 0),
    }
}

/// Decodes an encoded image (PNG, WebP, JPEG) and processes its pixels in
/// the given mode.
pub fn process_image_bytes_with_mode(
    raw_bytes: &[u8],
    provider: LlmProvider,
    mode: CaptureProcessingMode,
) -> (r: Result<ProcessedCapture, CaptureFlowError>)
    ensures
        capture_outcome(r) == spec_process_bytes(raw_bytes@, mode),
        r matches Ok(p) ==> metadata_describes(
            p.metadata,
            p.encoded@,
            decoded_size(raw_bytes@).0,
            decoded_size(raw_bytes@).1,
            provider,
        ),
        r matches Ok(p) ==> crate::imaging::rgba_exact(
            p.metadata.optimized_width,
            p.metadata.optimized_height,
            p.rgba@.len(),
        ),
        decoded_size(raw_bytes@).0 >= 1 && decoded_size(raw_bytes@).1 >= 1 ==> r is Ok,
{
    match decode_image(raw_bytes) {
        Err(DecodeFailure::GuessFormat(m)) => Err(CaptureFlowError::GuessImageFormat(m)),
        Err(DecodeFailure::Decode(m)) => Err(CaptureFlowError::DecodeImage(m)),
        Ok(img) => process_rgba_capture_with_mode(
            img.rgba.as_slice(),
            img.width,
            img.height,
            provider,
            mode,
        ),
    }
}

/// Decodes an encoded image and optimizes it for LLM input.
pub fn process_image_bytes(raw_bytes: &[u8], provider: LlmProvider) -> (r: Result<
    ProcessedCapture,
    CaptureFlowError,
>)
    ensures
        capture_outcome(r) == spec_process_bytes(raw_bytes@, CaptureProcessingMode::Optimized),
        r matches Ok(p) ==> metadata_describes(
            p.metadata,
            p.encoded@,
            decoded_size(raw_bytes@).0,
            decoded_size(raw_bytes@).1,
            provider,
        ),
        r matches Ok(p) ==> crate::imaging::rgba_exact(
            p.metadata.optimized_width,
            p.metadata.optimized_height,
            p.rgba@.len(),
        ),
        decoded_size(raw_bytes@).0 >= 1 && decoded_size(raw_bytes@).1 >= 1 ==> r is Ok,
{
    process_image_bytes_with_mode(raw_bytes, provider, CaptureProcessingMode::Optimized)
}

proof fn lemma_ceil_div_monotonic(a1: nat, a2: nat, b: nat)
    requires
        a1 <= a2,
        b > 0,
    ensures
        ceil_div(a1, b) <= ceil_div(a2, b),
{
    vstd::arithmetic::div_mod::lemma_div_is_ordered((a1 + b - 1) as int, (a2 + b - 1) as int, b as int);
}

/// A larger image never gets a smaller token estimate: the estimate grows
/// (weakly) with the width and with the height, for every provider.
pub proof fn lemma_tokens_monotonic(p: LlmProvider, w1: u32, h1: u32, w2: u32, h2: u32)
    requires
        w1 <= w2,
        h1 <= h2,
    ensures
        spec_estimate_tokens(p, w1, h1) <= spec_estimate_tokens(p, w2, h2),
{
    let (a1, b1, a2, b2) = (w1 as nat, h1 as nat, w2 as nat, h2 as nat);
    assert(a1 * b1 <= a2 * b2) by (nonlinear_arith)
        requires
            a1 <= a2,
            b1 <= b2,
    ;
    lemma_ceil_div_monotonic(a1 * b1, a2 * b2, 750);
    lemma_ceil_div_monotonic(a1, a2, 512);
    lemma_ceil_div_monotonic(b1, b2, 512);
    lemma_ceil_div_monotonic(a1, a2, 768);
    lemma_ceil_div_monotonic(b1, b2, 768);
    let (x1, y1, x2, y2) = (ceil_div(a1, 512), ceil_div(b1, 512), ceil_div(a2, 512), ceil_div(b2, 512));
    assert(x1 * y1 <= x2 * y2) by (nonlinear_arith)
        requires
            x1 <= x2,
            y1 <= y2,
    ;
    let (u1, v1, u2, v2) = (ceil_div(a1, 768), ceil_div(b1, 768), ceil_div(a2, 768), ceil_div(b2, 768));
    assert(u1 * v1 <= u2 * v2) by (nonlinear_arith)
        requires
            u1 <= u2,
            v1 <= v2,
    ;
}

} // verus!
