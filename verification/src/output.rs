//! Naming and format detection for saved captures.

use vstd::prelude::*;

verus! {

/// The bytes open a RIFF container whose form type is `WEBP`.
pub open spec fn is_webp_header(b: Seq<u8>) -> bool {
    &&& b.len() >= 12
    &&& b[0] == 0x52u8 && b[1] == 0x49u8 && b[2] == 0x46u8 && b[3] == 0x46u8
    &&& b[8] == 0x57u8 && b[9] == 0x45u8 && b[10] == 0x42u8 && b[11] == 0x50u8
}

/// The bytes open with the PNG signature prefix `89 50 4E 47`.
pub open spec fn is_png_header(b: Seq<u8>) -> bool {
    b.len() >= 4 && b[0] == 0x89u8 && b[1] == 0x50u8 && b[2] == 0x4Eu8 && b[3] == 0x47u8
}

/// The bytes open with the JPEG start-of-image marker `FF D8 FF`.
pub open spec fn is_jpeg_header(b: Seq<u8>) -> bool {
    b.len() >= 3 && b[0] == 0xFFu8 && b[1] == 0xD8u8 && b[2] == 0xFFu8
}

/// The file extension a capture with these bytes is saved under.
pub open spec fn spec_image_format(b: Seq<u8>) -> Seq<char> {
    if is_webp_header(b) {
        "webp"@
    } else if is_png_header(b) {
        "png"@
    } else if is_jpeg_header(b) {
        "jpeg"@
    } else {
        "png"@
    }
}

/// Detects the image format from its magic bytes: `"webp"`, `"png"` or
/// `"jpeg"`; anything unrecognised is treated as PNG.
pub fn detect_image_format(bytes: &[u8]) -> (r: &'static str)
    ensures
        r@ == spec_image_format(bytes@),
{
    proof {
        reveal_strlit("webp");
        reveal_strlit("png");
        reveal_strlit("jpeg");
    }
    let n = bytes.len();
    if n >= 12 && bytes[0] == 0x52u8 && bytes[1] == 0x49u8 && bytes[2] == 0x46u8
        && bytes[3] == 0x46u8 && bytes[8] == 0x57u8 && bytes[9] == 0x45u8 && bytes[10] == 0x42u8
        && bytes[11] == 0x50u8 {
        "webp"
    } else if n >= 4 && bytes[0] == 0x89u8 && bytes[1] == 0x50u8 && bytes[2] == 0x4Eu8
        && bytes[3] == 0x47u8 {
        "png"
    } else if n >= 3 && bytes[0] == 0xFFu8 && bytes[1] == 0xD8u8 && bytes[2] == 0xFFu8 {
        "jpeg"
    } else {
        "png"
    }
}

/// The file name a capture is saved under: `Gaze_<timestamp>.<ext>`.
pub open spec fn spec_capture_filename(ext: Seq<char>, timestamp: Seq<char>) -> Seq<char> {
    "Gaze_"@ + timestamp + "."@ + ext
}

/// Builds the file name `Gaze_<timestamp>.<ext>`.
pub fn build_capture_filename(ext: &str, timestamp: &str) -> (r: String)
    ensures
        r@ == spec_capture_filename(ext@, timestamp@),
{
    let mut out = String::from_str("Gaze_");
    out.append(timestamp);
    out.append(".");
    out.append(ext);
    out
}

} // verus!
