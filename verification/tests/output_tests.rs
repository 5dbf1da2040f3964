use snapforge::output::build_capture_filename;
use snapforge::output::detect_image_format;

fn webp_header(kind: &[u8]) -> Vec<u8> {
    let mut header = Vec::new();
    header.extend_from_slice(b"RIFF");
    header.extend_from_slice(&[0x00; 4]);
    header.extend_from_slice(kind);
    header
}

#[test]
fn output_detect_png_format() {
    let png_header = [0x89, 0x50, 0x4E, 0x47, 0x0D, 0x0A, 0x1A, 0x0A];
    assert_eq!(detect_image_format(&png_header), "png");
}

#[test]
fn output_detect_webp_format() {
    assert_eq!(detect_image_format(&webp_header(b"WEBP")), "webp");
}

#[test]
fn output_detect_jpeg_format() {
    let jpeg_header = [0xFF, 0xD8, 0xFF, 0xE0];
    assert_eq!(detect_image_format(&jpeg_header), "jpeg");
}

#[test]
fn detect_unknown_format_falls_back_to_png() {
    assert_eq!(detect_image_format(b"RIFF1234"), "png");
    assert_eq!(detect_image_format(&[]), "png");
    assert_eq!(detect_image_format(&[0x00, 0x01, 0x02]), "png");
}

#[test]
fn build_capture_filename_for_png() {
    assert_eq!(build_capture_filename("png", "20260327_120000"), "Gaze_20260327_120000.png");
}

#[test]
fn build_capture_filename_for_webp() {
    assert_eq!(build_capture_filename("webp", "20260327_120000"), "Gaze_20260327_120000.webp");
}

#[test]
fn capture_detect_png_format() {
    let png_header = [0x89, 0x50, 0x4E, 0x47, 0x0D, 0x0A, 0x1A, 0x0A];
    assert_eq!(detect_image_format(&png_header), "png");
}

#[test]
fn capture_detect_webp_format() {
    assert_eq!(detect_image_format(&webp_header(b"WEBP")), "webp");
}

#[test]
fn capture_detect_jpeg_format() {
    let jpeg_header = [0xFF, 0xD8, 0xFF, 0xE0];
    assert_eq!(detect_image_format(&jpeg_header), "jpeg");
}

#[test]
fn detect_riff_but_not_webp() {
    assert_eq!(detect_image_format(&webp_header(b"WAVE")), "png");
}

#[test]
fn detect_unknown_format_fallback() {
    assert_eq!(detect_image_format(&[0x00, 0x01, 0x02]), "png");
}

#[test]
fn detect_empty_bytes_fallback() {
    assert_eq!(detect_image_format(&[]), "png");
}

#[test]
fn detect_short_riff_fallback() {
    assert_eq!(detect_image_format(b"RIFF1234"), "png");
}

#[test]
fn build_filename_png() {
    let name = build_capture_filename("png", "20260327_120000");
    assert_eq!(name, "Gaze_20260327_120000.png");
}

#[test]
fn build_filename_webp() {
    let name = build_capture_filename("webp", "20260327_120000");
    assert_eq!(name, "Gaze_20260327_120000.webp");
}

#[test]
fn jpeg_needs_all_three_marker_bytes() {
    assert_eq!(detect_image_format(&[0xFF, 0xD8]), "png");
    assert_eq!(detect_image_format(&[0xFF, 0xD8, 0xFF]), "jpeg");
}
