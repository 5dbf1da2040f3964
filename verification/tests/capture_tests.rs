use base64::Engine as _;
use snapforge::capture::process_image_bytes;
use snapforge::capture::process_rgba_capture;
use snapforge::capture::process_rgba_capture_with_mode;
use snapforge::capture::CaptureFlowError;
use snapforge::capture::CaptureProcessingMode;
use snapforge::capture::LlmProvider;
use snapforge::output::detect_image_format;

fn create_test_png(width: u32, height: u32) -> Vec<u8> {
    let img = image::RgbaImage::from_pixel(width, height, image::Rgba([255u8, 0, 0, 255]));
    let mut cursor = std::io::Cursor::new(Vec::new());
    image::DynamicImage::ImageRgba8(img)
        .write_to(&mut cursor, image::ImageFormat::Png)
        .unwrap();
    cursor.into_inner()
}

#[test]
fn process_image_bytes_valid_png() {
    let png = create_test_png(100, 50);
    let processed = process_image_bytes(&png, LlmProvider::Sonnet).unwrap();
    assert_eq!(processed.metadata.original_width, 100);
    assert_eq!(processed.metadata.original_height, 50);
    assert_eq!(processed.metadata.provider, "Sonnet");
    assert!(!processed.encoded.is_empty());
    assert!(!processed.rgba.is_empty());
}

#[test]
fn process_image_bytes_large_image_resized() {
    let png = create_test_png(4000, 3000);
    let processed = process_image_bytes(&png, LlmProvider::Sonnet).unwrap();
    assert!(processed.metadata.optimized_width <= 1568);
    assert!(processed.metadata.optimized_height <= 1568);
    assert!(
        processed.metadata.optimized_width < processed.metadata.original_width
            || processed.metadata.optimized_height < processed.metadata.original_height
    );
}

#[test]
fn process_image_bytes_small_image_not_upscaled() {
    let png = create_test_png(50, 30);
    let processed = process_image_bytes(&png, LlmProvider::Sonnet).unwrap();
    assert_eq!(processed.metadata.optimized_width, 50);
    assert_eq!(processed.metadata.optimized_height, 30);
}

#[test]
fn process_image_bytes_invalid_data() {
    let result = process_image_bytes(&[0, 1, 2, 3], LlmProvider::Sonnet);
    assert!(matches!(result, Err(CaptureFlowError::DecodeImage(_))));
}

#[test]
fn process_image_bytes_empty_data() {
    let result = process_image_bytes(&[], LlmProvider::Sonnet);
    assert!(result.is_err());
}

#[test]
fn process_image_bytes_base64_is_valid() {
    let png = create_test_png(100, 100);
    let processed = process_image_bytes(&png, LlmProvider::Sonnet).unwrap();
    let decoded = base64::engine::general_purpose::STANDARD
        .decode(&processed.metadata.image_base64)
        .unwrap();
    assert_eq!(decoded, processed.encoded);
}

#[test]
fn process_image_bytes_metadata_has_timestamp() {
    let png = create_test_png(100, 100);
    let processed = process_image_bytes(&png, LlmProvider::Sonnet).unwrap();
    assert!(processed.metadata.timestamp.contains('T'));
}

#[test]
fn process_rgba_capture_supports_all_providers() {
    let rgba = vec![128u8; 200 * 150 * 4];
    for provider in [LlmProvider::Sonnet, LlmProvider::Gpt4o, LlmProvider::Gemini] {
        let processed = process_rgba_capture(&rgba, 200, 150, provider).unwrap();
        assert!(processed.metadata.optimized_width > 0);
        assert!(processed.metadata.optimized_height > 0);
        assert!(processed.metadata.token_estimate > 0);
    }
}

#[test]
fn process_rgba_capture_raw_preserves_dimensions_and_encodes_png() {
    let rgba = vec![255u8; 25 * 10 * 4];
    let processed = process_rgba_capture_with_mode(
        &rgba,
        25,
        10,
        LlmProvider::Sonnet,
        CaptureProcessingMode::Raw,
    )
    .unwrap();
    assert_eq!(processed.metadata.original_width, 25);
    assert_eq!(processed.metadata.optimized_width, 25);
    assert_eq!(processed.rgba, rgba);
    assert_eq!(detect_image_format(&processed.encoded), "png");
}

#[test]
fn process_rgba_capture_invalid_dimensions_fail() {
    let result = process_rgba_capture_with_mode(
        &[0u8; 10],
        10,
        10,
        LlmProvider::Sonnet,
        CaptureProcessingMode::Raw,
    );
    assert!(matches!(
        result,
        Err(CaptureFlowError::InvalidRgbaDimensions { width: 10, height: 10 })
    ));
}

#[test]
fn optimized_capture_is_webp_and_metadata_matches_bytes() {
    let rgba = vec![10u8; 64 * 32 * 4];
    let processed = process_rgba_capture(&rgba, 64, 32, LlmProvider::Sonnet).unwrap();
    assert_eq!(detect_image_format(&processed.encoded), "webp");
    assert_eq!(processed.metadata.file_size, processed.encoded.len());
    let encoded = base64::engine::general_purpose::STANDARD.encode(&processed.encoded);
    assert_eq!(processed.metadata.image_base64, encoded);
    assert_eq!(processed.rgba.len(), 64 * 32 * 4);
}

#[test]
fn token_estimates_follow_each_provider_formula() {
    assert_eq!(LlmProvider::Sonnet.estimate_tokens(750, 1), 1);
    assert_eq!(LlmProvider::Sonnet.estimate_tokens(751, 1), 2);
    assert_eq!(LlmProvider::Sonnet.estimate_tokens(1568, 882), 1844);
    assert_eq!(LlmProvider::Gpt4o.estimate_tokens(512, 512), 85 + 170);
    assert_eq!(LlmProvider::Gpt4o.estimate_tokens(513, 512), 85 + 340);
    assert_eq!(LlmProvider::Gemini.estimate_tokens(1, 1), 258);
    assert_eq!(LlmProvider::Gemini.estimate_tokens(769, 768), 516);
    assert_eq!(LlmProvider::Gemini.estimate_tokens(0, 0), 258);
}

#[test]
fn capture_flow_error_messages() {
    let e = CaptureFlowError::InvalidRgbaDimensions { width: 3, height: 4 };
    assert_eq!(e.message(), "Invalid RGBA buffer for 3x4 image");
    let e = CaptureFlowError::DecodeImage("bad".to_string());
    assert_eq!(e.message(), "Failed to decode captured image: bad");
}
