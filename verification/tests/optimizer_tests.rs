use snapforge::capture::LlmProvider;
use snapforge::optimizer::optimize_image;
use snapforge::optimizer::OptimizeOptions;
use snapforge::optimizer::PipelineError;
use snapforge::optimizer::DEFAULT_QUALITY;
use snapforge::sizing::calculate_optimal_dimensions;
use snapforge::sizing::UNIVERSAL_MAX_LONG_EDGE;

#[test]
fn respects_max_long_edge() {
    let (w, h) = calculate_optimal_dimensions(3840, 2160);
    assert!(w <= UNIVERSAL_MAX_LONG_EDGE, "width {w} exceeds cap");
    assert!(h <= UNIVERSAL_MAX_LONG_EDGE, "height {h} exceeds cap");
    let original_ratio = 3840.0 / 2160.0;
    let new_ratio = w as f64 / h as f64;
    assert!((original_ratio - new_ratio).abs() < 0.05);
}

#[test]
fn small_image_not_upscaled() {
    let (w, h) = calculate_optimal_dimensions(800, 600);
    assert_eq!(w, 800);
    assert_eq!(h, 600);
}

#[test]
fn optimize_produces_valid_output() {
    let width = 10u32;
    let height = 10u32;
    let rgba_data = vec![128u8; (width * height * 4) as usize];
    let result = optimize_image(&rgba_data, width, height, &OptimizeOptions::default());
    assert!(result.is_ok(), "optimize_image failed: {:?}", result.err());
    let opt = result.unwrap();
    assert!(!opt.encoded.is_empty(), "Encoded output should not be empty");
    assert_eq!(opt.width, width);
    assert_eq!(opt.height, height);
}

#[test]
fn optimize_rejects_invalid_dimensions() {
    let rgba_data = vec![0u8; 100];
    let result = optimize_image(&rgba_data, 10, 10, &OptimizeOptions::default());
    assert!(result.is_err());
}

#[test]
fn zero_width_no_resize_needed() {
    let (w, h) = calculate_optimal_dimensions(0, 100);
    assert_eq!((w, h), (0, 100));
}

#[test]
fn zero_height_no_resize_needed() {
    let (w, h) = calculate_optimal_dimensions(100, 0);
    assert_eq!((w, h), (100, 0));
}

#[test]
fn both_zero_dimensions() {
    let (w, h) = calculate_optimal_dimensions(0, 0);
    assert_eq!((w, h), (0, 0));
}

#[test]
fn zero_width_large_height_clamps_to_min_one() {
    let (w, h) = calculate_optimal_dimensions(0, 5000);
    assert_eq!(w, 1, "zero width clamped to 1 after downscale");
    assert!(h <= UNIVERSAL_MAX_LONG_EDGE);
}

#[test]
fn zero_height_large_width_clamps_to_min_one() {
    let (w, h) = calculate_optimal_dimensions(5000, 0);
    assert!(w <= UNIVERSAL_MAX_LONG_EDGE);
    assert_eq!(h, 1, "zero height clamped to 1 after downscale");
}

#[test]
fn very_large_dimensions() {
    let (w, h) = calculate_optimal_dimensions(10000, 5000);
    assert!(w <= UNIVERSAL_MAX_LONG_EDGE);
    assert!(h <= UNIVERSAL_MAX_LONG_EDGE);
    assert!(w > 0);
    assert!(h > 0);
}

#[test]
fn optimize_options_default_values() {
    let opts = OptimizeOptions::default();
    assert_eq!(opts.quality, DEFAULT_QUALITY);
}

#[test]
fn landscape_orientation() {
    let (w, h) = calculate_optimal_dimensions(3000, 1000);
    assert_eq!(w, UNIVERSAL_MAX_LONG_EDGE);
    assert!(h < w);
    let original_ratio = 3000.0 / 1000.0;
    let new_ratio = w as f64 / h as f64;
    assert!((original_ratio - new_ratio).abs() < 0.1);
}

#[test]
fn portrait_orientation() {
    let (w, h) = calculate_optimal_dimensions(1000, 3000);
    assert_eq!(h, UNIVERSAL_MAX_LONG_EDGE);
    assert!(w < h);
    let original_ratio = 1000.0 / 3000.0;
    let new_ratio = w as f64 / h as f64;
    assert!((original_ratio - new_ratio).abs() < 0.1);
}

#[test]
fn square_image_at_boundary() {
    let (w, h) = calculate_optimal_dimensions(UNIVERSAL_MAX_LONG_EDGE, UNIVERSAL_MAX_LONG_EDGE);
    assert_eq!((w, h), (UNIVERSAL_MAX_LONG_EDGE, UNIVERSAL_MAX_LONG_EDGE));
}

#[test]
fn one_pixel_over_boundary() {
    let (w, h) =
        calculate_optimal_dimensions(UNIVERSAL_MAX_LONG_EDGE + 1, UNIVERSAL_MAX_LONG_EDGE + 1);
    assert!(w <= UNIVERSAL_MAX_LONG_EDGE);
    assert!(h <= UNIVERSAL_MAX_LONG_EDGE);
}

#[test]
fn exact_dimensions_match_float_computation() {
    assert_eq!(calculate_optimal_dimensions(3840, 2160), (1568, 882));
    assert_eq!(calculate_optimal_dimensions(1569, 1569), (1568, 1568));
    assert_eq!(calculate_optimal_dimensions(4000, 3000), (1568, 1176));
    for (w, h) in [(1920u32, 1080u32), (2560, 1440), (5120, 2880), (1601, 907), (20000, 3)] {
        let long = w.max(h) as f64;
        let scale = 1568.0 / long;
        let expected = if w.max(h) <= 1568 {
            (w, h)
        } else {
            (
                ((w as f64 * scale).round() as u32).max(1),
                ((h as f64 * scale).round() as u32).max(1),
            )
        };
        assert_eq!(calculate_optimal_dimensions(w, h), expected, "{w}x{h}");
    }
}

#[test]
fn display_invalid_image() {
    let err = PipelineError::InvalidImage("bad data".into());
    assert_eq!(err.message(), "Invalid image data: bad data");
}

#[test]
fn display_unsupported_format() {
    let err = PipelineError::UnsupportedFormat("bmp".into());
    assert_eq!(err.message(), "Unsupported format: bmp");
}

#[test]
fn display_processing_failed() {
    let bad_data = std::io::Cursor::new(vec![0u8; 10]);
    let img_err = image::ImageReader::with_format(bad_data, image::ImageFormat::Png)
        .decode()
        .unwrap_err();
    let err = PipelineError::ProcessingFailed(img_err.to_string());
    let msg = err.message();
    assert!(msg.starts_with("Image processing failed:"), "unexpected: {msg}");
}

#[test]
fn pipeline_error_is_debug() {
    let err = PipelineError::InvalidImage("test".into());
    let debug = format!("{:?}", err);
    assert!(debug.contains("InvalidImage"));
}

#[test]
fn aspect_ratio_within_five_percent_and_edges_within_half_pixel() {
    for (w, h) in [(10000u32, 100u32), (100, 10000), (4321, 1234), (1569, 100), (9999, 9998)] {
        let (ow, oh) = calculate_optimal_dimensions(w, h);
        let rel = ((w as f64 / h as f64) - (ow as f64 / oh as f64)).abs() / (w as f64 / h as f64);
        assert!(rel < 0.05, "{w}x{h} -> {ow}x{oh}");
        let long = w.max(h) as f64;
        assert!((ow as f64 - w as f64 * 1568.0 / long).abs() <= 0.5);
        assert!((oh as f64 - h as f64 * 1568.0 / long).abs() <= 0.5);
    }
}

#[test]
fn token_estimates_never_shrink_for_larger_images() {
    for p in [LlmProvider::Sonnet, LlmProvider::Gpt4o, LlmProvider::Gemini] {
        assert!(p.estimate_tokens(1000, 800) <= p.estimate_tokens(2000, 1600));
        assert!(p.estimate_tokens(513, 1) <= p.estimate_tokens(513, 2));
    }
}

#[test]
fn optimizing_succeeds_on_any_non_empty_image() {
    let options = snapforge::optimizer::OptimizeOptions::default();
    let r = optimize_image(&[9u8; 4], 1, 1, &options).unwrap();
    assert_eq!((r.width, r.height, r.rgba.len()), (1, 1, 4));
    assert!(optimize_image(&[], 0, 5, &options).is_err());
}
