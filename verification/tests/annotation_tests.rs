use snapforge::annotation::apply_annotations_to_processed_capture;
use snapforge::annotation::draw_annotation_marks;
use snapforge::annotation::render_annotations_to_png;
use snapforge::annotation::AnnotationMark;
use snapforge::annotation::MarkShape;
use snapforge::capture::process_rgba_capture;
use snapforge::capture::CaptureFlowError;
use snapforge::capture::LlmProvider;
use snapforge::output::detect_image_format;
use snapforge::prompt::alpha_id;
use snapforge::prompt::build_llm_prompt_hint;
use snapforge::prompt::build_llm_prompt_hint_for_language;
use snapforge::prompt::pin_id;
use snapforge::prompt::sanitize_note;
use snapforge::prompt::HintMarker;
use snapforge::prompt::HintPlacement;
use snapforge::prompt::HorizontalBand;
use snapforge::prompt::VerticalBand;

fn pixel(buf: &[u8], width: usize, x: usize, y: usize) -> [u8; 4] {
    let i = (y * width + x) * 4;
    [buf[i], buf[i + 1], buf[i + 2], buf[i + 3]]
}

#[test]
fn alpha_ids_roll_over_after_z() {
    assert_eq!(alpha_id(0), "A");
    assert_eq!(alpha_id(25), "Z");
    assert_eq!(alpha_id(26), "AA");
    assert_eq!(alpha_id(27), "AB");
}

#[test]
fn pin_ids_count_from_one_and_notes_are_trimmed() {
    assert_eq!(pin_id(0), "1");
    assert_eq!(pin_id(41), "42");
    assert_eq!(sanitize_note(Some("  hi  ".into())), Some("hi".to_string()));
    assert_eq!(sanitize_note(Some("   ".into())), None);
    assert_eq!(sanitize_note(None), None);
}

#[test]
fn prompt_hint_contains_positions_and_notes() {
    // A pin at (0.67, 0.48) and a rectangle at (0.1, 0.2) sized 0.25 x 0.3,
    // in percent and thirds of the image as the application computes them.
    let markers = vec![
        HintMarker {
            id: pin_id(0),
            placement: HintPlacement::Pin { pct_x: 67, pct_y: 48 },
            note: sanitize_note(Some("focus on the broken button".into())),
            vertical: VerticalBand::Center,
            horizontal: HorizontalBand::Right,
        },
        HintMarker {
            id: alpha_id(0),
            placement: HintPlacement::Rectangle { x1: 10, x2: 35, y1: 20, y2: 50 },
            note: sanitize_note(None),
            vertical: VerticalBand::Center,
            horizontal: HorizontalBand::Left,
        },
    ];
    let prompt = build_llm_prompt_hint(&markers).unwrap();
    assert!(prompt.contains("Pin 1"));
    assert!(prompt.contains("center-right"));
    assert!(prompt.contains("Rectangle A"));
    assert!(prompt.contains("focus on the broken button"));
}

#[test]
fn prompt_hint_exact_lines() {
    let markers = vec![HintMarker {
        id: "1".into(),
        placement: HintPlacement::Pin { pct_x: 5, pct_y: 90 },
        note: None,
        vertical: VerticalBand::Lower,
        horizontal: HorizontalBand::Left,
    }];
    let prompt = build_llm_prompt_hint_for_language(&markers, "en-US").unwrap();
    assert_eq!(
        prompt,
        "Focus on the marked regions in the attached screenshot:\n- Pin 1 at lower-left (5% from the left, 90% from the top): inspect this point closely."
    );
    assert!(build_llm_prompt_hint(&[]).is_none());
}

#[test]
fn render_annotations_changes_pixels() {
    let width = 64;
    let height = 48;
    let rgba = vec![240u8; (width * height * 4) as usize];
    let marks = vec![AnnotationMark { id: pin_id(0), shape: MarkShape::Pin { x: 32, y: 24 } }];
    let rendered = render_annotations_to_png(&rgba, width, height, &marks).unwrap();
    assert_ne!(rendered.rgba, rgba);
    assert!(!rendered.encoded_png.is_empty());
}

#[test]
fn pin_pixels_take_pin_and_chip_colours() {
    let width = 64usize;
    let mut buf = vec![240u8; width * 48 * 4];
    let marks = vec![AnnotationMark { id: "1".into(), shape: MarkShape::Pin { x: 32, y: 24 } }];
    draw_annotation_marks(&mut buf, 64, 48, &marks);
    assert_eq!(buf.len(), width * 48 * 4);
    assert_eq!(pixel(&buf, width, 32, 24), [255, 95, 86, 255]);
    assert_eq!(pixel(&buf, width, 48, 16), [41, 41, 44, 255]);
    assert_eq!(pixel(&buf, width, 0, 0), [240, 240, 240, 240]);
    assert_eq!(pixel(&buf, width, 32, 47), [255, 95, 86, 255]);
    assert_eq!(pixel(&buf, width, 60, 47), [240, 240, 240, 240]);
}

#[test]
fn rectangle_outline_is_drawn_at_least_eight_pixels() {
    let width = 40usize;
    let mut buf = vec![0u8; width * 40 * 4];
    let marks = vec![AnnotationMark {
        id: "A".into(),
        shape: MarkShape::Rectangle { x: 2, y: 2, width: 1, height: 1 },
    }];
    draw_annotation_marks(&mut buf, 40, 40, &marks);
    assert_eq!(pixel(&buf, width, 2, 2), [255, 179, 71, 255]);
    assert_eq!(pixel(&buf, width, 10, 10), [255, 179, 71, 255]);
    assert_eq!(pixel(&buf, width, 39, 39), [0, 0, 0, 0]);
}

#[test]
fn render_refuses_short_buffers() {
    let marks = vec![AnnotationMark { id: "1".into(), shape: MarkShape::Pin { x: 1, y: 1 } }];
    let result = render_annotations_to_png(&[0u8; 10], 10, 10, &marks);
    assert!(matches!(
        result,
        Err(CaptureFlowError::InvalidRgbaDimensions { width: 10, height: 10 })
    ));
}

#[test]
fn applying_no_annotations_keeps_the_capture() {
    let rgba = vec![100u8; 20 * 10 * 4];
    let processed = process_rgba_capture(&rgba, 20, 10, LlmProvider::Sonnet).unwrap();
    let encoded = processed.encoded.clone();
    let same = apply_annotations_to_processed_capture(processed, &[]).unwrap();
    assert_eq!(same.encoded, encoded);
}

#[test]
fn applying_annotations_reencodes_as_png() {
    let rgba = vec![100u8; 40 * 30 * 4];
    let processed = process_rgba_capture(&rgba, 40, 30, LlmProvider::Sonnet).unwrap();
    let marks = vec![AnnotationMark { id: "1".into(), shape: MarkShape::Pin { x: 20, y: 15 } }];
    let annotated = apply_annotations_to_processed_capture(processed, &marks).unwrap();
    assert_eq!(detect_image_format(&annotated.encoded), "png");
    assert_eq!(annotated.metadata.file_size, annotated.encoded.len());
    assert_ne!(annotated.rgba, rgba);
}

#[test]
fn rendering_succeeds_exactly_on_non_empty_images() {
    let ok = render_annotations_to_png(&[0u8; 4 * 3 * 2], 3, 2, &[]).unwrap();
    assert_eq!(detect_image_format(&ok.encoded_png), "png");
    assert!(matches!(
        render_annotations_to_png(&[], 0, 0, &[]),
        Err(CaptureFlowError::EncodeImage(_))
    ));
}
