use snapforge::preview::compute_eviction_targets;
use snapforge::preview::corner_placement;
use snapforge::preview::debounce_check;
use snapforge::preview::preview_corner;
use snapforge::preview::preview_label;
use snapforge::preview::preview_slot;
use snapforge::preview::remove_preview_label;
use snapforge::preview::reserve_preview_slot;
use snapforge::preview::should_debounce;
use snapforge::preview::PreviewCorner;
use snapforge::preview::PreviewCounter;
use snapforge::preview::DOCK_HEIGHT;
use snapforge::preview::MARGIN;
use snapforge::preview::STACK_GAP;
use snapforge::preview::WINDOW_HEIGHT;
use snapforge::preview::WINDOW_WIDTH;

const WINDOW_WIDTH_F: f64 = WINDOW_WIDTH as f64;
const WINDOW_HEIGHT_F: f64 = WINDOW_HEIGHT as f64;
const MARGIN_F: f64 = MARGIN as f64;
const DOCK_HEIGHT_F: f64 = DOCK_HEIGHT as f64;
const STACK_GAP_F: f64 = STACK_GAP as f64;

fn position_for_corner(w: f64, h: f64, scale: f64, slot: u32, position: &str) -> (f64, f64) {
    let p = corner_placement(position, slot);
    let lw = w / scale;
    let lh = h / scale;
    let x = if p.from_right { lw - p.x_inset as f64 } else { p.x_inset as f64 };
    let y = if p.from_bottom { lh - p.y_inset as f64 } else { p.y_inset as f64 };
    (x, y)
}

fn position(w: f64, h: f64, scale: f64, slot: u32) -> (f64, f64) {
    position_for_corner(w, h, scale, slot, "bottom_right")
}

fn labels(v: &[&str]) -> Vec<String> {
    v.iter().map(|s| s.to_string()).collect()
}

#[test]
fn window_counter_increments() {
    let mut counter = PreviewCounter::new();
    let a = counter.value();
    let b = counter.fetch_next();
    assert_eq!(a, b);
    assert_eq!(counter.value(), b + 1);
}

#[test]
fn window_label_format() {
    let label = preview_label(42);
    assert_eq!(label, "preview-42");
    assert!(label.starts_with("preview-"));
}

#[test]
fn position_calculation_slot_0() {
    let (x, y) = position(1920.0, 1080.0, 1.0, 0);
    assert_eq!(x, 1920.0 - 260.0 - 24.0);
    assert_eq!(y, 1080.0 - 190.0 - 24.0 - 72.0);
}

#[test]
fn position_calculation_stacking() {
    let (_, y_slot_0) = position(1920.0, 1080.0, 1.0, 0);
    let (_, y_slot_1) = position(1920.0, 1080.0, 1.0, 1);
    let (_, y_slot_2) = position(1920.0, 1080.0, 1.0, 2);
    let step = y_slot_0 - y_slot_1;
    assert!((step - (WINDOW_HEIGHT_F + STACK_GAP_F)).abs() < f64::EPSILON);
    assert!((y_slot_1 - y_slot_2 - step).abs() < f64::EPSILON);
}

#[test]
fn layout_constants_are_sensible() {
    let vals: Vec<f64> = vec![WINDOW_WIDTH_F, WINDOW_HEIGHT_F, MARGIN_F];
    for v in &vals {
        assert!(*v > 0.0, "Layout constant must be positive: {v}");
    }
    let nonneg: Vec<f64> = vec![DOCK_HEIGHT_F, STACK_GAP_F];
    for v in &nonneg {
        assert!(v.is_finite(), "Layout constant must be finite: {v}");
    }
}

#[test]
fn debounce_first_capture_passes() {
    let now = 1_000u64;
    assert!(!should_debounce(None, now, 500));
}

#[test]
fn debounce_within_threshold_blocks() {
    let first = 1_000u64;
    let second = first + 100;
    assert!(should_debounce(Some(first), second, 500));
}

#[test]
fn debounce_at_threshold_boundary_blocks() {
    let first = 1_000u64;
    let second = first + 499;
    assert!(should_debounce(Some(first), second, 500));
}

#[test]
fn debounce_after_threshold_passes() {
    let first = 1_000u64;
    let second = first + 501;
    assert!(!should_debounce(Some(first), second, 500));
}

#[test]
fn debounce_exactly_at_threshold_passes() {
    let first = 1_000u64;
    let second = first + 500;
    assert!(!should_debounce(Some(first), second, 500));
}

#[test]
fn debounce_zero_threshold_never_blocks() {
    let first = 1_000u64;
    let second = first;
    assert!(!should_debounce(Some(first), second, 0));
}

#[test]
fn debounce_check_remembers_only_accepted_captures() {
    let mut last = None;
    assert!(debounce_check(&mut last, 1_000));
    assert_eq!(last, Some(1_000));
    assert!(!debounce_check(&mut last, 1_200));
    assert_eq!(last, Some(1_000));
    assert!(debounce_check(&mut last, 1_500));
    assert_eq!(last, Some(1_500));
    assert!(!debounce_check(&mut last, 1_400));
}

#[test]
fn eviction_empty_stack_no_targets() {
    let targets = compute_eviction_targets(&[], 5);
    assert!(targets.is_empty());
}

#[test]
fn eviction_under_limit_no_targets() {
    let stack = labels(&["a", "b"]);
    let targets = compute_eviction_targets(&stack, 5);
    assert!(targets.is_empty());
}

#[test]
fn eviction_at_limit_removes_oldest() {
    let stack = labels(&["a", "b", "c"]);
    let targets = compute_eviction_targets(&stack, 3);
    assert_eq!(targets, vec!["a"]);
}

#[test]
fn eviction_over_limit_removes_multiple() {
    let stack = labels(&["a", "b", "c", "d"]);
    let targets = compute_eviction_targets(&stack, 2);
    assert_eq!(targets, vec!["a", "b", "c"]);
}

#[test]
fn eviction_max_one_keeps_only_newest() {
    let stack = labels(&["a", "b", "c"]);
    let targets = compute_eviction_targets(&stack, 1);
    assert_eq!(targets, vec!["a", "b", "c"]);
}

#[test]
fn eviction_single_item_at_limit() {
    let stack = labels(&["a"]);
    let targets = compute_eviction_targets(&stack, 1);
    assert_eq!(targets, vec!["a"]);
}

#[test]
fn reserving_a_slot_evicts_oldest_and_pushes_new_label() {
    let mut stack = labels(&["a", "b", "c"]);
    let evicted = reserve_preview_slot(&mut stack, "d".to_string(), 3);
    assert_eq!(evicted, vec!["a"]);
    assert_eq!(stack, vec!["b", "c", "d"]);
    let evicted = reserve_preview_slot(&mut stack, "e".to_string(), 0);
    assert_eq!(evicted, vec!["b", "c", "d"]);
    assert_eq!(stack, vec!["e"]);
    let mut big = labels(&["1", "2", "3", "4", "5", "6", "7", "8", "9", "10", "11"]);
    let evicted = reserve_preview_slot(&mut big, "12".to_string(), 99);
    assert_eq!(evicted.len(), 2);
    assert_eq!(big.len(), 10);
    assert_eq!(big.last().unwrap(), "12");
}

#[test]
fn removing_and_finding_labels() {
    let mut stack = labels(&["a", "b", "a", "c"]);
    assert_eq!(preview_slot(&stack, "c"), Some(0));
    assert_eq!(preview_slot(&stack, "a"), Some(1));
    assert_eq!(preview_slot(&stack, "z"), None);
    remove_preview_label(&mut stack, "a");
    assert_eq!(stack, vec!["b", "c"]);
}

#[test]
fn position_slot_zero_bottom_right() {
    let (x, y) = position(2560.0, 1440.0, 1.0, 0);
    assert!((x - (2560.0 - WINDOW_WIDTH_F - MARGIN_F)).abs() < 0.1);
    let expected_y = 1440.0 - WINDOW_HEIGHT_F - MARGIN_F - DOCK_HEIGHT_F;
    assert!((y - expected_y).abs() < 0.1);
}

#[test]
fn position_slot_one_above_slot_zero() {
    let (_, y0) = position(2560.0, 1440.0, 1.0, 0);
    let (_, y1) = position(2560.0, 1440.0, 1.0, 1);
    assert!(y1 < y0);
    let gap = y0 - y1;
    assert!((gap - (WINDOW_HEIGHT_F + STACK_GAP_F)).abs() < 0.1);
}

#[test]
fn position_with_retina_scaling() {
    let (x1, y1) = position(5120.0, 2880.0, 2.0, 0);
    let (x2, y2) = position(2560.0, 1440.0, 1.0, 0);
    assert!((x1 - x2).abs() < 0.1);
    assert!((y1 - y2).abs() < 0.1);
}

#[test]
fn position_x_is_same_across_slots() {
    let (x0, _) = position(1920.0, 1080.0, 1.0, 0);
    let (x1, _) = position(1920.0, 1080.0, 1.0, 1);
    let (x2, _) = position(1920.0, 1080.0, 1.0, 2);
    assert!((x0 - x1).abs() < 0.001);
    assert!((x1 - x2).abs() < 0.001);
}

#[test]
fn position_stacks_evenly() {
    let (_, y0) = position(1920.0, 1080.0, 1.0, 0);
    let (_, y1) = position(1920.0, 1080.0, 1.0, 1);
    let (_, y2) = position(1920.0, 1080.0, 1.0, 2);
    assert!(((y0 - y1) - (y1 - y2)).abs() < 0.001);
}

#[test]
fn corner_bottom_right_matches_default() {
    let (x1, y1) = position(2560.0, 1440.0, 1.0, 0);
    let (x2, y2) = position_for_corner(2560.0, 1440.0, 1.0, 0, "bottom_right");
    assert!((x1 - x2).abs() < 0.001);
    assert!((y1 - y2).abs() < 0.001);
}

#[test]
fn corner_top_left_slot_zero() {
    let (x, y) = position_for_corner(1920.0, 1080.0, 1.0, 0, "top_left");
    assert!((x - MARGIN_F).abs() < 0.001, "x should be at left margin");
    assert!((y - MARGIN_F).abs() < 0.001, "y should be at top margin");
}

#[test]
fn corner_top_right_slot_zero() {
    let (x, y) = position_for_corner(1920.0, 1080.0, 1.0, 0, "top_right");
    let expected_x = 1920.0 - WINDOW_WIDTH_F - MARGIN_F;
    assert!((x - expected_x).abs() < 0.001, "x should be at right edge");
    assert!((y - MARGIN_F).abs() < 0.001, "y should be at top margin");
}

#[test]
fn corner_bottom_left_slot_zero() {
    let (x, y) = position_for_corner(1920.0, 1080.0, 1.0, 0, "bottom_left");
    assert!((x - MARGIN_F).abs() < 0.001, "x should be at left margin");
    let expected_y = 1080.0 - WINDOW_HEIGHT_F - MARGIN_F - DOCK_HEIGHT_F;
    assert!((y - expected_y).abs() < 0.001, "y should be at bottom edge");
}

#[test]
fn corner_top_left_stacks_downward() {
    let (_, y0) = position_for_corner(1920.0, 1080.0, 1.0, 0, "top_left");
    let (_, y1) = position_for_corner(1920.0, 1080.0, 1.0, 1, "top_left");
    assert!(y1 > y0, "top_left slot 1 should be below slot 0 (stacks downward)");
    let gap = y1 - y0;
    assert!((gap - (WINDOW_HEIGHT_F + STACK_GAP_F)).abs() < 0.001);
}

#[test]
fn corner_top_right_stacks_downward() {
    let (_, y0) = position_for_corner(1920.0, 1080.0, 1.0, 0, "top_right");
    let (_, y1) = position_for_corner(1920.0, 1080.0, 1.0, 1, "top_right");
    assert!(y1 > y0, "top_right stacks downward");
}

#[test]
fn corner_bottom_left_stacks_upward() {
    let (_, y0) = position_for_corner(1920.0, 1080.0, 1.0, 0, "bottom_left");
    let (_, y1) = position_for_corner(1920.0, 1080.0, 1.0, 1, "bottom_left");
    assert!(y1 < y0, "bottom_left stacks upward");
}

#[test]
fn corner_bottom_right_stacks_upward() {
    let (_, y0) = position_for_corner(1920.0, 1080.0, 1.0, 0, "bottom_right");
    let (_, y1) = position_for_corner(1920.0, 1080.0, 1.0, 1, "bottom_right");
    assert!(y1 < y0, "bottom_right stacks upward");
}

#[test]
fn corner_kebab_case_matches_snake_case() {
    let (x1, y1) = position_for_corner(1920.0, 1080.0, 1.0, 0, "top_left");
    let (x2, y2) = position_for_corner(1920.0, 1080.0, 1.0, 0, "top-left");
    assert!((x1 - x2).abs() < 0.001);
    assert!((y1 - y2).abs() < 0.001);
    let (x3, y3) = position_for_corner(1920.0, 1080.0, 1.0, 0, "bottom_left");
    let (x4, y4) = position_for_corner(1920.0, 1080.0, 1.0, 0, "bottom-left");
    assert!((x3 - x4).abs() < 0.001);
    assert!((y3 - y4).abs() < 0.001);
}

#[test]
fn corner_unknown_value_falls_back_to_bottom_right() {
    let (x1, y1) = position_for_corner(1920.0, 1080.0, 1.0, 0, "bottom_right");
    let (x2, y2) = position_for_corner(1920.0, 1080.0, 1.0, 0, "invalid_value");
    assert!((x1 - x2).abs() < 0.001);
    assert!((y1 - y2).abs() < 0.001);
    assert_eq!(preview_corner("invalid_value"), PreviewCorner::BottomRight);
}

#[test]
fn corner_with_retina_scaling() {
    let (x1, y1) = position_for_corner(5120.0, 2880.0, 2.0, 0, "top_left");
    let (x2, y2) = position_for_corner(2560.0, 1440.0, 1.0, 0, "top_left");
    assert!((x1 - x2).abs() < 0.001);
    assert!((y1 - y2).abs() < 0.001);
}

#[test]
fn corner_all_four_have_distinct_positions() {
    let br = position_for_corner(1920.0, 1080.0, 1.0, 0, "bottom_right");
    let bl = position_for_corner(1920.0, 1080.0, 1.0, 0, "bottom_left");
    let tr = position_for_corner(1920.0, 1080.0, 1.0, 0, "top_right");
    let tl = position_for_corner(1920.0, 1080.0, 1.0, 0, "top_left");
    let positions = [br, bl, tr, tl];
    for i in 0..positions.len() {
        for j in (i + 1)..positions.len() {
            assert!(
                (positions[i].0 - positions[j].0).abs() > 1.0
                    || (positions[i].1 - positions[j].1).abs() > 1.0,
                "Positions {i} and {j} should differ"
            );
        }
    }
}

#[test]
fn refused_captures_do_not_extend_the_debounce_window() {
    let mut last = None;
    let accepted: Vec<bool> = [0u64, 400, 800, 1_000, 1_300]
        .iter()
        .map(|&t| debounce_check(&mut last, t))
        .collect();
    assert_eq!(accepted, vec![true, false, true, false, true]);
    assert_eq!(last, Some(1_300));
}
