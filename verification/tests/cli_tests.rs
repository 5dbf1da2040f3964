use snapforge::cli::ensure_permission;
use snapforge::cli::exit_code;
use snapforge::cli::interactive_capture_bytes;
use snapforge::cli::map_settings_error;
use snapforge::cli::preflight_capture;
use snapforge::cli::resolve_capture_target;
use snapforge::cli::resolve_prompt_language_for_cli;
use snapforge::cli::resolve_settings_path;
use snapforge::cli::run_settings_set;
use snapforge::cli::split_annotation_spec;
use snapforge::cli::validate_output_requirements;
use snapforge::cli::CaptureMode;
use snapforge::cli::CaptureTarget;
use snapforge::cli::CapturedImage;
use snapforge::cli::ErrorKind;
use snapforge::cli::OutputFormat;
use snapforge::cli::RunError;
use snapforge::cli::WindowRecord;
use snapforge::cli::EXIT_CANCELLED;
use snapforge::cli::EXIT_FAILURE;
use snapforge::cli::EXIT_SUCCESS;
use snapforge::cli::EXIT_USAGE;
use snapforge::settings::get_setting_field;
use snapforge::settings::SettingValue;
use snapforge::settings::Settings;
use snapforge::settings::SettingsError;

#[test]
fn capture_path_format_requires_output() {
    let err = validate_output_requirements(OutputFormat::Path, false).unwrap_err();
    assert_eq!(exit_code(&Err(err.clone())), EXIT_USAGE);
    assert!(err.message.contains("--format path requires --output"));
    assert!(validate_output_requirements(OutputFormat::Path, true).is_ok());
    assert!(validate_output_requirements(OutputFormat::Json, false).is_ok());
}

#[test]
fn invalid_capture_argument_combo_returns_usage_error() {
    let err = resolve_capture_target(CaptureMode::Area, None, Some(7)).unwrap_err();
    assert_eq!(exit_code(&Err(err.clone())), EXIT_USAGE);
    assert!(err.message.contains("cannot be combined"));
}

#[test]
fn capture_targets_follow_mode_and_flags() {
    assert_eq!(
        resolve_capture_target(CaptureMode::Full, None, None).unwrap(),
        CaptureTarget::Full { display_id: None }
    );
    assert_eq!(
        resolve_capture_target(CaptureMode::Full, None, Some(42)).unwrap(),
        CaptureTarget::WindowDirect { window_id: 42 }
    );
    assert_eq!(
        resolve_capture_target(CaptureMode::Window, None, None).unwrap(),
        CaptureTarget::WindowInteractive
    );
    assert_eq!(
        resolve_capture_target(CaptureMode::Area, None, None).unwrap(),
        CaptureTarget::AreaInteractive
    );
    assert_eq!(
        resolve_capture_target(CaptureMode::Window, Some(1), None).unwrap_err().message,
        "--display can only be used with full capture mode"
    );
    assert_eq!(
        resolve_capture_target(CaptureMode::Full, Some(1), Some(2)).unwrap_err().message,
        "--display cannot be combined with --window"
    );
}

#[test]
fn capture_area_cancel_returns_exit_code_3() {
    let err = interactive_capture_bytes(Ok(None)).unwrap_err();
    assert_eq!(exit_code(&Err(err.clone())), EXIT_CANCELLED);
    assert!(err.message.contains("Capture cancelled by user"));
    assert_eq!(interactive_capture_bytes(Ok(Some(vec![1, 2]))).unwrap(), vec![1, 2]);
    let failed = interactive_capture_bytes(Err("tool broke".into())).unwrap_err();
    assert_eq!(failed.kind, ErrorKind::Runtime);
}

#[test]
fn capture_permission_denied_returns_runtime_error() {
    let err = ensure_permission(false).unwrap_err();
    assert_eq!(exit_code(&Err(err.clone())), EXIT_FAILURE);
    assert!(err.message.contains("Screen recording permission not granted"));
    assert!(ensure_permission(true).is_ok());
}

#[test]
fn exit_codes_per_outcome() {
    assert_eq!(exit_code(&Ok(())), EXIT_SUCCESS);
    assert_eq!(exit_code(&Err(RunError::usage("u"))), 2);
    assert_eq!(exit_code(&Err(RunError::runtime("r"))), 1);
    assert_eq!(exit_code(&Err(RunError::cancelled("c"))), 3);
}

#[test]
fn split_annotation_spec_takes_note_after_first_colon() {
    let (coords, note) = split_annotation_spec("80,45:broken button");
    assert_eq!(coords, "80,45");
    assert_eq!(note.as_deref(), Some("broken button"));
    let (coords, note) = split_annotation_spec("10,10,40,20: spacing: issue ");
    assert_eq!(coords, "10,10,40,20");
    assert_eq!(note.as_deref(), Some("spacing: issue"));
    let (coords, note) = split_annotation_spec("1,2");
    assert_eq!(coords, "1,2");
    assert!(note.is_none());
}

#[test]
fn settings_get_unknown_key_returns_usage_error() {
    let err = map_settings_error(SettingsError::UnknownKey("nope".into()));
    assert_eq!(err.kind, ErrorKind::Usage);
    assert!(err.message.contains("nope"));
    let err = map_settings_error(SettingsError::Write("disk full".into()));
    assert_eq!(err.kind, ErrorKind::Runtime);
}

#[test]
fn settings_set_reports_update_or_usage_errors() {
    let mut s = Settings::default();
    assert_eq!(run_settings_set(&mut s, "language", "ja").unwrap(), "language updated");
    assert_eq!(s.language, "ja");
    let err = run_settings_set(&mut s, "maxPreviews", "lots").unwrap_err();
    assert_eq!(err.kind, ErrorKind::Usage);
    assert_eq!(s.max_previews, 5);
}

#[test]
fn settings_path_prints_override_path() {
    let p = resolve_settings_path(Some("/tmp/x.json".into()), Err(SettingsError::ConfigDirUnavailable));
    assert_eq!(p.unwrap(), "/tmp/x.json");
    let err = resolve_settings_path(None, Err(SettingsError::ConfigDirUnavailable)).unwrap_err();
    assert_eq!(err.kind, ErrorKind::Runtime);
    assert!(err.message.ends_with(". Pass --config <PATH> to override."));
}

#[test]
fn prompt_language_defaults_to_english() {
    assert_eq!(resolve_prompt_language_for_cli(None), "en");
    let mut s = Settings::default();
    s.language = "  ja  ".into();
    assert_eq!(resolve_prompt_language_for_cli(Some(&s)), "ja");
    s.language = "   ".into();
    assert_eq!(resolve_prompt_language_for_cli(Some(&s)), "en");
}

#[test]
fn captured_image_and_window_record_compare_by_fields() {
    let a = CapturedImage { width: 2, height: 1, rgba: vec![0; 8] };
    assert_eq!(a.clone(), a);
    let w = WindowRecord { id: 42, title: "Terminal".into(), app_name: "Ghostty".into(), is_on_screen: true };
    assert_eq!(w.clone(), w);
}

#[test]
fn capture_command_output_omits_base64_when_output_exists() {
    let rgba = vec![50u8; 8 * 4 * 4];
    let processed = snapforge::capture::process_rgba_capture(&rgba, 8, 4, snapforge::capture::LlmProvider::Sonnet).unwrap();
    let with_path = snapforge::cli::capture_summary(&processed, Some("/tmp/out.webp"), None);
    assert!(with_path.image_base64.is_none());
    assert_eq!(with_path.output_path.as_deref(), Some("/tmp/out.webp"));
    let without = snapforge::cli::capture_summary(&processed, None, Some("hint".into()));
    assert_eq!(without.image_base64.as_deref(), Some(processed.metadata.image_base64.as_str()));
    assert!(without.output_path.is_none());
    assert_eq!(without.prompt_hint.as_deref(), Some("hint"));
    assert_eq!(without.original_width, 8);
}

#[test]
fn settings_set_nested_field() {
    let mut s = Settings::default();
    let outcome = run_settings_set(&mut s, "maxDimension.pixels", "2048").map(|_| ());
    assert_eq!(exit_code(&outcome), EXIT_SUCCESS);
    assert!(matches!(
        get_setting_field(&s, "maxDimension.pixels"),
        Ok(SettingValue::Number(2048))
    ));
}

#[test]
fn settings_set_bool_field() {
    let mut s = Settings::default();
    let outcome = run_settings_set(&mut s, "autoCopy", "false").map(|_| ());
    assert_eq!(exit_code(&outcome), EXIT_SUCCESS);
    assert!(matches!(get_setting_field(&s, "autoCopy"), Ok(SettingValue::Flag(false))));
}

#[test]
fn settings_set_unknown_key_returns_usage_error() {
    let mut s = Settings::default();
    let outcome = run_settings_set(&mut s, "nonExistent", "x").map(|_| ());
    assert_eq!(exit_code(&outcome), EXIT_USAGE);
    assert!(outcome.unwrap_err().message.contains("Unknown settings key"));
}

#[test]
fn settings_set_invalid_value_type_returns_usage_error() {
    let mut s = Settings::default();
    let outcome = run_settings_set(&mut s, "maxPreviews", "not-a-number").map(|_| ());
    assert_eq!(exit_code(&outcome), EXIT_USAGE);
    assert!(outcome.unwrap_err().message.contains("Invalid value"));
}

#[test]
fn capture_flag_errors_come_before_the_permission_check() {
    let err = preflight_capture(false, OutputFormat::Path, false, CaptureMode::Full, None, None).unwrap_err();
    assert_eq!(err.kind, ErrorKind::Usage);
    assert!(err.message.contains("--format path requires --output"));
    let err = preflight_capture(false, OutputFormat::Json, false, CaptureMode::Area, None, Some(7)).unwrap_err();
    assert_eq!(err.kind, ErrorKind::Usage);
    assert_eq!(err.message, "--window cannot be combined with area capture mode");
    let err = preflight_capture(false, OutputFormat::Json, false, CaptureMode::Full, None, None).unwrap_err();
    assert_eq!(err.kind, ErrorKind::Runtime);
    assert_eq!(
        preflight_capture(true, OutputFormat::Json, false, CaptureMode::Area, None, None).unwrap(),
        CaptureTarget::AreaInteractive
    );
}
