use snapforge::settings::default_settings_path;
use snapforge::settings::get_setting_field;
use snapforge::settings::linux_config_dir;
use snapforge::settings::load_settings_or_default;
use snapforge::settings::set_setting_field;
use snapforge::settings::settings_keys;
use snapforge::settings::settings_path_for_identifier;
use snapforge::settings::SettingValue;
use snapforge::settings::Settings;
use snapforge::settings::SettingsError;

#[test]
fn defaults_match_legacy_values() {
    let s = Settings::default();
    assert_eq!(s.language, "en");
    assert!(!s.launch_at_login);
    assert_eq!(s.max_dimension.mode, "none");
    assert_eq!(s.max_dimension.pixels, 1568);
}

#[test]
fn settings_path_joins_identifier() {
    let path = settings_path_for_identifier(Some("/home/user/.config"), "com.example.myapp").unwrap();
    assert!(path.contains("com.example.myapp"));
    assert!(path.ends_with("settings.json"));
}

#[test]
fn settings_path_is_config_dir_identifier_file() {
    let path = settings_path_for_identifier(Some("/home/user/.config"), "com.example.myapp").unwrap();
    assert_eq!(path, "/home/user/.config/com.example.myapp/settings.json");
    assert!(matches!(
        settings_path_for_identifier(None, "x"),
        Err(SettingsError::ConfigDirUnavailable)
    ));
    assert_eq!(
        default_settings_path(Some("/cfg")).unwrap(),
        "/cfg/dev.gazeapp.gaze/settings.json"
    );
}

#[test]
fn linux_config_dir_prefers_absolute_xdg() {
    assert_eq!(linux_config_dir(Some("/xdg"), Some("/home/u")), Some("/xdg".to_string()));
    assert_eq!(
        linux_config_dir(Some("relative"), Some("/home/u")),
        Some("/home/u/.config".to_string())
    );
    assert_eq!(linux_config_dir(None, None), None);
}

#[test]
fn load_or_default_falls_back_on_error() {
    let s = load_settings_or_default(Err(SettingsError::Parse("bad".into())));
    assert_eq!(s.language, Settings::default().language);
    let mut custom = Settings::default();
    custom.language = "ja".into();
    let s = load_settings_or_default(Ok(custom));
    assert_eq!(s.language, "ja");
}

#[test]
fn get_scalar_field() {
    let s = Settings::default();
    let val = get_setting_field(&s, "language").unwrap();
    assert!(matches!(val, SettingValue::Text(ref t) if t == "en"));
}

#[test]
fn get_nested_field() {
    let s = Settings::default();
    let val = get_setting_field(&s, "maxDimension.pixels").unwrap();
    assert!(matches!(val, SettingValue::Number(1568)));
}

#[test]
fn get_unknown_key_errors() {
    let s = Settings::default();
    let err = get_setting_field(&s, "nope").unwrap_err();
    assert!(matches!(err, SettingsError::UnknownKey(_)));
}

#[test]
fn set_bool_field_from_literal() {
    let mut s = Settings::default();
    set_setting_field(&mut s, "launchAtLogin", "true").unwrap();
    assert!(s.launch_at_login);
}

#[test]
fn set_string_field_with_unquoted_value() {
    let mut s = Settings::default();
    set_setting_field(&mut s, "language", "ja").unwrap();
    assert_eq!(s.language, "ja");
}

#[test]
fn set_string_field_with_quoted_value() {
    let mut s = Settings::default();
    set_setting_field(&mut s, "previewPosition", "\"top_left\"").unwrap();
    assert_eq!(s.preview_position, "top_left");
}

#[test]
fn set_numeric_field() {
    let mut s = Settings::default();
    set_setting_field(&mut s, "maxPreviews", "10").unwrap();
    assert_eq!(s.max_previews, 10);
}

#[test]
fn set_nested_field() {
    let mut s = Settings::default();
    set_setting_field(&mut s, "maxDimension.pixels", "2048").unwrap();
    assert_eq!(s.max_dimension.pixels, 2048);
}

#[test]
fn set_unknown_key_errors() {
    let mut s = Settings::default();
    let err = set_setting_field(&mut s, "fakeField", "1").unwrap_err();
    assert!(matches!(err, SettingsError::UnknownKey(_)));
}

#[test]
fn set_wrong_type_errors() {
    let mut s = Settings::default();
    let err = set_setting_field(&mut s, "maxPreviews", "not a number").unwrap_err();
    assert!(matches!(err, SettingsError::InvalidValue { .. }));
}

#[test]
fn set_then_get_reads_back_and_keeps_other_fields() {
    let mut s = Settings::default();
    set_setting_field(&mut s, "gifFps", "24").unwrap();
    assert!(matches!(get_setting_field(&s, "gifFps").unwrap(), SettingValue::Number(24)));
    assert_eq!(s.language, "en");
    assert_eq!(s.max_previews, 5);
    assert!(s.auto_copy);
}

#[test]
fn out_of_range_numbers_are_refused() {
    let mut s = Settings::default();
    let err = set_setting_field(&mut s, "gifQuality", "256").unwrap_err();
    match err {
        SettingsError::InvalidValue { key, reason } => {
            assert_eq!(key, "gifQuality");
            assert_eq!(reason, "expected an integer in 0..=255 (u8)");
        }
        other => panic!("unexpected {other:?}"),
    }
    assert_eq!(s.gif_quality, 90);
}

#[test]
fn settings_keys_lists_known_fields() {
    let keys = settings_keys();
    assert!(keys.contains(&"language"));
    assert!(keys.contains(&"maxDimension.pixels"));
    assert!(keys.contains(&"saveLocation"));
    assert_eq!(keys.len(), 14);
}

#[test]
fn error_messages_name_the_key() {
    let e = SettingsError::UnknownKey("nope".into());
    assert_eq!(e.message(), "Unknown settings key: nope. Run `settings get` to see valid keys.");
}

#[test]
fn every_listed_key_reads_back() {
    let s = Settings::default();
    for key in settings_keys() {
        assert!(get_setting_field(&s, key).is_ok(), "{key}");
        assert!(snapforge::settings::setting_key(key).is_some(), "{key}");
    }
}
