use snapforge::shortcut::parse_shortcut;
use snapforge::shortcut::validate_shortcut_str;
use snapforge::shortcut::KeyCode;
use snapforge::shortcut::ShortcutSpec;

#[test]
fn accepts_alt_shift_digit() {
    assert!(validate_shortcut_str("Alt+Shift+3").is_ok());
}

#[test]
fn accepts_option_alias() {
    assert!(validate_shortcut_str("Option+Shift+A").is_ok());
}

#[test]
fn accepts_command_alias() {
    assert!(validate_shortcut_str("Command+Shift+A").is_ok());
}

#[test]
fn accepts_super_alias() {
    assert!(validate_shortcut_str("Super+A").is_ok());
}

#[test]
fn accepts_function_keys() {
    assert!(validate_shortcut_str("Ctrl+F1").is_ok());
    assert!(validate_shortcut_str("Ctrl+F12").is_ok());
}

#[test]
fn rejects_function_key_out_of_range() {
    assert!(validate_shortcut_str("Ctrl+F13").is_err());
    assert!(validate_shortcut_str("Ctrl+F0").is_err());
}

#[test]
fn rejects_bare_key() {
    assert!(validate_shortcut_str("A").is_err());
}

#[test]
fn rejects_unknown_modifier() {
    let err = validate_shortcut_str("Hyper+A").unwrap_err();
    assert!(err.contains("Unknown modifier"), "got: {err}");
}

#[test]
fn rejects_empty_string() {
    assert!(validate_shortcut_str("").is_err());
}

#[test]
fn rejects_trailing_plus() {
    assert!(validate_shortcut_str("Alt+Shift+").is_err());
}

#[test]
fn rejects_leading_plus() {
    assert!(validate_shortcut_str("+A").is_err());
}

#[test]
fn rejects_duplicate_modifier() {
    let err = validate_shortcut_str("Alt+Alt+A").unwrap_err();
    assert!(err.contains("Duplicate"), "got: {err}");
}

#[test]
fn rejects_duplicate_modifier_via_alias() {
    let err = validate_shortcut_str("Alt+Option+A").unwrap_err();
    assert!(err.contains("Duplicate"), "got: {err}");
}

#[test]
fn rejects_macos_reserved_cmd_shift_3() {
    let err = validate_shortcut_str("Cmd+Shift+3").unwrap_err();
    assert!(err.contains("reserved"), "got: {err}");
}

#[test]
fn rejects_macos_reserved_cmd_shift_4() {
    assert!(validate_shortcut_str("Cmd+Shift+4").unwrap_err().contains("reserved"));
}

#[test]
fn rejects_macos_reserved_cmd_shift_5() {
    assert!(validate_shortcut_str("Cmd+Shift+5").unwrap_err().contains("reserved"));
}

#[test]
fn alt_shift_3_is_allowed() {
    assert!(validate_shortcut_str("Alt+Shift+3").is_ok());
}

#[test]
fn rejects_lowercase_letter() {
    assert!(validate_shortcut_str("Alt+a").is_ok());
}

#[test]
fn whitespace_around_plus_is_tolerated() {
    assert!(validate_shortcut_str("Alt + Shift + 3").is_ok());
}

fn spec(alt: bool, shift: bool, control: bool, super_key: bool, code: KeyCode) -> ShortcutSpec {
    ShortcutSpec { alt, shift, control, super_key, code }
}

#[test]
fn alt_shift_digit() {
    let s = parse_shortcut("Alt+Shift+3").unwrap();
    assert_eq!(s, spec(true, true, false, false, KeyCode::Digit(3)));
}

#[test]
fn option_alias_maps_to_alt() {
    let s = parse_shortcut("Option+A").unwrap();
    assert_eq!(s, spec(true, false, false, false, KeyCode::Letter(b'A')));
}

#[test]
fn command_alias_maps_to_super() {
    let s = parse_shortcut("Command+A").unwrap();
    assert_eq!(s, spec(false, false, false, true, KeyCode::Letter(b'A')));
}

#[test]
fn lowercase_letter_normalized() {
    let s = parse_shortcut("Alt+a").unwrap();
    assert_eq!(s, spec(true, false, false, false, KeyCode::Letter(b'A')));
}

#[test]
fn function_key() {
    let s = parse_shortcut("Ctrl+F12").unwrap();
    assert_eq!(s, spec(false, false, true, false, KeyCode::Function(12)));
}

#[test]
fn macos_reserved_rejected() {
    assert!(parse_shortcut("Cmd+Shift+3").is_err());
}

#[test]
fn empty_string_rejected() {
    assert!(parse_shortcut("").is_err());
}

#[test]
fn unknown_modifier_message_names_the_modifier_and_shortcut() {
    let err = validate_shortcut_str("Hyper+A").unwrap_err();
    assert!(err.contains("Hyper"));
}

#[test]
fn function_keys_are_f1_to_f12_without_leading_zero() {
    for n in 1..=12 {
        assert!(validate_shortcut_str(&format!("Ctrl+F{n}")).is_ok(), "F{n}");
    }
    assert!(validate_shortcut_str("Ctrl+F01").is_err());
    assert!(validate_shortcut_str("Ctrl+F012").is_err());
    assert!(validate_shortcut_str("Ctrl+F13").is_err());
    assert!(parse_shortcut("Ctrl+F09").is_err());
    assert!(matches!(parse_shortcut("Ctrl+F9").unwrap().code, KeyCode::Function(9)));
}
