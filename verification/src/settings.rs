//! Persisted settings shared by the desktop app and the CLI: defaults, the
//! settings-file location, and reading or updating one field by its
//! camelCase key (dotted for the nested `maxDimension` fields).

use vstd::prelude::*;
use crate::json::{JsonValue, JsonValueView, parse_json};
use crate::text::{str_eq, string_of};

verus! {

/// Bundle identifier used as the settings directory name by the app and the CLI.
pub const GAZE_BUNDLE_IDENTIFIER: &'static str = "dev.gazeapp.gaze";

/// Image size limit chosen by the user.
#[derive(Debug, Clone)]
pub struct MaxDimension {
    pub mode: String,
    pub pixels: u32,
}

/// All persisted settings.
#[derive(Debug, Clone)]
pub struct Settings {
    pub language: String,
    pub launch_at_login: bool,
    pub auto_copy: bool,
    pub output_format: String,
    pub max_dimension: MaxDimension,
    pub max_recording_sec: u32,
    pub gif_fps: u32,
    pub gif_quality: u8,
    pub shortcut_area: String,
    pub shortcut_fullscreen: String,
    pub preview_position: String,
    pub max_previews: u32,
    pub save_location: String,
}

/// The mathematical view of [`Settings`].
pub struct SettingsView {
    pub language: Seq<char>,
    pub launch_at_login: bool,
    pub auto_copy: bool,
    pub output_format: Seq<char>,
    pub dimension_mode: Seq<char>,
    pub dimension_pixels: u32,
    pub max_recording_sec: u32,
    pub gif_fps: u32,
    pub gif_quality: u8,
    pub shortcut_area: Seq<char>,
    pub shortcut_fullscreen: Seq<char>,
    pub preview_position: Seq<char>,
    pub max_previews: u32,
    pub save_location: Seq<char>,
}

impl View for Settings {
    type V = SettingsView;

    open spec fn view(&self) -> SettingsView {
        SettingsView {
            language: self.language@,
            launch_at_login: self.launch_at_login,
            auto_copy: self.auto_copy,
            output_format: self.output_format@,
            dimension_mode: self.max_dimension.mode@,
            dimension_pixels: self.max_dimension.pixels,
            max_recording_sec: self.max_recording_sec,
            gif_fps: self.gif_fps,
            gif_quality: self.gif_quality,
            shortcut_area: self.shortcut_area@,
            shortcut_fullscreen: self.shortcut_fullscreen@,
            preview_position: self.preview_position@,
            max_previews: self.max_previews,
            save_location: self.save_location@,
        }
    }
}

/// The default settings.
pub open spec fn default_settings() -> SettingsView {
    SettingsView {
        language: "en"@,
        launch_at_login: false,
        auto_copy: true,
        output_format: "webp"@,
        dimension_mode: "none"@,
        dimension_pixels: 1568,
        max_recording_sec: 30,
        gif_fps: 10,
        gif_quality: 90,
        shortcut_area: "Alt+Shift+2"@,
        shortcut_fullscreen: "Alt+Shift+3"@,
        preview_position: "bottom_right"@,
        max_previews: 5,
        save_location: "~/Desktop"@,
    }
}

impl Default for MaxDimension {
    fn default() -> (r: Self)
        ensures
            r.mode@ == "none"@,
            r.pixels == 1568,
    {
        MaxDimension { mode: String::from_str("none"), pixels: 1568 }
    }
}

impl Default for Settings {
    fn default() -> (r: Self)
        ensures
            r@ == default_settings(),
    {
        Settings {
            language: String::from_str("en"),
            launch_at_login: false,
            auto_copy: true,
            output_format: String::from_str("webp"),
            max_dimension: MaxDimension::default(),
            max_recording_sec: 30,
            gif_fps: 10,
            gif_quality: 90,
            shortcut_area: String::from_str("Alt+Shift+2"),
            shortcut_fullscreen: String::from_str("Alt+Shift+3"),
            preview_position: String::from_str("bottom_right"),
            max_previews: 5,
            save_location: String::from_str("~/Desktop"),
        }
    }
}

/// Why reading or changing settings failed.
#[derive(Debug)]
pub enum SettingsError {
    /// The key names no settings field.
    UnknownKey(String),
    /// The value does not fit the field's type.
    InvalidValue { key: String, reason: String },
    /// The settings file could not be read (the I/O error's message).
    Read(String),
    /// The settings file is not valid settings JSON (the parser's message).
    Parse(String),
    /// The settings file could not be written (the I/O error's message).
    Write(String),
    /// The settings could not be serialised (the serialiser's message).
    Serialize(String),
    /// No per-user config directory is known on this platform.
    ConfigDirUnavailable,
}

/// The description of a settings error.
pub open spec fn settings_error_text(e: SettingsError) -> Seq<char> {
    match e {
        SettingsError::UnknownKey(k) => "Unknown settings key: "@ + k@
            + ". Run `settings get` to see valid keys."@,
        SettingsError::InvalidValue { key, reason } => "Invalid value for "@ + key@ + ": "@
            + reason@,
        SettingsError::Read(e) => "Failed to read settings file: "@ + e@,
        SettingsError::Parse(e) => "Failed to parse settings file: "@ + e@,
        SettingsError::Write(e) => "Failed to write settings file: "@ + e@,
        SettingsError::Serialize(e) => "Failed to serialize settings: "@ + e@,
        SettingsError::ConfigDirUnavailable => "Could not locate the user config directory for this platform"@,
    }
}

impl SettingsError {
    /// The human-readable description of the error.
    pub fn message(&self) -> (r: String)
        ensures
            r@ == settings_error_text(*self),
    {
        match self {
            SettingsError::UnknownKey(k) => {
                let mut m = String::from_str("Unknown settings key: ");
                m.append(k.as_str());
                m.append(". Run `settings get` to see valid keys.");
                m
            },
            SettingsError::InvalidValue { key, reason } => {
                let mut m = String::from_str("Invalid value for ");
                m.append(key.as_str());
                m.append(": ");
                m.append(reason.as_str());
                m
            },
            SettingsError::Read(e) => {
                let mut m = String::from_str("Failed to read settings file: ");
                m.append(e.as_str());
                m
            },
            SettingsError::Parse(e) => {
                let mut m = String::from_str("Failed to parse settings file: ");
                m.append(e.as_str());
                m
            },
            SettingsError::Write(e) => {
                let mut m = String::from_str("Failed to write settings file: ");
                m.append(e.as_str());
                m
            },
            SettingsError::Serialize(e) => {
                let mut m = String::from_str("Failed to serialize settings: ");
                m.append(e.as_str());
                m
            },
            SettingsError::ConfigDirUnavailable => String::from_str(
                "Could not locate the user config directory for this platform",
            ),
        }
    }
}

// ---------------------------------------------------------------------------
// Settings file location
// ---------------------------------------------------------------------------

/// `Path::join` on Unix paths: an absolute `segment` replaces `base`;
/// otherwise the two are joined with one `/`.
pub open spec fn join_path(base: Seq<char>, segment: Seq<char>) -> Seq<char> {
    if segment.len() > 0 && segment[0] == '/' {
        segment
    } else if base.len() == 0 {
        segment
    } else if base.last() == '/' {
        base + segment
    } else {
        base + "/"@ + segment
    }
}

/// Joins two path pieces as `Path::join` does on Unix.
pub fn join_path_str(base: &str, segment: &str) -> (r: String)
    ensures
        r@ == join_path(base@, segment@),
{
    proof {
        reveal_strlit("/");
    }
    let seg_len = segment.unicode_len();
    if seg_len > 0 && segment.get_char(0) == '/' {
        return string_of(segment);
    }
    let base_len = base.unicode_len();
    if base_len == 0 {
        return string_of(segment);
    }
    let mut out = string_of(base);
    if base.get_char(base_len - 1) != '/' {
        out.append("/");
    }
    out.append(segment);
    out
}

/// The settings file path under a config directory.
pub open spec fn spec_settings_path(config_dir: Seq<char>, identifier: Seq<char>) -> Seq<char> {
    join_path(join_path(config_dir, identifier), "settings.json"@)
}

/// Resolves `<config dir>/<identifier>/settings.json`; fails with
/// `ConfigDirUnavailable` when the platform has no config directory.
pub fn settings_path_for_identifier(config_dir: Option<&str>, identifier: &str) -> (r: Result<
    String,
    SettingsError,
>)
    ensures
        match config_dir {
            Some(d) => r matches Ok(p) && p@ == spec_settings_path(d@, identifier@),
            None => r matches Err(SettingsError::ConfigDirUnavailable),
        },
{
    match config_dir {
        None => Err(SettingsError::ConfigDirUnavailable),
        Some(base) => {
            let dir = join_path_str(base, identifier);
            Ok(join_path_str(dir.as_str(), "settings.json"))
        },
    }
}

/// The Gaze app's settings file path under a config directory.
pub fn default_settings_path(config_dir: Option<&str>) -> (r: Result<String, SettingsError>)
    ensures
        match config_dir {
            Some(d) => r matches Ok(p) && p@ == spec_settings_path(d@, GAZE_BUNDLE_IDENTIFIER@),
            None => r matches Err(SettingsError::ConfigDirUnavailable),
        },
{
    settings_path_for_identifier(config_dir, GAZE_BUNDLE_IDENTIFIER)
}

/// The per-user config directory on Linux: `$XDG_CONFIG_HOME` when it is
/// absolute, otherwise `$HOME/.config`.
pub fn linux_config_dir(xdg_config_home: Option<&str>, home: Option<&str>) -> (r: Option<String>)
    ensures
        match xdg_config_home {
            Some(x) if x@.len() > 0 && x@[0] == '/' => r matches Some(p) && p@ == x@,
            _ => match home {
                Some(h) => r matches Some(p) && p@ == join_path(h@, ".config"@),
                None => r is None,
            },
        },
{
    if let Some(x) = xdg_config_home {
        if x.unicode_len() > 0 && x.get_char(0) == '/' {
            return Some(string_of(x));
        }
    }
    match home {
        Some(h) => Some(join_path_str(h, ".config")),
        None => None,
    }
}

/// The per-user config directory on macOS: `$HOME/Library/Application Support`.
pub fn macos_config_dir(home: Option<&str>) -> (r: Option<String>)
    ensures
        match home {
            Some(h) => r matches Some(p) && p@ == join_path(
                join_path(h@, "Library"@),
                "Application Support"@,
            ),
            None => r is None,
        },
{
    match home {
        Some(h) => {
            let lib = join_path_str(h, "Library");
            Some(join_path_str(lib.as_str(), "Application Support"))
        },
        None => None,
    }
}

// ---------------------------------------------------------------------------
// Field access by key
// ---------------------------------------------------------------------------

/// A settable field, named by its camelCase key.
#[derive(PartialEq, Eq, Structural, Clone, Copy, Debug)]
pub enum SettingKey {
    Language,
    LaunchAtLogin,
    AutoCopy,
    OutputFormat,
    MaxDimensionMode,
    MaxDimensionPixels,
    MaxRecordingSec,
    GifFps,
    GifQuality,
    ShortcutArea,
    ShortcutFullscreen,
    PreviewPosition,
    MaxPreviews,
    SaveLocation,
}

/// The key under which a field is read and written.
pub open spec fn key_name(k: SettingKey) -> Seq<char> {
    match k {
        SettingKey::Language => "language"@,
        SettingKey::LaunchAtLogin => "launchAtLogin"@,
        SettingKey::AutoCopy => "autoCopy"@,
        SettingKey::OutputFormat => "outputFormat"@,
        SettingKey::MaxDimensionMode => "maxDimension.mode"@,
        SettingKey::MaxDimensionPixels => "maxDimension.pixels"@,
        SettingKey::MaxRecordingSec => "maxRecordingSec"@,
        SettingKey::GifFps => "gifFps"@,
        SettingKey::GifQuality => "gifQuality"@,
        SettingKey::ShortcutArea => "shortcutArea"@,
        SettingKey::ShortcutFullscreen => "shortcutFullscreen"@,
        SettingKey::PreviewPosition => "previewPosition"@,
        SettingKey::MaxPreviews => "maxPreviews"@,
        SettingKey::SaveLocation => "saveLocation"@,
    }
}

/// The field a key names, if any.
pub open spec fn spec_setting_key(key: Seq<char>) -> Option<SettingKey> {
    if key == "language"@ {
        Some(SettingKey::Language)
    } else if key == "launchAtLogin"@ {
        Some(SettingKey::LaunchAtLogin)
    } else if key == "autoCopy"@ {
        Some(SettingKey::AutoCopy)
    } else if key == "outputFormat"@ {
        Some(SettingKey::OutputFormat)
    } else if key == "maxDimension.mode"@ {
        Some(SettingKey::MaxDimensionMode)
    } else if key == "maxDimension.pixels"@ {
        Some(SettingKey::MaxDimensionPixels)
    } else if key == "maxRecordingSec"@ {
        Some(SettingKey::MaxRecordingSec)
    } else if key == "gifFps"@ {
        Some(SettingKey::GifFps)
    } else if key == "gifQuality"@ {
        Some(SettingKey::GifQuality)
    } else if key == "shortcutArea"@ {
        Some(SettingKey::ShortcutArea)
    } else if key == "shortcutFullscreen"@ {
        Some(SettingKey::ShortcutFullscreen)
    } else if key == "previewPosition"@ {
        Some(SettingKey::PreviewPosition)
    } else if key == "maxPreviews"@ {
        Some(SettingKey::MaxPreviews)
    } else if key == "saveLocation"@ {
        Some(SettingKey::SaveLocation)
    } else {
        None
    }
}

fn key_str(k: SettingKey) -> (r: &'static str)
    ensures
        r@ == key_name(k),
{
    match k {
        SettingKey::Language => "language",
        SettingKey::LaunchAtLogin => "launchAtLogin",
        SettingKey::AutoCopy => "autoCopy",
        SettingKey::OutputFormat => "outputFormat",
        SettingKey::MaxDimensionMode => "maxDimension.mode",
        SettingKey::MaxDimensionPixels => "maxDimension.pixels",
        SettingKey::MaxRecordingSec => "maxRecordingSec",
        SettingKey::GifFps => "gifFps",
        SettingKey::GifQuality => "gifQuality",
        SettingKey::ShortcutArea => "shortcutArea",
        SettingKey::ShortcutFullscreen => "shortcutFullscreen",
        SettingKey::PreviewPosition => "previewPosition",
        SettingKey::MaxPreviews => "maxPreviews",
        SettingKey::SaveLocation => "saveLocation",
    }
}

/// The keys in their canonical order.
pub open spec fn all_keys() -> Seq<SettingKey> {
    seq![
        SettingKey::Language,
        SettingKey::LaunchAtLogin,
        SettingKey::AutoCopy,
        SettingKey::OutputFormat,
        SettingKey::MaxDimensionMode,
        SettingKey::MaxDimensionPixels,
        SettingKey::MaxRecordingSec,
        SettingKey::GifFps,
        SettingKey::GifQuality,
        SettingKey::ShortcutArea,
        SettingKey::ShortcutFullscreen,
        SettingKey::PreviewPosition,
        SettingKey::MaxPreviews,
        SettingKey::SaveLocation,
    ]
}

/// Every settable key, in canonical order (camelCase, dotted for nested fields).
pub fn settings_keys() -> (r: Vec<&'static str>)
    ensures
        r@.len() == all_keys().len(),
        forall|i: int| 0 <= i < r@.len() ==> #[trigger] r@[i]@ == key_name(all_keys()[i]),
{
    let keys = vec![
        SettingKey::Language,
        SettingKey::LaunchAtLogin,
        SettingKey::AutoCopy,
        SettingKey::OutputFormat,
        SettingKey::MaxDimensionMode,
        SettingKey::MaxDimensionPixels,
        SettingKey::MaxRecordingSec,
        SettingKey::GifFps,
        SettingKey::GifQuality,
        SettingKey::ShortcutArea,
        SettingKey::ShortcutFullscreen,
        SettingKey::PreviewPosition,
        SettingKey::MaxPreviews,
        SettingKey::SaveLocation,
    ];
    assert(keys@ =~= all_keys());
    let mut out: Vec<&'static str> = Vec::new();
    let mut i: usize = 0;
    while i < keys.len()
        invariant
            keys@ == all_keys(),
            i <= keys.len(),
            out@.len() == i,
            forall|j: int| 0 <= j < i ==> #[trigger] out@[j]@ == key_name(all_keys()[j]),
        decreases keys.len() - i,
    {
        out.push(key_str(keys[i]));
        i = i + 1;
    }
    out
}

/// Looks up the field a key names.
pub fn setting_key(key: &str) -> (r: Option<SettingKey>)
    ensures
        r == spec_setting_key(key@),
{
    if str_eq(key, "language") {
        Some(SettingKey::Language)
    } else if str_eq(key, "launchAtLogin") {
        Some(SettingKey::LaunchAtLogin)
    } else if str_eq(key, "autoCopy") {
        Some(SettingKey::AutoCopy)
    } else if str_eq(key, "outputFormat") {
        Some(SettingKey::OutputFormat)
    } else if str_eq(key, "maxDimension.mode") {
        Some(SettingKey::MaxDimensionMode)
    } else if str_eq(key, "maxDimension.pixels") {
        Some(SettingKey::MaxDimensionPixels)
    } else if str_eq(key, "maxRecordingSec") {
        Some(SettingKey::MaxRecordingSec)
    } else if str_eq(key, "gifFps") {
        Some(SettingKey::GifFps)
    } else if str_eq(key, "gifQuality") {
        Some(SettingKey::GifQuality)
    } else if str_eq(key, "shortcutArea") {
        Some(SettingKey::ShortcutArea)
    } else if str_eq(key, "shortcutFullscreen") {
        Some(SettingKey::ShortcutFullscreen)
    } else if str_eq(key, "previewPosition") {
        Some(SettingKey::PreviewPosition)
    } else if str_eq(key, "maxPreviews") {
        Some(SettingKey::MaxPreviews)
    } else if str_eq(key, "saveLocation") {
        Some(SettingKey::SaveLocation)
    } else {
        None
    }
}

/// The value of one field, as `settings get <key>` reports it.
#[derive(Debug)]
pub enum SettingValue {
    Text(String),
    Flag(bool),
    Number(u64),
    /// The whole `maxDimension` object.
    Dimension(MaxDimension),
}

/// The mathematical view of a [`SettingValue`].
pub enum SettingValueView {
    Text(Seq<char>),
    Flag(bool),
    Number(nat),
    Dimension(Seq<char>, nat),
}

impl View for SettingValue {
    type V = SettingValueView;

    open spec fn view(&self) -> SettingValueView {
        match self {
            SettingValue::Text(s) => SettingValueView::Text(s@),
            SettingValue::Flag(b) => SettingValueView::Flag(*b),
            SettingValue::Number(n) => SettingValueView::Number(*n as nat),
            SettingValue::Dimension(d) => SettingValueView::Dimension(d.mode@, d.pixels as nat),
        }
    }
}

/// The value a field holds.
pub open spec fn spec_field_value(s: SettingsView, k: SettingKey) -> SettingValueView {
    match k {
        SettingKey::Language => SettingValueView::Text(s.language),
        SettingKey::LaunchAtLogin => SettingValueView::Flag(s.launch_at_login),
        SettingKey::AutoCopy => SettingValueView::Flag(s.auto_copy),
        SettingKey::OutputFormat => SettingValueView::Text(s.output_format),
        SettingKey::MaxDimensionMode => SettingValueView::Text(s.dimension_mode),
        SettingKey::MaxDimensionPixels => SettingValueView::Number(s.dimension_pixels as nat),
        SettingKey::MaxRecordingSec => SettingValueView::Number(s.max_recording_sec as nat),
        SettingKey::GifFps => SettingValueView::Number(s.gif_fps as nat),
        SettingKey::GifQuality => SettingValueView::Number(s.gif_quality as nat),
        SettingKey::ShortcutArea => SettingValueView::Text(s.shortcut_area),
        SettingKey::ShortcutFullscreen => SettingValueView::Text(s.shortcut_fullscreen),
        SettingKey::PreviewPosition => SettingValueView::Text(s.preview_position),
        SettingKey::MaxPreviews => SettingValueView::Number(s.max_previews as nat),
        SettingKey::SaveLocation => SettingValueView::Text(s.save_location),
    }
}

/// What `settings get <key>` reads: a field by its key, or the whole
/// `maxDimension` object; `None` for any other key.
pub open spec fn spec_get_setting(s: SettingsView, key: Seq<char>) -> Option<SettingValueView> {
    if key == "maxDimension"@ {
        Some(SettingValueView::Dimension(s.dimension_mode, s.dimension_pixels as nat))
    } else {
        match spec_setting_key(key) {
            Some(k) => Some(spec_field_value(s, k)),
            None => None,
        }
    }
}

/// Reads one field by key; unknown keys give `UnknownKey`.
pub fn get_setting_field(settings: &Settings, key: &str) -> (r: Result<SettingValue, SettingsError>)
    ensures
        match spec_get_setting(settings@, key@) {
            Some(v) => r matches Ok(got) && got@ == v,
            None => r matches Err(SettingsError::UnknownKey(k)) && k@ == key@,
        },
{
    if str_eq(key, "maxDimension") {
        return Ok(
            SettingValue::Dimension(
                MaxDimension {
                    mode: string_of(settings.max_dimension.mode.as_str()),
                    pixels: settings.max_dimension.pixels,
                },
            ),
        );
    }
    match setting_key(key) {
        None => Err(SettingsError::UnknownKey(string_of(key))),
        Some(k) => Ok(
            match k {
                SettingKey::Language => SettingValue::Text(string_of(settings.language.as_str())),
                SettingKey::LaunchAtLogin => SettingValue::Flag(settings.launch_at_login),
                SettingKey::AutoCopy => SettingValue::Flag(settings.auto_copy),
                SettingKey::OutputFormat => SettingValue::Text(
                    string_of(settings.output_format.as_str()),
                ),
                SettingKey::MaxDimensionMode => SettingValue::Text(
                    string_of(settings.max_dimension.mode.as_str()),
                ),
                SettingKey::MaxDimensionPixels => SettingValue::Number(
                    settings.max_dimension.pixels as u64,
                ),
                SettingKey::MaxRecordingSec => SettingValue::Number(
                    settings.max_recording_sec as u64,
                ),
                SettingKey::GifFps => SettingValue::Number(settings.gif_fps as u64),
                SettingKey::GifQuality => SettingValue::Number(settings.gif_quality as u64),
                SettingKey::ShortcutArea => SettingValue::Text(
                    string_of(settings.shortcut_area.as_str()),
                ),
                SettingKey::ShortcutFullscreen => SettingValue::Text(
                    string_of(settings.shortcut_fullscreen.as_str()),
                ),
                SettingKey::PreviewPosition => SettingValue::Text(
                    string_of(settings.preview_position.as_str()),
                ),
                SettingKey::MaxPreviews => SettingValue::Number(settings.max_previews as u64),
                SettingKey::SaveLocation => SettingValue::Text(
                    string_of(settings.save_location.as_str()),
                ),
            },
        ),
    }
}

/// How a CLI value is read: as JSON when it parses, else as a bare string
/// (so `ja` and `"ja"` both mean the string `ja`).
pub open spec fn spec_cli_value(raw: Seq<char>) -> crate::json::JsonValueView {
    match crate::json::json_parse_result(raw) {
        Some(v) => v,
        None => crate::json::JsonValueView::Text(raw),
    }
}

/// The type a field accepts, as stated in a rejection.
pub open spec fn expected_type(k: SettingKey) -> Seq<char> {
    match k {
        SettingKey::LaunchAtLogin | SettingKey::AutoCopy => "expected a boolean"@,
        SettingKey::MaxDimensionPixels | SettingKey::MaxRecordingSec | SettingKey::GifFps
        | SettingKey::MaxPreviews => "expected an integer in 0..=4294967295 (u32)"@,
        SettingKey::GifQuality => "expected an integer in 0..=255 (u8)"@,
        _ => "expected a string"@,
    }
}

/// The settings after field `k` takes the value `v`, or `None` when `v`
/// does not fit the field's type (strings take JSON strings, flags take
/// booleans, numeric fields take non-negative integers within their range).
pub open spec fn spec_assign(s: SettingsView, k: SettingKey, v: crate::json::JsonValueView) -> Option<
    SettingsView,
> {
    match v {
        crate::json::JsonValueView::Text(t) => match k {
            SettingKey::Language => Some(SettingsView { language: t, ..s }),
            SettingKey::OutputFormat => Some(SettingsView { output_format: t, ..s }),
            SettingKey::MaxDimensionMode => Some(SettingsView { dimension_mode: t, ..s }),
            SettingKey::ShortcutArea => Some(SettingsView { shortcut_area: t, ..s }),
            SettingKey::ShortcutFullscreen => Some(SettingsView { shortcut_fullscreen: t, ..s }),
            SettingKey::PreviewPosition => Some(SettingsView { preview_position: t, ..s }),
            SettingKey::SaveLocation => Some(SettingsView { save_location: t, ..s }),
            _ => None,
        },
        crate::json::JsonValueView::Bool(b) => match k {
            SettingKey::LaunchAtLogin => Some(SettingsView { launch_at_login: b, ..s }),
            SettingKey::AutoCopy => Some(SettingsView { auto_copy: b, ..s }),
            _ => None,
        },
        crate::json::JsonValueView::Number(Some(n)) => match k {
            SettingKey::MaxDimensionPixels => if n <= u32::MAX {
                Some(SettingsView { dimension_pixels: n as u32, ..s })
            } else {
                None
            },
            SettingKey::MaxRecordingSec => if n <= u32::MAX {
                Some(SettingsView { max_recording_sec: n as u32, ..s })
            } else {
                None
            },
            SettingKey::GifFps => if n <= u32::MAX {
                Some(SettingsView { gif_fps: n as u32, ..s })
            } else {
                None
            },
            SettingKey::MaxPreviews => if n <= u32::MAX {
                Some(SettingsView { max_previews: n as u32, ..s })
            } else {
                None
            },
            SettingKey::GifQuality => if n <= u8::MAX {
                Some(SettingsView { gif_quality: n as u8, ..s })
            } else {
                None
            },
            _ => None,
        },
        _ => None,
    }
}

fn expected_type_str(k: SettingKey) -> (r: &'static str)
    ensures
        r@ == expected_type(k),
{
    match k {
        SettingKey::LaunchAtLogin | SettingKey::AutoCopy => "expected a boolean",
        SettingKey::MaxDimensionPixels | SettingKey::MaxRecordingSec | SettingKey::GifFps
        | SettingKey::MaxPreviews => "expected an integer in 0..=4294967295 (u32)",
        SettingKey::GifQuality => "expected an integer in 0..=255 (u8)",
        _ => "expected a string",
    }
}

/// Stores `v` into field `k` when it fits the field's type.
fn assign_field(settings: &mut Settings, k: SettingKey, v: JsonValue) -> (ok: bool)
    ensures
        match spec_assign(old(settings)@, k, v@) {
            Some(s) => ok && final(settings)@ == s,
            None => !ok && final(settings)@ == old(settings)@,
        },
{
    match v {
        JsonValue::Text(t) => match k {
            SettingKey::Language => {
                settings.language = t;
                true
            },
            SettingKey::OutputFormat => {
                settings.output_format = t;
                true
            },
            SettingKey::MaxDimensionMode => {
                settings.max_dimension.mode = t;
                true
            },
            SettingKey::ShortcutArea => {
                settings.shortcut_area = t;
                true
            },
            SettingKey::ShortcutFullscreen => {
                settings.shortcut_fullscreen = t;
                true
            },
            SettingKey::PreviewPosition => {
                settings.preview_position = t;
                true
            },
            SettingKey::SaveLocation => {
                settings.save_location = t;
                true
            },
            _ => false,
        },
        JsonValue::Bool(b) => match k {
            SettingKey::LaunchAtLogin => {
                settings.launch_at_login = b;
                true
            },
            SettingKey::AutoCopy => {
                settings.auto_copy = b;
                true
            },
            _ => false,
        },
        JsonValue::Number(Some(n)) => match k {
            SettingKey::MaxDimensionPixels => if n <= u32::MAX as u64 {
                settings.max_dimension.pixels = n as u32;
                true
            } else {
                false
            },
            SettingKey::MaxRecordingSec => if n <= u32::MAX as u64 {
                settings.max_recording_sec = n as u32;
                true
            } else {
                false
            },
            SettingKey::GifFps => if n <= u32::MAX as u64 {
                settings.gif_fps = n as u32;
                true
            } else {
                false
            },
            SettingKey::MaxPreviews => if n <= u32::MAX as u64 {
                settings.max_previews = n as u32;
                true
            } else {
                false
            },
            SettingKey::GifQuality => if n <= u8::MAX as u64 {
                settings.gif_quality = n as u8;
                true
            } else {
                false
            },
            _ => false,
        },
        _ => false,
    }
}

/// Updates one field by key from a command-line value. The value is read
/// as JSON when it parses (so `true`, `42`, `"foo"` work) and as a bare
/// string otherwise. Unknown keys give `UnknownKey`; a value of the wrong
/// type gives `InvalidValue` and leaves the settings unchanged.
pub fn set_setting_field(settings: &mut Settings, key: &str, raw_value: &str) -> (r: Result<
    (),
    SettingsError,
>)
    ensures
        match spec_setting_key(key@) {
            None => r matches Err(SettingsError::UnknownKey(k)) && k@ == key@ && final(settings)@
                == old(settings)@,
            Some(k) => match spec_assign(old(settings)@, k, spec_cli_value(raw_value@)) {
                Some(s) => r is Ok && final(settings)@ == s,
                None => r matches Err(SettingsError::InvalidValue { key: kk, reason })
                    && kk@ == key@ && reason@ == expected_type(k) && final(settings)@ == old(
                    settings,
                )@,
            },
        },
        r is Ok <==> set_by_key(old(settings)@, key@, spec_cli_value(raw_value@)) == Some(
            final(settings)@,
        ),
{
    let k = match setting_key(key) {
        None => return Err(SettingsError::UnknownKey(string_of(key))),
        Some(k) => k,
    };
    let parsed = match parse_json(raw_value) {
        Some(v) => v,
        None => JsonValue::Text(string_of(raw_value)),
    };
    if assign_field(settings, k, parsed) {
        Ok(())
    } else {
        Err(
            SettingsError::InvalidValue {
                key: string_of(key),
                reason: string_of(expected_type_str(k)),
            },
        )
    }
}

/// The settings that loading gave, or the defaults when loading failed.
pub fn load_settings_or_default(loaded: Result<Settings, SettingsError>) -> (r: Settings)
    ensures
        match loaded {
            Ok(s) => r@ == s@,
            Err(_) => r@ == default_settings(),
        },
{
    match loaded {
        Ok(s) => s,
        Err(_) => Settings::default(),
    }
}

/// The value a field reads back after it was assigned `v`.
pub open spec fn stored_value(v: crate::json::JsonValueView) -> SettingValueView {
    match v {
        crate::json::JsonValueView::Text(t) => SettingValueView::Text(t),
        crate::json::JsonValueView::Bool(b) => SettingValueView::Flag(b),
        crate::json::JsonValueView::Number(Some(n)) => SettingValueView::Number(n as nat),
        _ => SettingValueView::Flag(false),
    }
}

/// What `settings set <key> <value>` makes of the settings: the key's
/// field holding the value, or `None` when the key is unknown or the value
/// does not fit the field.
pub open spec fn set_by_key(s: SettingsView, key: Seq<char>, v: JsonValueView) -> Option<SettingsView> {
    match spec_setting_key(key) {
        Some(k) => spec_assign(s, k, v),
        None => None,
    }
}

/// Each camelCase key reads the field of the same name (`shortcutArea` the
/// area-capture shortcut, `maxDimension.pixels` the pixel cap, and so on),
/// and `maxDimension` reads the whole size cap.
pub proof fn lemma_keys_read_their_fields(s: SettingsView)
    ensures
        spec_get_setting(s, "language"@) == Some(SettingValueView::Text(s.language)),
        spec_get_setting(s, "launchAtLogin"@) == Some(SettingValueView::Flag(s.launch_at_login)),
        spec_get_setting(s, "autoCopy"@) == Some(SettingValueView::Flag(s.auto_copy)),
        spec_get_setting(s, "outputFormat"@) == Some(SettingValueView::Text(s.output_format)),
        spec_get_setting(s, "maxDimension.mode"@) == Some(SettingValueView::Text(s.dimension_mode)),
        spec_get_setting(s, "maxDimension.pixels"@) == Some(SettingValueView::Number(s.dimension_pixels as nat)),
        spec_get_setting(s, "maxRecordingSec"@) == Some(SettingValueView::Number(s.max_recording_sec as nat)),
        spec_get_setting(s, "gifFps"@) == Some(SettingValueView::Number(s.gif_fps as nat)),
        spec_get_setting(s, "gifQuality"@) == Some(SettingValueView::Number(s.gif_quality as nat)),
        spec_get_setting(s, "shortcutArea"@) == Some(SettingValueView::Text(s.shortcut_area)),
        spec_get_setting(s, "shortcutFullscreen"@) == Some(SettingValueView::Text(s.shortcut_fullscreen)),
        spec_get_setting(s, "previewPosition"@) == Some(SettingValueView::Text(s.preview_position)),
        spec_get_setting(s, "maxPreviews"@) == Some(SettingValueView::Number(s.max_previews as nat)),
        spec_get_setting(s, "saveLocation"@) == Some(SettingValueView::Text(s.save_location)),
        spec_get_setting(s, "maxDimension"@) == Some(
            SettingValueView::Dimension(s.dimension_mode, s.dimension_pixels as nat),
        ),
{
    lemma_key_names_round_trip(SettingKey::Language);
    lemma_key_names_round_trip(SettingKey::LaunchAtLogin);
    lemma_key_names_round_trip(SettingKey::AutoCopy);
    lemma_key_names_round_trip(SettingKey::OutputFormat);
    lemma_key_names_round_trip(SettingKey::MaxDimensionMode);
    lemma_key_names_round_trip(SettingKey::MaxDimensionPixels);
    lemma_key_names_round_trip(SettingKey::MaxRecordingSec);
    lemma_key_names_round_trip(SettingKey::GifFps);
    lemma_key_names_round_trip(SettingKey::GifQuality);
    lemma_key_names_round_trip(SettingKey::ShortcutArea);
    lemma_key_names_round_trip(SettingKey::ShortcutFullscreen);
    lemma_key_names_round_trip(SettingKey::PreviewPosition);
    lemma_key_names_round_trip(SettingKey::MaxPreviews);
    lemma_key_names_round_trip(SettingKey::SaveLocation);
    reveal_strlit("maxDimension");
    reveal_strlit("language");
    reveal_strlit("launchAtLogin");
    reveal_strlit("autoCopy");
    reveal_strlit("outputFormat");
    reveal_strlit("maxDimension.mode");
    reveal_strlit("maxDimension.pixels");
    reveal_strlit("maxRecordingSec");
    reveal_strlit("gifFps");
    reveal_strlit("gifQuality");
    reveal_strlit("shortcutArea");
    reveal_strlit("shortcutFullscreen");
    reveal_strlit("previewPosition");
    reveal_strlit("maxPreviews");
    reveal_strlit("saveLocation");
    assert("maxDimension.mode"@.len() != "maxDimension"@.len());
    assert("maxDimension.pixels"@.len() != "maxDimension"@.len());
    assert("maxDimension"@[0] != "outputFormat"@[0]);
    assert("maxDimension"@[0] != "shortcutArea"@[0]);
    assert("maxDimension"@[0] != "saveLocation"@[0]);
}

/// Setting a key writes exactly the field of the same name and leaves every
/// other field as it was: a text key takes a string, `launchAtLogin` and
/// `autoCopy` take booleans, the numeric keys take integers within their
/// field's range.
pub proof fn lemma_keys_write_their_fields(s: SettingsView, t: Seq<char>, b: bool, n: u32, q: u8)
    ensures
        set_by_key(s, "language"@, JsonValueView::Text(t)) == Some(SettingsView { language: t, ..s }),
        set_by_key(s, "launchAtLogin"@, JsonValueView::Bool(b)) == Some(SettingsView { launch_at_login: b, ..s }),
        set_by_key(s, "autoCopy"@, JsonValueView::Bool(b)) == Some(SettingsView { auto_copy: b, ..s }),
        set_by_key(s, "outputFormat"@, JsonValueView::Text(t)) == Some(SettingsView { output_format: t, ..s }),
        set_by_key(s, "maxDimension.mode"@, JsonValueView::Text(t)) == Some(SettingsView { dimension_mode: t, ..s }),
        set_by_key(s, "maxDimension.pixels"@, JsonValueView::Number(Some(n as u64))) == Some(SettingsView { dimension_pixels: n, ..s }),
        set_by_key(s, "maxRecordingSec"@, JsonValueView::Number(Some(n as u64))) == Some(SettingsView { max_recording_sec: n, ..s }),
        set_by_key(s, "gifFps"@, JsonValueView::Number(Some(n as u64))) == Some(SettingsView { gif_fps: n, ..s }),
        set_by_key(s, "gifQuality"@, JsonValueView::Number(Some(q as u64))) == Some(SettingsView { gif_quality: q, ..s }),
        set_by_key(s, "shortcutArea"@, JsonValueView::Text(t)) == Some(SettingsView { shortcut_area: t, ..s }),
        set_by_key(s, "shortcutFullscreen"@, JsonValueView::Text(t)) == Some(SettingsView { shortcut_fullscreen: t, ..s }),
        set_by_key(s, "previewPosition"@, JsonValueView::Text(t)) == Some(SettingsView { preview_position: t, ..s }),
        set_by_key(s, "maxPreviews"@, JsonValueView::Number(Some(n as u64))) == Some(SettingsView { max_previews: n, ..s }),
        set_by_key(s, "saveLocation"@, JsonValueView::Text(t)) == Some(SettingsView { save_location: t, ..s }),
{
    lemma_key_names_round_trip(SettingKey::Language);
    lemma_key_names_round_trip(SettingKey::LaunchAtLogin);
    lemma_key_names_round_trip(SettingKey::AutoCopy);
    lemma_key_names_round_trip(SettingKey::OutputFormat);
    lemma_key_names_round_trip(SettingKey::MaxDimensionMode);
    lemma_key_names_round_trip(SettingKey::MaxDimensionPixels);
    lemma_key_names_round_trip(SettingKey::MaxRecordingSec);
    lemma_key_names_round_trip(SettingKey::GifFps);
    lemma_key_names_round_trip(SettingKey::GifQuality);
    lemma_key_names_round_trip(SettingKey::ShortcutArea);
    lemma_key_names_round_trip(SettingKey::ShortcutFullscreen);
    lemma_key_names_round_trip(SettingKey::PreviewPosition);
    lemma_key_names_round_trip(SettingKey::MaxPreviews);
    lemma_key_names_round_trip(SettingKey::SaveLocation);
}

/// Assigning a field changes that field alone, and reading it back gives
/// the value assigned.
pub proof fn lemma_assign_then_read(s: SettingsView, k: SettingKey, v: crate::json::JsonValueView)
    requires
        spec_assign(s, k, v) is Some,
    ensures
        spec_field_value(spec_assign(s, k, v).unwrap(), k) == stored_value(v),
        forall|other: SettingKey|
            other != k ==> #[trigger] spec_field_value(spec_assign(s, k, v).unwrap(), other)
                == spec_field_value(s, other),
{
}

/// Every key reads back under its own name: the name of a field's key
/// names that field.
pub proof fn lemma_key_names_round_trip(k: SettingKey)
    ensures
        spec_setting_key(key_name(k)) == Some(k),
{
    reveal_strlit("language");
    reveal_strlit("launchAtLogin");
    reveal_strlit("autoCopy");
    reveal_strlit("outputFormat");
    reveal_strlit("maxDimension.mode");
    reveal_strlit("maxDimension.pixels");
    reveal_strlit("maxRecordingSec");
    reveal_strlit("gifFps");
    reveal_strlit("gifQuality");
    reveal_strlit("shortcutArea");
    reveal_strlit("shortcutFullscreen");
    reveal_strlit("previewPosition");
    reveal_strlit("maxPreviews");
    reveal_strlit("saveLocation");
    match k {
        SettingKey::Language => {
        },
        SettingKey::LaunchAtLogin => {
            assert("launchAtLogin"@.len() != "language"@.len());
        },
        SettingKey::AutoCopy => {
            assert("autoCopy"@[0] != "language"@[0]);
            assert("autoCopy"@.len() != "launchAtLogin"@.len());
        },
        SettingKey::OutputFormat => {
            assert("outputFormat"@.len() != "language"@.len());
            assert("outputFormat"@.len() != "launchAtLogin"@.len());
            assert("outputFormat"@.len() != "autoCopy"@.len());
        },
        SettingKey::MaxDimensionMode => {
            assert("maxDimension.mode"@.len() != "language"@.len());
            assert("maxDimension.mode"@.len() != "launchAtLogin"@.len());
            assert("maxDimension.mode"@.len() != "autoCopy"@.len());
            assert("maxDimension.mode"@.len() != "outputFormat"@.len());
        },
        SettingKey::MaxDimensionPixels => {
            assert("maxDimension.pixels"@.len() != "language"@.len());
            assert("maxDimension.pixels"@.len() != "launchAtLogin"@.len());
            assert("maxDimension.pixels"@.len() != "autoCopy"@.len());
            assert("maxDimension.pixels"@.len() != "outputFormat"@.len());
            assert("maxDimension.pixels"@.len() != "maxDimension.mode"@.len());
        },
        SettingKey::MaxRecordingSec => {
            assert("maxRecordingSec"@.len() != "language"@.len());
            assert("maxRecordingSec"@.len() != "launchAtLogin"@.len());
            assert("maxRecordingSec"@.len() != "autoCopy"@.len());
            assert("maxRecordingSec"@.len() != "outputFormat"@.len());
            assert("maxRecordingSec"@.len() != "maxDimension.mode"@.len());
            assert("maxRecordingSec"@.len() != "maxDimension.pixels"@.len());
        },
        SettingKey::GifFps => {
            assert("gifFps"@.len() != "language"@.len());
            assert("gifFps"@.len() != "launchAtLogin"@.len());
            assert("gifFps"@.len() != "autoCopy"@.len());
            assert("gifFps"@.len() != "outputFormat"@.len());
            assert("gifFps"@.len() != "maxDimension.mode"@.len());
            assert("gifFps"@.len() != "maxDimension.pixels"@.len());
            assert("gifFps"@.len() != "maxRecordingSec"@.len());
        },
        SettingKey::GifQuality => {
            assert("gifQuality"@.len() != "language"@.len());
            assert("gifQuality"@.len() != "launchAtLogin"@.len());
            assert("gifQuality"@.len() != "autoCopy"@.len());
            assert("gifQuality"@.len() != "outputFormat"@.len());
            assert("gifQuality"@.len() != "maxDimension.mode"@.len());
            assert("gifQuality"@.len() != "maxDimension.pixels"@.len());
            assert("gifQuality"@.len() != "maxRecordingSec"@.len());
            assert("gifQuality"@.len() != "gifFps"@.len());
        },
        SettingKey::ShortcutArea => {
            assert("shortcutArea"@.len() != "language"@.len());
            assert("shortcutArea"@.len() != "launchAtLogin"@.len());
            assert("shortcutArea"@.len() != "autoCopy"@.len());
            assert("shortcutArea"@[0] != "outputFormat"@[0]);
            assert("shortcutArea"@.len() != "maxDimension.mode"@.len());
            assert("shortcutArea"@.len() != "maxDimension.pixels"@.len());
            assert("shortcutArea"@.len() != "maxRecordingSec"@.len());
            assert("shortcutArea"@.len() != "gifFps"@.len());
            assert("shortcutArea"@.len() != "gifQuality"@.len());
        },
        SettingKey::ShortcutFullscreen => {
            assert("shortcutFullscreen"@.len() != "language"@.len());
            assert("shortcutFullscreen"@.len() != "launchAtLogin"@.len());
            assert("shortcutFullscreen"@.len() != "autoCopy"@.len());
            assert("shortcutFullscreen"@.len() != "outputFormat"@.len());
            assert("shortcutFullscreen"@.len() != "maxDimension.mode"@.len());
            assert("shortcutFullscreen"@.len() != "maxDimension.pixels"@.len());
            assert("shortcutFullscreen"@.len() != "maxRecordingSec"@.len());
            assert("shortcutFullscreen"@.len() != "gifFps"@.len());
            assert("shortcutFullscreen"@.len() != "gifQuality"@.len());
            assert("shortcutFullscreen"@.len() != "shortcutArea"@.len());
        },
        SettingKey::PreviewPosition => {
            assert("previewPosition"@.len() != "language"@.len());
            assert("previewPosition"@.len() != "launchAtLogin"@.len());
            assert("previewPosition"@.len() != "autoCopy"@.len());
            assert("previewPosition"@.len() != "outputFormat"@.len());
            assert("previewPosition"@.len() != "maxDimension.mode"@.len());
            assert("previewPosition"@.len() != "maxDimension.pixels"@.len());
            assert("previewPosition"@[0] != "maxRecordingSec"@[0]);
            assert("previewPosition"@.len() != "gifFps"@.len());
            assert("previewPosition"@.len() != "gifQuality"@.len());
            assert("previewPosition"@.len() != "shortcutArea"@.len());
            assert("previewPosition"@.len() != "shortcutFullscreen"@.len());
        },
        SettingKey::MaxPreviews => {
            assert("maxPreviews"@.len() != "language"@.len());
            assert("maxPreviews"@.len() != "launchAtLogin"@.len());
            assert("maxPreviews"@.len() != "autoCopy"@.len());
            assert("maxPreviews"@.len() != "outputFormat"@.len());
            assert("maxPreviews"@.len() != "maxDimension.mode"@.len());
            assert("maxPreviews"@.len() != "maxDimension.pixels"@.len());
            assert("maxPreviews"@.len() != "maxRecordingSec"@.len());
            assert("maxPreviews"@.len() != "gifFps"@.len());
            assert("maxPreviews"@.len() != "gifQuality"@.len());
            assert("maxPreviews"@.len() != "shortcutArea"@.len());
            assert("maxPreviews"@.len() != "shortcutFullscreen"@.len());
            assert("maxPreviews"@.len() != "previewPosition"@.len());
        },
        SettingKey::SaveLocation => {
            assert("saveLocation"@.len() != "language"@.len());
            assert("saveLocation"@.len() != "launchAtLogin"@.len());
            assert("saveLocation"@.len() != "autoCopy"@.len());
            assert("saveLocation"@[0] != "outputFormat"@[0]);
            assert("saveLocation"@.len() != "maxDimension.mode"@.len());
            assert("saveLocation"@.len() != "maxDimension.pixels"@.len());
            assert("saveLocation"@.len() != "maxRecordingSec"@.len());
            assert("saveLocation"@.len() != "gifFps"@.len());
            assert("saveLocation"@.len() != "gifQuality"@.len());
            assert("saveLocation"@[1] != "shortcutArea"@[1]);
            assert("saveLocation"@.len() != "shortcutFullscreen"@.len());
            assert("saveLocation"@.len() != "previewPosition"@.len());
            assert("saveLocation"@.len() != "maxPreviews"@.len());
        },
    }
}

} // verus!
