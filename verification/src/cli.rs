//! The decisions of the `gaze` command line: exit codes, which capture a
//! set of flags asks for, annotation flag syntax, and how settings errors
//! and fallbacks are reported.

use vstd::prelude::*;
use crate::settings::Settings;
use crate::settings::SettingsError;
use crate::text::string_of;

verus! {

/// The command succeeded.
pub const EXIT_SUCCESS: u8 = 0;

/// The command failed at run time.
pub const EXIT_FAILURE: u8 = 1;

/// The command line was wrong.
pub const EXIT_USAGE: u8 = 2;

/// The user cancelled an interactive capture.
pub const EXIT_CANCELLED: u8 = 3;

/// The RGBA pixels a capture backend returns.
#[derive(Debug, Clone, PartialEq, Eq)]
pub struct CapturedImage {
    pub width: u32,
    pub height: u32,
    pub rgba: Vec<u8>,
}

/// A window as `gaze list windows` prints it.
#[derive(Debug, Clone, PartialEq, Eq)]
pub struct WindowRecord {
    pub id: u32,
    pub title: String,
    pub app_name: String,
    pub is_on_screen: bool,
}

/// What kind of failure a command ended in.
#[derive(Debug, Clone, Copy, PartialEq, Eq, Structural)]
pub enum ErrorKind {
    Usage,
    Runtime,
    Cancelled,
}

/// A failed command: its kind and the message printed on standard error.
#[derive(Debug, Clone)]
pub struct RunError {
    pub kind: ErrorKind,
    pub message: String,
}

impl RunError {
    /// A usage error with `message`.
    pub fn usage(message: &str) -> (r: RunError)
        ensures
            r.kind == ErrorKind::Usage,
            r.message@ == message@,
    {
        RunError { kind: ErrorKind::Usage, message: string_of(message) }
    }

    /// A run-time error with `message`.
    pub fn runtime(message: &str) -> (r: RunError)
        ensures
            r.kind == ErrorKind::Runtime,
            r.message@ == message@,
    {
        RunError { kind: ErrorKind::Runtime, message: string_of(message) }
    }

    /// A cancellation with `message`.
    pub fn cancelled(message: &str) -> (r: RunError)
        ensures
            r.kind == ErrorKind::Cancelled,
            r.message@ == message@,
    {
        RunError { kind: ErrorKind::Cancelled, message: string_of(message) }
    }
}

/// The process exit code for a failure of `kind`.
pub open spec fn spec_exit_code(kind: ErrorKind) -> u8 {
    match kind {
        ErrorKind::Usage => EXIT_USAGE,
        ErrorKind::Runtime => EXIT_FAILURE,
        ErrorKind::Cancelled => EXIT_CANCELLED,
    }
}

/// The process exit code of a command's outcome: success, or the code of
/// the failure's kind.
pub fn exit_code(outcome: &Result<(), RunError>) -> (code: u8)
    ensures
        match outcome {
            Ok(()) => code == EXIT_SUCCESS,
            Err(e) => code == spec_exit_code(e.kind),
        },
{
    match outcome {
        Ok(()) => EXIT_SUCCESS,
        Err(e) => match e.kind {
            ErrorKind::Usage => EXIT_USAGE,
            ErrorKind::Runtime => EXIT_FAILURE,
            ErrorKind::Cancelled => EXIT_CANCELLED,
        },
    }
}

/// Every kind of failure exits with a code of its own, none of them the
/// success code.
pub proof fn lemma_exit_codes_distinct(a: ErrorKind, b: ErrorKind)
    ensures
        spec_exit_code(a) != EXIT_SUCCESS,
        a != b ==> spec_exit_code(a) != spec_exit_code(b),
{
}

/// How a capture's result is printed.
#[derive(Debug, Clone, Copy, PartialEq, Eq, Structural)]
pub enum OutputFormat {
    Json,
    Base64,
    Path,
}

/// `--format path` prints the output file's path, so it needs `--output`.
pub fn validate_output_requirements(format: OutputFormat, has_output_path: bool) -> (r: Result<
    (),
    RunError,
>)
    ensures
        (format == OutputFormat::Path && !has_output_path) <==> r is Err,
        r matches Err(e) ==> e.kind == ErrorKind::Usage && e.message@
            == "--format path requires --output <PATH> to be set"@,
{
    if format == OutputFormat::Path && !has_output_path {
        return Err(RunError::usage("--format path requires --output <PATH> to be set"));
    }
    Ok(())
}

/// Capturing needs screen-recording permission.
pub fn ensure_permission(granted: bool) -> (r: Result<(), RunError>)
    ensures
        granted <==> r is Ok,
        r matches Err(e) ==> e.kind == ErrorKind::Runtime && e.message@
            == "Screen recording permission not granted. Enable it in System Settings and retry."@,
{
    if granted {
        Ok(())
    } else {
        Err(
            RunError::runtime(
                "Screen recording permission not granted. Enable it in System Settings and retry.",
            ),
        )
    }
}

/// The `--mode` of a capture.
#[derive(Debug, Clone, Copy, PartialEq, Eq, Structural)]
pub enum CaptureMode {
    Full,
    Area,
    Window,
}

/// What to capture.
#[derive(Debug, Clone, Copy, PartialEq, Eq, Structural)]
pub enum CaptureTarget {
    /// A whole display (the main one when `display_id` is `None`).
    Full { display_id: Option<u32> },
    /// An area the user selects.
    AreaInteractive,
    /// The window with this id.
    WindowDirect { window_id: u32 },
    /// A window the user picks.
    WindowInteractive,
}

/// The capture target a mode and its `--display` and `--window` flags ask
/// for, or the usage error for a combination that makes no sense.
pub open spec fn spec_capture_target(
    mode: CaptureMode,
    display: Option<u32>,
    window: Option<u32>,
) -> Result<CaptureTarget, Seq<char>> {
    if display is Some && (mode == CaptureMode::Area || mode == CaptureMode::Window) {
        Err("--display can only be used with full capture mode"@)
    } else if display is Some && window is Some {
        Err("--display cannot be combined with --window"@)
    } else {
        match mode {
            CaptureMode::Area => if window is Some {
                Err("--window cannot be combined with area capture mode"@)
            } else {
                Ok(CaptureTarget::AreaInteractive)
            },
            CaptureMode::Window => match window {
                Some(id) => Ok(CaptureTarget::WindowDirect { window_id: id }),
                None => Ok(CaptureTarget::WindowInteractive),
            },
            CaptureMode::Full => match window {
                Some(id) => Ok(CaptureTarget::WindowDirect { window_id: id }),
                None => Ok(CaptureTarget::Full { display_id: display }),
            },
        }
    }
}

/// A capture is always of what its flags ask for. A full-screen capture is
/// chosen only in full mode without `--window`, and then it is of exactly the
/// display passed with `--display` (the main display when none is); a direct
/// window capture is of exactly the window passed with `--window`; the
/// interactive captures are chosen only when no id is passed at all.
pub proof fn lemma_capture_target_follows_flags(mode: CaptureMode, display: Option<u32>, window: Option<u32>)
    ensures
        mode == CaptureMode::Full && window is None ==> spec_capture_target(mode, display, window)
            == Ok::<CaptureTarget, Seq<char>>(CaptureTarget::Full { display_id: display }),
        spec_capture_target(mode, display, window) matches Ok(CaptureTarget::Full { display_id })
            ==> display_id == display && mode == CaptureMode::Full && window is None,
        spec_capture_target(mode, display, window) matches Ok(CaptureTarget::WindowDirect { window_id })
            ==> window == Some(window_id) && display is None && mode != CaptureMode::Area,
        window is Some && display is None && mode != CaptureMode::Area ==> spec_capture_target(
            mode,
            display,
            window,
        ) == Ok::<CaptureTarget, Seq<char>>(CaptureTarget::WindowDirect { window_id: window->0 }),
        spec_capture_target(mode, display, window) == Ok::<CaptureTarget, Seq<char>>(
            CaptureTarget::AreaInteractive,
        ) ==> mode == CaptureMode::Area && display is None && window is None,
        spec_capture_target(mode, display, window) == Ok::<CaptureTarget, Seq<char>>(
            CaptureTarget::WindowInteractive,
        ) ==> mode == CaptureMode::Window && display is None && window is None,
{
}

/// Decides what a capture command captures, as [`spec_capture_target`]
/// states; refusals are usage errors.
pub fn resolve_capture_target(mode: CaptureMode, display: Option<u32>, window: Option<u32>) -> (r:
    Result<CaptureTarget, RunError>)
    ensures
        match spec_capture_target(mode, display, window) {
            Ok(t) => r == Ok::<CaptureTarget, RunError>(t),
            Err(m) => r matches Err(e) && e.kind == ErrorKind::Usage && e.message@ == m,
        },
{
    if display.is_some() && (mode == CaptureMode::Area || mode == CaptureMode::Window) {
        return Err(RunError::usage("--display can only be used with full capture mode"));
    }
    if display.is_some() && window.is_some() {
        return Err(RunError::usage("--display cannot be combined with --window"));
    }
    match mode {
        CaptureMode::Area => {
            if window.is_some() {
                return Err(RunError::usage("--window cannot be combined with area capture mode"));
            }
            Ok(CaptureTarget::AreaInteractive)
        },
        CaptureMode::Window => match window {
            Some(window_id) => Ok(CaptureTarget::WindowDirect { window_id }),
            None => Ok(CaptureTarget::WindowInteractive),
        },
        CaptureMode::Full => match window {
            Some(window_id) => Ok(CaptureTarget::WindowDirect { window_id }),
            None => Ok(CaptureTarget::Full { display_id: display }),
        },
    }
}

/// The checks a capture makes before touching the screen, in order: the
/// output flags, then the capture target's flags, and only then the
/// screen-recording permission. A flag error is a usage error whether or not
/// permission is granted; the first check that fails decides.
pub fn preflight_capture(
    granted: bool,
    format: OutputFormat,
    has_output_path: bool,
    mode: CaptureMode,
    display: Option<u32>,
    window: Option<u32>,
) -> (r: Result<CaptureTarget, RunError>)
    ensures
        format == OutputFormat::Path && !has_output_path ==> (r matches Err(e) && e.kind
            == ErrorKind::Usage && e.message@ == "--format path requires --output <PATH> to be set"@),
        !(format == OutputFormat::Path && !has_output_path) ==> match spec_capture_target(
            mode,
            display,
            window,
        ) {
            Err(m) => (r matches Err(e) && e.kind == ErrorKind::Usage && e.message@ == m),
            Ok(t) => if granted {
                r == Ok::<CaptureTarget, RunError>(t)
            } else {
                (r matches Err(e) && e.kind == ErrorKind::Runtime && e.message@
                    == "Screen recording permission not granted. Enable it in System Settings and retry."@)
            },
        },
{
    match validate_output_requirements(format, has_output_path) {
        Err(e) => return Err(e),
        Ok(()) => {},
    }
    let target = match resolve_capture_target(mode, display, window) {
        Err(e) => return Err(e),
        Ok(t) => t,
    };
    match ensure_permission(granted) {
        Err(e) => Err(e),
        Ok(()) => Ok(target),
    }
}

/// The bytes of an interactive capture, or a cancellation when the user
/// dismissed the selection; a failure of the tool is a run-time error.
pub fn interactive_capture_bytes(outcome: Result<Option<Vec<u8>>, String>) -> (r: Result<
    Vec<u8>,
    RunError,
>)
    ensures
        match outcome {
            Ok(Some(b)) => r matches Ok(v) && v@ == b@,
            Ok(None) => r matches Err(e) && e.kind == ErrorKind::Cancelled && e.message@
                == "Capture cancelled by user"@,
            Err(m) => r matches Err(e) && e.kind == ErrorKind::Runtime && e.message@ == m@,
        },
{
    match outcome {
        Ok(Some(bytes)) => Ok(bytes),
        Ok(None) => Err(RunError::cancelled("Capture cancelled by user")),
        Err(m) => Err(RunError { kind: ErrorKind::Runtime, message: m }),
    }
}

/// An annotation flag split at its first `:` into the coordinates and the
/// note, the note trimmed; without a `:` it is all coordinates.
pub open spec fn spec_split_annotation(s: Seq<char>, coords: Seq<char>, note: Option<Seq<char>>) -> bool {
    match note {
        Some(n) => exists|i: int|
            0 <= i < s.len() && s[i] == ':' && (forall|j: int| 0 <= j < i ==> s[j] != ':')
                && coords == s.take(i) && n == crate::text::trim(s.skip(i + 1)),
        None => coords == s && forall|j: int| 0 <= j < s.len() ==> s[j] != ':',
    }
}

/// Splits `X,Y[:NOTE]` into the coordinates and the trimmed note.
pub fn split_annotation_spec(spec: &str) -> (r: (String, Option<String>))
    ensures
        spec_split_annotation(spec@, r.0@, match r.1 {
            Some(n) => Some(n@),
            None => None,
        }),
{
    let chars = crate::text::chars_of(spec);
    let n = chars.len();
    let mut i: usize = 0;
    while i < n
        invariant
            chars@ == spec@,
            n == chars@.len(),
            i <= n,
            forall|j: int| 0 <= j < i ==> chars@[j] != ':',
        decreases n - i,
    {
        if chars[i] == ':' {
            let mut coords: Vec<char> = Vec::new();
            let mut k: usize = 0;
            while k < i
                invariant
                    chars@ == spec@,
                    i < n,
                    n == chars@.len(),
                    k <= i,
                    coords@ == chars@.take(k as int),
                decreases i - k,
            {
                coords.push(chars[k]);
                assert(chars@.take(k + 1) =~= chars@.take(k as int).push(chars@[k as int]));
                k = k + 1;
            }
            let mut rest: Vec<char> = Vec::new();
            let mut m: usize = i + 1;
            while m < n
                invariant
                    chars@ == spec@,
                    i < n,
                    n == chars@.len(),
                    i + 1 <= m <= n,
                    rest@ == chars@.subrange(i + 1, m as int),
                decreases n - m,
            {
                rest.push(chars[m]);
                assert(chars@.subrange(i + 1, m + 1) =~= chars@.subrange(i + 1, m as int).push(
                    chars@[m as int],
                ));
                m = m + 1;
            }
            assert(chars@.subrange(i + 1, n as int) =~= chars@.skip(i + 1));
            let trimmed = crate::text::trim_chars(&rest);
            let coords_text = crate::text::string_from_chars(&coords);
            let note_text = crate::text::string_from_chars(&trimmed);
            return (coords_text, Some(note_text));
        }
        i = i + 1;
    }
    (string_of(spec), None)
}

/// Settings errors about the command line (an unknown key, a value of the
/// wrong type) are usage errors; the rest happen at run time. The message
/// is the error's description.
pub fn map_settings_error(err: SettingsError) -> (r: RunError)
    ensures
        r.message@ == crate::settings::settings_error_text(err),
        r.kind == (if err is UnknownKey || err is InvalidValue {
            ErrorKind::Usage
        } else {
            ErrorKind::Runtime
        }),
{
    let message = err.message();
    match err {
        SettingsError::UnknownKey(_) | SettingsError::InvalidValue { .. } => RunError {
            kind: ErrorKind::Usage,
            message,
        },
        _ => RunError { kind: ErrorKind::Runtime, message },
    }
}

/// The settings file to use: `--config` when given, else the default path,
/// whose failure is a run-time error suggesting `--config`.
pub fn resolve_settings_path(
    override_path: Option<String>,
    default_path: Result<String, SettingsError>,
) -> (r: Result<String, RunError>)
    ensures
        match override_path {
            Some(p) => r matches Ok(q) && q@ == p@,
            None => match default_path {
                Ok(p) => r matches Ok(q) && q@ == p@,
                Err(e) => r matches Err(re) && re.kind == ErrorKind::Runtime && re.message@
                    == "Could not resolve default settings path: "@
                    + crate::settings::settings_error_text(e)
                    + ". Pass --config <PATH> to override."@,
            },
        },
{
    if let Some(path) = override_path {
        return Ok(path);
    }
    match default_path {
        Ok(path) => Ok(path),
        Err(e) => {
            let mut message = String::from_str("Could not resolve default settings path: ");
            let inner = e.message();
            message.append(inner.as_str());
            message.append(". Pass --config <PATH> to override.");
            Err(RunError { kind: ErrorKind::Runtime, message })
        },
    }
}

/// The language prompt hints are written in: the settings' language,
/// trimmed, or `en` when it is blank or the settings are unavailable.
pub open spec fn spec_prompt_language(language: Option<Seq<char>>) -> Seq<char> {
    match language {
        Some(l) => if crate::text::trim(l).len() == 0 {
            "en"@
        } else {
            crate::text::trim(l)
        },
        None => "en"@,
    }
}

/// The prompt-hint language for the command line, from the settings when
/// they could be located.
pub fn resolve_prompt_language_for_cli(settings: Option<&Settings>) -> (r: String)
    ensures
        r@ == spec_prompt_language(
            match settings {
                Some(s) => Some(s.language@),
                None => None,
            },
        ),
{
    match settings {
        Some(s) => {
            let chars = crate::text::chars_of(s.language.as_str());
            let trimmed = crate::text::trim_chars(&chars);
            if trimmed.len() == 0 {
                String::from_str("en")
            } else {
                crate::text::string_from_chars(&trimmed)
            }
        },
        None => String::from_str("en"),
    }
}

/// Applies `settings set <key> <value>`: the confirmation `<key> updated`,
/// or the settings error mapped as [`map_settings_error`] does.
pub fn run_settings_set(settings: &mut Settings, key: &str, value: &str) -> (r: Result<
    String,
    RunError,
>)
    ensures
        match crate::settings::spec_setting_key(key@) {
            None => r matches Err(e) && e.kind == ErrorKind::Usage && final(settings)@ == old(
                settings,
            )@,
            Some(k) => match crate::settings::spec_assign(
                old(settings)@,
                k,
                crate::settings::spec_cli_value(value@),
            ) {
                Some(s) => r matches Ok(m) && m@ == key@ + " updated"@ && final(settings)@ == s,
                None => r matches Err(e) && e.kind == ErrorKind::Usage && final(settings)@ == old(
                    settings,
                )@,
            },
        },
{
    match crate::settings::set_setting_field(settings, key, value) {
        Ok(()) => {
            let mut m = string_of(key);
            m.append(" updated");
            Ok(m)
        },
        Err(e) => Err(map_settings_error(e)),
    }
}

/// What `gaze capture` and `gaze optimize` report about a capture (the
/// annotations, when there are any, are added by the caller).
#[derive(Debug, Clone)]
pub struct CaptureSummary {
    pub original_width: u32,
    pub original_height: u32,
    pub optimized_width: u32,
    pub optimized_height: u32,
    pub file_size: usize,
    pub timestamp: String,
    /// The Base64 image, only when no output file was written.
    pub image_base64: Option<String>,
    pub output_path: Option<String>,
    pub prompt_hint: Option<String>,
}

/// The report about a processed capture: its metadata, with the Base64
/// image only when it was not written to `output_path`.
pub fn capture_summary(
    processed: &crate::capture::ProcessedCapture,
    output_path: Option<&str>,
    prompt_hint: Option<String>,
) -> (r: CaptureSummary)
    ensures
        r.original_width == processed.metadata.original_width,
        r.original_height == processed.metadata.original_height,
        r.optimized_width == processed.metadata.optimized_width,
        r.optimized_height == processed.metadata.optimized_height,
        r.file_size == processed.metadata.file_size,
        r.timestamp@ == processed.metadata.timestamp@,
        match output_path {
            Some(p) => r.image_base64 is None && (r.output_path matches Some(q) && q@ == p@),
            None => r.image_base64 matches Some(b) && b@ == processed.metadata.image_base64@
                && r.output_path is None,
        },
        r.prompt_hint == prompt_hint,
{
    let metadata = &processed.metadata;
    let (image_base64, path) = match output_path {
        Some(p) => (None, Some(string_of(p))),
        None => (Some(string_of(metadata.image_base64.as_str())), None),
    };
    CaptureSummary {
        original_width: metadata.original_width,
        original_height: metadata.original_height,
        optimized_width: metadata.optimized_width,
        optimized_height: metadata.optimized_height,
        file_size: metadata.file_size,
        timestamp: string_of(metadata.timestamp.as_str()),
        image_base64,
        output_path: path,
        prompt_hint,
    }
}

} // verus!
