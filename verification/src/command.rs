//! The desktop app's command layer: errors handed to the UI, window
//! records, saving captures, the login item and the native screenshot tool.

use vstd::prelude::*;
use crate::capture::LlmProvider;
use crate::capture::ProcessedCapture;
use crate::engine::CaptureError;
use crate::engine::WindowInfo;
use crate::optimizer::PipelineError;

verus! {

// ---------------------------------------------------------------------------
// Errors
// ---------------------------------------------------------------------------

/// An error reported to the UI: what went wrong and a machine-readable code.
#[derive(Debug, Clone)]
pub struct CommandError {
    pub message: String,
    pub code: String,
}

/// The text of a [`CommandError`]: `[<code>] <message>`.
pub open spec fn command_error_text(code: Seq<char>, message: Seq<char>) -> Seq<char> {
    "["@ + code + "] "@ + message
}

impl CommandError {
    /// A capture error, reported with code `capture_error`.
    pub fn from_capture_error(err: CaptureError) -> (r: CommandError)
        ensures
            r.message@ == crate::engine::capture_error_text(err@),
            r.code@ == "capture_error"@,
    {
        CommandError { message: err.message(), code: String::from_str("capture_error") }
    }

    /// A pipeline error, reported with code `pipeline_error`.
    pub fn from_pipeline_error(err: PipelineError) -> (r: CommandError)
        ensures
            r.message@ == crate::optimizer::pipeline_error_message(err@),
            r.code@ == "pipeline_error"@,
    {
        CommandError { message: err.message(), code: String::from_str("pipeline_error") }
    }

    /// The error as text: `[<code>] <message>`.
    pub fn display(&self) -> (r: String)
        ensures
            r@ == command_error_text(self.code@, self.message@),
    {
        let mut out = String::from_str("[");
        out.append(self.code.as_str());
        out.append("] ");
        out.append(self.message.as_str());
        out
    }
}

// ---------------------------------------------------------------------------
// Window records
// ---------------------------------------------------------------------------

/// A window as the UI receives it.
#[derive(Debug, Clone)]
pub struct WindowInfoResponse {
    pub id: u32,
    pub title: String,
    pub app_name: String,
    pub is_on_screen: bool,
}

/// The response for a window: the same fields.
pub fn window_info_response(window: WindowInfo) -> (r: WindowInfoResponse)
    ensures
        r.id == window.id,
        r.title@ == window.title@,
        r.app_name@ == window.app_name@,
        r.is_on_screen == window.is_on_screen,
{
    WindowInfoResponse {
        id: window.id,
        title: window.title,
        app_name: window.app_name,
        is_on_screen: window.is_on_screen,
    }
}

/// A response describes a window: the same fields.
pub open spec fn describes_window(r: WindowInfoResponse, w: WindowInfo) -> bool {
    &&& r.id == w.id
    &&& r.title@ == w.title@
    &&& r.app_name@ == w.app_name@
    &&& r.is_on_screen == w.is_on_screen
}

/// The responses for a list of windows, in order.
pub fn window_info_responses(windows: Vec<WindowInfo>) -> (r: Vec<WindowInfoResponse>)
    ensures
        r@.len() == windows@.len(),
        forall|k: int| 0 <= k < r@.len() ==> describes_window(#[trigger] r@[k], windows@[k]),
{
    let mut out: Vec<WindowInfoResponse> = Vec::new();
    let mut rest = windows;
    let ghost all = rest@;
    while rest.len() > 0
        invariant
            out@.len() + rest@.len() == all.len(),
            rest@ == all.skip(out@.len() as int),
            forall|j: int| 0 <= j < out@.len() ==> describes_window(#[trigger] out@[j], all[j]),
        decreases rest@.len(),
    {
        let ghost k = out@.len();
        let w = rest.remove(0);
        assert(w == all[k as int]);
        out.push(window_info_response(w));
        assert(rest@ =~= all.skip(k as int + 1));
    }
    out
}

// ---------------------------------------------------------------------------
// Saving captures
// ---------------------------------------------------------------------------

/// What `base64::engine::general_purpose::STANDARD.decode` makes of `text`:
/// the bytes, or the error's message.
pub uninterp spec fn base64_decoding(text: Seq<char>) -> Result<Seq<u8>, Seq<char>>;

/// Decodes standard padded Base64 (`STANDARD.decode`). That engine accepts
/// exactly the canonical encodings: it decodes `text` when `text` is the
/// encoding of some bytes, into those bytes, and fails otherwise.
#[verifier::external_body]
fn base64_decode_standard(text: &str) -> (r: Result<Vec<u8>, String>)
    ensures
        match r {
            Ok(b) => base64_decoding(text@) == Ok::<Seq<u8>, Seq<char>>(b@),
            Err(m) => base64_decoding(text@) == Err::<Seq<u8>, Seq<char>>(m@),
        },
        r matches Ok(b) ==> crate::encoding::base64_encode(b@) == text@,
        (exists|b: Seq<u8>| crate::encoding::base64_encode(b) == text@) ==> r is Ok,
{
    base64::Engine::decode(&base64::engine::general_purpose::STANDARD, text).map_err(
        |e| e.to_string(),
    )
}

/// The bytes of a Base64-encoded image, or a `decode_error` naming why the
/// text is not Base64.
pub fn decode_image_base64(image_base64: &str) -> (r: Result<Vec<u8>, CommandError>)
    ensures
        match base64_decoding(image_base64@) {
            Ok(b) => r matches Ok(v) && v@ == b,
            Err(m) => r matches Err(e) && e.message@ == "Failed to decode base64: "@ + m
                && e.code@ == "decode_error"@,
        },
        r matches Ok(v) ==> crate::encoding::base64_encode(v@) == image_base64@,
        forall|b: Seq<u8>|
            #[trigger] crate::encoding::base64_encode(b) == image_base64@ ==> (r matches Ok(v) && v@
                == b),
{
    match base64_decode_standard(image_base64) {
        Ok(bytes) => {
            proof {
                assert forall|b: Seq<u8>|
                    #[trigger] crate::encoding::base64_encode(b) == image_base64@ implies b
                    == bytes@ by {
                    crate::encoding::lemma_base64_injective(b, bytes@);
                }
            }
            Ok(bytes)
        },
        Err(m) => {
            proof {
                assert forall|b: Seq<u8>|
                    #[trigger] crate::encoding::base64_encode(b) == image_base64@ implies false by {
                    assert(exists|c: Seq<u8>| crate::encoding::base64_encode(c) == image_base64@);
                }
            }
            let mut message = String::from_str("Failed to decode base64: ");
            message.append(m.as_str());
            Err(CommandError { message, code: String::from_str("decode_error") })
        },
    }
}

/// The bytes and file name a Base64 capture is saved under: the name is
/// `Gaze_<timestamp>.<ext>` with the extension of the format its first bytes
/// show.
pub fn prepare_capture_save(image_base64: &str, timestamp: &str) -> (r: Result<
    (Vec<u8>, String),
    CommandError,
>)
    ensures
        match base64_decoding(image_base64@) {
            Ok(b) => r matches Ok((v, name)) && v@ == b && name@
                == crate::output::spec_capture_filename(crate::output::spec_image_format(b), timestamp@),
            Err(m) => r matches Err(e) && e.message@ == "Failed to decode base64: "@ + m
                && e.code@ == "decode_error"@,
        },
{
    let bytes = match decode_image_base64(image_base64) {
        Ok(b) => b,
        Err(e) => return Err(e),
    };
    let ext = crate::output::detect_image_format(bytes.as_slice());
    let name = crate::output::build_capture_filename(ext, timestamp);
    Ok((bytes, name))
}

/// The bytes and file name a Base64 GIF recording is saved under:
/// `Gaze_<timestamp>.gif`.
pub fn prepare_gif_save(gif_base64: &str, timestamp: &str) -> (r: Result<
    (Vec<u8>, String),
    CommandError,
>)
    ensures
        match base64_decoding(gif_base64@) {
            Ok(b) => r matches Ok((v, name)) && v@ == b && name@
                == crate::output::spec_capture_filename("gif"@, timestamp@),
            Err(m) => r matches Err(e) && e.message@ == "Failed to decode base64: "@ + m
                && e.code@ == "decode_error"@,
        },
{
    let bytes = match decode_image_base64(gif_base64) {
        Ok(b) => b,
        Err(e) => return Err(e),
    };
    let name = crate::output::build_capture_filename("gif", timestamp);
    Ok((bytes, name))
}

/// A save location with a leading `~` standing for the home directory:
/// `~/rest` becomes `<home>/rest`, `~` alone becomes `<home>`, anything else
/// stays as it is.
pub open spec fn spec_expand_save_location(location: Seq<char>, home: Seq<char>) -> Seq<char> {
    if location.len() >= 2 && location[0] == '~' && location[1] == '/' {
        home + location.skip(1)
    } else if location == seq!['~'] {
        home
    } else {
        location
    }
}

/// Expands a leading `~` in a save location to the home directory.
pub fn expand_save_location(location: &str, home: &str) -> (r: String)
    ensures
        r@ == spec_expand_save_location(location@, home@),
{
    let chars = crate::text::chars_of(location);
    let n = chars.len();
    if n >= 2 && chars[0] == '~' && chars[1] == '/' {
        let mut out = crate::text::string_of(home);
        let mut i: usize = 1;
        while i < n
            invariant
                chars@ == location@,
                n == chars@.len(),
                1 <= i <= n,
                out@ == home@ + location@.subrange(1, i as int),
            decreases n - i,
        {
            crate::text::push_char(&mut out, chars[i]);
            assert(location@.subrange(1, i + 1) =~= location@.subrange(1, i as int).push(
                chars@[i as int],
            ));
            i = i + 1;
        }
        assert(location@.subrange(1, n as int) =~= location@.skip(1));
        out
    } else if n == 1 && chars[0] == '~' {
        assert(location@ =~= seq!['~']);
        crate::text::string_of(home)
    } else {
        proof {
            if location@ == seq!['~'] {
                assert(location@.len() == 1);
            }
        }
        crate::text::string_of(location)
    }
}

/// The folder captures fall back to when the save location is not a
/// folder: `<home>/Desktop`.
pub fn desktop_folder(home: &str) -> (r: String)
    ensures
        r@ == crate::settings::join_path(home@, "Desktop"@),
{
    crate::settings::join_path_str(home, "Desktop")
}

/// The home directory save locations are expanded against: `$HOME`, or
/// `/tmp` when it is not set.
pub open spec fn save_home(home: Option<&str>) -> Seq<char> {
    match home {
        Some(h) => h@,
        None => "/tmp"@,
    }
}

/// The folder a capture is saved into: the save location with its leading
/// `~` expanded (against `$HOME`, or `/tmp` when unset) when that names an
/// existing folder, else `<home>/Desktop`. Whether the expanded location is
/// an existing folder is asked of the file system by the caller and passed
/// in as `expanded_is_dir`.
pub fn resolve_save_dir(save_location: &str, home: Option<&str>, expanded_is_dir: bool) -> (r: String)
    ensures
        r@ == (if expanded_is_dir {
            spec_expand_save_location(save_location@, save_home(home))
        } else {
            crate::settings::join_path(save_home(home), "Desktop"@)
        }),
{
    let h: &str = match home {
        Some(h) => h,
        None => "/tmp",
    };
    proof {
        reveal_strlit("/tmp");
    }
    if expanded_is_dir {
        expand_save_location(save_location, h)
    } else {
        desktop_folder(h)
    }
}

// ---------------------------------------------------------------------------
// Launch at login
// ---------------------------------------------------------------------------

/// Applies the launch-at-login setting. Platforms without login items have
/// nothing to change, so this always succeeds here.
pub fn apply_launch_at_login(enabled: bool) -> (r: Result<(), String>)
    ensures
        r is Ok,
{
    Ok(())
}

/// The AppleScript that adds or removes the app's login item.
pub open spec fn spec_login_item_script(enabled: bool) -> Seq<char> {
    if enabled {
        "tell application \"System Events\" to make login item at end with properties {path:\"/Applications/Gaze.app\", hidden:false}"@
    } else {
        "tell application \"System Events\" to delete login item \"Gaze\""@
    }
}

/// The AppleScript that adds (`enabled`) or removes the app's login item.
pub fn login_item_script(enabled: bool) -> (r: &'static str)
    ensures
        r@ == spec_login_item_script(enabled),
{
    if enabled {
        "tell application \"System Events\" to make login item at end with properties {path:\"/Applications/Gaze.app\", hidden:false}"
    } else {
        "tell application \"System Events\" to delete login item \"Gaze\""
    }
}

/// The outcome of running the login-item script: when `osascript` could not
/// be started, the launch error; when it failed, its standard error output,
/// except that removing an item that does not exist is no failure.
pub open spec fn spec_login_item_outcome(enabled: bool, run: Result<(bool, Seq<char>), Seq<char>>) -> Result<
    (),
    Seq<char>,
> {
    match run {
        Err(e) => Err(
            (if enabled {
                "Failed to add login item: "@
            } else {
                "Failed to remove login item: "@
            }) + e,
        ),
        Ok((succeeded, stderr)) => if succeeded {
            Ok(())
        } else if enabled {
            Err("osascript failed to add login item: "@ + stderr)
        } else if crate::text::contains_seq(stderr, "Can't get login item"@) {
            Ok(())
        } else {
            Err("osascript failed to remove login item: "@ + stderr)
        },
    }
}

/// The view of a script run: whether it succeeded and its standard error,
/// or why it could not start.
pub open spec fn script_run_view(run: Result<(bool, String), String>) -> Result<(bool, Seq<char>), Seq<char>> {
    match run {
        Ok((ok, stderr)) => Ok((ok, stderr@)),
        Err(e) => Err(e@),
    }
}

/// The view of a result carrying a message on failure.
pub open spec fn message_result(r: Result<(), String>) -> Result<(), Seq<char>> {
    match r {
        Ok(()) => Ok(()),
        Err(m) => Err(m@),
    }
}

/// Interprets a run of [`login_item_script`], as [`spec_login_item_outcome`]
/// states.
pub fn login_item_outcome(enabled: bool, run: Result<(bool, String), String>) -> (r: Result<(), String>)
    ensures
        message_result(r) == spec_login_item_outcome(enabled, script_run_view(run)),
{
    match run {
        Err(e) => {
            let mut message = if enabled {
                String::from_str("Failed to add login item: ")
            } else {
                String::from_str("Failed to remove login item: ")
            };
            message.append(e.as_str());
            Err(message)
        },
        Ok((succeeded, stderr)) => {
            if succeeded {
                Ok(())
            } else if enabled {
                let mut message = String::from_str("osascript failed to add login item: ");
                message.append(stderr.as_str());
                Err(message)
            } else if crate::text::contains_str(stderr.as_str(), "Can't get login item") {
                Ok(())
            } else {
                let mut message = String::from_str("osascript failed to remove login item: ");
                message.append(stderr.as_str());
                Err(message)
            }
        },
    }
}

// ---------------------------------------------------------------------------
// Clipboard
// ---------------------------------------------------------------------------

/// Puts a PNG and a text on the clipboard as one paste. Only the macOS
/// pasteboard takes both at once; elsewhere nothing is copied and the
/// result is `Ok(false)`.
pub fn copy_png_and_text_to_clipboard(png_data: &[u8], text: &str) -> (r: Result<bool, String>)
    ensures
        r matches Ok(copied) && !copied,
{
    Ok(false)
}

// ---------------------------------------------------------------------------
// The native screenshot tool
// ---------------------------------------------------------------------------

/// The texts of a list of string slices.
pub open spec fn texts(v: Seq<&str>) -> Seq<Seq<char>> {
    v.map_values(|s: &str| s@)
}

/// The three ways the native `screencapture` tool is run.
#[derive(Debug, Clone, Copy, PartialEq, Eq, Structural)]
pub enum ScreenshotKind {
    /// The user drags out an area.
    Area,
    /// The user picks a window.
    Window,
    /// The whole screen, without interaction.
    Fullscreen,
}

/// The `screencapture` arguments of each kind of capture, all silent (the
/// output file follows them): `-i -s -x`, `-i -w -x`, `-x`.
pub open spec fn spec_screencapture_args(kind: ScreenshotKind) -> Seq<Seq<char>> {
    match kind {
        ScreenshotKind::Area => seq!["-i"@, "-s"@, "-x"@],
        ScreenshotKind::Window => seq!["-i"@, "-w"@, "-x"@],
        ScreenshotKind::Fullscreen => seq!["-x"@],
    }
}

/// The `screencapture` arguments of a kind of capture, as
/// [`spec_screencapture_args`] states.
pub fn screencapture_args(kind: ScreenshotKind) -> (args: Vec<&'static str>)
    ensures
        texts(args@) == spec_screencapture_args(kind),
{
    match kind {
        ScreenshotKind::Area => {
            let args = vec!["-i", "-s", "-x"];
            assert(texts(args@) =~= seq!["-i"@, "-s"@, "-x"@]);
            args
        },
        ScreenshotKind::Window => {
            let args = vec!["-i", "-w", "-x"];
            assert(texts(args@) =~= seq!["-i"@, "-w"@, "-x"@]);
            args
        },
        ScreenshotKind::Fullscreen => {
            let args = vec!["-x"];
            assert(texts(args@) =~= seq!["-x"@]);
            args
        },
    }
}

/// What a `screencapture` run yields: no capture when the tool did not
/// succeed or wrote no file (the user cancelled); an error when it could
/// not start or its file could not be read; else the processed file.
pub open spec fn spec_finish_screencapture(
    launched: Result<bool, Seq<char>>,
    file: Option<Result<Seq<u8>, Seq<char>>>,
) -> Result<Option<(Seq<u8>, Seq<u8>, u32, u32)>, Seq<char>> {
    match launched {
        Err(e) => Err("Failed to launch screencapture: "@ + e),
        Ok(succeeded) => if !succeeded || file is None {
            Ok(None)
        } else {
            match file.unwrap() {
                Err(e) => Err("Failed to read capture file: "@ + e),
                Ok(bytes) => match crate::capture::spec_process_bytes(
                    bytes,
                    crate::capture::CaptureProcessingMode::Optimized,
                ) {
                    Ok(p) => Ok(Some(p)),
                    Err(e) => Err(crate::capture::capture_error_message(e)),
                },
            }
        },
    }
}

/// The view of the tool's launch: whether it succeeded, or why it could not
/// start.
pub open spec fn launch_view(launched: Result<bool, String>) -> Result<bool, Seq<char>> {
    match launched {
        Ok(b) => Ok(b),
        Err(e) => Err(e@),
    }
}

/// The view of the output file: its bytes, why it could not be read, or
/// nothing when there is none.
pub open spec fn file_view(file: Option<Result<Vec<u8>, String>>) -> Option<Result<Seq<u8>, Seq<char>>> {
    match file {
        None => None,
        Some(Ok(b)) => Some(Ok(b@)),
        Some(Err(e)) => Some(Err(e@)),
    }
}

/// The view of a finished capture: its bytes, pixels and size.
pub open spec fn finished_view(r: Result<Option<ProcessedCapture>, String>) -> Result<
    Option<(Seq<u8>, Seq<u8>, u32, u32)>,
    Seq<char>,
> {
    match r {
        Ok(Some(p)) => Ok(
            Some((p.encoded@, p.rgba@, p.metadata.optimized_width, p.metadata.optimized_height)),
        ),
        Ok(None) => Ok(None),
        Err(e) => Err(e@),
    }
}

/// A processed screenshot came from the tool's file: its metadata describes
/// the decoded file for `provider`, and its pixels hold exactly the
/// processed image.
pub open spec fn screenshot_describes(
    p: ProcessedCapture,
    file: Option<Result<Vec<u8>, String>>,
    provider: LlmProvider,
) -> bool {
    match file {
        Some(Ok(bytes)) => {
            &&& crate::capture::metadata_describes(
                p.metadata,
                p.encoded@,
                crate::capture::decoded_size(bytes@).0,
                crate::capture::decoded_size(bytes@).1,
                provider,
            )
            &&& crate::imaging::rgba_exact(
                p.metadata.optimized_width,
                p.metadata.optimized_height,
                p.rgba@.len(),
            )
        },
        _ => false,
    }
}

/// The tool's file was read and decodes to an image with no empty side.
pub open spec fn screenshot_decodes(file: Option<Result<Vec<u8>, String>>) -> bool {
    match file {
        Some(Ok(bytes)) => crate::capture::decoded_size(bytes@).0 >= 1
            && crate::capture::decoded_size(bytes@).1 >= 1,
        _ => false,
    }
}

/// Finishes a `screencapture` run, as [`spec_finish_screencapture`] states;
/// a processed capture's metadata describes it for `provider`.
pub fn finish_screencapture(
    launched: Result<bool, String>,
    file: Option<Result<Vec<u8>, String>>,
    provider: LlmProvider,
) -> (r: Result<Option<ProcessedCapture>, String>)
    ensures
        finished_view(r) == spec_finish_screencapture(launch_view(launched), file_view(file)),
        r matches Ok(Some(p)) ==> screenshot_describes(p, file, provider),
        launched matches Ok(true) && screenshot_decodes(file) ==> r matches Ok(Some(_)),
{
    let succeeded = match launched {
        Err(e) => {
            let mut message = String::from_str("Failed to launch screencapture: ");
            message.append(e.as_str());
            return Err(message);
        },
        Ok(b) => b,
    };
    if !succeeded {
        return Ok(None);
    }
    match file {
        None => Ok(None),
        Some(Err(e)) => {
            let mut message = String::from_str("Failed to read capture file: ");
            message.append(e.as_str());
            Err(message)
        },
        Some(Ok(bytes)) => match crate::capture::process_image_bytes(bytes.as_slice(), provider) {
            Ok(p) => Ok(Some(p)),
            Err(e) => Err(e.message()),
        },
    }
}

/// Finishes an interactive area capture, run with
/// `screencapture_args(ScreenshotKind::Area)`: when the tool fails or leaves
/// no file (the user pressed Escape) there is no capture and nothing is
/// processed; otherwise the file is processed for `provider`, and the caller
/// copies its pixels to the clipboard.
pub fn execute_area_capture(
    launched: Result<bool, String>,
    file: Option<Result<Vec<u8>, String>>,
    provider: LlmProvider,
) -> (r: Result<Option<ProcessedCapture>, String>)
    ensures
        launched matches Ok(succeeded) && (!succeeded || file is None) ==> r matches Ok(None),
        finished_view(r) == spec_finish_screencapture(launch_view(launched), file_view(file)),
        r matches Ok(Some(p)) ==> screenshot_describes(p, file, provider),
        launched matches Ok(true) && screenshot_decodes(file) ==> r matches Ok(Some(_)),
{
    finish_screencapture(launched, file, provider)
}

/// Finishes an interactive window capture, run with
/// `screencapture_args(ScreenshotKind::Window)`, as [`execute_area_capture`]
/// does.
pub fn execute_window_capture(
    launched: Result<bool, String>,
    file: Option<Result<Vec<u8>, String>>,
    provider: LlmProvider,
) -> (r: Result<Option<ProcessedCapture>, String>)
    ensures
        launched matches Ok(succeeded) && (!succeeded || file is None) ==> r matches Ok(None),
        finished_view(r) == spec_finish_screencapture(launch_view(launched), file_view(file)),
        r matches Ok(Some(p)) ==> screenshot_describes(p, file, provider),
        launched matches Ok(true) && screenshot_decodes(file) ==> r matches Ok(Some(_)),
{
    finish_screencapture(launched, file, provider)
}

/// Finishes a full-screen capture, run with
/// `screencapture_args(ScreenshotKind::Fullscreen)`: the tool's file is
/// processed for `provider`, and the caller copies its pixels to the
/// clipboard; a failed run or a missing file gives no capture.
pub fn execute_fullscreen_capture(
    launched: Result<bool, String>,
    file: Option<Result<Vec<u8>, String>>,
    provider: LlmProvider,
) -> (r: Result<Option<ProcessedCapture>, String>)
    ensures
        launched matches Ok(succeeded) && (!succeeded || file is None) ==> r matches Ok(None),
        finished_view(r) == spec_finish_screencapture(launch_view(launched), file_view(file)),
        r matches Ok(Some(p)) ==> screenshot_describes(p, file, provider),
        launched matches Ok(true) && screenshot_decodes(file) ==> r matches Ok(Some(_)),
{
    finish_screencapture(launched, file, provider)
}

// ---------------------------------------------------------------------------
// Optimizing on request
// ---------------------------------------------------------------------------

/// Optimizes RGBA pixels for LLM input with the default options: the
/// encoded image, or the pipeline's error as a `pipeline_error`.
pub fn optimize_for_llm(image_data: &[u8], width: u32, height: u32) -> (r: Result<Vec<u8>, CommandError>)
    requires
        crate::optimizer::optimize_accepts(image_data@.len(), width, height),
    ensures
        match crate::optimizer::spec_optimize(image_data@, width, height) {
            Ok((encoded, _, _, _)) => r matches Ok(v) && v@ == encoded,
            Err(e) => r matches Err(ce) && ce.message@ == crate::optimizer::pipeline_error_message(e)
                && ce.code@ == "pipeline_error"@,
        },
        width >= 1 && height >= 1 && crate::imaging::rgba_fits(width, height, image_data@.len())
            ==> r is Ok,
{
    let options = crate::optimizer::OptimizeOptions::default();
    match crate::optimizer::optimize_image(image_data, width, height, &options) {
        Ok(result) => Ok(result.encoded),
        Err(e) => Err(CommandError::from_pipeline_error(e)),
    }
}

} // verus!
