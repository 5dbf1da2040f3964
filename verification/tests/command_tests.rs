use snapforge::capture::LlmProvider;
use snapforge::command::apply_launch_at_login;
use snapforge::command::copy_png_and_text_to_clipboard;
use snapforge::command::decode_image_base64;
use snapforge::command::desktop_folder;
use snapforge::command::execute_area_capture;
use snapforge::command::execute_fullscreen_capture;
use snapforge::command::execute_window_capture;
use snapforge::command::expand_save_location;
use snapforge::command::resolve_save_dir;
use snapforge::command::finish_screencapture;
use snapforge::command::screencapture_args;
use snapforge::command::ScreenshotKind;
use snapforge::command::login_item_outcome;
use snapforge::command::login_item_script;
use snapforge::command::prepare_capture_save;
use snapforge::command::prepare_gif_save;

#[test]
fn resolve_save_dir_absolute_tmp() {
    assert_eq!(expand_save_location("/tmp", "/home/me"), "/tmp");
}

#[test]
fn save_location_tilde_forms_expand_to_home() {
    assert_eq!(expand_save_location("~/Desktop", "/home/me"), "/home/me/Desktop");
    assert_eq!(expand_save_location("~", "/home/me"), "/home/me");
    assert_eq!(expand_save_location("~/My Screenshots/sub", "/h"), "/h/My Screenshots/sub");
    assert_eq!(expand_save_location("~user", "/h"), "~user");
    assert_eq!(desktop_folder("/home/me"), "/home/me/Desktop");
}

#[test]
fn decode_errors_are_decode_error_commands() {
    let err = decode_image_base64("not base64!").unwrap_err();
    assert_eq!(err.code, "decode_error");
    assert!(err.message.starts_with("Failed to decode base64: "));
    assert_eq!(decode_image_base64("aGVsbG8=").unwrap(), b"hello".to_vec());
}

#[test]
fn capture_saves_are_named_by_detected_format() {
    // "iVBORw==" is the Base64 of the PNG signature prefix 89 50 4E 47.
    let (bytes, name) = prepare_capture_save("iVBORw==", "20260327_120000").unwrap();
    assert_eq!(bytes, vec![0x89, 0x50, 0x4E, 0x47]);
    assert_eq!(name, "Gaze_20260327_120000.png");
    let (_, gif) = prepare_gif_save("R0lGODlh", "20260327_120000").unwrap();
    assert_eq!(gif, "Gaze_20260327_120000.gif");
    assert!(prepare_gif_save("%%%", "t").is_err());
}

#[test]
fn launch_at_login_scripts_and_outcomes() {
    assert!(apply_launch_at_login(true).is_ok());
    assert!(login_item_script(true).contains("make login item"));
    assert_eq!(
        login_item_script(false),
        "tell application \"System Events\" to delete login item \"Gaze\""
    );
    assert!(login_item_outcome(true, Ok((true, String::new()))).is_ok());
    assert_eq!(
        login_item_outcome(true, Ok((false, "boom".into()))).unwrap_err(),
        "osascript failed to add login item: boom"
    );
    assert!(login_item_outcome(false, Ok((false, "error: Can't get login item \"Gaze\".".into())))
        .is_ok());
    assert_eq!(
        login_item_outcome(false, Ok((false, "denied".into()))).unwrap_err(),
        "osascript failed to remove login item: denied"
    );
    assert_eq!(
        login_item_outcome(false, Err("no osascript".into())).unwrap_err(),
        "Failed to remove login item: no osascript"
    );
}

#[test]
fn combined_clipboard_copy_is_unavailable_here() {
    assert_eq!(copy_png_and_text_to_clipboard(&[1, 2, 3], "hint"), Ok(false));
}

#[test]
fn screencapture_arguments_per_mode() {
    assert_eq!(screencapture_args(ScreenshotKind::Area), vec!["-i", "-s", "-x"]);
    assert_eq!(screencapture_args(ScreenshotKind::Window), vec!["-i", "-w", "-x"]);
    assert_eq!(screencapture_args(ScreenshotKind::Fullscreen), vec!["-x"]);
}

fn png_of_size(width: u32, height: u32) -> Vec<u8> {
    let img = image::RgbaImage::from_pixel(width, height, image::Rgba([10, 20, 30, 255]));
    let mut cursor = std::io::Cursor::new(Vec::new());
    image::DynamicImage::ImageRgba8(img)
        .write_to(&mut cursor, image::ImageFormat::Png)
        .unwrap();
    cursor.into_inner()
}

#[test]
fn cancelled_area_capture_gives_no_capture() {
    assert!(execute_area_capture(Ok(false), None, LlmProvider::Sonnet).unwrap().is_none());
    assert!(execute_area_capture(Ok(true), None, LlmProvider::Sonnet).unwrap().is_none());
    assert!(execute_window_capture(Ok(false), Some(Ok(png_of_size(3, 3))), LlmProvider::Sonnet)
        .unwrap()
        .is_none());
}

#[test]
fn fullscreen_capture_processes_the_tool_file() {
    let p = execute_fullscreen_capture(Ok(true), Some(Ok(png_of_size(2000, 1000))), LlmProvider::Gpt4o)
        .unwrap()
        .unwrap();
    assert_eq!((p.metadata.original_width, p.metadata.original_height), (2000, 1000));
    assert_eq!((p.metadata.optimized_width, p.metadata.optimized_height), (1568, 784));
    assert_eq!(p.rgba.len(), 4 * 1568 * 784);
    assert_eq!(p.metadata.provider, "Gpt4o");
    assert_eq!(p.metadata.file_size, p.encoded.len());
}

#[test]
fn screencapture_outcomes() {
    let cancelled = finish_screencapture(Ok(false), None, LlmProvider::Sonnet).unwrap();
    assert!(cancelled.is_none());
    let no_file = finish_screencapture(Ok(true), None, LlmProvider::Sonnet).unwrap();
    assert!(no_file.is_none());
    let err = finish_screencapture(Err("missing".into()), None, LlmProvider::Sonnet).unwrap_err();
    assert_eq!(err, "Failed to launch screencapture: missing");
    let err = finish_screencapture(Ok(true), Some(Err("denied".into())), LlmProvider::Sonnet)
        .unwrap_err();
    assert_eq!(err, "Failed to read capture file: denied");
    let err = finish_screencapture(Ok(true), Some(Ok(vec![0, 1, 2, 3])), LlmProvider::Sonnet)
        .unwrap_err();
    assert!(err.starts_with("Failed to"), "got {err}");
}

#[test]
fn optimize_for_llm_encodes_or_reports_pipeline_error() {
    let rgba = vec![1u8; 4 * 4 * 4];
    let encoded = snapforge::command::optimize_for_llm(&rgba, 4, 4).unwrap();
    assert_eq!(snapforge::output::detect_image_format(&encoded), "webp");
    let err = snapforge::command::optimize_for_llm(&rgba, 40, 40).unwrap_err();
    assert_eq!(err.code, "pipeline_error");
    assert_eq!(err.message, "Invalid image data: Invalid RGBA dimensions");
}

#[test]
fn decoding_a_capture_base64_gives_back_its_bytes() {
    let rgba = vec![77u8; 12 * 9 * 4];
    let processed = snapforge::capture::process_rgba_capture(&rgba, 12, 9, LlmProvider::Sonnet).unwrap();
    let decoded = decode_image_base64(&processed.metadata.image_base64).unwrap();
    assert_eq!(decoded, processed.encoded);
}

#[test]
fn save_dir_is_the_expanded_folder_or_the_desktop() {
    assert_eq!(resolve_save_dir("~/Shots", Some("/home/me"), true), "/home/me/Shots");
    assert_eq!(resolve_save_dir("~", Some("/home/me"), true), "/home/me");
    assert_eq!(resolve_save_dir("/tmp", Some("/home/me"), true), "/tmp");
    assert_eq!(resolve_save_dir("~/My Screenshots/sub", Some("/home/me"), false), "/home/me/Desktop");
    assert_eq!(resolve_save_dir("~/Shots", None, true), "/tmp/Shots");
    assert_eq!(resolve_save_dir("/nowhere", None, false), "/tmp/Desktop");
}
