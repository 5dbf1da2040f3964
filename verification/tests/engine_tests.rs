use snapforge::command::window_info_response;
use snapforge::command::window_info_responses;
use snapforge::command::CommandError;
use snapforge::engine::has_permission;
use snapforge::engine::request_permission;
use snapforge::engine::CaptureError;
use snapforge::engine::CaptureResult;
use snapforge::engine::StreamConfig;
use snapforge::engine::WindowInfo;
use snapforge::optimizer::PipelineError;

#[test]
fn display_permission_denied() {
    let err = CaptureError::PermissionDenied;
    assert_eq!(err.message(), "Screen recording permission not granted");
}

#[test]
fn display_display_not_found() {
    let err = CaptureError::DisplayNotFound(42);
    assert_eq!(err.message(), "Display 42 not found");
}

#[test]
fn display_no_displays() {
    let err = CaptureError::NoDisplays;
    assert_eq!(err.message(), "No displays available");
}

#[test]
fn display_internal_error() {
    let err = CaptureError::Internal("something broke".to_string());
    assert_eq!(err.message(), "Capture failed: something broke");
}

#[test]
fn from_anyhow_error() {
    let err = CaptureError::Internal("oops".to_string());
    assert!(matches!(err, CaptureError::Internal(_)));
}

#[test]
fn error_error_is_debug() {
    let err = CaptureError::PermissionDenied;
    let debug = format!("{:?}", err);
    assert!(debug.contains("PermissionDenied"));
}

#[test]
fn window_info_clone_and_debug() {
    let info = WindowInfo {
        id: 42,
        title: "My Window".into(),
        app_name: "App".into(),
        is_on_screen: true,
    };
    let cloned = info.clone();
    assert_eq!(cloned.id, 42);
    assert_eq!(cloned.title, "My Window");
    assert!(cloned.is_on_screen);
    let debug = format!("{:?}", info);
    assert!(debug.contains("WindowInfo"));
}

#[test]
fn capture_result_clone_and_debug() {
    let result = CaptureResult { width: 100, height: 200, data: vec![0u8; 100 * 200 * 4] };
    let cloned = result.clone();
    assert_eq!(cloned.width, 100);
    assert_eq!(cloned.height, 200);
    assert_eq!(cloned.data.len(), 100 * 200 * 4);
    let debug = format!("{:?}", result);
    assert!(debug.contains("CaptureResult"));
}

#[test]
fn stream_config_holds_its_fields() {
    let config = StreamConfig { display_id: 2, fps: 15, width: 640, height: 360, show_cursor: true };
    let cloned = config.clone();
    assert_eq!(cloned.display_id, 2);
    assert_eq!(cloned.width, 640);
    assert!(format!("{:?}", config).contains("StreamConfig"));
}

#[test]
fn permissions_are_granted_without_a_gate() {
    assert!(has_permission());
    assert!(request_permission());
}

#[test]
fn display_format() {
    let err = CommandError { message: "something failed".into(), code: "test_error".into() };
    assert_eq!(err.display(), "[test_error] something failed");
}

#[test]
fn from_capture_error_permission_denied() {
    let cmd_err = CommandError::from_capture_error(CaptureError::PermissionDenied);
    assert_eq!(cmd_err.code, "capture_error");
    assert_eq!(cmd_err.message, "Screen recording permission not granted");
}

#[test]
fn from_capture_error_display_not_found() {
    let cmd_err = CommandError::from_capture_error(CaptureError::DisplayNotFound(5));
    assert_eq!(cmd_err.code, "capture_error");
    assert_eq!(cmd_err.message, "Display 5 not found");
}

#[test]
fn from_capture_error_no_displays() {
    let cmd_err = CommandError::from_capture_error(CaptureError::NoDisplays);
    assert_eq!(cmd_err.code, "capture_error");
    assert_eq!(cmd_err.message, "No displays available");
}

#[test]
fn from_pipeline_error_invalid_image() {
    let cmd_err = CommandError::from_pipeline_error(PipelineError::InvalidImage("bad".into()));
    assert_eq!(cmd_err.code, "pipeline_error");
    assert_eq!(cmd_err.message, "Invalid image data: bad");
}

#[test]
fn from_pipeline_error_unsupported_format() {
    let cmd_err = CommandError::from_pipeline_error(PipelineError::UnsupportedFormat("bmp".into()));
    assert_eq!(cmd_err.code, "pipeline_error");
    assert_eq!(cmd_err.message, "Unsupported format: bmp");
}

#[test]
fn command_error_is_debug() {
    let err = CommandError { message: "msg".into(), code: "code".into() };
    let debug = format!("{:?}", err);
    assert!(debug.contains("CommandError"));
}

#[test]
fn window_responses_copy_every_field_in_order() {
    let windows = vec![
        WindowInfo { id: 1, title: "A".into(), app_name: "X".into(), is_on_screen: true },
        WindowInfo { id: 7, title: "B".into(), app_name: "Y".into(), is_on_screen: false },
    ];
    let responses = window_info_responses(windows);
    assert_eq!(responses.len(), 2);
    assert_eq!(responses[1].id, 7);
    assert_eq!(responses[1].title, "B");
    assert_eq!(responses[1].app_name, "Y");
    assert!(!responses[1].is_on_screen);
    let single = window_info_response(WindowInfo {
        id: 42,
        title: "Test Window".into(),
        app_name: "Safari".into(),
        is_on_screen: true,
    });
    assert_eq!(single.id, 42);
    assert_eq!(single.app_name, "Safari");
}
