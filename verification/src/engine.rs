//! What the screen-capture engine hands out: window and capture records,
//! recording stream settings and the engine's errors.

use vstd::prelude::*;
use crate::text::push_decimal;

verus! {

/// A window the engine can capture.
#[derive(Debug, Clone)]
pub struct WindowInfo {
    pub id: u32,
    pub title: String,
    pub app_name: String,
    pub is_on_screen: bool,
}

/// The RGBA pixels of a capture.
#[derive(Debug, Clone)]
pub struct CaptureResult {
    pub width: u32,
    pub height: u32,
    pub data: Vec<u8>,
}

/// How to run a screen recording stream.
#[derive(Debug, Clone)]
pub struct StreamConfig {
    pub display_id: u32,
    pub fps: u32,
    pub width: u32,
    pub height: u32,
    pub show_cursor: bool,
}

/// Why a capture failed.
#[derive(Debug)]
pub enum CaptureError {
    /// Screen recording is not allowed.
    PermissionDenied,
    /// No display has this id.
    DisplayNotFound(u32),
    /// There is no display at all.
    NoDisplays,
    /// The platform failed, with its message.
    Internal(String),
}

/// The mathematical view of a [`CaptureError`].
pub enum CaptureErrorView {
    PermissionDenied,
    DisplayNotFound(u32),
    NoDisplays,
    Internal(Seq<char>),
}

impl View for CaptureError {
    type V = CaptureErrorView;

    open spec fn view(&self) -> CaptureErrorView {
        match self {
            CaptureError::PermissionDenied => CaptureErrorView::PermissionDenied,
            CaptureError::DisplayNotFound(id) => CaptureErrorView::DisplayNotFound(*id),
            CaptureError::NoDisplays => CaptureErrorView::NoDisplays,
            CaptureError::Internal(m) => CaptureErrorView::Internal(m@),
        }
    }
}

/// The description of a capture error.
pub open spec fn capture_error_text(e: CaptureErrorView) -> Seq<char> {
    match e {
        CaptureErrorView::PermissionDenied => "Screen recording permission not granted"@,
        CaptureErrorView::DisplayNotFound(id) => "Display "@ + crate::text::decimal(id as nat)
            + " not found"@,
        CaptureErrorView::NoDisplays => "No displays available"@,
        CaptureErrorView::Internal(m) => "Capture failed: "@ + m,
    }
}

impl CaptureError {
    /// The human-readable description of the error.
    pub fn message(&self) -> (r: String)
        ensures
            r@ == capture_error_text(self@),
    {
        match self {
            CaptureError::PermissionDenied => String::from_str(
                "Screen recording permission not granted",
            ),
            CaptureError::DisplayNotFound(id) => {
                let mut out = String::from_str("Display ");
                push_decimal(&mut out, *id as u64);
                out.append(" not found");
                out
            },
            CaptureError::NoDisplays => String::from_str("No displays available"),
            CaptureError::Internal(m) => {
                let mut out = String::from_str("Capture failed: ");
                out.append(m.as_str());
                out
            },
        }
    }
}

/// Whether screen recording is allowed. This build targets platforms
/// without a screen-recording permission gate, where it always is.
pub fn has_permission() -> (r: bool)
    ensures
        r,
{
    true
}

/// Asks for screen-recording permission; granted at once on platforms
/// without a permission gate.
pub fn request_permission() -> (r: bool)
    ensures
        r,
{
    true
}

} // verus!
