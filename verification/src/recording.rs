//! GIF recording decisions: the recording configuration, which display and
//! frame size a stream uses, what the recording shortcut does, and how a
//! captured BGRA frame becomes packed RGBA.

use vstd::prelude::*;
use crate::engine::StreamConfig;
use crate::settings::Settings;

verus! {

/// How a GIF recording runs.
#[derive(Debug, Clone, Copy, PartialEq, Eq, Structural)]
pub struct RecordingConfig {
    pub display_id: u32,
    pub fps: u32,
    pub max_width: u32,
    pub max_duration_secs: u32,
    pub quality: u8,
    pub show_cursor: bool,
}

/// The widest a recorded frame gets, in pixels.
pub const RECORDING_MAX_WIDTH: u32 = 640;

impl Default for RecordingConfig {
    /// Display 1 at 15 frames per second, at most 640 pixels wide and 30
    /// seconds long, quality 90, with the cursor shown.
    fn default() -> (r: Self)
        ensures
            r == (RecordingConfig {
                display_id: 1,
                fps: 15,
                max_width: 640,
                max_duration_secs: 30,
                quality: 90,
                show_cursor: true,
            }),
    {
        RecordingConfig {
            display_id: 1,
            fps: 15,
            max_width: RECORDING_MAX_WIDTH,
            max_duration_secs: 30,
            quality: 90,
            show_cursor: true,
        }
    }
}

/// The configuration of a recording started from the settings: the main
/// display (display 1 when none is known), the settings' frame rate, length
/// and quality, at most 640 pixels wide, with the cursor shown.
pub open spec fn spec_recording_config(settings: Settings, main_display: Option<u32>) -> RecordingConfig {
    RecordingConfig {
        display_id: match main_display {
            Some(id) => id,
            None => 1,
        },
        fps: settings.gif_fps,
        max_width: RECORDING_MAX_WIDTH,
        max_duration_secs: settings.max_recording_sec,
        quality: settings.gif_quality,
        show_cursor: true,
    }
}

/// Builds the configuration of a recording started from the settings.
pub fn recording_config_for(settings: &Settings, main_display: Option<u32>) -> (r: RecordingConfig)
    ensures
        r == spec_recording_config(*settings, main_display),
{
    RecordingConfig {
        display_id: match main_display {
            Some(id) => id,
            None => 1,
        },
        fps: settings.gif_fps,
        max_width: RECORDING_MAX_WIDTH,
        max_duration_secs: settings.max_recording_sec,
        quality: settings.gif_quality,
        show_cursor: true,
    }
}

/// The index of the display to record: the one with `wanted` as its id,
/// else the first, else none.
pub fn select_display(display_ids: &[u32], wanted: u32) -> (r: Option<usize>)
    ensures
        match r {
            Some(i) => i < display_ids@.len() && (display_ids@[i as int] == wanted || (i == 0
                && forall|j: int| 0 <= j < display_ids@.len() ==> display_ids@[j] != wanted)),
            None => display_ids@.len() == 0,
        },
        r matches Some(i) ==> forall|j: int| 0 <= j < i ==> display_ids@[j] != wanted,
{
    let mut i: usize = 0;
    while i < display_ids.len()
        invariant
            i <= display_ids@.len(),
            forall|j: int| 0 <= j < i ==> display_ids@[j] != wanted,
        decreases display_ids@.len() - i,
    {
        if display_ids[i] == wanted {
            return Some(i);
        }
        i = i + 1;
    }
    if display_ids.len() > 0 {
        Some(0)
    } else {
        None
    }
}

/// `v` rounded down to an even number.
pub open spec fn even_down(v: u32) -> u32 {
    (v - v % 2) as u32
}

/// `v` with its lowest bit cleared: the even number at or below it.
pub fn even_dimension(v: u32) -> (r: u32)
    ensures
        r == even_down(v),
{
    let r = v & !1u32;
    assert(v & !1u32 == v - v % 2) by (bit_vector);
    r
}

/// The stream a recording of a `display_width` x `display_height` display
/// runs: frames no wider than the configuration allows (`scaled_height` is
/// the display's height scaled by the same factor), both sides even.
pub open spec fn spec_stream_config(
    config: RecordingConfig,
    display_id: u32,
    display_width: u32,
    display_height: u32,
    scaled_height: u32,
) -> StreamConfig {
    let (w, h) = if display_width > config.max_width {
        (even_down(config.max_width), even_down(scaled_height))
    } else {
        (even_down(display_width), even_down(display_height))
    };
    StreamConfig { display_id, fps: config.fps, width: w, height: h, show_cursor: config.show_cursor }
}

/// Builds the stream configuration of a recording, as
/// [`spec_stream_config`] states.
pub fn stream_config_for(
    config: &RecordingConfig,
    display_id: u32,
    display_width: u32,
    display_height: u32,
    scaled_height: u32,
) -> (r: StreamConfig)
    ensures
        r == spec_stream_config(*config, display_id, display_width, display_height, scaled_height),
{
    let (width, height) = if display_width > config.max_width {
        (even_dimension(config.max_width), even_dimension(scaled_height))
    } else {
        (even_dimension(display_width), even_dimension(display_height))
    };
    StreamConfig { display_id, fps: config.fps, width, height, show_cursor: config.show_cursor }
}

/// What the recording shortcut does.
#[derive(Debug, Clone, Copy, PartialEq, Eq, Structural)]
pub enum ToggleAction {
    /// Nothing: the shortcut fired again too soon.
    Ignore,
    /// Stop the running recording; copy the GIF when `auto_copy`.
    Stop { auto_copy: bool },
    /// Start recording with `config`.
    Start { config: RecordingConfig },
}

/// The recording shortcut's action: ignored within the debounce window of
/// the last accepted press; otherwise it stops a running recording or
/// starts one from the settings.
pub open spec fn spec_toggle_action(
    last_toggle: Option<u64>,
    now: u64,
    recording: bool,
    settings: Settings,
    main_display: Option<u32>,
) -> ToggleAction {
    if crate::preview::spec_should_debounce(last_toggle, now, crate::preview::DEBOUNCE_MS) {
        ToggleAction::Ignore
    } else if recording {
        ToggleAction::Stop { auto_copy: settings.auto_copy }
    } else {
        ToggleAction::Start { config: spec_recording_config(settings, main_display) }
    }
}

/// Decides what a press of the recording shortcut at `now` (milliseconds on
/// a monotonic clock) does; an accepted press becomes the last one.
pub fn toggle_gif_recording(
    last_toggle: &mut Option<u64>,
    now: u64,
    recording: bool,
    settings: &Settings,
    main_display: Option<u32>,
) -> (r: ToggleAction)
    ensures
        r == spec_toggle_action(*old(last_toggle), now, recording, *settings, main_display),
        r is Ignore ==> *final(last_toggle) == *old(last_toggle),
        !(r is Ignore) ==> *final(last_toggle) == Some(now),
{
    if !crate::preview::debounce_check(last_toggle, now) {
        return ToggleAction::Ignore;
    }
    if recording {
        ToggleAction::Stop { auto_copy: settings.auto_copy }
    } else {
        ToggleAction::Start { config: recording_config_for(settings, main_display) }
    }
}

// ---------------------------------------------------------------------------
// Frame pixels
// ---------------------------------------------------------------------------

/// The channel of a BGRA pixel that holds RGBA channel `c`: red and blue
/// swap places, green and alpha stay.
pub open spec fn bgra_channel(c: int) -> int {
    if c == 0 {
        2
    } else if c == 2 {
        0
    } else {
        c
    }
}

/// One row of `width` BGRA pixels starting at byte `start`, as RGBA.
pub open spec fn rgba_row(bgra: Seq<u8>, start: int, width: nat) -> Seq<u8> {
    Seq::new(4 * width, |k: int| bgra[start + (k - k % 4) + bgra_channel(k % 4)])
}

/// The first `rows` rows of a frame whose rows lie `bytes_per_row` bytes
/// apart, as RGBA, one after the other.
pub open spec fn rgba_rows(bgra: Seq<u8>, width: nat, bytes_per_row: nat, rows: nat) -> Seq<u8>
    decreases rows,
{
    if rows == 0 {
        Seq::empty()
    } else {
        rgba_rows(bgra, width, bytes_per_row, (rows - 1) as nat) + rgba_row(
            bgra,
            (rows - 1) * bytes_per_row,
            width,
        )
    }
}

/// The number of leading rows, from `row` on and at most `height`, whose
/// pixels lie wholly inside a buffer of `len` bytes: conversion stops at the
/// first row that runs past the end.
pub open spec fn rows_that_fit(len: nat, width: nat, height: nat, bytes_per_row: nat, row: nat) -> nat
    decreases height - row,
{
    if row >= height || row * bytes_per_row + 4 * width > len {
        row
    } else {
        rows_that_fit(len, width, height, bytes_per_row, row + 1)
    }
}

/// Converts a BGRA frame whose rows lie `bytes_per_row` bytes apart (the
/// stride may exceed `4 * width`) to tightly packed RGBA, stopping at the
/// first row that runs past the end of the buffer.
pub fn bgra_rows_to_rgba(bgra: &[u8], width: usize, height: usize, bytes_per_row: usize) -> (r: Vec<u8>)
    requires
        height * bytes_per_row + 4 * width <= usize::MAX,
    ensures
        r@ == rgba_rows(
            bgra@,
            width as nat,
            bytes_per_row as nat,
            rows_that_fit(bgra@.len(), width as nat, height as nat, bytes_per_row as nat, 0),
        ),
{
    let ghost (len, w, h, bpr) = (bgra@.len(), width as nat, height as nat, bytes_per_row as nat);
    let mut out: Vec<u8> = Vec::new();
    let mut row: usize = 0;
    while row < height
        invariant
            height * bytes_per_row + 4 * width <= usize::MAX,
            len == bgra@.len(),
            w == width,
            h == height,
            bpr == bytes_per_row,
            row <= height,
            rows_that_fit(len, w, h, bpr, 0) == rows_that_fit(len, w, h, bpr, row as nat),
            out@ == rgba_rows(bgra@, w, bpr, row as nat),
        ensures
            out@ == rgba_rows(bgra@, w, bpr, rows_that_fit(len, w, h, bpr, 0)),
        decreases height - row,
    {
        assert(row * bytes_per_row <= height * bytes_per_row) by (nonlinear_arith)
            requires
                row <= height,
        ;
        let start: usize = row * bytes_per_row;
        if start + 4 * width > bgra.len() {
            assert(rows_that_fit(len, w, h, bpr, row as nat) == row);
            break;
        }
        assert(rows_that_fit(len, w, h, bpr, row as nat) == rows_that_fit(len, w, h, bpr, row as nat + 1));
        let ghost before = out@;
        let ghost line = rgba_row(bgra@, start as int, w);
        let mut px: usize = 0;
        while px < width
            invariant
                start + 4 * width <= bgra@.len(),
                start + 4 * width <= usize::MAX,
                w == width,
                px <= width,
                line == rgba_row(bgra@, start as int, w),
                out@ == before + line.take(4 * px),
            decreases width - px,
        {
            let at = start + 4 * px;
            out.push(bgra[at + 2]);
            out.push(bgra[at + 1]);
            out.push(bgra[at]);
            out.push(bgra[at + 3]);
            proof {
                let k = 4 * px as int;
                assert(k % 4 == 0 && (k + 1) % 4 == 1 && (k + 2) % 4 == 2 && (k + 3) % 4 == 3);
                assert(line.take(4 * (px + 1)) =~= line.take(4 * px).push(line[k]).push(line[k + 1]).push(
                    line[k + 2],
                ).push(line[k + 3]));
            }
            px = px + 1;
        }
        proof {
            assert(line.take(4 * px) =~= line);
            assert((row + 1 - 1) * bytes_per_row == start);
        }
        row = row + 1;
    }
    out
}

// ---------------------------------------------------------------------------
// Finishing a recording
// ---------------------------------------------------------------------------

/// What a finished recording reports besides its file: how many frames it
/// holds and the size of its first frame, which the GIF takes.
#[derive(Debug, Clone, Copy, PartialEq, Eq, Structural)]
pub struct RecordingSummary {
    pub frame_count: u32,
    pub width: u32,
    pub height: u32,
}

/// Sums up the frames collected by a recording, given each frame's width and
/// height in order: a recording without frames is an error ("No frames
/// captured"); otherwise the frame count (as a `u32`) and the first frame's
/// size.
pub fn recording_summary(frame_sizes: &[(u32, u32)]) -> (r: Result<RecordingSummary, String>)
    ensures
        frame_sizes@.len() == 0 ==> (r matches Err(m) && m@ == "No frames captured"@),
        frame_sizes@.len() > 0 ==> r == Ok::<RecordingSummary, String>(
            RecordingSummary {
                frame_count: frame_sizes@.len() as u32,
                width: frame_sizes@[0].0,
                height: frame_sizes@[0].1,
            },
        ),
{
    if frame_sizes.len() == 0 {
        return Err(String::from_str("No frames captured"));
    }
    let (width, height) = frame_sizes[0];
    Ok(RecordingSummary { frame_count: frame_sizes.len() as u32, width, height })
}

} // verus!
