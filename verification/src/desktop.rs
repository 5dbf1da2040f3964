//! Decisions of the desktop app around its windows: the tray menu, keeping
//! the login item in step with the settings, and reacting to edits of the
//! settings file made by other programs.

use vstd::prelude::*;
use crate::settings::Settings;
use crate::text::str_eq;

verus! {

/// What a tray menu entry does.
#[derive(Debug, Clone, Copy, PartialEq, Eq, Structural)]
pub enum MenuAction {
    FullscreenCapture,
    AreaCapture,
    WindowCapture,
    /// Text recognition: not available yet, so nothing happens.
    OcrCapture,
    ToggleGifRecording,
    OpenSettings,
    Quit,
    /// An entry the app does not know.
    Unknown,
}

/// The action of the tray menu entry with id `menu_id`.
pub open spec fn spec_menu_action(menu_id: Seq<char>) -> MenuAction {
    if menu_id == "fullscreen_capture"@ {
        MenuAction::FullscreenCapture
    } else if menu_id == "area_capture"@ {
        MenuAction::AreaCapture
    } else if menu_id == "window_capture"@ {
        MenuAction::WindowCapture
    } else if menu_id == "ocr_capture"@ {
        MenuAction::OcrCapture
    } else if menu_id == "gif_record"@ {
        MenuAction::ToggleGifRecording
    } else if menu_id == "settings"@ {
        MenuAction::OpenSettings
    } else if menu_id == "quit"@ {
        MenuAction::Quit
    } else {
        MenuAction::Unknown
    }
}

/// The action of a tray menu entry, by id.
pub fn menu_action(menu_id: &str) -> (r: MenuAction)
    ensures
        r == spec_menu_action(menu_id@),
{
    if str_eq(menu_id, "fullscreen_capture") {
        MenuAction::FullscreenCapture
    } else if str_eq(menu_id, "area_capture") {
        MenuAction::AreaCapture
    } else if str_eq(menu_id, "window_capture") {
        MenuAction::WindowCapture
    } else if str_eq(menu_id, "ocr_capture") {
        MenuAction::OcrCapture
    } else if str_eq(menu_id, "gif_record") {
        MenuAction::ToggleGifRecording
    } else if str_eq(menu_id, "settings") {
        MenuAction::OpenSettings
    } else if str_eq(menu_id, "quit") {
        MenuAction::Quit
    } else {
        MenuAction::Unknown
    }
}

/// The login-item state to apply after the settings changed from `before`
/// to `after`: the new state when launch-at-login changed, else none.
pub fn launch_at_login_change(before: &Settings, after: &Settings) -> (r: Option<bool>)
    ensures
        r == (if before.launch_at_login != after.launch_at_login {
            Some(after.launch_at_login)
        } else {
            None::<bool>
        }),
{
    if before.launch_at_login != after.launch_at_login {
        Some(after.launch_at_login)
    } else {
        None
    }
}

/// The message when saving settings succeeded but the login item could not
/// follow: `Failed to update login item: <error>`.
pub fn login_item_update_error(error: &str) -> (r: String)
    ensures
        r@ == "Failed to update login item: "@ + error@,
{
    let mut out = String::from_str("Failed to update login item: ");
    out.append(error);
    out
}

/// What happened to a file system entry.
#[derive(Debug, Clone, Copy, PartialEq, Eq, Structural)]
pub enum FsEventKind {
    Access,
    Create,
    Modify,
    Remove,
    Other,
}

/// An event concerns the settings file when it creates, modifies or removes
/// it; reads are ignored.
pub open spec fn spec_event_touches(kind: FsEventKind, paths: Seq<Seq<char>>, target: Seq<char>) -> bool {
    (kind == FsEventKind::Create || kind == FsEventKind::Modify || kind == FsEventKind::Remove)
        && paths.contains(target)
}

/// The paths of an event, as text.
pub open spec fn path_texts(paths: Seq<String>) -> Seq<Seq<char>> {
    paths.map_values(|p: String| p@)
}

/// Whether a file system event concerns the settings file at `target`.
pub fn event_touches(kind: FsEventKind, paths: &[String], target: &str) -> (r: bool)
    ensures
        r == spec_event_touches(kind, path_texts(paths@), target@),
{
    if !(kind == FsEventKind::Create || kind == FsEventKind::Modify || kind == FsEventKind::Remove) {
        return false;
    }
    let mut i: usize = 0;
    while i < paths.len()
        invariant
            kind == FsEventKind::Create || kind == FsEventKind::Modify || kind == FsEventKind::Remove,
            i <= paths@.len(),
            forall|j: int| 0 <= j < i ==> path_texts(paths@)[j] != target@,
        decreases paths@.len() - i,
    {
        if str_eq(paths[i].as_str(), target) {
            assert(path_texts(paths@)[i as int] == target@);
            assert(path_texts(paths@).contains(target@));
            return true;
        }
        i = i + 1;
    }
    proof {
        if path_texts(paths@).contains(target@) {
            let j = choose|j: int| 0 <= j < path_texts(paths@).len() && path_texts(paths@)[j] == target@;
            assert(j < i);
        }
    }
    false
}

/// Edits of the settings file are applied once no new edit has come for
/// this many milliseconds after the first.
pub const WATCH_DEBOUNCE_MS: u64 = 500;

/// How long the watcher waits for events when no edit is pending.
pub const WATCH_IDLE_MS: u64 = 60_000;

/// The settings-file watcher: when the first edit not yet applied arrived,
/// if any.
#[derive(Debug, Clone, Copy, PartialEq, Eq, Structural)]
pub struct WatcherState {
    pub pending_since: Option<u64>,
}

/// The watcher after an event at `now`: one that touches the settings file
/// starts the debounce period unless one is already running.
pub open spec fn spec_after_event(state: WatcherState, touches: bool, now: u64) -> WatcherState {
    if touches && state.pending_since is None {
        WatcherState { pending_since: Some(now) }
    } else {
        state
    }
}

/// Whether a wait ending at `now` without events applies the pending edit:
/// when one is pending and its debounce period is over.
pub open spec fn spec_timeout_applies(state: WatcherState, now: u64) -> bool {
    state.pending_since matches Some(start) && crate::preview::elapsed_ms(start, now)
        >= WATCH_DEBOUNCE_MS
}

/// The watcher after a wait ending at `now` without events: an applied
/// edit is no longer pending.
pub open spec fn spec_after_timeout(state: WatcherState, now: u64) -> WatcherState {
    if spec_timeout_applies(state, now) {
        WatcherState { pending_since: None }
    } else {
        state
    }
}

impl WatcherState {
    /// A watcher with no pending edit.
    pub fn new() -> (r: WatcherState)
        ensures
            r.pending_since is None,
    {
        WatcherState { pending_since: None }
    }

    /// Records an event at `now`, as [`spec_after_event`] states.
    pub fn on_event(&mut self, touches: bool, now: u64)
        ensures
            *final(self) == spec_after_event(*old(self), touches, now),
    {
        if touches && self.pending_since.is_none() {
            self.pending_since = Some(now);
        }
    }

    /// How long to wait for the next event at `now`: the rest of the
    /// debounce period when an edit is pending, else the idle wait.
    pub fn wait_ms(&self, now: u64) -> (r: u64)
        ensures
            r == match self.pending_since {
                Some(start) => if crate::preview::elapsed_ms(start, now) >= WATCH_DEBOUNCE_MS {
                    0
                } else {
                    (WATCH_DEBOUNCE_MS - crate::preview::elapsed_ms(start, now)) as u64
                },
                None => WATCH_IDLE_MS,
            },
    {
        match self.pending_since {
            Some(start) => {
                let elapsed: u64 = if now >= start { now - start } else { 0 };
                if elapsed >= WATCH_DEBOUNCE_MS {
                    0
                } else {
                    WATCH_DEBOUNCE_MS - elapsed
                }
            },
            None => WATCH_IDLE_MS,
        }
    }

    /// Handles a wait that ended without events at `now`; returns whether
    /// the settings must be applied now, as [`spec_timeout_applies`] and
    /// [`spec_after_timeout`] state.
    pub fn on_timeout(&mut self, now: u64) -> (apply: bool)
        ensures
            apply == spec_timeout_applies(*old(self), now),
            *final(self) == spec_after_timeout(*old(self), now),
    {
        match self.pending_since {
            Some(start) => {
                let elapsed: u64 = if now >= start { now - start } else { 0 };
                if elapsed >= WATCH_DEBOUNCE_MS {
                    self.pending_since = None;
                    true
                } else {
                    false
                }
            },
            None => false,
        }
    }
}

/// An edit burst is applied at most once: after a timeout applies it, no
/// later timeout applies anything until a new event arrives.
pub proof fn lemma_watcher_applies_once(state: WatcherState, now: u64, later: u64)
    requires
        spec_timeout_applies(state, now),
    ensures
        !spec_timeout_applies(spec_after_timeout(state, now), later),
{
}

/// An edit is never applied sooner than the debounce period after the
/// first event of its burst, however many events follow it.
pub proof fn lemma_watcher_waits(first: u64, touches: bool, again: u64, now: u64)
    requires
        first <= now < first + WATCH_DEBOUNCE_MS,
    ensures
        !spec_timeout_applies(
            spec_after_event(spec_after_event(WatcherState { pending_since: None }, true, first), touches, again),
            now,
        ),
{
}

} // verus!
