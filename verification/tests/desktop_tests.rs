use snapforge::desktop::event_touches;
use snapforge::desktop::launch_at_login_change;
use snapforge::desktop::login_item_update_error;
use snapforge::desktop::menu_action;
use snapforge::desktop::FsEventKind;
use snapforge::desktop::MenuAction;
use snapforge::desktop::WatcherState;
use snapforge::recording::bgra_rows_to_rgba;
use snapforge::recording::recording_summary;
use snapforge::recording::RecordingSummary;
use snapforge::recording::even_dimension;
use snapforge::recording::recording_config_for;
use snapforge::recording::select_display;
use snapforge::recording::stream_config_for;
use snapforge::recording::toggle_gif_recording;
use snapforge::recording::RecordingConfig;
use snapforge::recording::ToggleAction;
use snapforge::settings::Settings;

#[test]
fn event_touches_matches_target_modify() {
    let paths = vec!["/tmp/settings.json".to_string(), "/tmp/other.json".to_string()];
    assert!(event_touches(FsEventKind::Modify, &paths, "/tmp/settings.json"));
}

#[test]
fn event_touches_matches_target_create() {
    let paths = vec!["/tmp/settings.json".to_string()];
    assert!(event_touches(FsEventKind::Create, &paths, "/tmp/settings.json"));
}

#[test]
fn event_touches_matches_target_remove() {
    let paths = vec!["/tmp/settings.json".to_string()];
    assert!(event_touches(FsEventKind::Remove, &paths, "/tmp/settings.json"));
}

#[test]
fn event_touches_ignores_unrelated_path() {
    let paths = vec!["/tmp/other.json".to_string()];
    assert!(!event_touches(FsEventKind::Modify, &paths, "/tmp/settings.json"));
}

#[test]
fn event_touches_ignores_access_kind() {
    let paths = vec!["/tmp/settings.json".to_string()];
    assert!(!event_touches(FsEventKind::Access, &paths, "/tmp/settings.json"));
}

#[test]
fn watcher_applies_after_quiet_period_once() {
    let mut w = WatcherState::new();
    assert_eq!(w.wait_ms(0), 60_000);
    w.on_event(true, 1_000);
    w.on_event(true, 1_200);
    assert_eq!(w.pending_since, Some(1_000));
    assert_eq!(w.wait_ms(1_100), 400);
    assert!(!w.on_timeout(1_499));
    assert!(w.on_timeout(1_500));
    assert!(!w.on_timeout(5_000));
    w.on_event(false, 6_000);
    assert_eq!(w.pending_since, None);
}

#[test]
fn tray_menu_ids_map_to_actions() {
    assert_eq!(menu_action("area_capture"), MenuAction::AreaCapture);
    assert_eq!(menu_action("gif_record"), MenuAction::ToggleGifRecording);
    assert_eq!(menu_action("quit"), MenuAction::Quit);
    assert_eq!(menu_action("bogus"), MenuAction::Unknown);
}

#[test]
fn login_item_follows_only_changes() {
    let before = Settings::default();
    let mut after = Settings::default();
    assert_eq!(launch_at_login_change(&before, &after), None);
    after.launch_at_login = true;
    assert_eq!(launch_at_login_change(&before, &after), Some(true));
    assert_eq!(login_item_update_error("nope"), "Failed to update login item: nope");
}

#[test]
fn default_config_values() {
    let config = RecordingConfig::default();
    assert_eq!(config.fps, 15);
    assert_eq!(config.max_width, 640);
    assert_eq!(config.max_duration_secs, 30);
    assert_eq!(config.quality, 90);
    assert!(config.show_cursor);
}

#[test]
fn recording_config_comes_from_settings() {
    let s = Settings::default();
    let c = recording_config_for(&s, Some(7));
    assert_eq!(c.display_id, 7);
    assert_eq!(c.fps, s.gif_fps);
    assert_eq!(c.max_duration_secs, s.max_recording_sec);
    assert_eq!(c.quality, s.gif_quality);
    assert_eq!(recording_config_for(&s, None).display_id, 1);
}

#[test]
fn recording_display_and_frame_size() {
    assert_eq!(select_display(&[3, 5, 9], 5), Some(1));
    assert_eq!(select_display(&[3, 5, 9], 4), Some(0));
    assert_eq!(select_display(&[], 4), None);
    assert_eq!(even_dimension(641), 640);
    assert_eq!(even_dimension(0), 0);
    let config = RecordingConfig::default();
    let wide = stream_config_for(&config, 1, 1920, 1080, 360);
    assert_eq!((wide.width, wide.height), (640, 360));
    let narrow = stream_config_for(&config, 1, 601, 401, 0);
    assert_eq!((narrow.width, narrow.height), (600, 400));
}

#[test]
fn recording_shortcut_starts_stops_and_debounces() {
    let s = Settings::default();
    let mut last = None;
    let first = toggle_gif_recording(&mut last, 10_000, false, &s, Some(2));
    assert!(matches!(first, ToggleAction::Start { config } if config.display_id == 2));
    let again = toggle_gif_recording(&mut last, 10_100, true, &s, Some(2));
    assert_eq!(again, ToggleAction::Ignore);
    let stop = toggle_gif_recording(&mut last, 10_600, true, &s, Some(2));
    assert_eq!(stop, ToggleAction::Stop { auto_copy: s.auto_copy });
}

#[test]
fn bgra_frame_rows_become_packed_rgba() {
    // Two rows of two pixels, each row padded to 12 bytes.
    let bgra: Vec<u8> = vec![
        1, 2, 3, 4, 5, 6, 7, 8, 0, 0, 0, 0, //
        9, 10, 11, 12, 13, 14, 15, 16, 0, 0, 0, 0,
    ];
    assert_eq!(
        bgra_rows_to_rgba(&bgra, 2, 2, 12),
        vec![3, 2, 1, 4, 7, 6, 5, 8, 11, 10, 9, 12, 15, 14, 13, 16]
    );
}

#[test]
fn bgra_conversion_stops_at_a_row_past_the_end() {
    let bgra: Vec<u8> = vec![1, 2, 3, 4, 0, 0, 9, 10, 11];
    assert_eq!(bgra_rows_to_rgba(&bgra, 1, 3, 6), vec![3, 2, 1, 4]);
    assert!(bgra_rows_to_rgba(&[], 1, 1, 4).is_empty());
}

#[test]
fn recording_summary_needs_frames_and_takes_the_first_size() {
    assert_eq!(recording_summary(&[]).unwrap_err(), "No frames captured");
    assert_eq!(
        recording_summary(&[(640, 360), (320, 180), (640, 360)]).unwrap(),
        RecordingSummary { frame_count: 3, width: 640, height: 360 }
    );
}
