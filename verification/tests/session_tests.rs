use mouse_recorder::editor::Setting;
use mouse_recorder::hook::CapturedClick;
use mouse_recorder::model::{ClickEdgeMode, MouseButton, RecordedEvent, RecordedEventKind};
use mouse_recorder::playback::{PlaybackError, RunStatus};
use mouse_recorder::recorder::TickSample;
use mouse_recorder::session::{
    saved_status_of, scroll_top, snapped_ui_scale, EscAction, HookReply, Mode, Proceed, Session,
};

fn sample(ms: u128, x: i32, y: i32) -> RecordedEvent {
    RecordedEvent { ms_from_start: ms, kind: RecordedEventKind::Move { x, y }, pos: Some((x, y)), click_meta: None }
}

fn wait(ms: u128, length: u64) -> RecordedEvent {
    RecordedEvent { ms_from_start: ms, kind: RecordedEventKind::Wait { ms: length }, pos: None, click_meta: None }
}

fn tick(cursor: (i32, i32), left: bool, now_ms: u64) -> TickSample {
    TickSample { cursor: Some(cursor), left_down: left, right_down: false, middle_down: false, now_ms }
}

#[test]
fn a_session_starts_idle_and_ready() {
    let session = Session::new();
    assert_eq!(session.mode, Mode::Idle);
    assert!(session.events.is_empty());
    assert_eq!(session.status, "Ready");
    assert_eq!(session.file_path, "recording.yaml");
    assert_eq!((session.find_image_patch_size, session.find_image_region_size), (64, 600));
    assert_eq!(session.recorder_wait_ms, 10);
    assert_eq!(session.ui_scale_percent, 50);
    assert_eq!((session.editor.x_text.as_str(), session.editor.y_text.as_str()), ("0", "0"));
}

#[test]
fn recording_a_click_from_start_to_stop() {
    let mut session = Session::new();
    session.events.push(wait(0, 1));
    session.apply_setting(Setting::WaitMs { ms: 40 });
    session.start_recording(Some((100, 200)));
    assert_eq!(session.mode, Mode::Recording);
    assert_eq!(session.status, "Recording...");
    assert!(session.events.is_empty());
    assert_eq!(session.recorder_wait_ms, 40);
    assert!(session.recorder.enabled);
    for s in [tick((100, 200), true, 0), tick((100, 200), false, 10)] {
        let rows = session.tick(s);
        assert!(!session.append_recorded(rows));
    }
    let rows = session.stop_recording();
    assert_eq!(rows.len(), 1);
    assert_eq!(session.mode, Mode::Recording);
    session.finish_recording(rows);
    assert_eq!(session.mode, Mode::Idle);
    assert_eq!(session.status, "Stopped. 1 events recorded.");
    assert_eq!(session.events.len(), 1);
    assert_eq!(session.events[0].kind, RecordedEventKind::ButtonClick { button: MouseButton::Left, patch_png_base64: None });
    assert_eq!(session.events[0].pos, Some((100, 200)));
    assert_eq!(session.events[0].click_meta.unwrap().wait_ms, 40);
    assert_eq!(session.events[0].click_meta.unwrap().left_mode, ClickEdgeMode::Auto);
}

#[test]
fn ticks_outside_a_recording_do_nothing() {
    let mut session = Session::new();
    assert!(session.tick(tick((1, 1), true, 0)).is_empty());
    assert!(session.stop_recording().is_empty());
    session.finish_recording(vec![wait(0, 1)]);
    assert!(session.events.is_empty());
    assert_eq!(session.status, "Ready");
    assert!(!session.stop_playback());
}

#[test]
fn playback_starts_only_in_an_idle_session_with_rows() {
    let mut session = Session::new();
    assert!(session.start_playback().is_none());
    session.events = vec![sample(1, 1, 1), sample(2, 2, 2), wait(3, 5)];
    let (compact, map) = session.start_playback().expect("an idle session with rows plays");
    assert_eq!(compact.len(), 2);
    assert_eq!(map, vec![1, 2]);
    assert_eq!(session.playback_progress_row_map, vec![1, 2]);
    assert_eq!(session.mode, Mode::Playing);
    assert_eq!(session.status, "Playing (materialized MOVES)...");
    assert!(session.start_playback().is_none());
    session.start_recording(None);
    assert_eq!(session.mode, Mode::Playing);
    session.clear();
    assert_eq!(session.events.len(), 3);
    session.insert_or_apply(None);
    assert_eq!(session.status, "Stop recording or playback first.");
    assert!(session.load_from_file().is_none());
    assert_eq!(session.status, "Stop recording or playback before loading.");
    session.mode = Mode::Recording;
    assert!(session.start_playback().is_none());
}

#[test]
fn progress_of_a_playback_scrolls_once_to_each_row() {
    let mut session = Session::new();
    session.events = vec![sample(1, 1, 1), sample(2, 2, 2), wait(3, 5)];
    assert_eq!(session.playback_progress(0), None);
    session.start_playback();
    assert_eq!(session.playback_progress(usize::MAX), None);
    assert_eq!(session.playback_progress(0), Some(1));
    assert_eq!(session.playback_active_index, Some(1));
    assert_eq!(session.playback_progress(0), None);
    assert_eq!(session.playback_progress(1), Some(2));
    assert_eq!(session.playback_progress(5), Some(5));
    assert_eq!(session.playback_progress(usize::MAX), None);
    assert_eq!(session.playback_active_index, None);
    assert_eq!(session.playback_progress(5), None);
    assert_eq!(session.playback_active_index, Some(5));
}

#[test]
fn end_of_a_playback_is_reported() {
    let mut session = Session::new();
    session.events = vec![wait(3, 5)];
    session.start_playback();
    session.playback_progress(0);
    session.playback_finished(RunStatus::Finished);
    assert_eq!(session.mode, Mode::Idle);
    assert_eq!(session.status, "Playback finished.");
    assert_eq!(session.playback_active_index, None);
    assert!(session.playback_progress_row_map.is_empty());
    session.playback_finished(RunStatus::Stopped);
    assert_eq!(session.status, "Playback stopped.");
    session.playback_finished(RunStatus::Failed { error: PlaybackError::TimedOut { timeout_ms: 200 } });
    assert_eq!(session.status, "Playback failed: FindTarget timed out (200 ms)");
    session.start_playback();
    assert!(session.stop_playback());
    assert_eq!(session.mode, Mode::Idle);
    assert_eq!(session.status, "Playback stopped.");
}

#[test]
fn small_commands() {
    let mut session = Session::new();
    session.events = vec![wait(3, 5)];
    session.clear();
    assert!(session.events.is_empty());
    assert_eq!(session.status, "Cleared all events.");
    session.set_mouse_path_enabled(true);
    assert_eq!(session.status, "Mouse path recording: ON");
    assert!(session.recorder_config().mouse_path_enabled);
    session.set_mouse_path_enabled(false);
    assert_eq!(session.status, "Mouse path recording: OFF");
    session.mouse_path_min_delta_px_changed(11);
    assert_eq!(session.recorder_mouse_path_min_delta_px, 10);
    session.apply_setting(Setting::ClickSplitPx { px: 4 });
    assert_eq!(session.recorder_config().click_split_px, 4);
    assert_eq!(session.recorder_wait_ms, 10);
    session.ui_scale_changed(62);
    assert_eq!(session.ui_scale_percent, 50);
    assert_eq!([0, 37, 38, 62, 63, 87, 88, 500].map(snapped_ui_scale), [25, 25, 50, 50, 75, 75, 100, 100]);
    session.file_path_changed("  a.yaml ".to_string());
    assert_eq!(session.file_path, "  a.yaml ");
}

#[test]
fn list_is_scrolled_so_that_the_played_row_is_seen() {
    assert_eq!(scroll_top(0, 5, 0), None);
    assert_eq!(scroll_top(5, 5, 4), Some((0, 1)));
    assert_eq!(scroll_top(20, 6, 0), Some((0, 14)));
    assert_eq!(scroll_top(20, 6, 10), Some((7, 14)));
    assert_eq!(scroll_top(20, 6, 19), Some((14, 14)));
    assert_eq!(scroll_top(20, 6, 500), Some((14, 14)));
}

#[test]
fn rows_are_selected_cloned_jumped_to_and_deleted() {
    let mut session = Session::new();
    session.events = vec![sample(1, 4, 5), wait(2, 7)];
    assert_eq!(session.row_jump(0), Some((4, 5)));
    assert_eq!(session.editor.selected_index, Some(0));
    session.jump_finished((4, 5), None);
    assert_eq!(session.status, "Jumped mouse to (4, 5)");
    assert_eq!(session.row_jump(7), None);
    assert_eq!(session.status, "Selected row no longer exists");
    assert_eq!(session.editor.selected_index, None);
    assert_eq!(session.row_clone(0), Proceed::Capture { at: Some((4, 5, 128)) });
    session.insert_below_selected(None);
    assert_eq!(session.events.len(), 3);
    assert_eq!(session.events[1].ms_from_start, 2);
    assert_eq!(session.row_clone(9), Proceed::Refused);
    session.row_delete(1);
    assert_eq!(session.status, "Deleted row 1");
    assert_eq!(session.events, vec![sample(1, 4, 5), wait(2, 7)]);
    session.select_row(1);
    session.clear_selection();
    assert_eq!(session.events, vec![sample(1, 4, 5)]);
    session.editor.x_text = "x".to_string();
    assert_eq!(session.jump_to_xy(), None);
    assert_eq!(session.status, "Invalid X/Y coordinates for jump.");
    assert_eq!(session.insert_capture_request(), None);
    session.mode = Mode::Recording;
    assert_eq!(session.row_jump(0), None);
    assert_eq!(session.status, "Stop recording or playback first.");
    session.row_delete(0);
    session.clear_selection();
    session.insert_below_selected(None);
    assert_eq!(session.row_clone(0), Proceed::Refused);
    assert_eq!(session.jump_to_xy(), None);
    assert_eq!(session.events, vec![sample(1, 4, 5)]);
}

#[test]
fn picking_a_point_by_clicking() {
    let mut session = Session::new();
    assert_eq!(session.start_get_xy(), Proceed::Capture { at: None });
    assert_eq!(session.pos_tick(Some((30, 40)), 1000), None);
    assert_eq!(session.current_pos, Some((30, 40)));
    assert_eq!(session.start_get_xy(), Proceed::Capture { at: Some((30, 40, 128)) });
    assert_eq!((session.editor.x_text.as_str(), session.editor.y_text.as_str()), ("30", "40"));
    session.picked_preview_captured(Some("img".to_string()));
    assert!(!session.get_capture_hook_ensured(HookReply::Failed { reason: "no hook".to_string() }));
    assert_eq!(session.status, "GET capture failed: no hook");
    assert!(!session.get_capture_hook_ensured(HookReply::Unsupported));
    assert_eq!(session.status, "GET (X,Y) capture is currently Windows-only.");
    assert!(!session.editor.capture_armed);
    assert_eq!(session.hook_captured(CapturedClick { x: 1, y: 2, button: MouseButton::Left }), None);
    assert!(session.get_capture_hook_ensured(HookReply::Ready));
    assert!(session.editor.capture_armed);
    assert_eq!(session.status, "GET (X,Y) armed: click Left, Right, or Middle to set coordinates (ESC cancels).");
    assert_eq!(
        session.hook_captured(CapturedClick { x: 7, y: -8, button: MouseButton::Middle }),
        Some((7, -8, 128))
    );
    assert_eq!(session.status, "Captured Middle click at (7, -8)");
    assert_eq!((session.editor.x_text.as_str(), session.editor.y_text.as_str()), ("7", "-8"));
    assert!(!session.editor.capture_armed);
    assert_eq!(session.editor.last_capture_button, Some(MouseButton::Middle));
    session.picked_preview_captured(None);
    assert_eq!(session.editor.static_preview_patch_b64, None);
    session.mode = Mode::Playing;
    assert_eq!(session.start_get_xy(), Proceed::Refused);
    assert_eq!(session.status, "Stop recording or playback first.");
}

#[test]
fn live_preview_follows_the_pointer_while_armed() {
    let mut session = Session::new();
    session.get_capture_hook_ensured(HookReply::Ready);
    assert_eq!(session.pos_tick(Some((10, 10)), 1000), Some((10, 10, 128)));
    assert_eq!(session.editor.last_preview_at_ms, Some(1000));
    // Too early.
    assert_eq!(session.pos_tick(Some((50, 50)), 1179), None);
    assert_eq!(session.editor.last_preview_pos, Some((10, 10)));
    // Due, but the pointer is within the deadzone.
    assert_eq!(session.pos_tick(Some((11, 11)), 1180), None);
    assert_eq!(session.editor.last_preview_at_ms, Some(1180));
    assert_eq!(session.editor.x_text, "10");
    assert_eq!(session.pos_tick(Some((12, 10)), 1360), Some((12, 10, 128)));
    assert_eq!(session.editor.x_text, "12");
    session.live_preview_captured(Some("img".to_string()));
    session.live_preview_captured(None);
    assert_eq!(session.editor.static_preview_patch_b64, Some("img".to_string()));
    assert_eq!(session.pos_tick(None, 2000), None);
    assert_eq!(session.editor.last_preview_pos, None);
    assert_eq!(session.current_pos, None);
    // Not armed: the pointer is seen but the editor stays.
    session.esc_key(true);
    assert_eq!(session.pos_tick(Some((90, 90)), 3000), None);
    assert_eq!(session.editor.last_preview_pos, Some((90, 90)));
    assert_eq!(session.editor.x_text, "12");
    // Busy: only the position is remembered.
    session.mode = Mode::Recording;
    assert_eq!(session.pos_tick(Some((1, 1)), 9000), None);
    assert_eq!(session.editor.last_preview_at_ms, Some(3000));
    assert_eq!(session.current_pos, Some((1, 1)));
}

#[test]
fn escape_gives_up_a_capture_or_stops_the_session() {
    let mut session = Session::new();
    assert_eq!(session.esc_key(true), EscAction::Nothing);
    assert!(session.esc_was_down);
    assert_eq!(session.esc_key(false), EscAction::Nothing);
    session.get_capture_hook_ensured(HookReply::Ready);
    assert_eq!(session.esc_key(true), EscAction::DisarmHook);
    assert_eq!(session.status, "GET (X,Y) canceled.");
    assert!(!session.editor.capture_armed);
    assert!(!session.esc_was_down);
    assert_eq!(session.esc_key(true), EscAction::Nothing);
    assert_eq!(session.esc_key(true), EscAction::Nothing);
    session.esc_key(false);
    session.mode = Mode::Playing;
    assert_eq!(session.esc_key(true), EscAction::Stop);
    assert!(!session.esc_was_down);
    session.mode = Mode::Recording;
    assert_eq!(session.esc_key(true), EscAction::Stop);
}

#[test]
fn saving_and_loading() {
    let mut session = Session::new();
    session.events = vec![sample(1, 1, 1), sample(2, 2, 2)];
    session.file_path_changed("   ".to_string());
    assert!(session.save_to_file().is_none());
    assert_eq!(session.status, "Please provide a file path.");
    assert!(session.load_from_file().is_none());
    assert_eq!(session.status, "Please provide a file path.");
    session.file_path_changed(" out.yaml\n".to_string());
    let (path, events) = session.save_to_file().expect("a path was given");
    assert_eq!(path, "out.yaml");
    assert_eq!(events.len(), 1);
    assert_eq!(session.events.len(), 2);
    assert_eq!(session.status, "Saving to out.yaml (materializing MOVES from MOVE samples)...");
    session.report(saved_status_of(events.len(), &path));
    assert_eq!(session.status, "Saved 1 events to out.yaml");
    assert_eq!(session.load_from_file(), Some("out.yaml".to_string()));
    assert_eq!(session.status, "Loading from out.yaml...");
    // A file that cannot be read leaves the timeline as it is.
    session.report("unknown field `colour`".to_string());
    assert_eq!(session.events.len(), 2);
    assert_eq!(session.status, "unknown field `colour`");
    session.file_loaded(vec![wait(0, 1), wait(0, 2), wait(0, 3)]);
    assert_eq!(session.events.len(), 3);
    assert_eq!(session.status, "Loaded 3 events.");
}

#[test]
fn a_jump_goes_where_the_coordinates_were_read() {
    let mut session = Session::new();
    assert_eq!(session.jump_to(Some((3, -4))), Some((3, -4)));
    assert_eq!(session.status, "Ready");
    assert_eq!(session.jump_to(None), None);
    assert_eq!(session.status, "Invalid X/Y coordinates for jump.");
    session.mode = Mode::Playing;
    assert_eq!(session.jump_to(Some((3, -4))), None);
    assert_eq!(session.status, "Stop recording or playback first.");
}

#[test]
fn a_session_edits_at_the_coordinates_that_were_read() {
    let mut session = Session::new();
    session.events = vec![wait(4, 1), wait(4, 2)];
    session.insert_or_apply_at(None, None);
    assert_eq!(session.status, "Invalid X/Y coordinates.");
    assert_eq!(session.events.len(), 2);
    session.insert_or_apply_at(Some((5, 6)), None);
    assert_eq!(session.status, "Inserted click row.");
    assert_eq!(session.events[2].pos, Some((5, 6)));
    assert_eq!(session.events[2].ms_from_start, 5);
    session.select_row(0);
    session.insert_below_selected_at(Some((7, 8)), None);
    assert_eq!(session.status, "Inserted 1 row(s) below selected (multi-row)");
    assert_eq!(session.events[1].pos, Some((7, 8)));
    let stamps: Vec<u128> = session.events.iter().map(|row| row.ms_from_start).collect();
    assert_eq!(stamps, vec![4, 4, 4, 5]);
    session.insert_below_selected_at(None, None);
    assert_eq!(session.status, "Invalid X/Y coordinates.");
    session.mode = Mode::Recording;
    session.insert_or_apply_at(Some((1, 1)), None);
    assert_eq!(session.status, "Stop recording or playback first.");
    session.status = String::new();
    session.insert_below_selected_at(Some((1, 1)), None);
    assert_eq!(session.status, "Stop recording or playback first.");
    assert_eq!(session.events.len(), 4);
}

#[test]
fn saving_and_loading_need_a_path() {
    let mut session = Session::new();
    session.events = vec![sample(1, 0, 0), sample(2, 5, 5), wait(3, 1)];
    assert!(session.save_to(String::new()).is_none());
    assert_eq!(session.status, "Please provide a file path.");
    let (path, rows) = session.save_to("out.yaml".to_string()).unwrap();
    assert_eq!(path, "out.yaml");
    assert_eq!(rows.len(), 2);
    assert_eq!(rows[0].kind, RecordedEventKind::Moves { points: vec![(0, 0), (5, 5)] });
    assert_eq!(session.status, "Saving to out.yaml (materializing MOVES from MOVE samples)...");
    assert_eq!(session.events.len(), 3);
    assert_eq!(session.load_from(String::new()), None);
    assert_eq!(session.status, "Please provide a file path.");
    assert_eq!(session.load_from("in.yaml".to_string()), Some("in.yaml".to_string()));
    assert_eq!(session.status, "Loading from in.yaml...");
    session.mode = Mode::Playing;
    assert_eq!(session.load_from("in.yaml".to_string()), None);
    assert_eq!(session.status, "Stop recording or playback before loading.");
}

#[test]
fn a_cloned_row_is_stamped_no_later_than_the_row_below_it() {
    let mut session = Session::new();
    session.events = vec![sample(1, 4, 5), wait(1, 7), wait(3, 8)];
    assert_eq!(session.row_clone(0), Proceed::Capture { at: Some((4, 5, 128)) });
    session.insert_below_selected(None);
    let stamps: Vec<u128> = session.events.iter().map(|row| row.ms_from_start).collect();
    assert_eq!(stamps, vec![1, 1, 1, 3]);
    assert_eq!(session.events[0], sample(1, 4, 5));
    assert_eq!(session.events[2], wait(1, 7));
    assert_eq!(session.events[3], wait(3, 8));
    assert_eq!(session.events[1].pos, Some((4, 5)));
    assert_eq!(session.editor.selected_index, Some(1));
}

#[test]
fn a_recording_with_two_buttons_is_stored_in_order() {
    let mut session = Session::new();
    session.start_recording(Some((0, 0)));
    let samples = [
        TickSample { cursor: Some((0, 0)), left_down: true, right_down: false, middle_down: false, now_ms: 0 },
        TickSample { cursor: Some((0, 0)), left_down: false, right_down: false, middle_down: false, now_ms: 5 },
        TickSample { cursor: Some((0, 0)), left_down: false, right_down: true, middle_down: false, now_ms: 6 },
        TickSample { cursor: Some((100, 0)), left_down: false, right_down: false, middle_down: false, now_ms: 7 },
        TickSample { cursor: Some((100, 0)), left_down: false, right_down: false, middle_down: false, now_ms: 1000 },
    ];
    for s in samples {
        let rows = session.tick(s);
        session.append_recorded(rows);
    }
    let stamps: Vec<u128> = session.events.iter().map(|row| row.ms_from_start).collect();
    let wait = session.recorder_wait_ms as u128;
    assert_eq!(stamps, vec![wait, 2 * wait, 2 * wait]);
    assert_eq!(
        session.events[2].kind,
        RecordedEventKind::ButtonClick { button: MouseButton::Left, patch_png_base64: None }
    );
    assert_eq!(session.events[2].pos, Some((0, 0)));
    let rows = session.stop_recording();
    assert!(rows.is_empty());
    session.finish_recording(rows);
    assert_eq!(session.events.len(), 3);
}

#[test]
fn a_jump_to_a_row_goes_where_the_row_is() {
    for at in [(0, 0), (-1, -2), (i32::MIN, i32::MAX), (1920, -1080)] {
        let mut session = Session::new();
        session.events = vec![wait(1, 5), sample(2, at.0, at.1)];
        assert_eq!(session.row_jump(1), Some(at));
        assert_eq!(session.editor.selected_index, Some(1));
        assert_eq!(session.jump_to_xy(), Some(at));
        assert_eq!(session.row_clone(1), Proceed::Capture { at: Some((at.0, at.1, 128)) });
    }
}
