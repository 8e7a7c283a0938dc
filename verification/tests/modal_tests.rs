use mouse_recorder::modal::{
    held_u32, CaptureOutcome, DraftChange, DraftValue, FindTargetDraft, WaitDraft, MAX_WAIT_MS,
};
use mouse_recorder::model::{RecordedEvent, RecordedEventKind, SearchAnchor};
use mouse_recorder::session::{Mode, Session};
use mouse_recorder::text::{
    i32_text, narrowed_i32, narrowed_u32, parse_i32, parse_u32, parse_u64, u64_text, usize_text,
};

fn draft() -> FindTargetDraft {
    FindTargetDraft::new(64, Session::new().editor.details)
}

#[test]
fn search_draft_starts_with_the_settings_of_the_editor() {
    let d = draft();
    assert_eq!(d.patch_png_base64, None);
    assert_eq!((d.patch_size, d.precision_permille, d.timeout_ms), (64, 920, 2000));
    assert_eq!((d.limit_region, d.region_size, d.anchor), (true, 600, SearchAnchor::RecordedClick));
    assert_eq!((d.capture_waiting, d.capture_left_was_down, d.captured_pos), (false, false, None));
    assert_eq!(d.status, "");
}

#[test]
fn numbers_are_read_and_written_in_decimal() {
    assert_eq!(parse_i32(" -12\n"), Some(-12));
    assert_eq!(parse_i32("- 12"), None);
    assert_eq!(parse_i32("99999999999"), None);
    assert_eq!(parse_u64("18446744073709551615"), Some(u64::MAX));
    assert_eq!(parse_u64("18446744073709551616"), None);
    assert_eq!(parse_u64("-0"), None);
    assert_eq!(parse_u64("+7"), Some(7));
    assert_eq!(parse_u32(" 4294967295 "), Some(u32::MAX));
    assert_eq!(parse_u32("4294967296"), None);
    assert_eq!(parse_u32(""), None);
    assert_eq!(i32_text(i32::MIN), "-2147483648");
    assert_eq!(u64_text(u64::MAX), "18446744073709551615");
    assert_eq!(usize_text(0), "0");
}

#[test]
fn wait_draft_takes_numbers_up_to_ten_minutes() {
    let mut draft = WaitDraft { wait_ms: 1000 };
    draft.wait_ms_changed(" 250 ");
    assert_eq!(draft.wait_ms, 250);
    draft.wait_ms_changed("soon");
    assert_eq!(draft.wait_ms, 250);
    draft.wait_ms_changed("600001");
    assert_eq!(draft.wait_ms, MAX_WAIT_MS);
}

#[test]
fn wait_row_is_added_in_an_idle_session() {
    let mut session = Session::new();
    assert!(session.wait_ok(WaitDraft { wait_ms: 250 }));
    assert_eq!(session.status, "Added Wait row");
    session.events[0].ms_from_start = 41;
    assert!(session.wait_ok(WaitDraft { wait_ms: 5 }));
    assert_eq!(
        session.events[1],
        RecordedEvent { ms_from_start: 41, kind: RecordedEventKind::Wait { ms: 5 }, pos: None, click_meta: None }
    );
    session.mode = Mode::Playing;
    assert!(!session.wait_ok(WaitDraft { wait_ms: 5 }));
    assert_eq!(session.events.len(), 2);
}

#[test]
fn search_draft_holds_its_fields_within_their_ranges() {
    let mut d = draft();
    d.change(DraftChange::PatchSize { text: "8".to_string() });
    assert_eq!(d.patch_size, 16);
    d.change(DraftChange::PatchSize { text: " 9000".to_string() });
    assert_eq!(d.patch_size, 512);
    d.change(DraftChange::PatchSize { text: "big".to_string() });
    assert_eq!(d.patch_size, 512);
    d.change(DraftChange::Precision { permille: Some(1000) });
    assert_eq!(d.precision_permille, 999);
    d.change(DraftChange::Precision { permille: Some(3) });
    assert_eq!(d.precision_permille, 500);
    d.change(DraftChange::Precision { permille: None });
    assert_eq!(d.precision_permille, 500);
    d.change(DraftChange::Timeout { text: "1".to_string() });
    assert_eq!(d.timeout_ms, 100);
    d.change(DraftChange::Timeout { text: "61000".to_string() });
    assert_eq!(d.timeout_ms, 60_000);
    d.change(DraftChange::RegionSize { text: "99".to_string() });
    assert_eq!(d.region_size, 100);
    d.change(DraftChange::RegionSize { text: "5001".to_string() });
    assert_eq!(d.region_size, 5000);
    d.change(DraftChange::LimitRegion { enabled: false });
    assert!(!d.limit_region);
    d.change(DraftChange::Anchor { anchor: SearchAnchor::LastFound });
    assert_eq!(d.anchor, SearchAnchor::LastFound);
    assert_eq!(held_u32(50, 10, 40), 40);
}

#[test]
fn search_draft_waits_for_a_click_on_the_screen() {
    let mut d = draft();
    d.patch_png_base64 = Some("old".to_string());
    d.captured_pos = Some((1, 1));
    assert!(!d.capture_tick(false));
    d.start_capture(false, true);
    assert_eq!(d.status, "Capture is Windows-only right now");
    assert_eq!(d.patch_png_base64, None);
    assert!(!d.capture_waiting);
    d.start_capture(true, true);
    assert_eq!(d.status, "Click on the screen to capture");
    assert!(d.capture_waiting);
    assert!(!d.capture_tick(true));
    assert!(d.capture_tick(false));
    assert!(!d.capture_tick(false));
    d.capture_finished(CaptureOutcome::Failed { reason: "no screen".to_string() });
    assert_eq!(d.status, "Capture failed: no screen");
    assert!(!d.capture_waiting);
    d.start_capture(true, false);
    d.capture_finished(CaptureOutcome::NoPointer);
    assert_eq!(d.status, "Could not read mouse position");
    d.start_capture(true, false);
    d.capture_finished(CaptureOutcome::Captured { at: (5, 6), patch: "img".to_string() });
    assert_eq!(d.status, "Captured");
    assert_eq!(d.patch_png_base64, Some("img".to_string()));
    assert_eq!(d.captured_pos, Some((5, 6)));
}

#[test]
fn search_draft_loads_its_image_from_a_file() {
    let mut d = draft();
    assert_eq!(d.load_request("  "), None);
    assert_eq!(d.status, "Provide a path");
    assert_eq!(d.load_request(" a.png "), Some("a.png".to_string()));
    d.load_failed("not found");
    assert_eq!(d.status, "Load failed: not found");
    d.capture_waiting = true;
    d.loaded(&b"hello".to_vec(), Some((3, 4)));
    assert_eq!(d.patch_png_base64, Some("aGVsbG8=".to_string()));
    assert_eq!(d.captured_pos, Some((3, 4)));
    assert!(!d.capture_waiting);
    assert_eq!(d.status, "Loaded");
}

#[test]
fn search_row_is_added_when_the_draft_has_an_image() {
    let mut session = Session::new();
    session.pos_tick(Some((70, 80)), 0);
    let mut d = draft();
    assert!(!session.find_target_ok(&mut d));
    assert_eq!(d.status, "No image selected");
    d.patch_png_base64 = Some(String::new());
    assert!(!session.find_target_ok(&mut d));
    assert!(session.events.is_empty());
    d.patch_png_base64 = Some("img".to_string());
    d.limit_region = false;
    assert!(session.find_target_ok(&mut d));
    assert_eq!(session.status, "Added Find target row (move only)");
    assert_eq!(
        session.events,
        vec![RecordedEvent {
            ms_from_start: 0,
            kind: RecordedEventKind::FindTarget {
                patch_png_base64: "img".to_string(),
                patch_size: 64,
                precision_permille: 920,
                timeout_ms: 2000,
                search_anchor: SearchAnchor::RecordedClick,
                search_region_size: None,
            },
            pos: Some((70, 80)),
            click_meta: None,
        }]
    );
    d.limit_region = true;
    d.captured_pos = Some((1, 2));
    session.find_target_ok(&mut d);
    assert_eq!(session.events[1].pos, Some((1, 2)));
    assert!(matches!(session.events[1].kind, RecordedEventKind::FindTarget { search_region_size: Some(600), .. }));
    session.mode = Mode::Recording;
    d.status = String::new();
    assert!(!session.find_target_ok(&mut d));
    assert_eq!(d.status, "");
}

#[test]
fn decimal_text_is_a_sign_and_digits_without_leading_zeros() {
    assert_eq!(i32_text(0), "0");
    assert_eq!(i32_text(7), "7");
    assert_eq!(i32_text(10), "10");
    assert_eq!(i32_text(-10), "-10");
    assert_eq!(i32_text(1234567890), "1234567890");
    assert_eq!(i32_text(i32::MAX), "2147483647");
    assert_eq!(u64_text(1000), "1000");
    assert_eq!(usize_text(909), "909");
}

#[test]
fn numbers_that_were_read_are_narrowed_or_dropped() {
    assert_eq!(narrowed_i32(None), None);
    assert_eq!(narrowed_i32(Some(0)), Some(0));
    assert_eq!(narrowed_i32(Some(i32::MAX as i64)), Some(i32::MAX));
    assert_eq!(narrowed_i32(Some(i32::MIN as i64)), Some(i32::MIN));
    assert_eq!(narrowed_i32(Some(i32::MAX as i64 + 1)), None);
    assert_eq!(narrowed_i32(Some(i32::MIN as i64 - 1)), None);
    assert_eq!(narrowed_u32(None), None);
    assert_eq!(narrowed_u32(Some(u32::MAX as u64)), Some(u32::MAX));
    assert_eq!(narrowed_u32(Some(u32::MAX as u64 + 1)), None);
}

#[test]
fn wait_draft_takes_what_was_read() {
    let mut d = WaitDraft { wait_ms: 5 };
    d.wait_ms_set(None);
    assert_eq!(d.wait_ms, 5);
    d.wait_ms_set(Some(0));
    assert_eq!(d.wait_ms, 0);
    d.wait_ms_set(Some(MAX_WAIT_MS));
    assert_eq!(d.wait_ms, MAX_WAIT_MS);
    d.wait_ms_set(Some(MAX_WAIT_MS + 1));
    assert_eq!(d.wait_ms, MAX_WAIT_MS);
    d.wait_ms_set(Some(u64::MAX));
    assert_eq!(d.wait_ms, 600_000);
}

#[test]
fn search_draft_takes_what_was_read_within_the_range_of_the_field() {
    let mut d = draft();
    d.set(DraftValue::PatchSize { size: Some(15) });
    assert_eq!(d.patch_size, 16);
    d.set(DraftValue::PatchSize { size: Some(513) });
    assert_eq!(d.patch_size, 512);
    d.set(DraftValue::PatchSize { size: Some(100) });
    assert_eq!(d.patch_size, 100);
    d.set(DraftValue::PatchSize { size: None });
    assert_eq!(d.patch_size, 100);
    d.set(DraftValue::Precision { permille: Some(499) });
    assert_eq!(d.precision_permille, 500);
    d.set(DraftValue::Precision { permille: Some(1000) });
    assert_eq!(d.precision_permille, 999);
    d.set(DraftValue::Precision { permille: None });
    assert_eq!(d.precision_permille, 999);
    d.set(DraftValue::Timeout { ms: Some(99) });
    assert_eq!(d.timeout_ms, 100);
    d.set(DraftValue::Timeout { ms: Some(60_001) });
    assert_eq!(d.timeout_ms, 60_000);
    d.set(DraftValue::Timeout { ms: None });
    assert_eq!(d.timeout_ms, 60_000);
    d.set(DraftValue::RegionSize { size: Some(99) });
    assert_eq!(d.region_size, 100);
    d.set(DraftValue::RegionSize { size: Some(5001) });
    assert_eq!(d.region_size, 5000);
    d.set(DraftValue::RegionSize { size: None });
    assert_eq!(d.region_size, 5000);
    d.set(DraftValue::LimitRegion { enabled: false });
    assert!(!d.limit_region);
    d.set(DraftValue::Anchor { anchor: SearchAnchor::LastFound });
    assert_eq!(d.anchor, SearchAnchor::LastFound);
    assert_eq!((d.patch_size, d.precision_permille, d.timeout_ms, d.region_size), (100, 999, 60_000, 5000));
    assert_eq!(d.status, "");
}

#[test]
fn the_path_of_an_image_must_not_be_empty() {
    let mut d = draft();
    assert_eq!(d.load_path("a.png".to_string()), Some("a.png".to_string()));
    assert_eq!(d.status, "");
    assert_eq!(d.load_path(String::new()), None);
    assert_eq!(d.status, "Provide a path");
    assert_eq!(d.load_path(" ".to_string()), Some(" ".to_string()));
    assert_eq!(d.load_request("  b.png\t"), Some("b.png".to_string()));
    assert_eq!(d.load_request(" \n "), None);
}

#[test]
fn rows_made_in_a_dialog_are_stamped_as_the_last_row() {
    let mut session = Session::new();
    assert!(session.wait_ok(WaitDraft { wait_ms: 9 }));
    assert_eq!(session.events[0].ms_from_start, 0);
    session.events[0].ms_from_start = 41;
    assert!(session.wait_ok(WaitDraft { wait_ms: 10 }));
    let mut d = draft();
    d.patch_png_base64 = Some("img".to_string());
    assert!(session.find_target_ok(&mut d));
    let stamps: Vec<u128> = session.events.iter().map(|row| row.ms_from_start).collect();
    assert_eq!(stamps, vec![41, 41, 41]);
}

#[test]
fn numbers_that_were_written_are_read_back() {
    for n in [0, 1, -1, 9, 10, -10, 99, 100, 12345, -98765, i32::MAX, i32::MIN, i32::MAX - 1, i32::MIN + 1] {
        assert_eq!(parse_i32(&i32_text(n)), Some(n), "{n}");
    }
    for n in [0u64, 1, 9, 10, 4294967295, 4294967296, u64::MAX, u64::MAX - 1] {
        assert_eq!(parse_u64(&u64_text(n)), Some(n), "{n}");
    }
    for n in [0u32, 7, 1000, u32::MAX] {
        assert_eq!(parse_u32(&u64_text(n as u64)), Some(n), "{n}");
    }
    assert_eq!(parse_u32(&u64_text(u32::MAX as u64 + 1)), None);
    assert_eq!(parse_u64(&i32_text(-1)), None);
}
