use mouse_recorder::model::{
    ClickEdgeMode, ClickListMeta, MouseButton, RecordedEvent, RecordedEventKind,
};
use mouse_recorder::recorder::{
    attach_patch, capture_request, ButtonTrack, PendingClick, RecorderConfig, RecorderState,
    TickSample,
};
use mouse_recorder::timeline::append_recorded_events_compacting_moves;

fn config() -> RecorderConfig {
    RecorderConfig {
        wait_ms: 10,
        click_speed_ms: 20,
        mouse_move_speed_ms: 20,
        click_split_px: 10,
        click_max_hold_ms: 50,
        use_find_image: false,
        target_precision_percent: 90,
        target_timeout_ms: 2000,
        mouse_path_enabled: false,
        mouse_path_min_delta_px: 0,
    }
}

fn started(at: (i32, i32)) -> RecorderState {
    let mut state = RecorderState::stopped();
    state.start(Some(at));
    state
}

fn sample(cursor: (i32, i32), left: bool, right: bool, middle: bool, now_ms: u64) -> TickSample {
    TickSample { cursor: Some(cursor), left_down: left, right_down: right, middle_down: middle, now_ms }
}

fn run(config: &RecorderConfig, state: &mut RecorderState, samples: &[TickSample]) -> Vec<RecordedEvent> {
    let mut timeline = Vec::new();
    for s in samples {
        let rows = config.tick(state, *s);
        append_recorded_events_compacting_moves(&mut timeline, rows);
    }
    let rows = config.stop(state);
    append_recorded_events_compacting_moves(&mut timeline, rows);
    timeline
}

fn stamps(rows: &[RecordedEvent]) -> Vec<u128> {
    rows.iter().map(|r| r.ms_from_start).collect()
}

#[test]
fn single_left_click_is_one_auto_click() {
    let config = config();
    let mut state = started((100, 200));
    let timeline = run(
        &config,
        &mut state,
        &[
            sample((100, 200), false, false, false, 0),
            sample((100, 200), true, false, false, 16),
            sample((100, 200), false, false, false, 26),
            sample((100, 200), false, false, false, 60),
        ],
    );
    assert_eq!(
        timeline,
        vec![RecordedEvent {
            ms_from_start: 0,
            kind: RecordedEventKind::ButtonClick { button: MouseButton::Left, patch_png_base64: None },
            pos: Some((100, 200)),
            click_meta: Some(config.recorded_click_meta(MouseButton::Left, ClickEdgeMode::Auto)),
        }]
    );
    assert_eq!(timeline[0].click_meta.unwrap().left_mode, ClickEdgeMode::Auto);
}

#[test]
fn single_click_waits_for_its_window() {
    let config = config();
    let mut state = started((100, 200));
    assert!(config.tick(&mut state, sample((100, 200), true, false, false, 0)).is_empty());
    assert!(config.tick(&mut state, sample((100, 200), false, false, false, 10)).is_empty());
    assert!(state.left.pending_click.is_some());
    // 20 ms after the release the window is still open.
    assert!(config.tick(&mut state, sample((100, 200), false, false, false, 30)).is_empty());
    let rows = config.tick(&mut state, sample((100, 200), false, false, false, 31));
    assert_eq!(rows.len(), 1);
    assert!(state.left.pending_click.is_none());
}

#[test]
fn two_quick_left_clicks_are_one_double_click() {
    let config = RecorderConfig { click_speed_ms: 50, ..config() };
    let mut state = started((100, 200));
    let timeline = run(
        &config,
        &mut state,
        &[
            sample((100, 200), true, false, false, 0),
            sample((100, 200), false, false, false, 10),
            sample((100, 200), true, false, false, 30),
            sample((100, 200), false, false, false, 40),
            sample((100, 200), false, false, false, 200),
        ],
    );
    assert_eq!(
        timeline,
        vec![RecordedEvent {
            ms_from_start: 10,
            kind: RecordedEventKind::ButtonClick { button: MouseButton::Left, patch_png_base64: None },
            pos: Some((100, 200)),
            click_meta: Some(config.recorded_click_meta(MouseButton::Left, ClickEdgeMode::Double)),
        }]
    );
    assert_eq!(timeline[0].click_meta.unwrap().left_mode, ClickEdgeMode::Double);
}

#[test]
fn two_slow_clicks_are_two_single_clicks() {
    let config = config();
    let mut state = started((5, 5));
    let timeline = run(
        &config,
        &mut state,
        &[
            sample((5, 5), true, false, false, 0),
            sample((5, 5), false, false, false, 10),
            sample((5, 5), true, false, false, 100),
            sample((5, 5), false, false, false, 110),
        ],
    );
    assert_eq!(timeline.len(), 2);
    for row in &timeline {
        assert!(matches!(row.kind, RecordedEventKind::ButtonClick { button: MouseButton::Left, .. }));
        assert_eq!(row.click_meta.unwrap().left_mode, ClickEdgeMode::Auto);
    }
    assert_eq!(stamps(&timeline), vec![0, 10]);
}

#[test]
fn long_hold_is_down_then_up() {
    let config = config();
    let mut state = started((10, 10));
    let timeline = run(
        &config,
        &mut state,
        &[sample((10, 10), false, true, false, 0), sample((10, 10), false, false, false, 51)],
    );
    assert_eq!(
        timeline,
        vec![
            RecordedEvent {
                ms_from_start: 0,
                kind: RecordedEventKind::ButtonDown { button: MouseButton::Right, patch_png_base64: None },
                pos: Some((10, 10)),
                click_meta: Some(config.recorded_click_meta(MouseButton::Right, ClickEdgeMode::Down)),
            },
            RecordedEvent {
                ms_from_start: 10,
                kind: RecordedEventKind::ButtonUp { button: MouseButton::Right, patch_png_base64: None },
                pos: Some((10, 10)),
                click_meta: Some(config.recorded_click_meta(MouseButton::Right, ClickEdgeMode::Up)),
            },
        ]
    );
}

#[test]
fn hold_at_the_limit_is_still_a_click() {
    let config = config();
    let mut state = started((10, 10));
    let timeline =
        run(&config, &mut state, &[sample((10, 10), true, false, false, 0), sample((10, 10), false, false, false, 50)]);
    assert_eq!(timeline.len(), 1);
    assert!(matches!(timeline[0].kind, RecordedEventKind::ButtonClick { .. }));
}

#[test]
fn far_move_is_down_then_up() {
    let config = config();
    let mut state = started((10, 10));
    let timeline = run(
        &config,
        &mut state,
        &[sample((10, 10), false, false, true, 0), sample((21, 10), false, false, false, 5)],
    );
    assert_eq!(timeline.len(), 2);
    assert!(matches!(timeline[0].kind, RecordedEventKind::ButtonDown { button: MouseButton::Middle, .. }));
    assert!(matches!(timeline[1].kind, RecordedEventKind::ButtonUp { button: MouseButton::Middle, .. }));
    assert_eq!(timeline[0].pos, Some((10, 10)));
    assert_eq!(timeline[1].pos, Some((21, 10)));
}

#[test]
fn move_of_exactly_the_deadzone_is_a_click() {
    let config = config();
    let mut state = started((10, 10));
    let timeline =
        run(&config, &mut state, &[sample((10, 10), true, false, false, 0), sample((20, 0), false, false, false, 5)]);
    assert_eq!(timeline.len(), 1);
    assert!(matches!(timeline[0].kind, RecordedEventKind::ButtonClick { .. }));
    assert_eq!(timeline[0].pos, Some((20, 0)));
}

#[test]
fn split_flushes_the_pending_click_of_its_button_first() {
    let config = config();
    let mut state = started((0, 0));
    let mut rows = Vec::new();
    for s in [
        sample((0, 0), true, false, false, 0),
        sample((0, 0), false, false, false, 5),
        sample((0, 0), true, false, false, 10),
        sample((50, 0), false, false, false, 15),
    ] {
        rows.extend(config.tick(&mut state, s));
    }
    assert_eq!(rows.len(), 3);
    assert!(matches!(rows[0].kind, RecordedEventKind::ButtonClick { .. }));
    assert!(matches!(rows[1].kind, RecordedEventKind::ButtonDown { .. }));
    assert!(matches!(rows[2].kind, RecordedEventKind::ButtonUp { .. }));
    assert_eq!(stamps(&rows), vec![0, 10, 20]);
    assert!(state.left.pending_click.is_none());
}

#[test]
fn stop_flushes_every_pending_click() {
    let config = config();
    let mut state = started((0, 0));
    config.tick(&mut state, sample((0, 0), true, true, true, 0));
    assert!(config.tick(&mut state, sample((0, 0), false, false, false, 5)).is_empty());
    let rows = config.stop(&mut state);
    assert_eq!(rows.len(), 3);
    assert!(matches!(rows[0].kind, RecordedEventKind::ButtonClick { button: MouseButton::Left, .. }));
    assert!(matches!(rows[1].kind, RecordedEventKind::ButtonClick { button: MouseButton::Right, .. }));
    assert!(matches!(rows[2].kind, RecordedEventKind::ButtonClick { button: MouseButton::Middle, .. }));
    assert!(!state.enabled);
    assert!(config.stop(&mut state).is_empty());
}

#[test]
fn a_recorder_that_is_off_records_nothing() {
    let config = config();
    let mut state = RecorderState::stopped();
    let before = state;
    assert!(config.tick(&mut state, sample((1, 1), true, false, false, 0)).is_empty());
    assert_eq!(state, before);
}

#[test]
fn clock_never_runs_back_and_rows_are_not_after_it() {
    let config = RecorderConfig { mouse_path_enabled: true, mouse_path_min_delta_px: 1, ..config() };
    let mut state = started((0, 0));
    let mut last_clock = state.synthetic_time_ms;
    for (i, down) in [false, true, true, false, false, true, false].iter().enumerate() {
        let rows = config.tick(&mut state, sample((i as i32 * 3, 0), *down, false, false, i as u64 * 16));
        assert!(state.synthetic_time_ms >= last_clock);
        for row in &rows {
            assert!(row.ms_from_start <= state.synthetic_time_ms);
            assert!(row.ms_from_start >= last_clock);
        }
        let mut sorted = stamps(&rows);
        sorted.sort();
        assert_eq!(sorted, stamps(&rows));
        last_clock = state.synthetic_time_ms;
    }
}

#[test]
fn clock_holds_at_its_largest_value() {
    let config = config();
    let mut state = started((0, 0));
    state.started_by_click = true;
    state.synthetic_time_ms = u128::MAX - 3;
    let mut pushed = Vec::new();
    config.push_recorded_button_release(&mut state, &mut pushed, Some((0, 0)), Some((0, 0)), 100, MouseButton::Left, 0);
    assert_eq!(stamps(&pushed), vec![u128::MAX, u128::MAX]);
    assert_eq!(state.synthetic_time_ms, u128::MAX);
}

#[test]
fn pending_click_of_another_button_leaves_in_order() {
    // A left click waits while a right drag is recorded: the click leaves
    // later, stamped no earlier than the rows of the drag.
    let config = config();
    let mut state = started((0, 0));
    let mut rows = Vec::new();
    for s in [
        sample((0, 0), true, false, false, 0),
        sample((0, 0), false, false, false, 2),
        sample((0, 0), false, true, false, 4),
        sample((40, 0), false, false, false, 10),
        sample((40, 0), false, false, false, 100),
    ] {
        rows.extend(config.tick(&mut state, s));
    }
    assert_eq!(stamps(&rows), vec![10, 20, 20]);
    assert_eq!(rows[0].kind, RecordedEventKind::ButtonDown { button: MouseButton::Right, patch_png_base64: None });
    assert_eq!(rows[1].kind, RecordedEventKind::ButtonUp { button: MouseButton::Right, patch_png_base64: None });
    assert_eq!(rows[2].kind, RecordedEventKind::ButtonClick { button: MouseButton::Left, patch_png_base64: None });
    assert_eq!(rows[2].pos, Some((0, 0)));
    assert_eq!(state.last_row_ms, 20);
    assert_eq!(state.synthetic_time_ms, 20);
}

#[test]
fn a_click_that_nothing_overtook_keeps_the_stamp_of_its_release() {
    let config = config();
    let mut state = started((0, 0));
    let mut rows = Vec::new();
    for s in [
        // A right drag first, then a left click that waits alone.
        sample((0, 0), false, true, false, 0),
        sample((40, 0), false, false, false, 5),
        sample((40, 0), true, false, false, 10),
        sample((40, 0), false, false, false, 12),
        sample((40, 0), false, false, false, 200),
    ] {
        rows.extend(config.tick(&mut state, s));
    }
    assert_eq!(stamps(&rows), vec![0, 10, 20]);
    assert_eq!(rows[2].kind, RecordedEventKind::ButtonClick { button: MouseButton::Left, patch_png_base64: None });
    assert_eq!(state.last_row_ms, 20);
}

#[test]
fn clicks_of_two_buttons_that_expire_together_leave_in_order() {
    // The right click is released first, the left click second; both windows
    // run out at the same tick, where the left slot is looked at first.
    let config = config();
    let mut state = started((0, 0));
    let mut rows = Vec::new();
    for s in [
        sample((0, 0), false, true, false, 0),
        sample((0, 0), false, false, false, 2),
        sample((0, 0), true, false, false, 4),
        sample((0, 0), false, false, false, 6),
        sample((0, 0), false, false, false, 100),
    ] {
        rows.extend(config.tick(&mut state, s));
    }
    assert_eq!(stamps(&rows), vec![10, 10]);
    assert_eq!(rows[0].kind, RecordedEventKind::ButtonClick { button: MouseButton::Left, patch_png_base64: None });
    assert_eq!(rows[1].kind, RecordedEventKind::ButtonClick { button: MouseButton::Right, patch_png_base64: None });
}

#[test]
fn stop_flushes_late_clicks_in_order() {
    let config = config();
    let mut state = started((0, 0));
    let timeline = run(
        &config,
        &mut state,
        &[
            sample((0, 0), false, false, true, 0),
            sample((0, 0), false, false, false, 2),
            sample((0, 0), true, false, false, 3),
            sample((90, 0), false, false, false, 9),
        ],
    );
    assert_eq!(stamps(&timeline), vec![10, 20, 20]);
    assert_eq!(
        timeline[2].kind,
        RecordedEventKind::ButtonClick { button: MouseButton::Middle, patch_png_base64: None }
    );
    assert!(!state.enabled);
}

#[test]
fn a_slot_gives_the_click_of_its_own_button() {
    let config = config();
    let mut state = started((0, 0));
    state.synthetic_time_ms = 9;
    state.right.pending_click =
        Some(PendingClick { button: MouseButton::Left, pos: Some((7, 8)), up_at_ms: 0, synthetic_time_ms: 5 });
    let mut pushed = Vec::new();
    config.flush_expired_pending_clicks(&mut state, &mut pushed, 1000);
    assert_eq!(pushed.len(), 1);
    assert_eq!(pushed[0].kind, RecordedEventKind::ButtonClick { button: MouseButton::Right, patch_png_base64: None });
    assert_eq!(pushed[0].pos, Some((7, 8)));
    assert_eq!(pushed[0].ms_from_start, 5);
    let meta = pushed[0].click_meta.unwrap();
    assert_eq!((meta.left_mode, meta.right_mode, meta.middle_mode), (ClickEdgeMode::Auto, ClickEdgeMode::Auto, ClickEdgeMode::Auto));
    assert_eq!(state.right.pending_click, None);
    assert_eq!(state.synthetic_time_ms, 9);
    assert_eq!(state.last_row_ms, 5);
}

#[test]
fn every_recording_is_in_the_order_of_its_stamps() {
    // Many sessions of all three buttons and the pointer, from a small
    // generator of numbers, in path mode and out of it.
    let mut seed: u64 = 0x2545_f491_4f6c_dd1d;
    let mut next = move || {
        seed ^= seed << 13;
        seed ^= seed >> 7;
        seed ^= seed << 17;
        seed
    };
    for session in 0..200u32 {
        let config = RecorderConfig {
            mouse_path_enabled: session % 3 == 0,
            mouse_path_min_delta_px: (session % 4) as u16,
            ..config()
        };
        let mut state = started((0, 0));
        let mut timeline: Vec<RecordedEvent> = Vec::new();
        let mut now: u64 = 0;
        for _ in 0..60 {
            let r = next();
            now += r % 40;
            let s = TickSample {
                cursor: if r & 0x100 == 0 { Some((((r >> 12) % 30) as i32, ((r >> 20) % 30) as i32)) } else { None },
                left_down: r & 0x200 != 0,
                right_down: r & 0x400 != 0,
                middle_down: r & 0x800 != 0,
                now_ms: now,
            };
            let floor = state.last_row_ms;
            let rows = config.tick(&mut state, s);
            assert!(rows.first().map_or(true, |row| row.ms_from_start >= floor));
            assert!(rows.windows(2).all(|w| w[0].ms_from_start <= w[1].ms_from_start));
            assert!(rows.iter().all(|row| row.ms_from_start <= state.synthetic_time_ms));
            assert_eq!(state.last_row_ms, rows.last().map_or(floor, |row| row.ms_from_start));
            append_recorded_events_compacting_moves(&mut timeline, rows);
            assert!(timeline.windows(2).all(|w| w[0].ms_from_start <= w[1].ms_from_start), "session {session}");
        }
        let rows = config.stop(&mut state);
        append_recorded_events_compacting_moves(&mut timeline, rows);
        assert!(timeline.windows(2).all(|w| w[0].ms_from_start <= w[1].ms_from_start), "session {session}");
        for track in [state.left, state.right, state.middle] {
            assert_eq!(track.pending_click, None);
        }
    }
}

#[test]
fn path_mode_records_presses_releases_and_moves() {
    let config = RecorderConfig { mouse_path_enabled: true, mouse_path_min_delta_px: 2, ..config() };
    let mut state = started((0, 0));
    let timeline = run(
        &config,
        &mut state,
        &[
            sample((0, 0), true, false, false, 0),
            sample((1, 1), true, false, false, 16),
            sample((3, 1), true, false, false, 32),
            sample((3, 4), false, false, false, 48),
        ],
    );
    assert_eq!(timeline.len(), 4);
    assert!(matches!(timeline[0].kind, RecordedEventKind::ButtonDown { button: MouseButton::Left, .. }));
    assert_eq!(timeline[1].kind, RecordedEventKind::Move { x: 3, y: 1 });
    assert!(matches!(timeline[2].kind, RecordedEventKind::ButtonUp { button: MouseButton::Left, .. }));
    assert_eq!(timeline[3].kind, RecordedEventKind::Move { x: 3, y: 4 });
    assert_eq!(stamps(&timeline), vec![0, 1, 2, 3]);
    assert_eq!(timeline[1].click_meta, None);
    assert_eq!(timeline[1].pos, Some((3, 1)));
}

#[test]
fn path_mode_with_no_minimum_coalesces_a_resting_pointer() {
    let config = RecorderConfig { mouse_path_enabled: true, mouse_path_min_delta_px: 0, ..config() };
    let mut state = started((7, 7));
    let timeline = run(
        &config,
        &mut state,
        &[
            sample((7, 7), false, false, false, 0),
            sample((7, 7), false, false, false, 16),
            sample((7, 7), false, false, false, 32),
        ],
    );
    assert_eq!(
        timeline,
        vec![RecordedEvent {
            ms_from_start: 3,
            kind: RecordedEventKind::Move { x: 7, y: 7 },
            pos: Some((7, 7)),
            click_meta: None,
        }]
    );
}

#[test]
fn unread_pointer_falls_back_to_the_last_sample() {
    let config = config();
    let mut state = started((9, 8));
    let blind = |left, now_ms| TickSample { cursor: None, left_down: left, right_down: false, middle_down: false, now_ms };
    config.tick(&mut state, blind(true, 0));
    config.tick(&mut state, blind(false, 5));
    let rows = config.stop(&mut state);
    assert_eq!(rows.len(), 1);
    assert_eq!(rows[0].pos, Some((9, 8)));
}

#[test]
fn recorded_click_meta_holds_values_within_their_ranges() {
    let config = RecorderConfig {
        wait_ms: 300,
        click_speed_ms: 250,
        mouse_move_speed_ms: 2,
        target_precision_percent: 30,
        target_timeout_ms: 50,
        use_find_image: true,
        ..config()
    };
    assert_eq!(
        config.recorded_click_meta(MouseButton::Middle, ClickEdgeMode::Up),
        ClickListMeta {
            left_mode: ClickEdgeMode::Auto,
            right_mode: ClickEdgeMode::Auto,
            middle_mode: ClickEdgeMode::Up,
            wait_ms: 300,
            click_speed_ms: 100,
            mouse_move_speed_ms: 5,
            use_find_image: true,
            target_precision_permille: 500,
            target_timeout_ms: 200,
        }
    );
    let wide = RecorderConfig {
        mouse_move_speed_ms: 400,
        target_precision_percent: 250,
        target_timeout_ms: 20_000,
        ..config
    };
    let meta = wide.recorded_click_meta(MouseButton::Left, ClickEdgeMode::Double);
    assert_eq!(meta.mouse_move_speed_ms, 50);
    assert_eq!(meta.target_precision_permille, 1000);
    assert_eq!(meta.target_timeout_ms, 10_000);
    assert_eq!(meta.left_mode, ClickEdgeMode::Double);
    let exact = RecorderConfig { target_precision_percent: 87, ..config };
    assert_eq!(exact.recorded_click_meta(MouseButton::Left, ClickEdgeMode::Auto).target_precision_permille, 870);
}

#[test]
fn start_resets_the_recorder() {
    let mut state = RecorderState {
        enabled: false,
        last_x: 3,
        last_y: 4,
        left: ButtonTrack {
            down: true,
            down_pos: Some((1, 1)),
            down_at_ms: Some(5),
            pending_click: Some(PendingClick {
                button: MouseButton::Left,
                pos: None,
                up_at_ms: 1,
                synthetic_time_ms: 1,
            }),
        },
        right: ButtonTrack::idle(),
        middle: ButtonTrack::idle(),
        started_by_click: true,
        last_click_pos: Some((2, 2)),
        synthetic_time_ms: 77,
        last_row_ms: 70,
    };
    state.start(None);
    assert_eq!(state, RecorderState { enabled: true, last_x: 3, last_y: 4, ..RecorderState::stopped() });
    state.start(Some((10, 20)));
    assert_eq!((state.last_x, state.last_y), (10, 20));
    assert_eq!(RecorderState::default(), RecorderState::stopped());
}

#[test]
fn images_are_asked_for_button_rows_and_attached() {
    let click = RecordedEvent {
        ms_from_start: 1,
        kind: RecordedEventKind::ButtonClick { button: MouseButton::Left, patch_png_base64: None },
        pos: Some((4, 5)),
        click_meta: None,
    };
    assert_eq!(capture_request(&click), Some((4, 5)));
    let with_image = attach_patch(click.clone(), Some("abc".to_string()));
    assert_eq!(
        with_image.kind,
        RecordedEventKind::ButtonClick { button: MouseButton::Left, patch_png_base64: Some("abc".to_string()) }
    );
    assert_eq!(with_image.pos, click.pos);
    assert_eq!(capture_request(&with_image), None);
    let sample = RecordedEvent {
        ms_from_start: 1,
        kind: RecordedEventKind::Move { x: 1, y: 2 },
        pos: Some((1, 2)),
        click_meta: None,
    };
    assert_eq!(capture_request(&sample), None);
    assert_eq!(attach_patch(sample.clone(), Some("abc".to_string())), sample);
}
