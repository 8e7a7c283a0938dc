use mouse_recorder::editor::{
    clamp_u16, event_kinds_from_editor_modes, jump_status_of, kind_patch, percent_of, target_of,
    Editor, EditorSettings, Setting,
};
use mouse_recorder::model::{
    ClickEdgeMode, ClickListMeta, ClickTarget, MouseButton, RecordedEvent, RecordedEventKind,
    SearchAnchor,
};

fn sample(ms: u128, x: i32, y: i32) -> RecordedEvent {
    RecordedEvent { ms_from_start: ms, kind: RecordedEventKind::Move { x, y }, pos: Some((x, y)), click_meta: None }
}

fn wait(ms: u128, length: u64) -> RecordedEvent {
    RecordedEvent { ms_from_start: ms, kind: RecordedEventKind::Wait { ms: length }, pos: None, click_meta: None }
}

fn click(button: MouseButton, patch: Option<&str>) -> RecordedEventKind {
    RecordedEventKind::ButtonClick { button, patch_png_base64: patch.map(str::to_string) }
}

fn aimed(x: &str, y: &str) -> Editor {
    let mut editor = Editor::new();
    editor.x_text = x.to_string();
    editor.y_text = y.to_string();
    editor
}

#[test]
fn settings_are_held_within_their_ranges() {
    let mut settings = EditorSettings::default();
    settings.apply(Setting::WaitMs { ms: 301 });
    assert_eq!(settings.wait_ms, 300);
    settings.apply(Setting::ClickSpeedMs { ms: 250 });
    assert_eq!(settings.click_speed_ms, 100);
    settings.apply(Setting::ClickSplitPx { px: 21 });
    assert_eq!(settings.click_split_px, 20);
    settings.apply(Setting::ClickMaxHoldMs { ms: 101 });
    assert_eq!(settings.click_max_hold_ms, 100);
    settings.apply(Setting::TargetPrecision { percent: 10 });
    assert_eq!(settings.target_precision_percent, 50);
    settings.apply(Setting::TargetPrecision { percent: 101 });
    assert_eq!(settings.target_precision_percent, 100);
    settings.apply(Setting::TargetTimeoutMs { ms: 1 });
    assert_eq!(settings.target_timeout_ms, 200);
    settings.apply(Setting::TargetTimeoutMs { ms: 60_000 });
    assert_eq!(settings.target_timeout_ms, 10_000);
    settings.apply(Setting::UseFindImage { enabled: true });
    assert!(settings.use_find_image);
}

#[test]
fn move_speed_snaps_to_multiples_of_five() {
    let snapped = |ms| {
        let mut settings = EditorSettings::default();
        settings.apply(Setting::MouseMoveSpeedMs { ms });
        settings.mouse_move_speed_ms
    };
    assert_eq!([0, 2, 3, 7, 8, 12, 13, 498, 503, 9999, u16::MAX].map(snapped), [5, 5, 5, 5, 10, 10, 15, 500, 500, 500, 500]);
    assert_eq!(EditorSettings::snapped_move_speed(22), 20);
    assert_eq!(EditorSettings::snapped_move_speed(23), 25);
}

#[test]
fn modes_change_only_for_the_button_that_is_aimed_at() {
    let mut settings = EditorSettings::default();
    settings.apply(Setting::MouseMoveSpeedMs { ms: 100 });
    settings.apply(Setting::RightMode { mode: ClickEdgeMode::Down });
    assert_eq!(settings.right_mode, ClickEdgeMode::Auto);
    assert_eq!(settings.mouse_move_speed_ms, 100);
    settings.apply(Setting::Target { target: ClickTarget::Right });
    assert_eq!(settings.mouse_move_speed_ms, 20);
    settings.apply(Setting::RightMode { mode: ClickEdgeMode::Down });
    assert_eq!(settings.right_mode, ClickEdgeMode::Down);
    assert_eq!(settings.active_editor_mode(), ClickEdgeMode::Down);
    // The click speed is kept while the mode in use is a press or a release.
    settings.apply(Setting::ClickSpeedMs { ms: 77 });
    assert_eq!(settings.click_speed_ms, 20);
    settings.apply(Setting::RightMode { mode: ClickEdgeMode::Double });
    settings.apply(Setting::ClickSpeedMs { ms: 77 });
    assert_eq!(settings.click_speed_ms, 77);
    settings.apply(Setting::LeftMode { mode: ClickEdgeMode::Up });
    settings.apply(Setting::MiddleMode { mode: ClickEdgeMode::Up });
    assert_eq!((settings.left_mode, settings.middle_mode), (ClickEdgeMode::Auto, ClickEdgeMode::Auto));
}

#[test]
fn settings_of_a_row_come_from_the_editor() {
    let mut settings = EditorSettings::default();
    settings.apply(Setting::TargetPrecision { percent: 87 });
    settings.apply(Setting::WaitMs { ms: 5 });
    assert_eq!(
        settings.current_click_list_meta(),
        ClickListMeta {
            left_mode: ClickEdgeMode::Auto,
            right_mode: ClickEdgeMode::Auto,
            middle_mode: ClickEdgeMode::Auto,
            wait_ms: 5,
            click_speed_ms: 20,
            mouse_move_speed_ms: 20,
            use_find_image: false,
            target_precision_permille: 870,
            target_timeout_ms: 2000,
        }
    );
    settings.target_precision_percent = 60_000;
    assert_eq!(settings.current_click_list_meta().target_precision_permille, u16::MAX);
}

#[test]
fn editor_makes_a_click_of_the_target_or_one_action_for_each_mode() {
    let mut settings = EditorSettings::default();
    settings.click_target = ClickTarget::Middle;
    assert_eq!(event_kinds_from_editor_modes(&settings, Some("p".to_string())), vec![click(MouseButton::Middle, Some("p"))]);
    settings.left_mode = ClickEdgeMode::Down;
    settings.right_mode = ClickEdgeMode::Double;
    settings.middle_mode = ClickEdgeMode::Up;
    assert_eq!(
        event_kinds_from_editor_modes(&settings, None),
        vec![
            RecordedEventKind::ButtonDown { button: MouseButton::Left, patch_png_base64: None },
            click(MouseButton::Right, None),
            RecordedEventKind::ButtonUp { button: MouseButton::Middle, patch_png_base64: None },
        ]
    );
}

#[test]
fn coordinates_are_read_with_white_space_around_them() {
    assert_eq!(Editor::new().parse_editor_xy(), Some((0, 0)));
    assert_eq!(aimed(" 12 ", "\t-7\n").parse_editor_xy(), Some((12, -7)));
    assert_eq!(aimed("+5", "2147483647").parse_editor_xy(), Some((5, i32::MAX)));
    assert_eq!(aimed("-2147483648", "0").parse_editor_xy(), Some((i32::MIN, 0)));
    assert_eq!(aimed("2147483648", "0").parse_editor_xy(), None);
    assert_eq!(aimed("1", "").parse_editor_xy(), None);
    assert_eq!(aimed("1.5", "2").parse_editor_xy(), None);
    assert_eq!(aimed("1 2", "2").parse_editor_xy(), None);
    assert_eq!(aimed("3", "4").capture_request(), Some((3, 4, 128)));
    let mut by_image = aimed("3", "4");
    by_image.settings.use_find_image = true;
    assert_eq!(by_image.capture_request(), None);
}

#[test]
fn insert_appends_the_rows_of_the_editor_and_selects_the_first() {
    let mut editor = aimed("10", "20");
    editor.settings.left_mode = ClickEdgeMode::Down;
    editor.settings.middle_mode = ClickEdgeMode::Up;
    let mut events = vec![wait(7, 1)];
    let status = editor.insert_or_apply(&mut events, Some("img".to_string()));
    assert_eq!(status, "Inserted click row.");
    let meta = Some(editor.settings.current_click_list_meta());
    assert_eq!(
        events,
        vec![
            wait(7, 1),
            RecordedEvent {
                ms_from_start: 8,
                kind: RecordedEventKind::ButtonDown { button: MouseButton::Left, patch_png_base64: Some("img".to_string()) },
                pos: Some((10, 20)),
                click_meta: meta,
            },
            RecordedEvent {
                ms_from_start: 9,
                kind: RecordedEventKind::ButtonUp { button: MouseButton::Middle, patch_png_base64: Some("img".to_string()) },
                pos: Some((10, 20)),
                click_meta: meta,
            },
        ]
    );
    assert_eq!(editor.selected_index, Some(1));
}

#[test]
fn insert_into_an_empty_timeline_starts_at_one() {
    let mut editor = aimed("1", "2");
    let mut events = Vec::new();
    editor.insert_or_apply(&mut events, None);
    assert_eq!(events.len(), 1);
    assert_eq!(events[0].ms_from_start, 1);
    assert_eq!(events[0].kind, click(MouseButton::Left, None));
    assert_eq!(editor.selected_index, Some(0));
}

#[test]
fn invalid_edits_are_refused_and_change_nothing() {
    let mut events = vec![wait(7, 1)];
    let mut editor = aimed("ten", "20");
    assert_eq!(editor.insert_or_apply(&mut events, None), "Invalid X/Y coordinates.");
    editor.selected_index = Some(0);
    assert_eq!(editor.insert_below_selected(&mut events, None), "Invalid X/Y coordinates.");
    let mut editor = aimed("10", "20");
    editor.settings.use_find_image = true;
    let refused = "Press GET (X,Y) to capture or select a target image first.";
    assert_eq!(editor.insert_or_apply(&mut events, Some("img".to_string())), refused);
    editor.selected_index = Some(0);
    assert_eq!(editor.insert_below_selected(&mut events, Some("img".to_string())), refused);
    editor.selected_index = None;
    assert_eq!(editor.insert_below_selected(&mut events, None), "Select a row first to insert below");
    assert_eq!(editor.clear_selection(&mut events, 600), "Select a row first to delete");
    editor.selected_index = Some(5);
    assert_eq!(editor.insert_below_selected(&mut events, None), "Selected row no longer exists");
    assert_eq!(editor.selected_index, None);
    editor.selected_index = Some(5);
    assert_eq!(editor.clear_selection(&mut events, 600), "Selected row no longer exists");
    assert_eq!(editor.selected_index, None);
    assert_eq!(events, vec![wait(7, 1)]);
}

#[test]
fn rows_made_by_image_carry_the_image_of_the_editor() {
    let mut editor = aimed("10", "20");
    editor.settings.use_find_image = true;
    editor.static_preview_patch_b64 = Some("held".to_string());
    let mut events = Vec::new();
    editor.insert_or_apply(&mut events, Some("captured".to_string()));
    assert_eq!(events[0].kind, click(MouseButton::Left, Some("held")));
    assert!(events[0].click_meta.unwrap().use_find_image);
}

#[test]
fn apply_moves_a_sample_and_the_end_of_a_polyline() {
    let mut editor = aimed("10", "20");
    let meta = Some(editor.settings.current_click_list_meta());
    let line = RecordedEvent {
        ms_from_start: 4,
        kind: RecordedEventKind::Moves { points: vec![(1, 1), (2, 2)] },
        pos: Some((2, 2)),
        click_meta: None,
    };
    let mut events = vec![sample(3, 1, 1), line];
    editor.selected_index = Some(0);
    assert_eq!(editor.insert_or_apply(&mut events, None), "Updated move at row 0");
    assert_eq!(
        events[0],
        RecordedEvent { ms_from_start: 3, kind: RecordedEventKind::Move { x: 10, y: 20 }, pos: Some((10, 20)), click_meta: meta }
    );
    editor.selected_index = Some(1);
    assert_eq!(editor.insert_or_apply(&mut events, None), "Updated moves at row 1");
    assert_eq!(
        events[1],
        RecordedEvent {
            ms_from_start: 4,
            kind: RecordedEventKind::Moves { points: vec![(1, 1), (10, 20)] },
            pos: Some((10, 20)),
            click_meta: meta,
        }
    );
    events[1].kind = RecordedEventKind::Moves { points: Vec::new() };
    editor.insert_or_apply(&mut events, None);
    assert_eq!(events[1].kind, RecordedEventKind::Moves { points: vec![(10, 20)] });
}

#[test]
fn apply_replaces_a_button_row_and_keeps_its_image() {
    let mut editor = aimed("10", "20");
    editor.settings.left_mode = ClickEdgeMode::Down;
    editor.settings.right_mode = ClickEdgeMode::Up;
    let selected = RecordedEvent {
        ms_from_start: 9,
        kind: RecordedEventKind::ButtonUp { button: MouseButton::Right, patch_png_base64: Some("old".to_string()) },
        pos: Some((1, 1)),
        click_meta: None,
    };
    let mut events = vec![selected, wait(9, 5)];
    editor.selected_index = Some(0);
    assert_eq!(editor.insert_or_apply(&mut events, Some("new".to_string())), "Updated selected row (single-row apply)");
    assert_eq!(
        events[0],
        RecordedEvent {
            ms_from_start: 9,
            kind: RecordedEventKind::ButtonUp { button: MouseButton::Right, patch_png_base64: Some("old".to_string()) },
            pos: Some((10, 20)),
            click_meta: Some(editor.settings.current_click_list_meta()),
        }
    );
    // A row of another kind becomes the first action of the editor, with the new image.
    editor.selected_index = Some(1);
    editor.insert_or_apply(&mut events, Some("new".to_string()));
    assert_eq!(
        events[1].kind,
        RecordedEventKind::ButtonDown { button: MouseButton::Left, patch_png_base64: Some("new".to_string()) }
    );
    assert_eq!(events[1].ms_from_start, 9);
    // A selection beyond the end changes nothing.
    let before = events.clone();
    editor.selected_index = Some(2);
    assert_eq!(editor.insert_or_apply(&mut events, None), "Updated selected row (single-row apply)");
    assert_eq!(events, before);
}

#[test]
fn insert_below_puts_rows_under_the_selected_row() {
    let mut editor = aimed("10", "20");
    editor.settings.left_mode = ClickEdgeMode::Double;
    editor.settings.right_mode = ClickEdgeMode::Down;
    let mut events = vec![wait(5, 1), wait(6, 2), wait(7, 3)];
    editor.selected_index = Some(1);
    assert_eq!(editor.insert_below_selected(&mut events, None), "Inserted 2 row(s) below selected (multi-row)");
    assert_eq!(events.len(), 5);
    assert_eq!(events[0], wait(5, 1));
    assert_eq!(events[1], wait(6, 2));
    assert_eq!(events[2].kind, click(MouseButton::Left, None));
    assert_eq!(events[3].kind, RecordedEventKind::ButtonDown { button: MouseButton::Right, patch_png_base64: None });
    assert_eq!((events[2].ms_from_start, events[3].ms_from_start), (7, 7));
    assert_eq!(events[4], wait(7, 3));
    assert_eq!(editor.selected_index, Some(2));
}

fn stamps(events: &[RecordedEvent]) -> Vec<u128> {
    events.iter().map(|row| row.ms_from_start).collect()
}

fn two_actions(x: &str, y: &str) -> Editor {
    let mut editor = aimed(x, y);
    editor.settings.left_mode = ClickEdgeMode::Double;
    editor.settings.right_mode = ClickEdgeMode::Down;
    editor
}

#[test]
fn rows_inserted_below_never_pass_the_row_that_follows() {
    let mut editor = two_actions("1", "2");
    let mut events = vec![wait(5, 1), wait(5, 2)];
    editor.selected_index = Some(0);
    editor.insert_below_selected(&mut events, None);
    assert_eq!(stamps(&events), vec![5, 5, 5, 5]);
    assert_eq!(events[3], wait(5, 2));

    let mut editor = two_actions("1", "2");
    let mut events = vec![wait(5, 1), wait(7, 2)];
    editor.selected_index = Some(0);
    editor.insert_below_selected(&mut events, None);
    assert_eq!(stamps(&events), vec![5, 6, 7, 7]);

    let mut editor = two_actions("1", "2");
    let mut events = vec![wait(5, 1), wait(100, 2)];
    editor.selected_index = Some(0);
    editor.insert_below_selected(&mut events, None);
    assert_eq!(stamps(&events), vec![5, 6, 7, 100]);
}

#[test]
fn rows_inserted_below_the_last_row_count_up_from_it() {
    let mut editor = two_actions("1", "2");
    let mut events = vec![wait(5, 1), wait(9, 2)];
    editor.selected_index = Some(1);
    editor.insert_below_selected(&mut events, None);
    assert_eq!(stamps(&events), vec![5, 9, 10, 11]);
    assert_eq!(editor.selected_index, Some(2));

    let mut editor = two_actions("1", "2");
    let mut events = vec![wait(u128::MAX - 1, 1)];
    editor.selected_index = Some(0);
    editor.insert_below_selected(&mut events, None);
    assert_eq!(stamps(&events), vec![u128::MAX - 1, u128::MAX, u128::MAX]);
}

#[test]
fn edits_take_the_coordinates_as_they_were_read() {
    let mut editor = aimed("not", "numbers");
    let mut events = vec![wait(3, 1)];
    assert_eq!(editor.insert_or_apply_at(&mut events, Some((8, 9)), None), "Inserted click row.");
    assert_eq!(events.len(), 2);
    assert_eq!(events[1].pos, Some((8, 9)));
    assert_eq!(events[1].ms_from_start, 4);
    assert_eq!(editor.selected_index, Some(1));
    assert_eq!(editor.insert_or_apply_at(&mut events, Some((-1, -2)), None), "Updated selected row (single-row apply)");
    assert_eq!(events[1].pos, Some((-1, -2)));
    assert_eq!(events[1].ms_from_start, 4);

    let mut editor = aimed("1", "2");
    let before = events.clone();
    assert_eq!(editor.insert_or_apply_at(&mut events, None, None), "Invalid X/Y coordinates.");
    assert_eq!(events, before);
    assert_eq!(editor.selected_index, None);

    assert_eq!(editor.insert_below_selected_at(&mut events, Some((1, 2)), None), "Select a row first to insert below");
    editor.selected_index = Some(0);
    assert_eq!(editor.insert_below_selected_at(&mut events, None, None), "Invalid X/Y coordinates.");
    assert_eq!(events, before);
    assert_eq!(
        editor.insert_below_selected_at(&mut events, Some((30, 40)), Some("img".to_string())),
        "Inserted 1 row(s) below selected (multi-row)"
    );
    assert_eq!(events.len(), 3);
    assert_eq!(events[1].kind, click(MouseButton::Left, Some("img")));
    assert_eq!(events[1].pos, Some((30, 40)));
    assert_eq!(stamps(&events), vec![3, 4, 4]);
    editor.selected_index = Some(7);
    assert_eq!(editor.insert_below_selected_at(&mut events, Some((1, 2)), None), "Selected row no longer exists");
    assert_eq!(editor.selected_index, None);
}

#[test]
fn edits_keep_a_timeline_in_the_order_of_its_stamps() {
    let in_order = |events: &[RecordedEvent]| events.windows(2).all(|w| w[0].ms_from_start <= w[1].ms_from_start);
    let mut editor = two_actions("4", "4");
    let mut events = vec![sample(2, 0, 0), sample(2, 1, 1), wait(2, 5), wait(3, 5), wait(3, 6)];
    for selected in [0usize, 2, 4, 1, 3, 6] {
        editor.selected_index = Some(selected);
        editor.insert_below_selected(&mut events, None);
        assert!(in_order(&events), "after inserting below row {selected}");
    }
    editor.selected_index = None;
    editor.insert_or_apply(&mut events, None);
    assert!(in_order(&events));
    editor.insert_or_apply(&mut events, None);
    assert!(in_order(&events));
    while !events.is_empty() {
        editor.selected_index = Some(events.len() / 2);
        editor.clear_selection(&mut events, 600);
        assert!(in_order(&events));
    }
}

#[test]
fn selecting_a_row_aims_the_editor_at_it() {
    let mut editor = Editor::new();
    editor.settings.use_find_image = true;
    let meta = ClickListMeta {
        left_mode: ClickEdgeMode::Auto,
        right_mode: ClickEdgeMode::Double,
        middle_mode: ClickEdgeMode::Auto,
        wait_ms: 33,
        click_speed_ms: 400,
        mouse_move_speed_ms: 2,
        use_find_image: false,
        target_precision_permille: 876,
        target_timeout_ms: 50_000,
    };
    let events = vec![RecordedEvent {
        ms_from_start: 1,
        kind: click(MouseButton::Right, Some("img")),
        pos: Some((-3, 44)),
        click_meta: Some(meta),
    }];
    editor.select_row(&events, 0, 600);
    assert_eq!(editor.selected_index, Some(0));
    assert_eq!((editor.x_text.as_str(), editor.y_text.as_str()), ("-3", "44"));
    assert_eq!(editor.static_preview_patch_b64, Some("img".to_string()));
    assert_eq!(
        editor.settings,
        EditorSettings {
            wait_ms: 33,
            click_speed_ms: 100,
            mouse_move_speed_ms: 5,
            click_split_px: 10,
            click_max_hold_ms: 50,
            target_precision_percent: 88,
            target_timeout_ms: 10_000,
            click_target: ClickTarget::Right,
            left_mode: ClickEdgeMode::Auto,
            right_mode: ClickEdgeMode::Double,
            middle_mode: ClickEdgeMode::Auto,
            use_find_image: false,
        }
    );
    assert_eq!(editor.details.wait_ms, 33);
}

#[test]
fn selecting_rows_without_settings() {
    let mut editor = Editor::new();
    editor.settings.mouse_move_speed_ms = 300;
    editor.settings.use_find_image = true;
    editor.static_preview_patch_b64 = Some("held".to_string());
    let down = RecordedEvent {
        ms_from_start: 1,
        kind: RecordedEventKind::ButtonDown { button: MouseButton::Middle, patch_png_base64: None },
        pos: None,
        click_meta: None,
    };
    let line = RecordedEvent {
        ms_from_start: 2,
        kind: RecordedEventKind::Moves { points: vec![(1, 1), (8, 9)] },
        pos: Some((0, 0)),
        click_meta: None,
    };
    let search = RecordedEvent {
        ms_from_start: 3,
        kind: RecordedEventKind::FindTarget {
            patch_png_base64: "img".to_string(),
            patch_size: 64,
            precision_permille: 950,
            timeout_ms: 750,
            search_anchor: SearchAnchor::LastFound,
            search_region_size: None,
        },
        pos: None,
        click_meta: None,
    };
    let events = vec![down, line, wait(4, 250), search];
    editor.select_row(&events, 0, 600);
    assert_eq!((editor.x_text.as_str(), editor.y_text.as_str()), ("0", "0"));
    assert_eq!(editor.static_preview_patch_b64, None);
    assert_eq!(editor.settings.click_target, ClickTarget::Middle);
    assert_eq!(editor.settings.middle_mode, ClickEdgeMode::Down);
    assert!(!editor.settings.use_find_image);
    assert_eq!(editor.settings.mouse_move_speed_ms, 20);
    editor.select_row(&events, 1, 600);
    assert_eq!((editor.x_text.as_str(), editor.y_text.as_str()), ("8", "9"));
    assert_eq!(editor.settings.middle_mode, ClickEdgeMode::Down);
    editor.select_row(&events, 2, 600);
    assert_eq!(editor.details.wait_ms, 250);
    assert_eq!((editor.x_text.as_str(), editor.y_text.as_str()), ("8", "9"));
    editor.select_row(&events, 3, 700);
    assert_eq!(editor.static_preview_patch_b64, Some("img".to_string()));
    assert_eq!(
        (editor.details.precision_permille, editor.details.timeout_ms, editor.details.anchor, editor.details.limit_region, editor.details.region_size),
        (950, 750, SearchAnchor::LastFound, false, 700)
    );
    assert_eq!(editor.details.wait_ms, 250);
    editor.select_row(&events, 9, 600);
    assert_eq!(editor.selected_index, Some(9));
    assert_eq!(editor.static_preview_patch_b64, Some("img".to_string()));
}

#[test]
fn deleting_a_sample_takes_its_whole_run_along() {
    let mut editor = Editor::new();
    let mut events = vec![wait(0, 1), sample(1, 1, 1), sample(2, 2, 2), sample(3, 3, 3), wait(4, 2), sample(5, 5, 5)];
    editor.selected_index = Some(2);
    assert_eq!(editor.clear_selection(&mut events, 600), "Deleted MOVES row (3 points)");
    assert_eq!(events, vec![wait(0, 1), wait(4, 2), sample(5, 5, 5)]);
    assert_eq!(editor.selected_index, Some(2));
    assert_eq!((editor.x_text.as_str(), editor.y_text.as_str()), ("5", "5"));
    assert_eq!(editor.clear_selection(&mut events, 600), "Deleted row 2");
    assert_eq!(events, vec![wait(0, 1), wait(4, 2)]);
    assert_eq!(editor.selected_index, Some(1));
    assert_eq!(editor.details.wait_ms, 2);
    editor.selected_index = Some(0);
    assert_eq!(editor.clear_selection(&mut events, 600), "Deleted row 0");
    assert_eq!(editor.clear_selection(&mut events, 600), "Deleted row 0");
    assert!(events.is_empty());
    assert_eq!(editor.selected_index, None);
}

#[test]
fn small_helpers() {
    assert_eq!(clamp_u16(4, 5, 9), 5);
    assert_eq!(clamp_u16(10, 5, 9), 9);
    assert_eq!(clamp_u16(7, 5, 9), 7);
    assert_eq!([0, 500, 874, 875, 999, 1000, 2000].map(percent_of), [50, 50, 87, 88, 100, 100, 100]);
    assert_eq!(target_of(MouseButton::Left), ClickTarget::Left);
    assert_eq!(target_of(MouseButton::Right), ClickTarget::Right);
    assert_eq!(target_of(MouseButton::Middle), ClickTarget::Middle);
    assert_eq!(ClickTarget::Middle.button(), MouseButton::Middle);
    assert_eq!(kind_patch(&click(MouseButton::Left, Some("a"))), Some("a".to_string()));
    assert_eq!(kind_patch(&RecordedEventKind::Wait { ms: 1 }), None);
    assert_eq!(jump_status_of((3, -4), None), "Jumped mouse to (3, -4)");
    assert_eq!(jump_status_of((3, -4), Some("no display".to_string())), "Jump failed: no display");
}
