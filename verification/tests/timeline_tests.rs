use mouse_recorder::model::{
    copy_patch, copy_points, ClickListMeta, MouseButton, RecordedEvent, RecordedEventKind,
};
use mouse_recorder::timeline::{
    append_recorded_events_compacting_moves, expand, materialize_moves_grouped_events,
    materialize_moves_grouped_events_with_row_map,
};

fn sample(ms: u128, x: i32, y: i32) -> RecordedEvent {
    RecordedEvent { ms_from_start: ms, kind: RecordedEventKind::Move { x, y }, pos: Some((x, y)), click_meta: None }
}

fn wait(ms: u128, length: u64) -> RecordedEvent {
    RecordedEvent { ms_from_start: ms, kind: RecordedEventKind::Wait { ms: length }, pos: None, click_meta: None }
}

fn click(ms: u128, at: (i32, i32)) -> RecordedEvent {
    RecordedEvent {
        ms_from_start: ms,
        kind: RecordedEventKind::ButtonClick { button: MouseButton::Left, patch_png_base64: Some("aW1n".to_string()) },
        pos: Some(at),
        click_meta: Some(ClickListMeta::default()),
    }
}

fn polyline(ms: u128, points: &[(i32, i32)], meta: Option<ClickListMeta>) -> RecordedEvent {
    RecordedEvent {
        ms_from_start: ms,
        kind: RecordedEventKind::Moves { points: points.to_vec() },
        pos: points.last().copied(),
        click_meta: meta,
    }
}

#[test]
fn run_of_moves_becomes_one_polyline() {
    let slow = ClickListMeta { wait_ms: 7, ..ClickListMeta::default() };
    let fast = ClickListMeta { wait_ms: 1, ..ClickListMeta::default() };
    let mut second = sample(2, 3, 4);
    second.click_meta = Some(slow);
    let mut third = sample(3, 5, 6);
    third.click_meta = Some(fast);
    let events = vec![click(0, (0, 0)), sample(1, 1, 2), second, third, sample(4, 7, 8), wait(4, 30), sample(9, 9, 9)];
    let (compact, map) = materialize_moves_grouped_events_with_row_map(&events);
    assert_eq!(
        compact,
        vec![
            click(0, (0, 0)),
            polyline(4, &[(1, 2), (3, 4), (5, 6), (7, 8)], Some(fast)),
            wait(4, 30),
            sample(9, 9, 9),
        ]
    );
    assert_eq!(map, vec![0, 4, 5, 6]);
    assert_eq!(materialize_moves_grouped_events(&events), compact);
}

#[test]
fn lone_move_is_never_wrapped() {
    let events = vec![sample(1, 1, 1), wait(1, 5), sample(2, 2, 2)];
    let (compact, map) = materialize_moves_grouped_events_with_row_map(&events);
    assert_eq!(compact, events);
    assert_eq!(map, vec![0, 1, 2]);
}

#[test]
fn every_polyline_made_has_at_least_two_points() {
    let events = vec![sample(1, 1, 1), sample(2, 2, 2), click(3, (2, 2)), sample(4, 3, 3), sample(5, 4, 4), sample(6, 5, 5)];
    let compact = materialize_moves_grouped_events(&events);
    assert_eq!(compact.len(), 3);
    for row in &compact {
        if let RecordedEventKind::Moves { points } = &row.kind {
            assert!(points.len() >= 2);
        }
    }
    assert_eq!(compact[0], polyline(2, &[(1, 1), (2, 2)], None));
    assert_eq!(compact[2], polyline(6, &[(3, 3), (4, 4), (5, 5)], None));
}

#[test]
fn empty_timeline_stays_empty() {
    let (compact, map) = materialize_moves_grouped_events_with_row_map(&Vec::new());
    assert!(compact.is_empty());
    assert!(map.is_empty());
    assert!(expand(&Vec::new()).is_empty());
}

#[test]
fn materialize_is_idempotent() {
    let events = vec![sample(1, 1, 1), sample(2, 2, 2), wait(2, 1), polyline(3, &[(0, 0), (1, 1)], None), sample(4, 9, 9)];
    let once = materialize_moves_grouped_events(&events);
    let twice = materialize_moves_grouped_events(&once);
    assert_eq!(once, twice);
}

#[test]
fn expand_replaces_polylines_by_their_samples() {
    let meta = ClickListMeta { mouse_move_speed_ms: 33, ..ClickListMeta::default() };
    let events = vec![wait(0, 1), polyline(5, &[(1, 1), (2, 2), (3, 3)], Some(meta))];
    let mut last = sample(5, 3, 3);
    last.click_meta = Some(meta);
    assert_eq!(expand(&events), vec![wait(0, 1), sample(5, 1, 1), sample(5, 2, 2), last]);
}

#[test]
fn materialize_expand_materialize_round_trip() {
    let meta = ClickListMeta { wait_ms: 3, ..ClickListMeta::default() };
    let mut with_meta = sample(2, 2, 2);
    with_meta.click_meta = Some(meta);
    let events = vec![
        sample(1, 1, 1),
        with_meta,
        sample(3, 3, 3),
        click(4, (3, 3)),
        sample(5, 4, 4),
        wait(5, 10),
        sample(6, 5, 5),
        sample(7, 6, 6),
    ];
    let compact = materialize_moves_grouped_events(&events);
    let again = materialize_moves_grouped_events(&expand(&compact));
    assert_eq!(again, compact);
}

#[test]
fn round_trip_fails_where_a_polyline_meets_a_sample() {
    let events = vec![polyline(1, &[(0, 0), (1, 1)], None), sample(2, 2, 2)];
    let compact = materialize_moves_grouped_events(&events);
    assert_eq!(compact, events);
    let again = materialize_moves_grouped_events(&expand(&compact));
    assert_eq!(again, vec![polyline(2, &[(0, 0), (1, 1), (2, 2)], None)]);
}

#[test]
fn append_coalesces_a_move_to_the_same_point() {
    let mut timeline = vec![click(0, (1, 1)), sample(1, 5, 5)];
    let changed = append_recorded_events_compacting_moves(
        &mut timeline,
        vec![sample(2, 5, 5), sample(3, 5, 5), sample(4, 6, 5), wait(4, 1), sample(5, 6, 5)],
    );
    assert!(changed);
    assert_eq!(timeline, vec![click(0, (1, 1)), sample(3, 5, 5), sample(4, 6, 5), wait(4, 1), sample(5, 6, 5)]);
}

#[test]
fn append_of_nothing_changes_nothing() {
    let mut timeline = vec![sample(1, 5, 5)];
    assert!(!append_recorded_events_compacting_moves(&mut timeline, Vec::new()));
    assert_eq!(timeline, vec![sample(1, 5, 5)]);
}

#[test]
fn copies_are_equal_to_what_they_copy() {
    let events = vec![click(0, (1, 1)), polyline(1, &[(0, 0), (1, 1)], None), wait(2, 3)];
    for row in &events {
        assert_eq!(&row.clone(), row);
    }
    assert_eq!(copy_patch(&Some("p".to_string())), Some("p".to_string()));
    assert_eq!(copy_patch(&None), None);
    assert_eq!(copy_points(&vec![(1, 2), (3, 4)]), vec![(1, 2), (3, 4)]);
}
