//! The two shapes of a timeline: the editable one, in which every pointer
//! sample is a `Move` row of its own, and the compact one, in which each run
//! of samples is one polyline.

use vstd::prelude::*;
use crate::model::{
    ClickListMeta, EventView, KindView, RecordedEvent, RecordedEventKind, timeline_view,
};

pub mod laws;

verus! {

// ---------------------------------------------------------------------------
// Runs of pointer samples
// ---------------------------------------------------------------------------

/// The point of a `Move` row.
pub open spec fn move_point(row: EventView) -> (i32, i32) {
    match row.kind {
        KindView::Move { x, y } => (x, y),
        _ => (0, 0),
    }
}

/// The number of `Move` rows that `rows` begins with.
pub open spec fn lead(rows: Seq<EventView>) -> nat
    decreases rows.len(),
{
    if rows.len() > 0 && rows[0].kind is Move {
        1 + lead(rows.skip(1))
    } else {
        0
    }
}

/// The settings of the last row of `run` that has any.
pub open spec fn last_meta(run: Seq<EventView>) -> Option<ClickListMeta>
    decreases run.len(),
{
    if run.len() == 0 {
        None
    } else if run.last().click_meta is Some {
        run.last().click_meta
    } else {
        last_meta(run.drop_last())
    }
}

/// The points of a run of `Move` rows, in order.
pub open spec fn run_points(run: Seq<EventView>) -> Seq<(i32, i32)> {
    run.map_values(|row: EventView| move_point(row))
}

/// The polyline that stands for a run of `Move` rows: all points in order,
/// stamped and placed as the last row of the run, with the settings of the
/// last row that had any.
pub open spec fn polyline(run: Seq<EventView>) -> EventView
    recommends
        run.len() >= 2,
{
    EventView {
        ms_from_start: run.last().ms_from_start,
        kind: KindView::Moves { points: run_points(run) },
        pos: Some(move_point(run.last())),
        click_meta: last_meta(run),
    }
}

/// The compact shape of `rows`: each maximal run of two or more `Move` rows is
/// one polyline, every other row stays as it is.
pub open spec fn materialized(rows: Seq<EventView>) -> Seq<EventView>
    decreases rows.len(),
{
    if rows.len() == 0 {
        Seq::empty()
    } else {
        let n = lead(rows);
        if 2 <= n <= rows.len() {
            seq![polyline(rows.take(n as int))] + materialized(rows.skip(n as int))
        } else {
            seq![rows[0]] + materialized(rows.skip(1))
        }
    }
}

/// For each row of the compact shape of `rows`, the index of the last row that
/// it was made from, counted from `base`.
pub open spec fn row_map(rows: Seq<EventView>, base: int) -> Seq<int>
    decreases rows.len(),
{
    if rows.len() == 0 {
        Seq::empty()
    } else {
        let n = lead(rows);
        if 2 <= n <= rows.len() {
            seq![base + n - 1] + row_map(rows.skip(n as int), base + n)
        } else {
            seq![base] + row_map(rows.skip(1), base + 1)
        }
    }
}

/// The leading run is never longer than the rows themselves.
pub proof fn lemma_lead_bounds(rows: Seq<EventView>)
    ensures
        lead(rows) <= rows.len(),
        forall|k: int| 0 <= k < lead(rows) ==> (#[trigger] rows[k]).kind is Move,
        lead(rows) < rows.len() ==> !(rows[lead(rows) as int].kind is Move),
    decreases rows.len(),
{
    if rows.len() > 0 && rows[0].kind is Move {
        let rest = rows.skip(1);
        lemma_lead_bounds(rest);
        assert forall|k: int| 0 <= k < lead(rows) implies (#[trigger] rows[k]).kind is Move by {
            if k > 0 {
                assert(rows[k] == rest[k - 1]);
            }
        }
        if lead(rows) < rows.len() {
            assert(rows[lead(rows) as int] == rest[lead(rest) as int]);
        }
    }
}

/// A stretch of `Move` rows that ends at a row of another kind, or at the end,
/// is the leading run.
pub proof fn lemma_lead_is(rows: Seq<EventView>, n: int)
    requires
        0 <= n <= rows.len(),
        forall|k: int| 0 <= k < n ==> (#[trigger] rows[k]).kind is Move,
        n < rows.len() ==> !(rows[n].kind is Move),
    ensures
        lead(rows) == n,
    decreases n,
{
    if n > 0 {
        let rest = rows.skip(1);
        assert(rows[0].kind is Move);
        assert forall|k: int| 0 <= k < n - 1 implies (#[trigger] rest[k]).kind is Move by {
            assert(rest[k] == rows[k + 1]);
        }
        if n - 1 < rest.len() {
            assert(rest[n - 1] == rows[n]);
        }
        lemma_lead_is(rest, n - 1);
    }
}

// ---------------------------------------------------------------------------
// Compaction
// ---------------------------------------------------------------------------

/// The indices of a row map as mathematical integers.
pub open spec fn index_view(map: Seq<usize>) -> Seq<int> {
    map.map_values(|i: usize| i as int)
}

fn is_move_row(row: &RecordedEvent) -> (is_move: bool)
    ensures
        is_move == (row@.kind is Move),
{
    match &row.kind {
        RecordedEventKind::Move { .. } => true,
        _ => false,
    }
}

fn point_of(row: &RecordedEvent) -> (point: (i32, i32))
    ensures
        point == move_point(row@),
{
    match &row.kind {
        RecordedEventKind::Move { x, y } => (*x, *y),
        _ => (0, 0),
    }
}

/// The compact shape of `events`, and for each of its rows the index in
/// `events` of the last row that it was made from.
pub fn materialize_moves_grouped_events_with_row_map(events: &Vec<RecordedEvent>) -> (result: (
    Vec<RecordedEvent>,
    Vec<usize>,
))
    ensures
        timeline_view(result.0@) == materialized(timeline_view(events@)),
        index_view(result.1@) == row_map(timeline_view(events@), 0),
{
    let mut out: Vec<RecordedEvent> = Vec::new();
    let mut map: Vec<usize> = Vec::new();
    let mut i: usize = 0;
    let ghost rows = timeline_view(events@);
    proof {
        assert(rows.skip(0) =~= rows);
        assert(timeline_view(out@) + materialized(rows.skip(0)) =~= materialized(rows));
        assert(index_view(map@) + row_map(rows.skip(0), 0) =~= row_map(rows, 0));
    }
    while i < events.len()
        invariant
            i <= events.len(),
            rows == timeline_view(events@),
            timeline_view(out@) + materialized(rows.skip(i as int)) == materialized(rows),
            index_view(map@) + row_map(rows.skip(i as int), i as int) == row_map(rows, 0),
        decreases events.len() - i,
    {
        let ghost rest = rows.skip(i as int);
        let ghost out_before = timeline_view(out@);
        let ghost map_before = index_view(map@);
        let mut j: usize = i;
        let mut points: Vec<(i32, i32)> = Vec::new();
        let mut move_meta: Option<ClickListMeta> = None;
        proof {
            assert(rows.subrange(i as int, i as int) =~= Seq::<EventView>::empty());
            assert(points@ =~= run_points(rows.subrange(i as int, j as int)));
        }
        while j < events.len() && is_move_row(&events[j])
            invariant
                i <= j <= events.len(),
                rows == timeline_view(events@),
                forall|k: int| i <= k < j ==> (#[trigger] rows[k]).kind is Move,
                points@ == run_points(rows.subrange(i as int, j as int)),
                move_meta == last_meta(rows.subrange(i as int, j as int)),
            decreases events.len() - j,
        {
            proof {
                let longer = rows.subrange(i as int, j as int + 1);
                assert(longer.drop_last() =~= rows.subrange(i as int, j as int));
                assert(longer.last() == rows[j as int]);
                assert(run_points(longer) =~= run_points(rows.subrange(i as int, j as int)).push(
                    move_point(rows[j as int]),
                ));
            }
            points.push(point_of(&events[j]));
            if events[j].click_meta.is_some() {
                move_meta = events[j].click_meta;
            }
            j += 1;
        }
        proof {
            assert forall|k: int| 0 <= k < j - i implies (#[trigger] rest[k]).kind is Move by {
                assert(rest[k] == rows[i + k]);
            }
            if j < events.len() {
                assert(rest[j - i] == rows[j as int]);
            }
            lemma_lead_is(rest, j - i);
            assert(rest.take(j - i) =~= rows.subrange(i as int, j as int));
            assert(rest.skip(j - i) =~= rows.skip(j as int));
            assert(rest.skip(1) =~= rows.skip(i + 1));
            assert(rest[0] == rows[i as int]);
        }
        if points.len() >= 2 {
            let end = &events[j - 1];
            let last_pos = points[points.len() - 1];
            let row = RecordedEvent {
                ms_from_start: end.ms_from_start,
                kind: RecordedEventKind::Moves { points },
                pos: Some(last_pos),
                click_meta: move_meta,
            };
            proof {
                let run = rows.subrange(i as int, j as int);
                assert(run.last() == rows[j - 1]);
                assert(row@ == polyline(run));
                assert(timeline_view(out@.push(row)) =~= out_before.push(row@));
                assert(out_before.push(row@) + materialized(rows.skip(j as int)) =~= out_before + (seq![
                    polyline(run),
                ] + materialized(rows.skip(j as int))));
                assert(index_view(map@.push((j - 1) as usize)) =~= map_before.push(j - 1));
                assert(map_before.push(j - 1) + row_map(rows.skip(j as int), j as int) =~= map_before + (
                seq![i + (j - i) - 1] + row_map(rest.skip(j - i), i + (j - i))));
            }
            out.push(row);
            map.push(j - 1);
            i = j;
        } else {
            let row = events[i].clone();
            proof {
                assert(row@ == rows[i as int]);
                assert(timeline_view(out@.push(row)) =~= out_before.push(row@));
                assert(out_before.push(row@) + materialized(rows.skip(i + 1)) =~= out_before + (seq![
                    rest[0],
                ] + materialized(rest.skip(1))));
                assert(index_view(map@.push(i)) =~= map_before.push(i as int));
                assert(map_before.push(i as int) + row_map(rows.skip(i + 1), i + 1) =~= map_before + (seq![
                    i as int,
                ] + row_map(rest.skip(1), i + 1)));
            }
            out.push(row);
            map.push(i);
            i += 1;
        }
    }
    proof {
        assert(rows.skip(i as int) =~= Seq::<EventView>::empty());
        assert(timeline_view(out@) + Seq::<EventView>::empty() =~= timeline_view(out@));
        assert(index_view(map@) + Seq::<int>::empty() =~= index_view(map@));
    }
    (out, map)
}

/// The compact shape of `events`.
pub fn materialize_moves_grouped_events(events: &Vec<RecordedEvent>) -> (compact: Vec<RecordedEvent>)
    ensures
        timeline_view(compact@) == materialized(timeline_view(events@)),
{
    materialize_moves_grouped_events_with_row_map(events).0
}

// ---------------------------------------------------------------------------
// Appending recorded rows
// ---------------------------------------------------------------------------

/// `timeline` with `row` at its end. A `Move` to the point at which the
/// timeline already ends adds no row: the last row takes the new stamp.
pub open spec fn appended_one(timeline: Seq<EventView>, row: EventView) -> Seq<EventView> {
    if timeline.len() > 0 && timeline.last().kind is Move && row.kind is Move && move_point(timeline.last())
        == move_point(row) {
        timeline.drop_last().push(EventView { ms_from_start: row.ms_from_start, ..timeline.last() })
    } else {
        timeline.push(row)
    }
}

/// `timeline` with the rows of `new` appended one after the other.
pub open spec fn appended(timeline: Seq<EventView>, new: Seq<EventView>) -> Seq<EventView>
    decreases new.len(),
{
    if new.len() == 0 {
        timeline
    } else {
        appended(appended_one(timeline, new[0]), new.skip(1))
    }
}

/// Appends the rows that the recorder emitted to the timeline, and says
/// whether there were any.
pub fn append_recorded_events_compacting_moves(
    timeline: &mut Vec<RecordedEvent>,
    new_events: Vec<RecordedEvent>,
) -> (changed: bool)
    ensures
        timeline_view(final(timeline)@) == appended(timeline_view(old(timeline)@), timeline_view(new_events@)),
        changed == (new_events.len() > 0),
{
    let ghost new = timeline_view(new_events@);
    let ghost start = timeline_view(timeline@);
    let mut k: usize = 0;
    proof {
        assert(new.skip(0) =~= new);
    }
    while k < new_events.len()
        invariant
            k <= new_events.len(),
            new == timeline_view(new_events@),
            appended(timeline_view(timeline@), new.skip(k as int)) == appended(start, new),
        decreases new_events.len() - k,
    {
        let row = new_events[k].clone();
        let ghost before = timeline_view(timeline@);
        proof {
            assert(new.skip(k as int)[0] == row@);
            assert(new.skip(k as int).skip(1) =~= new.skip(k + 1));
        }
        let n = timeline.len();
        if n > 0 && is_move_row(&timeline[n - 1]) && is_move_row(&row) && same_point(
            point_of(&timeline[n - 1]),
            point_of(&row),
        ) {
            let popped = timeline.pop();
            let mut last = popped.unwrap();
            last.ms_from_start = row.ms_from_start;
            proof {
                assert(timeline_view(timeline@.push(last)) =~= before.drop_last().push(last@));
            }
            timeline.push(last);
        } else {
            proof {
                assert(timeline_view(timeline@.push(row)) =~= before.push(row@));
            }
            timeline.push(row);
        }
        k += 1;
    }
    new_events.len() > 0
}

fn same_point(a: (i32, i32), b: (i32, i32)) -> (same: bool)
    ensures
        same == (a == b),
{
    a.0 == b.0 && a.1 == b.1
}

// ---------------------------------------------------------------------------
// Expansion
// ---------------------------------------------------------------------------

/// The `Move` rows that a polyline stands for: one per point, stamped as the
/// polyline, the last of them with the polyline's settings. Any other row
/// stands for itself.
pub open spec fn expanded_row(row: EventView) -> Seq<EventView> {
    match row.kind {
        KindView::Moves { points } => Seq::new(
            points.len(),
            |k: int|
                EventView {
                    ms_from_start: row.ms_from_start,
                    kind: KindView::Move { x: points[k].0, y: points[k].1 },
                    pos: Some(points[k]),
                    click_meta: if k == points.len() - 1 {
                        row.click_meta
                    } else {
                        None
                    },
                },
        ),
        _ => seq![row],
    }
}

/// The editable shape of `rows`: every polyline is replaced by its samples.
pub open spec fn expanded(rows: Seq<EventView>) -> Seq<EventView>
    decreases rows.len(),
{
    if rows.len() == 0 {
        Seq::empty()
    } else {
        expanded_row(rows[0]) + expanded(rows.skip(1))
    }
}

/// The editable shape of `events`.
pub fn expand(events: &Vec<RecordedEvent>) -> (out: Vec<RecordedEvent>)
    ensures
        timeline_view(out@) == expanded(timeline_view(events@)),
{
    let ghost rows = timeline_view(events@);
    let mut out: Vec<RecordedEvent> = Vec::new();
    let mut i: usize = 0;
    proof {
        assert(rows.skip(0) =~= rows);
        assert(timeline_view(out@) + expanded(rows.skip(0)) =~= expanded(rows));
    }
    while i < events.len()
        invariant
            i <= events.len(),
            rows == timeline_view(events@),
            timeline_view(out@) + expanded(rows.skip(i as int)) == expanded(rows),
        decreases events.len() - i,
    {
        let ghost before = timeline_view(out@);
        let ghost rest = rows.skip(i as int);
        proof {
            assert(rest[0] == rows[i as int]);
            assert(rest.skip(1) =~= rows.skip(i + 1));
        }
        match &events[i].kind {
            RecordedEventKind::Moves { points } => {
                let ghost samples = expanded_row(rows[i as int]);
                let mut k: usize = 0;
                proof {
                    assert(timeline_view(out@) =~= before + samples.take(0));
                }
                while k < points.len()
                    invariant
                        k <= points.len(),
                        i < events.len(),
                        rows == timeline_view(events@),
                        events[i as int].kind == (RecordedEventKind::Moves { points: *points }),
                        samples == expanded_row(rows[i as int]),
                        timeline_view(out@) == before + samples.take(k as int),
                    decreases points.len() - k,
                {
                    let point = points[k];
                    let row = RecordedEvent {
                        ms_from_start: events[i].ms_from_start,
                        kind: RecordedEventKind::Move { x: point.0, y: point.1 },
                        pos: Some(point),
                        click_meta: if k == points.len() - 1 {
                            events[i].click_meta
                        } else {
                            None
                        },
                    };
                    proof {
                        assert(row@ == samples[k as int]);
                        assert(timeline_view(out@.push(row)) =~= timeline_view(out@).push(row@));
                        assert((before + samples.take(k as int)).push(samples[k as int]) =~= before
                            + samples.take(k + 1));
                    }
                    out.push(row);
                    k += 1;
                }
                proof {
                    assert(samples.take(points.len() as int) =~= samples);
                    assert(before + samples + expanded(rows.skip(i + 1)) =~= before + (expanded_row(rest[0])
                        + expanded(rest.skip(1))));
                }
            },
            _ => {
                let row = events[i].clone();
                proof {
                    assert(expanded_row(rows[i as int]) =~= seq![row@]);
                    assert(timeline_view(out@.push(row)) =~= before.push(row@));
                    assert(before.push(row@) + expanded(rows.skip(i + 1)) =~= before + (expanded_row(rest[0])
                        + expanded(rest.skip(1))));
                }
                out.push(row);
            },
        }
        i += 1;
    }
    proof {
        assert(rows.skip(i as int) =~= Seq::<EventView>::empty());
        assert(timeline_view(out@) + Seq::<EventView>::empty() =~= timeline_view(out@));
    }
    out
}

/// Rows are in the order of their stamps.
pub open spec fn in_order(rows: Seq<EventView>) -> bool {
    forall|i: int, j: int|
        0 <= i <= j < rows.len() ==> (#[trigger] rows[i]).ms_from_start <= (#[trigger] rows[j]).ms_from_start
}

} // verus!
