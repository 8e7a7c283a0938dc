//! What holds of the two shapes of a timeline: compacting is idempotent, it
//! undoes expanding, and it keeps rows valid and in order.

use vstd::prelude::*;
use crate::model::{EventView, KindView};
use crate::timeline::{
    appended, appended_one, in_order, expanded, expanded_row, last_meta, lead, lemma_lead_bounds,
    lemma_lead_is, materialized, move_point, polyline, row_map, run_points,
};

verus! {

/// A pointer row: a `Move` or a polyline.
pub open spec fn is_pointer_row(row: EventView) -> bool {
    row.kind is Move || row.kind is Moves
}

/// No two `Move` rows stand next to each other.
pub open spec fn separated(rows: Seq<EventView>) -> bool {
    forall|i: int| 0 <= i < rows.len() - 1 ==> !((#[trigger] rows[i]).kind is Move && rows[i + 1].kind is Move)
}

/// Every row is valid: a polyline has at least two points and a search has an image.
pub open spec fn all_valid(rows: Seq<EventView>) -> bool {
    forall|i: int| 0 <= i < rows.len() ==> (#[trigger] rows[i]).kind.valid()
}

/// A polyline is placed at its last point.
pub open spec fn placed_at_end(row: EventView) -> bool {
    row.kind matches KindView::Moves { points } ==> points.len() > 0 && row.pos == Some(points.last())
}

/// Every row is valid, every polyline is placed at its last point, and no
/// polyline stands next to another pointer row.
pub open spec fn tidy(rows: Seq<EventView>) -> bool {
    &&& all_valid(rows)
    &&& forall|i: int| 0 <= i < rows.len() ==> placed_at_end(#[trigger] rows[i])
    &&& forall|i: int|
        0 <= i < rows.len() - 1 ==> !(is_pointer_row(#[trigger] rows[i]) && is_pointer_row(rows[i + 1]) && (
        rows[i].kind is Moves || rows[i + 1].kind is Moves))
}

/// Tidy, and no two pointer rows stand next to each other.
pub open spec fn compact(rows: Seq<EventView>) -> bool {
    &&& tidy(rows)
    &&& separated(rows)
}

/// What the compact shape begins with: the first row itself unless a run of
/// two or more samples begins there, in which case it is a polyline.
proof fn lemma_materialized_head(rows: Seq<EventView>)
    requires
        rows.len() > 0,
    ensures
        materialized(rows).len() > 0,
        lead(rows) < 2 ==> materialized(rows)[0] == rows[0],
        lead(rows) >= 2 ==> materialized(rows)[0].kind is Moves,
        materialized(rows)[0].kind is Move ==> lead(rows) == 1,
{
    lemma_lead_bounds(rows);
}

/// The compact shape never has two `Move` rows next to each other.
pub proof fn lemma_materialized_is_separated(rows: Seq<EventView>)
    ensures
        separated(materialized(rows)),
    decreases rows.len(),
{
    if rows.len() > 0 {
        lemma_lead_bounds(rows);
        let n = lead(rows);
        let out = materialized(rows);
        if 2 <= n {
            let rest = rows.skip(n as int);
            lemma_materialized_is_separated(rest);
            let tail = materialized(rest);
            assert(out =~= seq![polyline(rows.take(n as int))] + tail);
            assert forall|i: int| 0 <= i < out.len() - 1 implies !((#[trigger] out[i]).kind is Move && out[i
                + 1].kind is Move) by {
                if i > 0 {
                    assert(out[i] == tail[i - 1] && out[i + 1] == tail[i]);
                }
            }
        } else {
            let rest = rows.skip(1);
            lemma_materialized_is_separated(rest);
            let tail = materialized(rest);
            assert(out =~= seq![rows[0]] + tail);
            assert forall|i: int| 0 <= i < out.len() - 1 implies !((#[trigger] out[i]).kind is Move && out[i
                + 1].kind is Move) by {
                if i > 0 {
                    assert(out[i] == tail[i - 1] && out[i + 1] == tail[i]);
                } else {
                    assert(out[1] == tail[0]);
                    if rows[0].kind is Move {
                        lemma_materialized_head(rest);
                        lemma_lead_bounds(rest);
                        assert(rest[0] == rows[1]);
                        assert(lead(rest) == 0);
                    }
                }
            }
        }
    }
}

/// Rows of which no two `Move` rows stand next to each other are their own
/// compact shape.
pub proof fn lemma_separated_is_fixed(rows: Seq<EventView>)
    requires
        separated(rows),
    ensures
        materialized(rows) == rows,
    decreases rows.len(),
{
    if rows.len() > 0 {
        lemma_lead_bounds(rows);
        let rest = rows.skip(1);
        if lead(rows) >= 2 {
            assert(rows[0].kind is Move && rows[1].kind is Move);
        }
        assert forall|i: int| 0 <= i < rest.len() - 1 implies !((#[trigger] rest[i]).kind is Move && rest[i
            + 1].kind is Move) by {
            assert(rest[i] == rows[i + 1] && rest[i + 1] == rows[i + 1 + 1]);
        }
        lemma_separated_is_fixed(rest);
        assert(seq![rows[0]] + rest =~= rows);
    }
}

/// Compacting is idempotent: the compact shape of a compact shape is itself.
pub proof fn lemma_materialize_is_idempotent(rows: Seq<EventView>)
    ensures
        materialized(materialized(rows)) == materialized(rows),
{
    lemma_materialized_is_separated(rows);
    lemma_separated_is_fixed(materialized(rows));
}

/// The points of a run are as many as its rows.
proof fn lemma_polyline_is_valid(run: Seq<EventView>)
    requires
        run.len() >= 2,
    ensures
        polyline(run).kind.valid(),
        placed_at_end(polyline(run)),
{
    assert(run_points(run).len() == run.len());
    assert(run_points(run).last() == move_point(run.last()));
}

/// Compacting keeps rows valid: when every polyline that goes in has at least
/// two points, so has every polyline that comes out, and a sample that stands
/// alone stays a `Move`.
pub proof fn lemma_materialize_keeps_rows_valid(rows: Seq<EventView>)
    requires
        all_valid(rows),
    ensures
        all_valid(materialized(rows)),
        forall|i: int|
            0 <= i < materialized(rows).len() ==> ((#[trigger] materialized(rows)[i]).kind matches KindView::Moves {
                points,
            } ==> points.len() >= 2),
    decreases rows.len(),
{
    if rows.len() > 0 {
        lemma_lead_bounds(rows);
        let n = lead(rows);
        let out = materialized(rows);
        if 2 <= n {
            let rest = rows.skip(n as int);
            assert forall|i: int| 0 <= i < rest.len() implies (#[trigger] rest[i]).kind.valid() by {
                assert(rest[i] == rows[i + n]);
            }
            lemma_materialize_keeps_rows_valid(rest);
            lemma_polyline_is_valid(rows.take(n as int));
            let tail = materialized(rest);
            assert(out =~= seq![polyline(rows.take(n as int))] + tail);
            assert forall|i: int| 0 <= i < out.len() implies (#[trigger] out[i]).kind.valid() by {
                if i > 0 {
                    assert(out[i] == tail[i - 1]);
                }
            }
        } else {
            let rest = rows.skip(1);
            assert forall|i: int| 0 <= i < rest.len() implies (#[trigger] rest[i]).kind.valid() by {
                assert(rest[i] == rows[i + 1]);
            }
            lemma_materialize_keeps_rows_valid(rest);
            let tail = materialized(rest);
            assert(out =~= seq![rows[0]] + tail);
            assert forall|i: int| 0 <= i < out.len() implies (#[trigger] out[i]).kind.valid() by {
                if i > 0 {
                    assert(out[i] == tail[i - 1]);
                }
            }
        }
    }
    assert forall|i: int| 0 <= i < materialized(rows).len() implies ((#[trigger] materialized(
        rows,
    )[i]).kind matches KindView::Moves { points } ==> points.len() >= 2) by {
        assert(materialized(rows)[i].kind.valid());
    }
}

/// The rest of tidy rows is tidy.
proof fn lemma_tidy_skip(rows: Seq<EventView>, n: int)
    requires
        tidy(rows),
        0 <= n <= rows.len(),
    ensures
        tidy(rows.skip(n)),
{
    let rest = rows.skip(n);
    assert forall|i: int| 0 <= i < rest.len() implies (#[trigger] rest[i]).kind.valid() && placed_at_end(
        rest[i],
    ) by {
        assert(rest[i] == rows[i + n]);
    }
    assert forall|i: int| 0 <= i < rest.len() - 1 implies !(is_pointer_row(#[trigger] rest[i])
        && is_pointer_row(rest[i + 1]) && (rest[i].kind is Moves || rest[i + 1].kind is Moves)) by {
        assert(rest[i] == rows[i + n] && rest[i + 1] == rows[i + n + 1]);
    }
}

/// The compact shape of tidy rows is compact.
proof fn lemma_materialized_is_compact(rows: Seq<EventView>)
    requires
        tidy(rows),
    ensures
        compact(materialized(rows)),
        rows.len() > 0 && !is_pointer_row(rows[0]) ==> materialized(rows)[0] == rows[0],
    decreases rows.len(),
{
    lemma_materialized_is_separated(rows);
    if rows.len() > 0 {
        lemma_lead_bounds(rows);
        let n = lead(rows);
        let out = materialized(rows);
        let step: int = if 2 <= n {
            n as int
        } else {
            1
        };
        let head = if 2 <= n {
            polyline(rows.take(n as int))
        } else {
            rows[0]
        };
        let rest = rows.skip(step);
        lemma_tidy_skip(rows, step);
        lemma_materialized_is_compact(rest);
        let tail = materialized(rest);
        assert(out =~= seq![head] + tail);
        if 2 <= n {
            lemma_polyline_is_valid(rows.take(n as int));
        }
        if is_pointer_row(head) && rest.len() > 0 {
            assert(rest[0] == rows[step]);
            assert(is_pointer_row(rows[step - 1]));
            assert(!is_pointer_row(rest[0])) by {
                if rest[0].kind is Move {
                    if 2 <= n {
                    } else {
                        assert(rows[0].kind is Moves || n == 1);
                    }
                }
            }
            assert(tail[0] == rest[0]);
        }
        assert forall|i: int| 0 <= i < out.len() implies (#[trigger] out[i]).kind.valid() && placed_at_end(
            out[i],
        ) by {
            if i > 0 {
                assert(out[i] == tail[i - 1]);
            }
        }
        assert forall|i: int| 0 <= i < out.len() - 1 implies !(is_pointer_row(#[trigger] out[i])
            && is_pointer_row(out[i + 1]) && (out[i].kind is Moves || out[i + 1].kind is Moves)) by {
            if i > 0 {
                assert(out[i] == tail[i - 1] && out[i + 1] == tail[i]);
            } else {
                assert(out[1] == tail[0]);
                if !is_pointer_row(head) {
                } else {
                    assert(rest.len() > 0);
                }
            }
        }
    }
}

/// A run of rows without settings has none.
proof fn lemma_last_meta_of_bare_run(run: Seq<EventView>)
    requires
        forall|k: int| 0 <= k < run.len() ==> (#[trigger] run[k]).click_meta is None,
    ensures
        last_meta(run) is None,
    decreases run.len(),
{
    if run.len() > 0 {
        let shorter = run.drop_last();
        assert forall|k: int| 0 <= k < shorter.len() implies (#[trigger] shorter[k]).click_meta is None by {
            assert(shorter[k] == run[k]);
        }
        lemma_last_meta_of_bare_run(shorter);
    }
}

/// The samples of a valid polyline that is placed at its last point make that
/// polyline again.
proof fn lemma_polyline_of_samples(row: EventView)
    requires
        row.kind is Moves,
        row.kind.valid(),
        placed_at_end(row),
    ensures
        expanded_row(row).len() >= 2,
        forall|k: int| 0 <= k < expanded_row(row).len() ==> (#[trigger] expanded_row(row)[k]).kind is Move,
        polyline(expanded_row(row)) == row,
{
    let samples = expanded_row(row);
    let points = row.kind->Moves_points;
    assert(samples.len() == points.len());
    assert(run_points(samples) =~= points);
    assert(samples.last().click_meta == row.click_meta);
    if row.click_meta is None {
        lemma_last_meta_of_bare_run(samples);
    }
}

/// Expanding compact rows and compacting them again gives them back.
pub proof fn lemma_materialize_undoes_expand(rows: Seq<EventView>)
    requires
        compact(rows),
    ensures
        materialized(expanded(rows)) == rows,
        rows.len() > 0 && !is_pointer_row(rows[0]) ==> expanded(rows).len() > 0 && expanded(rows)[0] == rows[0],
        rows.len() == 0 ==> expanded(rows).len() == 0,
    decreases rows.len(),
{
    if rows.len() > 0 {
        let first = rows[0];
        let rest = rows.skip(1);
        lemma_tidy_skip(rows, 1);
        assert forall|i: int| 0 <= i < rest.len() - 1 implies !((#[trigger] rest[i]).kind is Move && rest[i
            + 1].kind is Move) by {
            assert(rest[i] == rows[i + 1] && rest[i + 1] == rows[i + 1 + 1]);
        }
        lemma_materialize_undoes_expand(rest);
        let samples = expanded_row(first);
        let tail = expanded(rest);
        let all = samples + tail;
        assert(expanded(rows) == all);
        assert(seq![first] + rest =~= rows);
        if is_pointer_row(first) && rest.len() > 0 {
            assert(rest[0] == rows[1]);
            assert(!is_pointer_row(rest[0]));
            assert(tail[0] == rest[0]);
        }
        if first.kind is Moves {
            lemma_polyline_of_samples(first);
            let n = samples.len() as int;
            assert forall|k: int| 0 <= k < n implies (#[trigger] all[k]).kind is Move by {
                assert(all[k] == samples[k]);
            }
            if n < all.len() {
                assert(all[n] == tail[0]);
            }
            lemma_lead_is(all, n);
            assert(all.take(n) =~= samples);
            assert(all.skip(n) =~= tail);
        } else {
            assert(samples =~= seq![first]);
            if first.kind is Move {
                if 1 < all.len() {
                    assert(all[1] == tail[0]);
                }
                assert(all[0] == first);
                lemma_lead_is(all, 1);
            } else {
                assert(all[0] == first);
                lemma_lead_is(all, 0);
            }
            assert(all.skip(1) =~= tail);
        }
    }
}

/// Compacting, expanding and compacting again gives what compacting gave.
///
/// This holds of tidy rows: rows in which every polyline has at least two
/// points and is placed at its last point, and in which no polyline stands
/// next to another pointer row. The recorder emits no polylines, so every
/// recording is tidy.
pub proof fn lemma_materialize_expand_round_trip(rows: Seq<EventView>)
    requires
        tidy(rows),
    ensures
        materialized(expanded(materialized(rows))) == materialized(rows),
{
    lemma_materialized_is_compact(rows);
    lemma_materialize_undoes_expand(materialized(rows));
}

/// The row map names, for each row of the compact shape, the last row that it
/// was made from: it is as long as the compact shape, its entries rise and
/// are indices of rows, and each row of the compact shape is stamped as the
/// row that its entry names.
pub proof fn lemma_row_map_names_last_rows(rows: Seq<EventView>, base: int)
    ensures
        row_map(rows, base).len() == materialized(rows).len(),
        forall|i: int|
            0 <= i < row_map(rows, base).len() ==> {
                &&& base <= #[trigger] row_map(rows, base)[i] < base + rows.len()
                &&& materialized(rows)[i].ms_from_start == rows[row_map(rows, base)[i] - base].ms_from_start
                &&& i > 0 ==> row_map(rows, base)[i - 1] < row_map(rows, base)[i]
            },
    decreases rows.len(),
{
    if rows.len() > 0 {
        lemma_lead_bounds(rows);
        let n = lead(rows);
        let step: int = if 2 <= n {
            n as int
        } else {
            1
        };
        let rest = rows.skip(step);
        lemma_row_map_names_last_rows(rest, base + step);
        let map = row_map(rows, base);
        let tail_map = row_map(rest, base + step);
        let out = materialized(rows);
        let tail = materialized(rest);
        assert(map =~= seq![base + step - 1] + tail_map);
        if 2 <= n {
            assert(out =~= seq![polyline(rows.take(n as int))] + tail);
            assert(rows.take(n as int).last() == rows[n - 1]);
        } else {
            assert(out =~= seq![rows[0]] + tail);
        }
        assert forall|i: int| 0 <= i < map.len() implies {
            &&& base <= #[trigger] map[i] < base + rows.len()
            &&& out[i].ms_from_start == rows[map[i] - base].ms_from_start
            &&& i > 0 ==> map[i - 1] < map[i]
        } by {
            if i > 0 {
                assert(map[i] == tail_map[i - 1]);
                assert(out[i] == tail[i - 1]);
                assert(rest[tail_map[i - 1] - (base + step)] == rows[tail_map[i - 1] - base]);
                if i > 1 {
                    assert(map[i - 1] == tail_map[i - 2]);
                }
            }
        }
    }
}

/// Appending rows in order, the first of them stamped no earlier than the
/// timeline ends, to a timeline in order leaves the timeline in order.
pub proof fn lemma_append_keeps_order(timeline: Seq<EventView>, new: Seq<EventView>)
    requires
        in_order(timeline),
        in_order(new),
        timeline.len() > 0 && new.len() > 0 ==> timeline.last().ms_from_start <= new[0].ms_from_start,
    ensures
        in_order(appended(timeline, new)),
        new.len() > 0 ==> appended(timeline, new).len() > 0 && appended(timeline, new).last().ms_from_start
            == new.last().ms_from_start,
    decreases new.len(),
{
    if new.len() > 0 {
        let row = new[0];
        let next = appended_one(timeline, row);
        let rest = new.skip(1);
        assert(next.len() > 0 && next.last().ms_from_start == row.ms_from_start);
        assert(in_order(next)) by {
            assert forall|i: int, j: int| 0 <= i <= j < next.len() implies (#[trigger] next[i]).ms_from_start <= (
            #[trigger] next[j]).ms_from_start by {
                if j < next.len() - 1 {
                    assert(next[i] == timeline[i] && next[j] == timeline[j]);
                } else if i < next.len() - 1 {
                    assert(next[i] == timeline[i]);
                    assert(timeline[i].ms_from_start <= timeline[timeline.len() - 1].ms_from_start);
                }
            }
        }
        assert(in_order(rest)) by {
            assert forall|i: int, j: int| 0 <= i <= j < rest.len() implies (#[trigger] rest[i]).ms_from_start <= (
            #[trigger] rest[j]).ms_from_start by {
                assert(rest[i] == new[i + 1] && rest[j] == new[j + 1]);
            }
        }
        if rest.len() > 0 {
            assert(rest[0] == new[1]);
            assert(rest.last() == new.last());
        }
        lemma_append_keeps_order(next, rest);
    }
}

/// `row` as it stands in the timeline after more rows were appended: itself,
/// or, if it is a `Move`, itself with another stamp.
pub open spec fn kept_as(row: EventView, kept: EventView) -> bool {
    kept == row || (row.kind is Move && kept == (EventView { ms_from_start: kept.ms_from_start, ..row }))
}

/// Appending keeps the rows that were there, in their places: every row but
/// the last stays as it is, and the last stays as it is but for its stamp,
/// which changes only if it is a `Move` and the pointer was sampled again at
/// its point.
pub proof fn lemma_append_keeps_rows(timeline: Seq<EventView>, new: Seq<EventView>)
    ensures
        appended(timeline, new).len() >= timeline.len(),
        forall|i: int| 0 <= i < timeline.len() - 1 ==> (#[trigger] appended(timeline, new)[i]) == timeline[i],
        timeline.len() > 0 ==> kept_as(timeline.last(), appended(timeline, new)[timeline.len() - 1]),
    decreases new.len(),
{
    if new.len() > 0 {
        let next = appended_one(timeline, new[0]);
        let rest = new.skip(1);
        let out = appended(timeline, new);
        lemma_append_keeps_rows(next, rest);
        assert(out == appended(next, rest));
        assert forall|i: int| 0 <= i < timeline.len() - 1 implies (#[trigger] out[i]) == timeline[i] by {
            assert(next[i] == timeline[i]);
        }
        if timeline.len() > 0 {
            let at = timeline.len() - 1;
            if next.len() == timeline.len() {
                assert(kept_as(next.last(), out[at]));
                assert(kept_as(timeline.last(), next.last()));
            } else {
                assert(next[at] == timeline.last());
                assert(out[at] == next[at]);
            }
        }
    }
}

/// Entries that rise one after the other rise throughout.
proof fn lemma_rising(map: Seq<int>, i: int, j: int)
    requires
        0 <= i <= j < map.len(),
        forall|k: int| 0 < k < map.len() ==> map[k - 1] < #[trigger] map[k],
    ensures
        map[i] <= map[j],
    decreases j - i,
{
    if i < j {
        lemma_rising(map, i, j - 1);
    }
}

/// Compacting keeps the order of a timeline: rows in the order of their
/// stamps are in that order in their compact shape too.
pub proof fn lemma_materialize_keeps_order(rows: Seq<EventView>)
    requires
        in_order(rows),
    ensures
        in_order(materialized(rows)),
{
    let out = materialized(rows);
    let map = row_map(rows, 0);
    lemma_row_map_names_last_rows(rows, 0);
    assert forall|i: int, j: int| 0 <= i <= j < out.len() implies (#[trigger] out[i]).ms_from_start <= (
    #[trigger] out[j]).ms_from_start by {
        lemma_rising(map, i, j);
        assert(out[i].ms_from_start == rows[map[i]].ms_from_start);
        assert(out[j].ms_from_start == rows[map[j]].ms_from_start);
    }
}

/// Every row of the editable shape is stamped as one of the rows that it was
/// made from; so where no row is stamped before `floor`, none of the editable
/// shape is.
proof fn lemma_expanded_not_before(rows: Seq<EventView>, floor: u128)
    requires
        forall|i: int| 0 <= i < rows.len() ==> floor <= (#[trigger] rows[i]).ms_from_start,
    ensures
        forall|k: int| 0 <= k < expanded(rows).len() ==> floor <= (#[trigger] expanded(rows)[k]).ms_from_start,
    decreases rows.len(),
{
    if rows.len() > 0 {
        let head = expanded_row(rows[0]);
        let rest = rows.skip(1);
        assert forall|i: int| 0 <= i < rest.len() implies floor <= (#[trigger] rest[i]).ms_from_start by {
            assert(rest[i] == rows[i + 1]);
        }
        lemma_expanded_not_before(rest, floor);
        assert(floor <= rows[0].ms_from_start);
        assert forall|k: int| 0 <= k < expanded(rows).len() implies floor <= (#[trigger] expanded(
            rows,
        )[k]).ms_from_start by {
            if k < head.len() {
                assert(expanded(rows)[k] == head[k]);
                assert(head[k].ms_from_start == rows[0].ms_from_start);
            } else {
                assert(expanded(rows)[k] == expanded(rest)[k - head.len()]);
            }
        }
    }
}

/// Expanding keeps the order of a timeline: rows in the order of their
/// stamps are in that order in their editable shape too.
pub proof fn lemma_expand_keeps_order(rows: Seq<EventView>)
    requires
        in_order(rows),
    ensures
        in_order(expanded(rows)),
    decreases rows.len(),
{
    if rows.len() > 0 {
        let head = expanded_row(rows[0]);
        let rest = rows.skip(1);
        let out = expanded(rows);
        assert forall|i: int| 0 <= i < rest.len() implies rows[0].ms_from_start <= (#[trigger] rest[i]).ms_from_start by {
            assert(rest[i] == rows[i + 1]);
        }
        assert(in_order(rest)) by {
            assert forall|i: int, j: int| 0 <= i <= j < rest.len() implies (#[trigger] rest[i]).ms_from_start <= (
            #[trigger] rest[j]).ms_from_start by {
                assert(rest[i] == rows[i + 1] && rest[j] == rows[j + 1]);
            }
        }
        lemma_expand_keeps_order(rest);
        lemma_expanded_not_before(rest, rows[0].ms_from_start);
        assert forall|i: int, j: int| 0 <= i <= j < out.len() implies (#[trigger] out[i]).ms_from_start <= (
        #[trigger] out[j]).ms_from_start by {
            if i < head.len() {
                assert(out[i] == head[i]);
                assert(head[i].ms_from_start == rows[0].ms_from_start);
            } else {
                assert(out[i] == expanded(rest)[i - head.len()]);
            }
            if j < head.len() {
                assert(out[j] == head[j]);
                assert(head[j].ms_from_start == rows[0].ms_from_start);
            } else {
                assert(out[j] == expanded(rest)[j - head.len()]);
            }
        }
    }
}

/// Valid rows without a polyline are tidy, so the round trip holds of every
/// timeline that was recorded and not yet compacted.
pub proof fn lemma_rows_without_polyline_are_tidy(rows: Seq<EventView>)
    requires
        all_valid(rows),
        forall|i: int| 0 <= i < rows.len() ==> !((#[trigger] rows[i]).kind is Moves),
    ensures
        tidy(rows),
{
}

} // verus!
