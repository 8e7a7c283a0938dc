//! What holds of the recorder: of its clock, of the order of its rows, and of
//! the rows that a gesture becomes.

use vstd::prelude::*;
use crate::model::{ClickEdgeMode, EventView, KindView, MouseButton};
use crate::recorder::ButtonTrack;
use crate::recorder::{
    PendingClick, RecorderConfig, RecorderState, Step, TickSample, spec_advanced, spec_button_edge,
    spec_elapsed_ms, spec_first_known, spec_flush_all_pending_clicks,
    spec_flush_expired_for_button, spec_flush_expired_pending_clicks,
    spec_flush_pending_click_for_button, spec_later_of, spec_push_recorded_button_down_for_path,
    spec_push_recorded_button_release, spec_push_recorded_button_up_for_path, spec_sample_path,
    spec_stop, spec_tick,
};
use crate::timeline::laws::lemma_append_keeps_order;
use crate::timeline::{appended, in_order};

verus! {

/// Every row of `rows` is stamped within `lo..=hi`, and the rows are in the
/// order of their stamps.
pub open spec fn paced(rows: Seq<EventView>, lo: u128, hi: u128) -> bool {
    &&& forall|i: int| 0 <= i < rows.len() ==> lo <= (#[trigger] rows[i]).ms_from_start <= hi
    &&& in_order(rows)
}

/// The stamp of the last row of `rows`, or `floor` if there is none.
pub open spec fn last_stamp(rows: Seq<EventView>, floor: u128) -> u128 {
    if rows.len() > 0 {
        rows.last().ms_from_start
    } else {
        floor
    }
}

impl RecorderState {
    /// The slot of `button` holds, if anything, a click of that button that
    /// is not stamped after the clock.
    pub open spec fn slot_sound(self, button: MouseButton) -> bool {
        match self.pending(button) {
            Some(p) => p.button == button && p.synthetic_time_ms <= self.synthetic_time_ms,
            None => true,
        }
    }

    /// What holds of the recorder in every session: each slot holds a click
    /// of its own button, and neither a pending click nor the last row that
    /// left is stamped after the clock.
    pub open spec fn sound(self) -> bool {
        &&& self.slot_sound(MouseButton::Left)
        &&& self.slot_sound(MouseButton::Right)
        &&& self.slot_sound(MouseButton::Middle)
        &&& self.last_row_ms <= self.synthetic_time_ms
    }

    /// The buttons other than `button` are up and have no click pending.
    pub open spec fn only_uses(self, button: MouseButton) -> bool {
        forall|other: MouseButton|
            other != button ==> !(#[trigger] self.spec_track(other)).down && self.spec_track(
                other,
            ).pending_click is None
    }
}

impl TickSample {
    /// The buttons other than `button` are up in this sample.
    pub open spec fn only_uses(self, button: MouseButton) -> bool {
        forall|other: MouseButton| other != button ==> !(#[trigger] self.spec_is_down(other))
    }
}

/// The synthetic clock never runs backwards: no operation of the recorder
/// leaves it earlier than it found it.
pub proof fn lemma_clock_never_runs_back(
    config: RecorderConfig,
    state: RecorderState,
    sample: TickSample,
    down_pos: Option<(i32, i32)>,
    up_pos: Option<(i32, i32)>,
    held_ms: u64,
    button: MouseButton,
)
    ensures
        spec_tick(config, state, sample).state.synthetic_time_ms >= state.synthetic_time_ms,
        spec_stop(config, state).state.synthetic_time_ms == state.synthetic_time_ms,
        spec_flush_expired_pending_clicks(config, state, sample.now_ms).state.synthetic_time_ms
            == state.synthetic_time_ms,
        spec_flush_all_pending_clicks(config, state).state.synthetic_time_ms == state.synthetic_time_ms,
        spec_push_recorded_button_release(
            config,
            state,
            down_pos,
            up_pos,
            held_ms,
            button,
            sample.now_ms,
        ).state.synthetic_time_ms >= state.synthetic_time_ms,
        spec_push_recorded_button_down_for_path(config, state, down_pos, button).state.synthetic_time_ms
            >= state.synthetic_time_ms,
        spec_push_recorded_button_up_for_path(config, state, up_pos, button).state.synthetic_time_ms
            >= state.synthetic_time_ms,
{
    lemma_flush_keeps_clock(config, state, sample.now_ms);
    if state.enabled {
        let a = spec_flush_expired_pending_clicks(config, state, sample.now_ms);
        lemma_edge_keeps_order(config, a.state, MouseButton::Left, sample);
        let b = spec_button_edge(config, a.state, MouseButton::Left, sample);
        lemma_edge_keeps_order(config, b.state, MouseButton::Right, sample);
        let c = spec_button_edge(config, b.state, MouseButton::Right, sample);
        lemma_edge_keeps_order(config, c.state, MouseButton::Middle, sample);
    }
}

/// Flushing pending clicks leaves the clock alone.
proof fn lemma_flush_keeps_clock(config: RecorderConfig, state: RecorderState, now: u64)
    ensures
        spec_flush_expired_pending_clicks(config, state, now).state.synthetic_time_ms == state.synthetic_time_ms,
        spec_flush_all_pending_clicks(config, state).state.synthetic_time_ms == state.synthetic_time_ms,
        spec_flush_expired_pending_clicks(config, state, now).state.enabled == state.enabled,
{
}

/// Looking at one button does not move the clock back.
proof fn lemma_edge_keeps_order(config: RecorderConfig, state: RecorderState, button: MouseButton, sample: TickSample)
    ensures
        spec_button_edge(config, state, button, sample).state.synthetic_time_ms >= state.synthetic_time_ms,
{
}

/// A step takes its turn after the rows that left before it: its rows are in
/// the order of their stamps, none of them is stamped before the last row
/// that left or after the clock that the step leaves, the state remembers the
/// stamp of the last of them, the clock has not run back, and the state is
/// sound.
pub open spec fn in_turn(before: RecorderState, step: Step) -> bool {
    &&& paced(step.rows, before.last_row_ms, step.state.synthetic_time_ms)
    &&& step.state.last_row_ms == last_stamp(step.rows, before.last_row_ms)
    &&& before.synthetic_time_ms <= step.state.synthetic_time_ms
    &&& step.state.sound()
}

/// Two steps that take their turn one after the other take their turn together.
proof fn lemma_in_turn_twice(before: RecorderState, first: Step, second: Step)
    requires
        in_turn(before, first),
        in_turn(first.state, second),
    ensures
        in_turn(before, Step { state: second.state, rows: first.rows + second.rows }),
{
    lemma_paced_concat(
        first.rows,
        second.rows,
        before.last_row_ms,
        first.state.synthetic_time_ms,
        second.state.synthetic_time_ms,
    );
}

proof fn lemma_flush_one_in_turn(config: RecorderConfig, state: RecorderState, button: MouseButton)
    requires
        state.sound(),
    ensures
        in_turn(state, spec_flush_pending_click_for_button(config, state, button)),
        spec_flush_pending_click_for_button(config, state, button).state.synthetic_time_ms
            == state.synthetic_time_ms,
        spec_flush_pending_click_for_button(config, state, button).state.enabled == state.enabled,
{
    assert(state.slot_sound(button));
}

proof fn lemma_flush_expired_one_in_turn(config: RecorderConfig, state: RecorderState, button: MouseButton, now: u64)
    requires
        state.sound(),
    ensures
        in_turn(state, spec_flush_expired_for_button(config, state, button, now)),
        spec_flush_expired_for_button(config, state, button, now).state.synthetic_time_ms
            == state.synthetic_time_ms,
        spec_flush_expired_for_button(config, state, button, now).state.enabled == state.enabled,
{
    lemma_flush_one_in_turn(config, state, button);
}

proof fn lemma_flush_expired_in_turn(config: RecorderConfig, state: RecorderState, now: u64)
    requires
        state.sound(),
    ensures
        in_turn(state, spec_flush_expired_pending_clicks(config, state, now)),
        spec_flush_expired_pending_clicks(config, state, now).state.enabled == state.enabled,
{
    let a = spec_flush_expired_for_button(config, state, MouseButton::Left, now);
    lemma_flush_expired_one_in_turn(config, state, MouseButton::Left, now);
    let b = spec_flush_expired_for_button(config, a.state, MouseButton::Right, now);
    lemma_flush_expired_one_in_turn(config, a.state, MouseButton::Right, now);
    let c = spec_flush_expired_for_button(config, b.state, MouseButton::Middle, now);
    lemma_flush_expired_one_in_turn(config, b.state, MouseButton::Middle, now);
    lemma_in_turn_twice(state, a, b);
    lemma_in_turn_twice(state, Step { state: b.state, rows: a.rows + b.rows }, c);
    let all = spec_flush_expired_pending_clicks(config, state, now);
    assert(all.state == c.state);
    assert(all.rows == a.rows + b.rows + c.rows);
}

proof fn lemma_flush_all_in_turn(config: RecorderConfig, state: RecorderState)
    requires
        state.sound(),
    ensures
        in_turn(state, spec_flush_all_pending_clicks(config, state)),
{
    let a = spec_flush_pending_click_for_button(config, state, MouseButton::Left);
    lemma_flush_one_in_turn(config, state, MouseButton::Left);
    let b = spec_flush_pending_click_for_button(config, a.state, MouseButton::Right);
    lemma_flush_one_in_turn(config, a.state, MouseButton::Right);
    let c = spec_flush_pending_click_for_button(config, b.state, MouseButton::Middle);
    lemma_flush_one_in_turn(config, b.state, MouseButton::Middle);
    lemma_in_turn_twice(state, a, b);
    lemma_in_turn_twice(state, Step { state: b.state, rows: a.rows + b.rows }, c);
    let all = spec_flush_all_pending_clicks(config, state);
    assert(all.state == c.state);
    assert(all.rows == a.rows + b.rows + c.rows);
}

/// A sound state with a slot emptied, or filled with a click of its own
/// button that is not stamped after the clock, is sound.
proof fn lemma_with_pending_sound(state: RecorderState, button: MouseButton, pending: Option<PendingClick>)
    requires
        state.sound(),
        match pending {
            Some(p) => p.button == button && p.synthetic_time_ms <= state.synthetic_time_ms,
            None => true,
        },
    ensures
        state.with_pending(button, pending).sound(),
        state.with_pending(button, pending).synthetic_time_ms == state.synthetic_time_ms,
        state.with_pending(button, pending).last_row_ms == state.last_row_ms,
{
    match button {
        MouseButton::Left => {},
        MouseButton::Right => {},
        MouseButton::Middle => {},
    }
}

/// A sound state stays sound when the clock and the stamp of the last row
/// are moved on, the last row not past the clock.
proof fn lemma_moved_on_sound(state: RecorderState, after: RecorderState)
    requires
        state.sound(),
        after.left.pending_click == state.left.pending_click,
        after.right.pending_click == state.right.pending_click,
        after.middle.pending_click == state.middle.pending_click,
        state.synthetic_time_ms <= after.synthetic_time_ms,
        after.last_row_ms <= after.synthetic_time_ms,
    ensures
        after.sound(),
{
}

proof fn lemma_release_in_turn(
    config: RecorderConfig,
    state: RecorderState,
    down_pos: Option<(i32, i32)>,
    up_pos: Option<(i32, i32)>,
    held_ms: u64,
    button: MouseButton,
    now: u64,
)
    requires
        state.sound(),
    ensures
        in_turn(state, spec_push_recorded_button_release(config, state, down_pos, up_pos, held_ms, button, now)),
{
    let at = config.gesture_time(state);
    let release_pos = spec_first_known(up_pos, down_pos);
    let timed = RecorderState { started_by_click: true, synthetic_time_ms: at, last_click_pos: release_pos, ..state };
    let candidate = PendingClick { button, pos: release_pos, up_at_ms: now, synthetic_time_ms: at };
    let step = spec_push_recorded_button_release(config, state, down_pos, up_pos, held_ms, button, now);
    lemma_moved_on_sound(state, timed);
    let flushed = spec_flush_pending_click_for_button(config, timed, button);
    lemma_flush_one_in_turn(config, timed, button);
    if config.spec_splits(down_pos, up_pos, held_ms) {
        let up_at = spec_advanced(at, config.wait_ms as u128);
        let rows = seq![config.down_row(button, at, down_pos), config.up_row(button, up_at, up_pos)];
        let tail = Step { state: step.state, rows };
        lemma_moved_on_sound(flushed.state, step.state);
        assert(paced(rows, flushed.state.last_row_ms, up_at));
        assert(in_turn(flushed.state, tail));
        lemma_in_turn_twice(timed, flushed, tail);
        assert(step.rows == flushed.rows + rows);
    } else {
        match state.pending(button) {
            Some(previous) => {
                if spec_elapsed_ms(now, previous.up_at_ms) <= config.click_speed_ms {
                    lemma_with_pending_sound(timed, button, None);
                    lemma_moved_on_sound(timed.with_pending(button, None), step.state);
                    assert(paced(step.rows, state.last_row_ms, at));
                } else {
                    lemma_with_pending_sound(flushed.state, button, Some(candidate));
                }
            },
            None => {
                lemma_with_pending_sound(timed, button, Some(candidate));
                assert(step.rows =~= Seq::<EventView>::empty());
            },
        }
    }
}

proof fn lemma_path_down_in_turn(
    config: RecorderConfig,
    state: RecorderState,
    down_pos: Option<(i32, i32)>,
    button: MouseButton,
)
    requires
        state.sound(),
    ensures
        in_turn(state, spec_push_recorded_button_down_for_path(config, state, down_pos, button)),
{
    lemma_flush_one_in_turn(config, state, button);
}

proof fn lemma_edge_in_turn(config: RecorderConfig, state: RecorderState, button: MouseButton, sample: TickSample)
    requires
        state.sound(),
    ensures
        in_turn(state, spec_button_edge(config, state, button, sample)),
        spec_button_edge(config, state, button, sample).state.enabled == state.enabled,
{
    let track = state.spec_track(button);
    let last = Some(state.last_pos());
    let here = spec_first_known(sample.cursor, last);
    if sample.spec_is_down(button) && !track.down {
        let pressed = state.with_track(
            button,
            ButtonTrack { down: true, down_pos: here, down_at_ms: Some(sample.now_ms), ..track },
        );
        assert(pressed.sound());
        if config.mouse_path_enabled {
            lemma_path_down_in_turn(config, pressed, here, button);
        }
    } else if !sample.spec_is_down(button) && track.down {
        let released = state.with_track(
            button,
            ButtonTrack { down: false, down_pos: None, down_at_ms: None, ..track },
        );
        assert(released.sound());
        if !config.mouse_path_enabled {
            let down_pos = spec_first_known(track.down_pos, last);
            let held_ms = match track.down_at_ms {
                Some(since) => spec_elapsed_ms(sample.now_ms, since),
                None => 0,
            };
            lemma_release_in_turn(config, released, down_pos, here, held_ms, button, sample.now_ms);
        }
    }
}

proof fn lemma_sample_in_turn(config: RecorderConfig, state: RecorderState, cursor: Option<(i32, i32)>)
    requires
        state.sound(),
    ensures
        in_turn(state, spec_sample_path(config, state, cursor)),
{
}

/// Rows leave in the order of their stamps, whatever the buttons do.
///
/// In a sound state, the rows of a tick are in the order of their stamps,
/// none of them is stamped before the last row that left before the tick or
/// after the clock that the tick leaves, and the state is sound again and
/// remembers the stamp of the last row. A click that has waited leaves after
/// rows of other buttons with a stamp no earlier than theirs.
pub proof fn lemma_rows_leave_in_order(config: RecorderConfig, state: RecorderState, sample: TickSample)
    requires
        state.sound(),
    ensures
        in_turn(state, spec_tick(config, state, sample)),
{
    if state.enabled {
        let a = spec_flush_expired_pending_clicks(config, state, sample.now_ms);
        lemma_flush_expired_in_turn(config, state, sample.now_ms);
        let b = spec_button_edge(config, a.state, MouseButton::Left, sample);
        lemma_edge_in_turn(config, a.state, MouseButton::Left, sample);
        lemma_in_turn_twice(state, a, b);
        let ab = Step { state: b.state, rows: a.rows + b.rows };
        let c = spec_button_edge(config, b.state, MouseButton::Right, sample);
        lemma_edge_in_turn(config, b.state, MouseButton::Right, sample);
        lemma_in_turn_twice(state, ab, c);
        let abc = Step { state: c.state, rows: ab.rows + c.rows };
        let d = spec_button_edge(config, c.state, MouseButton::Middle, sample);
        lemma_edge_in_turn(config, c.state, MouseButton::Middle, sample);
        lemma_in_turn_twice(state, abc, d);
        let abcd = Step { state: d.state, rows: abc.rows + d.rows };
        let e = spec_sample_path(config, d.state, sample.cursor);
        lemma_sample_in_turn(config, d.state, sample.cursor);
        lemma_in_turn_twice(state, abcd, e);
        let step = spec_tick(config, state, sample);
        assert(step.state == e.state);
        assert(step.rows == a.rows + b.rows + c.rows + d.rows + e.rows);
    }
}

/// The rows that leave when the recording stops leave in the order of their
/// stamps, none of them stamped before the last row that left before them.
pub proof fn lemma_last_rows_leave_in_order(config: RecorderConfig, state: RecorderState)
    requires
        state.sound(),
    ensures
        in_turn(state, spec_stop(config, state)),
{
    lemma_flush_all_in_turn(config, state);
}

/// A session starts in a sound state in which no row has left, and the
/// recorder that is switched off is in such a state too.
pub proof fn lemma_session_starts_sound(before: RecorderState, cursor: Option<(i32, i32)>)
    ensures
        before.spec_started(cursor).sound(),
        before.spec_started(cursor).last_row_ms == 0,
        RecorderState::spec_stopped().sound(),
{
}

/// No row is stamped after the clock: in a sound state a tick emits only rows
/// stamped at or before the clock that it leaves.
pub proof fn lemma_rows_not_after_clock(config: RecorderConfig, state: RecorderState, sample: TickSample)
    requires
        state.sound(),
    ensures
        spec_tick(config, state, sample).state.sound(),
        forall|i: int|
            0 <= i < spec_tick(config, state, sample).rows.len() ==> (#[trigger] spec_tick(
                config,
                state,
                sample,
            ).rows[i]).ms_from_start <= spec_tick(config, state, sample).state.synthetic_time_ms,
{
    lemma_rows_leave_in_order(config, state, sample);
}

/// Rows in order followed by rows in order that start no earlier than the
/// first ones end are in order.
proof fn lemma_paced_concat(first: Seq<EventView>, second: Seq<EventView>, lo: u128, mid: u128, hi: u128)
    requires
        paced(first, lo, mid),
        paced(second, last_stamp(first, lo), hi),
        mid <= hi,
    ensures
        paced(first + second, lo, hi),
        last_stamp(first + second, lo) == last_stamp(second, last_stamp(first, lo)),
{
    let all = first + second;
    assert forall|i: int| 0 <= i < all.len() implies lo <= (#[trigger] all[i]).ms_from_start <= hi by {
        if i < first.len() {
            assert(all[i] == first[i]);
        } else {
            assert(all[i] == second[i - first.len()]);
            if first.len() > 0 {
                assert(lo <= first[first.len() - 1].ms_from_start);
            }
        }
    }
    assert forall|i: int, j: int| 0 <= i <= j < all.len() implies (#[trigger] all[i]).ms_from_start <= (
    #[trigger] all[j]).ms_from_start by {
        if j < first.len() {
            assert(all[i] == first[i] && all[j] == first[j]);
        } else if i >= first.len() {
            assert(all[i] == second[i - first.len()] && all[j] == second[j - first.len()]);
        } else {
            assert(all[i] == first[i] && all[j] == second[j - first.len()]);
            assert(first[i].ms_from_start <= first[first.len() - 1].ms_from_start);
        }
    }
    if second.len() > 0 {
        assert(all.last() == second.last());
    } else {
        assert(all =~= first);
    }
}

/// With one button in use, looking at another button does nothing.
proof fn lemma_idle_edge_is_quiet(
    config: RecorderConfig,
    state: RecorderState,
    button: MouseButton,
    other: MouseButton,
    sample: TickSample,
)
    requires
        other != button,
        state.only_uses(button),
        sample.only_uses(button),
    ensures
        spec_button_edge(config, state, other, sample) == Step::quiet(state),
{
    assert(!state.spec_track(other).down);
    assert(!sample.spec_is_down(other));
}

/// A lone click becomes exactly one single click.
///
/// A gesture that stays within the deadzone and the hold limit, on a button
/// with no click pending, emits nothing when the button is released. The click
/// waits while its window is open (`sooner`), and leaves as one `ButtonClick`
/// row in mode `Auto`, stamped as at its release, once the window has run out
/// (`later`) or when recording stops, after which nothing is pending.
pub proof fn lemma_lone_click_is_one_single_click(
    config: RecorderConfig,
    state: RecorderState,
    down_pos: Option<(i32, i32)>,
    up_pos: Option<(i32, i32)>,
    held_ms: u64,
    button: MouseButton,
    now: u64,
    sooner: u64,
    later: u64,
)
    requires
        state.sound(),
        !config.spec_splits(down_pos, up_pos, held_ms),
        state.pending(button) is None,
        spec_elapsed_ms(sooner, now) <= config.click_speed_ms,
        spec_elapsed_ms(later, now) > config.click_speed_ms,
    ensures
        ({
            let released = spec_push_recorded_button_release(
                config,
                state,
                down_pos,
                up_pos,
                held_ms,
                button,
                now,
            );
            let row = config.click_row(
                button,
                ClickEdgeMode::Auto,
                config.gesture_time(state),
                spec_first_known(up_pos, down_pos),
            );
            let waiting = spec_flush_expired_for_button(config, released.state, button, sooner);
            let expired = spec_flush_expired_for_button(config, released.state, button, later);
            let stopped = spec_flush_pending_click_for_button(config, released.state, button);
            &&& released.rows == Seq::<EventView>::empty()
            &&& waiting == Step::quiet(released.state)
            &&& expired.rows == seq![row]
            &&& expired.state.pending(button) is None
            &&& stopped.rows == seq![row]
            &&& stopped.state.pending(button) is None
            &&& row.kind == (KindView::ButtonClick { button, patch: None })
            &&& row.click_meta->0.spec_mode_of(button) == ClickEdgeMode::Auto
        }),
{
}

/// Two quick releases make exactly one double click, never two single ones.
///
/// The first click candidate, on a button with no click pending, emits nothing.
/// When a second candidate is released within the click-speed window, in any
/// state `between` that still holds the first as pending, it emits one
/// `ButtonClick` row in mode `Double` and leaves nothing pending.
pub proof fn lemma_two_quick_releases_are_one_double_click(
    config: RecorderConfig,
    state: RecorderState,
    button: MouseButton,
    first_down: Option<(i32, i32)>,
    first_up: Option<(i32, i32)>,
    first_held_ms: u64,
    first_now: u64,
    between: RecorderState,
    second_down: Option<(i32, i32)>,
    second_up: Option<(i32, i32)>,
    second_held_ms: u64,
    second_now: u64,
)
    requires
        !config.spec_splits(first_down, first_up, first_held_ms),
        !config.spec_splits(second_down, second_up, second_held_ms),
        state.pending(button) is None,
        between.pending(button) == spec_push_recorded_button_release(
            config,
            state,
            first_down,
            first_up,
            first_held_ms,
            button,
            first_now,
        ).state.pending(button),
        spec_elapsed_ms(second_now, first_now) <= config.click_speed_ms,
    ensures
        ({
            let first = spec_push_recorded_button_release(
                config,
                state,
                first_down,
                first_up,
                first_held_ms,
                button,
                first_now,
            );
            let second = spec_push_recorded_button_release(
                config,
                between,
                second_down,
                second_up,
                second_held_ms,
                button,
                second_now,
            );
            let row = config.click_row(
                button,
                ClickEdgeMode::Double,
                config.gesture_time(between),
                spec_first_known(second_up, second_down),
            );
            &&& first.rows == Seq::<EventView>::empty()
            &&& second.rows == seq![row]
            &&& second.state.pending(button) is None
            &&& row.kind == (KindView::ButtonClick { button, patch: None })
            &&& row.click_meta->0.spec_mode_of(button) == ClickEdgeMode::Double
        }),
{
}

/// A gesture that is held too long or moves too far is a press and a release,
/// never a click.
///
/// Its rows are the pending click of the button, if one was waiting, then one
/// `ButtonDown` row and one `ButtonUp` row; nothing is pending afterwards, so
/// no click row can follow from this gesture.
pub proof fn lemma_long_or_far_gesture_is_down_then_up(
    config: RecorderConfig,
    state: RecorderState,
    down_pos: Option<(i32, i32)>,
    up_pos: Option<(i32, i32)>,
    held_ms: u64,
    button: MouseButton,
    now: u64,
)
    requires
        config.spec_splits(down_pos, up_pos, held_ms),
    ensures
        ({
            let step = spec_push_recorded_button_release(config, state, down_pos, up_pos, held_ms, button, now);
            let at = config.gesture_time(state);
            let down = config.down_row(button, at, down_pos);
            let up = config.up_row(button, spec_advanced(at, config.wait_ms as u128), up_pos);
            let waiting = match state.pending(button) {
                Some(pending) => seq![config.single_click_row(button, pending, state.last_row_ms)],
                None => Seq::<EventView>::empty(),
            };
            &&& step.rows == waiting + seq![down, up]
            &&& state.pending(button) is None ==> step.rows == seq![down, up]
            &&& step.state.pending(button) is None
            &&& down.kind == (KindView::ButtonDown { button, patch: None })
            &&& up.kind == (KindView::ButtonUp { button, patch: None })
        }),
{
    let step = spec_push_recorded_button_release(config, state, down_pos, up_pos, held_ms, button, now);
    let at = config.gesture_time(state);
    let down = config.down_row(button, at, down_pos);
    let up = config.up_row(button, spec_advanced(at, config.wait_ms as u128), up_pos);
    if state.pending(button) is None {
        assert(step.rows =~= seq![down, up]);
        assert(Seq::<EventView>::empty() + seq![down, up] =~= seq![down, up]);
    }
}

/// The click whose window has run out leaves alone, as the click of its slot.
///
/// When the slot of `button` holds a click whose window has run out and the
/// other two slots are empty, flushing the expired clicks emits exactly one
/// row: the `ButtonClick` of `button`, where the click was released, with all
/// three modes single. It is stamped as at its release, unless a row with a
/// later stamp has left since, whose stamp it then takes. The slot is empty
/// afterwards and the clock is where it was.
pub proof fn lemma_expired_click_leaves_alone(
    config: RecorderConfig,
    state: RecorderState,
    button: MouseButton,
    pending: PendingClick,
    now: u64,
)
    requires
        state.pending(button) == Some(pending),
        spec_elapsed_ms(now, pending.up_at_ms) > config.click_speed_ms,
        button == MouseButton::Left || state.pending(MouseButton::Left) is None,
        button == MouseButton::Right || state.pending(MouseButton::Right) is None,
        button == MouseButton::Middle || state.pending(MouseButton::Middle) is None,
    ensures
        ({
            let step = spec_flush_expired_pending_clicks(config, state, now);
            let at = spec_later_of(pending.synthetic_time_ms, state.last_row_ms);
            &&& step.rows == seq![config.click_row(button, ClickEdgeMode::Auto, at, pending.pos)]
            &&& step.rows[0].kind == (KindView::ButtonClick { button, patch: None })
            &&& step.rows[0].pos == pending.pos
            &&& state.last_row_ms <= pending.synthetic_time_ms ==> step.rows[0].ms_from_start
                == pending.synthetic_time_ms
            &&& step.rows[0].click_meta is Some
            &&& step.rows[0].click_meta->0.left_mode == ClickEdgeMode::Auto
            &&& step.rows[0].click_meta->0.right_mode == ClickEdgeMode::Auto
            &&& step.rows[0].click_meta->0.middle_mode == ClickEdgeMode::Auto
            &&& step.state.pending(MouseButton::Left) is None
            &&& step.state.pending(MouseButton::Right) is None
            &&& step.state.pending(MouseButton::Middle) is None
            &&& step.state.synthetic_time_ms == state.synthetic_time_ms
        }),
{
    let step = spec_flush_expired_pending_clicks(config, state, now);
    let at = spec_later_of(pending.synthetic_time_ms, state.last_row_ms);
    let a = spec_flush_expired_for_button(config, state, MouseButton::Left, now);
    let b = spec_flush_expired_for_button(config, a.state, MouseButton::Right, now);
    let c = spec_flush_expired_for_button(config, b.state, MouseButton::Middle, now);
    assert(step.rows == a.rows + b.rows + c.rows);
    assert(step.rows =~= seq![config.click_row(button, ClickEdgeMode::Auto, at, pending.pos)]);
}

/// A timeline that is in order stays in order through a tick whose rows are
/// in order and begin no earlier than the timeline ends.
///
/// With `lemma_rows_leave_in_order` this keeps the timeline of a session in
/// the order of its stamps, tick after tick: the floor of the next tick is
/// the stamp at which the timeline ends.
pub proof fn lemma_paced_rows_keep_timeline_in_order(
    timeline: Seq<EventView>,
    rows: Seq<EventView>,
    floor: u128,
    clock: u128,
)
    requires
        in_order(timeline),
        timeline.len() > 0 ==> timeline.last().ms_from_start <= floor,
        paced(rows, floor, clock),
    ensures
        in_order(appended(timeline, rows)),
        appended(timeline, rows).len() > 0 ==> appended(timeline, rows).last().ms_from_start <= last_stamp(
            rows,
            floor,
        ),
{
    lemma_append_keeps_order(timeline, rows);
}

/// What the recorder emits: a press, a release or a click without an image
/// yet, or a pointer sample placed at its point. It never emits a polyline.
pub open spec fn is_recorder_row(row: EventView) -> bool {
    match row.kind {
        KindView::Move { x, y } => row.pos == Some((x, y)) && row.click_meta is None,
        KindView::ButtonDown { patch, .. } => patch is None && row.click_meta is Some,
        KindView::ButtonUp { patch, .. } => patch is None && row.click_meta is Some,
        KindView::ButtonClick { patch, .. } => patch is None && row.click_meta is Some,
        _ => false,
    }
}

/// Every row of `rows` is one that the recorder emits.
pub open spec fn recorder_rows(rows: Seq<EventView>) -> bool {
    forall|i: int| 0 <= i < rows.len() ==> is_recorder_row(#[trigger] rows[i])
}

/// The recorder emits rows of its own kinds only, and so no polyline: a lone
/// sample is a `Move`, and polylines come of compaction alone.
pub proof fn lemma_recorder_emits_no_polyline(config: RecorderConfig, state: RecorderState, sample: TickSample)
    ensures
        recorder_rows(spec_tick(config, state, sample).rows),
        recorder_rows(spec_stop(config, state).rows),
{
    let a = spec_flush_expired_pending_clicks(config, state, sample.now_ms);
    lemma_flush_rows(config, state, sample.now_ms);
    let b = spec_button_edge(config, a.state, MouseButton::Left, sample);
    lemma_edge_rows(config, a.state, MouseButton::Left, sample);
    let c = spec_button_edge(config, b.state, MouseButton::Right, sample);
    lemma_edge_rows(config, b.state, MouseButton::Right, sample);
    let d = spec_button_edge(config, c.state, MouseButton::Middle, sample);
    lemma_edge_rows(config, c.state, MouseButton::Middle, sample);
    let e = spec_sample_path(config, d.state, sample.cursor);
    lemma_recorder_rows_concat(a.rows, b.rows);
    lemma_recorder_rows_concat(a.rows + b.rows, c.rows);
    lemma_recorder_rows_concat(a.rows + b.rows + c.rows, d.rows);
    lemma_recorder_rows_concat(a.rows + b.rows + c.rows + d.rows, e.rows);
    if state.enabled {
        assert(spec_tick(config, state, sample).rows == a.rows + b.rows + c.rows + d.rows + e.rows);
    }
}

proof fn lemma_recorder_rows_concat(first: Seq<EventView>, second: Seq<EventView>)
    requires
        recorder_rows(first),
        recorder_rows(second),
    ensures
        recorder_rows(first + second),
{
    let all = first + second;
    assert forall|i: int| 0 <= i < all.len() implies is_recorder_row(#[trigger] all[i]) by {
        if i < first.len() {
            assert(all[i] == first[i]);
        } else {
            assert(all[i] == second[i - first.len()]);
        }
    }
}

proof fn lemma_flush_rows(config: RecorderConfig, state: RecorderState, now: u64)
    ensures
        recorder_rows(spec_flush_expired_pending_clicks(config, state, now).rows),
        recorder_rows(spec_flush_all_pending_clicks(config, state).rows),
{
    let a = spec_flush_expired_for_button(config, state, MouseButton::Left, now);
    let b = spec_flush_expired_for_button(config, a.state, MouseButton::Right, now);
    let c = spec_flush_expired_for_button(config, b.state, MouseButton::Middle, now);
    lemma_recorder_rows_concat(a.rows, b.rows);
    lemma_recorder_rows_concat(a.rows + b.rows, c.rows);
    let x = spec_flush_pending_click_for_button(config, state, MouseButton::Left);
    let y = spec_flush_pending_click_for_button(config, x.state, MouseButton::Right);
    let z = spec_flush_pending_click_for_button(config, y.state, MouseButton::Middle);
    lemma_recorder_rows_concat(x.rows, y.rows);
    lemma_recorder_rows_concat(x.rows + y.rows, z.rows);
}

proof fn lemma_edge_rows(config: RecorderConfig, state: RecorderState, button: MouseButton, sample: TickSample)
    ensures
        recorder_rows(spec_button_edge(config, state, button, sample).rows),
        recorder_rows(spec_sample_path(config, state, sample.cursor).rows),
{
}

// ---------------------------------------------------------------------------
// Whole sessions
// ---------------------------------------------------------------------------

/// The timeline after the samples of a session were fed to the recorder one
/// by one, each tick appending its rows, and the state that the recorder is
/// left in.
pub open spec fn recorded(
    config: RecorderConfig,
    state: RecorderState,
    timeline: Seq<EventView>,
    samples: Seq<TickSample>,
) -> (RecorderState, Seq<EventView>)
    decreases samples.len(),
{
    if samples.len() == 0 {
        (state, timeline)
    } else {
        let step = spec_tick(config, state, samples[0]);
        recorded(config, step.state, appended(timeline, step.rows), samples.skip(1))
    }
}

/// The timeline of a whole session: the recorder starts, takes the samples,
/// and stops.
pub open spec fn session_timeline(
    config: RecorderConfig,
    before: RecorderState,
    cursor: Option<(i32, i32)>,
    samples: Seq<TickSample>,
) -> Seq<EventView> {
    let run = recorded(config, before.spec_started(cursor), Seq::empty(), samples);
    appended(run.1, spec_stop(config, run.0).rows)
}

/// The timeline ends no later than `floor`.
pub open spec fn ends_by(timeline: Seq<EventView>, floor: u128) -> bool {
    timeline.len() > 0 ==> timeline.last().ms_from_start <= floor
}

/// A timeline and the recorder that fills it agree: the recorder is sound,
/// the timeline is in the order of its stamps, and it ends no later than the
/// last row that left the recorder.
pub open spec fn keeps_pace(state: RecorderState, timeline: Seq<EventView>) -> bool {
    &&& state.sound()
    &&& in_order(timeline)
    &&& ends_by(timeline, state.last_row_ms)
}

/// A tick keeps the timeline in order.
///
/// When a timeline and its recorder agree, they agree again after the rows of
/// a tick were appended to the timeline, whatever the sample holds and
/// whatever the settings of that tick are.
pub proof fn lemma_tick_keeps_timeline_in_order(
    config: RecorderConfig,
    state: RecorderState,
    timeline: Seq<EventView>,
    sample: TickSample,
)
    requires
        keeps_pace(state, timeline),
    ensures
        keeps_pace(
            spec_tick(config, state, sample).state,
            appended(timeline, spec_tick(config, state, sample).rows),
        ),
{
    lemma_rows_leave_in_order(config, state, sample);
    let step = spec_tick(config, state, sample);
    lemma_paced_rows_keep_timeline_in_order(timeline, step.rows, state.last_row_ms, step.state.synthetic_time_ms);
}

/// The end of a recording keeps the timeline in order: when a timeline and
/// its recorder agree, they agree again after the rows that leave when the
/// recording stops were appended to the timeline.
pub proof fn lemma_stop_keeps_timeline_in_order(config: RecorderConfig, state: RecorderState, timeline: Seq<EventView>)
    requires
        keeps_pace(state, timeline),
    ensures
        keeps_pace(spec_stop(config, state).state, appended(timeline, spec_stop(config, state).rows)),
{
    lemma_last_rows_leave_in_order(config, state);
    let last = spec_stop(config, state);
    lemma_paced_rows_keep_timeline_in_order(timeline, last.rows, state.last_row_ms, last.state.synthetic_time_ms);
}

/// Rows keep the order when images are attached to them before they go into
/// the timeline.
///
/// Let a timeline and its recorder agree, let a step take its turn, and let
/// `shown` be the rows of the step as they are appended: as many, each with
/// the stamp of the row that it was made from. Then the recorder after the
/// step and the timeline with `shown` appended agree.
pub proof fn lemma_shown_rows_keep_timeline_in_order(
    before: RecorderState,
    step: Step,
    timeline: Seq<EventView>,
    shown: Seq<EventView>,
)
    requires
        keeps_pace(before, timeline),
        in_turn(before, step),
        shown.len() == step.rows.len(),
        forall|i: int| 0 <= i < shown.len() ==> (#[trigger] shown[i]).ms_from_start == step.rows[i].ms_from_start,
    ensures
        keeps_pace(step.state, appended(timeline, shown)),
{
    let hi = step.state.synthetic_time_ms;
    assert forall|i: int| 0 <= i < shown.len() implies before.last_row_ms <= (#[trigger] shown[i]).ms_from_start
        <= hi by {
        assert(before.last_row_ms <= step.rows[i].ms_from_start <= hi);
    }
    assert forall|i: int, j: int| 0 <= i <= j < shown.len() implies (#[trigger] shown[i]).ms_from_start <= (
    #[trigger] shown[j]).ms_from_start by {
        assert(step.rows[i].ms_from_start <= step.rows[j].ms_from_start);
    }
    if shown.len() > 0 {
        assert(shown.last().ms_from_start == step.rows.last().ms_from_start);
    }
    lemma_paced_rows_keep_timeline_in_order(timeline, shown, before.last_row_ms, hi);
}

proof fn lemma_recording_in_order(
    config: RecorderConfig,
    state: RecorderState,
    timeline: Seq<EventView>,
    samples: Seq<TickSample>,
)
    requires
        keeps_pace(state, timeline),
    ensures
        keeps_pace(recorded(config, state, timeline, samples).0, recorded(config, state, timeline, samples).1),
    decreases samples.len(),
{
    if samples.len() > 0 {
        let step = spec_tick(config, state, samples[0]);
        lemma_tick_keeps_timeline_in_order(config, state, timeline, samples[0]);
        lemma_recording_in_order(config, step.state, appended(timeline, step.rows), samples.skip(1));
    }
}

/// The timeline of every session is in the order of its stamps: whichever
/// buttons are pressed and released, in whatever order and however close in
/// time, in path mode or out of it.
pub proof fn lemma_session_in_order(
    config: RecorderConfig,
    before: RecorderState,
    cursor: Option<(i32, i32)>,
    samples: Seq<TickSample>,
)
    ensures
        in_order(session_timeline(config, before, cursor, samples)),
{
    let start = before.spec_started(cursor);
    lemma_session_starts_sound(before, cursor);
    lemma_recording_in_order(config, start, Seq::empty(), samples);
    let run = recorded(config, start, Seq::empty(), samples);
    lemma_stop_keeps_timeline_in_order(config, run.0, run.1);
}

// ---------------------------------------------------------------------------
// Gestures, tick by tick
// ---------------------------------------------------------------------------

/// Where a sample places the pointer: where it was read, else where it was last.
pub open spec fn sampled(cursor: Option<(i32, i32)>, last: (i32, i32)) -> (i32, i32) {
    match cursor {
        Some(at) => at,
        None => last,
    }
}

/// With one button in use and path mode off, a tick is what it does to that
/// button: its pending click leaves if its window has run out, its edge is
/// looked at, and the pointer is remembered.
proof fn lemma_single_button_tick(config: RecorderConfig, state: RecorderState, sample: TickSample, button: MouseButton)
    requires
        state.enabled,
        !config.mouse_path_enabled,
        state.only_uses(button),
        sample.only_uses(button),
    ensures
        ({
            let flushed = spec_flush_expired_for_button(config, state, button, sample.now_ms);
            let edge = spec_button_edge(config, flushed.state, button, sample);
            let at = sampled(sample.cursor, state.last_pos());
            &&& spec_tick(config, state, sample).rows == flushed.rows + edge.rows
            &&& spec_tick(config, state, sample).state == (RecorderState { last_x: at.0, last_y: at.1, ..edge.state })
            &&& spec_tick(config, state, sample).state.only_uses(button)
            &&& spec_tick(config, state, sample).state.enabled
        }),
{
    let now = sample.now_ms;
    let a = spec_flush_expired_pending_clicks(config, state, now);
    let own = spec_flush_expired_for_button(config, state, button, now);
    assert(state.spec_track(MouseButton::Left).pending_click is None || button == MouseButton::Left);
    assert(state.spec_track(MouseButton::Right).pending_click is None || button == MouseButton::Right);
    assert(state.spec_track(MouseButton::Middle).pending_click is None || button == MouseButton::Middle);
    assert(a.state == own.state);
    assert(a.rows =~= own.rows);
    assert forall|other: MouseButton| other != button implies !(#[trigger] a.state.spec_track(other)).down
        && a.state.spec_track(other).pending_click is None by {
        assert(a.state.spec_track(other) == state.spec_track(other));
    }
    let edge = spec_button_edge(config, a.state, button, sample);
    assert forall|other: MouseButton| other != button implies !(#[trigger] edge.state.spec_track(other)).down
        && edge.state.spec_track(other).pending_click is None by {
        assert(edge.state.spec_track(other) == a.state.spec_track(other));
    }
    let b = spec_button_edge(config, a.state, MouseButton::Left, sample);
    if button != MouseButton::Left {
        lemma_idle_edge_is_quiet(config, a.state, button, MouseButton::Left, sample);
    }
    let c = spec_button_edge(config, b.state, MouseButton::Right, sample);
    if button != MouseButton::Right {
        if button == MouseButton::Left {
            assert(b.state == edge.state);
        }
        lemma_idle_edge_is_quiet(config, b.state, button, MouseButton::Right, sample);
    }
    let d = spec_button_edge(config, c.state, MouseButton::Middle, sample);
    if button != MouseButton::Middle {
        lemma_idle_edge_is_quiet(config, c.state, button, MouseButton::Middle, sample);
    }
    assert(d.state == edge.state);
    assert(b.rows + c.rows + d.rows =~= edge.rows);
    let e = spec_sample_path(config, d.state, sample.cursor);
    assert(e.rows =~= Seq::<EventView>::empty());
    let step = spec_tick(config, state, sample);
    assert(step.rows =~= own.rows + edge.rows);
    assert(edge.state.last_pos() == state.last_pos());
    assert forall|other: MouseButton| other != button implies !(#[trigger] step.state.spec_track(other)).down
        && step.state.spec_track(other).pending_click is None by {
        assert(step.state.spec_track(other) == edge.state.spec_track(other));
    }
}

/// A lone click, tick by tick.
///
/// An enabled recorder, outside path mode, sees one button go down and up
/// again, within the deadzone and the hold limit, while the other buttons
/// rest and nothing is pending. The ticks of the press and of the release
/// emit nothing. The first tick after the click-speed window emits exactly
/// one `ButtonClick` row in mode `Auto`, at the place of the release.
pub proof fn lemma_click_tick_by_tick(
    config: RecorderConfig,
    state: RecorderState,
    button: MouseButton,
    press: TickSample,
    release: TickSample,
    later: TickSample,
)
    requires
        state.enabled,
        state.sound(),
        !config.mouse_path_enabled,
        state.only_uses(button),
        !state.spec_track(button).down,
        state.pending(button) is None,
        press.only_uses(button) && press.spec_is_down(button),
        release.only_uses(button) && !release.spec_is_down(button),
        later.only_uses(button) && !later.spec_is_down(button),
        !config.spec_splits(
            Some(sampled(press.cursor, state.last_pos())),
            Some(sampled(release.cursor, sampled(press.cursor, state.last_pos()))),
            spec_elapsed_ms(release.now_ms, press.now_ms),
        ),
        spec_elapsed_ms(later.now_ms, release.now_ms) > config.click_speed_ms,
    ensures
        ({
            let pressed = spec_tick(config, state, press);
            let released = spec_tick(config, pressed.state, release);
            let expired = spec_tick(config, released.state, later);
            let at = sampled(release.cursor, sampled(press.cursor, state.last_pos()));
            &&& pressed.rows == Seq::<EventView>::empty()
            &&& released.rows == Seq::<EventView>::empty()
            &&& expired.rows == seq![
                config.click_row(button, ClickEdgeMode::Auto, config.gesture_time(state), Some(at)),
            ]
            &&& expired.state.pending(button) is None
        }),
{
    lemma_single_button_tick(config, state, press, button);
    let pressed = spec_tick(config, state, press);
    lemma_single_button_tick(config, pressed.state, release, button);
    let released = spec_tick(config, pressed.state, release);
    lemma_single_button_tick(config, released.state, later, button);
    let expired = spec_tick(config, released.state, later);
    let at = sampled(release.cursor, sampled(press.cursor, state.last_pos()));
    let row = config.click_row(button, ClickEdgeMode::Auto, config.gesture_time(state), Some(at));
    assert(pressed.rows =~= Seq::<EventView>::empty());
    assert(released.rows =~= Seq::<EventView>::empty());
    assert(expired.rows =~= seq![row]);
}

/// A gesture that is no click, tick by tick.
///
/// An enabled recorder, outside path mode, sees one button go down and up
/// again, held too long or moved too far, while the other buttons rest and
/// nothing is pending. The tick of the press emits nothing, and the tick of
/// the release emits exactly one `ButtonDown` row at the place of the press
/// and one `ButtonUp` row at the place of the release. Nothing is pending
/// afterwards.
pub proof fn lemma_drag_tick_by_tick(
    config: RecorderConfig,
    state: RecorderState,
    button: MouseButton,
    press: TickSample,
    release: TickSample,
)
    requires
        state.enabled,
        !config.mouse_path_enabled,
        state.only_uses(button),
        !state.spec_track(button).down,
        state.pending(button) is None,
        press.only_uses(button) && press.spec_is_down(button),
        release.only_uses(button) && !release.spec_is_down(button),
        config.spec_splits(
            Some(sampled(press.cursor, state.last_pos())),
            Some(sampled(release.cursor, sampled(press.cursor, state.last_pos()))),
            spec_elapsed_ms(release.now_ms, press.now_ms),
        ),
    ensures
        ({
            let pressed = spec_tick(config, state, press);
            let released = spec_tick(config, pressed.state, release);
            let from = sampled(press.cursor, state.last_pos());
            let to = sampled(release.cursor, from);
            let at = config.gesture_time(state);
            &&& pressed.rows == Seq::<EventView>::empty()
            &&& released.rows == seq![
                config.down_row(button, at, Some(from)),
                config.up_row(button, spec_advanced(at, config.wait_ms as u128), Some(to)),
            ]
            &&& released.state.pending(button) is None
        }),
{
    lemma_single_button_tick(config, state, press, button);
    let pressed = spec_tick(config, state, press);
    lemma_single_button_tick(config, pressed.state, release, button);
    let released = spec_tick(config, pressed.state, release);
    let from = sampled(press.cursor, state.last_pos());
    let to = sampled(release.cursor, from);
    let at = config.gesture_time(state);
    assert(pressed.rows =~= Seq::<EventView>::empty());
    assert(released.rows =~= seq![
        config.down_row(button, at, Some(from)),
        config.up_row(button, spec_advanced(at, config.wait_ms as u128), Some(to)),
    ]);
}

/// A double click, tick by tick.
///
/// An enabled recorder, outside path mode, sees one button clicked twice,
/// each time within the deadzone and the hold limit, the second release
/// within the click-speed window of the first, while the other buttons rest
/// and nothing is pending. Only the tick of the second release emits a row:
/// exactly one `ButtonClick` row in mode `Double`. Nothing is pending
/// afterwards, so no single click follows.
pub proof fn lemma_double_click_tick_by_tick(
    config: RecorderConfig,
    state: RecorderState,
    button: MouseButton,
    first_press: TickSample,
    first_release: TickSample,
    second_press: TickSample,
    second_release: TickSample,
)
    requires
        state.enabled,
        !config.mouse_path_enabled,
        state.only_uses(button),
        !state.spec_track(button).down,
        state.pending(button) is None,
        first_press.only_uses(button) && first_press.spec_is_down(button),
        first_release.only_uses(button) && !first_release.spec_is_down(button),
        second_press.only_uses(button) && second_press.spec_is_down(button),
        second_release.only_uses(button) && !second_release.spec_is_down(button),
        first_release.now_ms <= second_press.now_ms <= second_release.now_ms,
        ({
            let a = sampled(first_press.cursor, state.last_pos());
            let b = sampled(first_release.cursor, a);
            let c = sampled(second_press.cursor, b);
            let d = sampled(second_release.cursor, c);
            &&& !config.spec_splits(Some(a), Some(b), spec_elapsed_ms(first_release.now_ms, first_press.now_ms))
            &&& !config.spec_splits(Some(c), Some(d), spec_elapsed_ms(second_release.now_ms, second_press.now_ms))
        }),
        spec_elapsed_ms(second_release.now_ms, first_release.now_ms) <= config.click_speed_ms,
    ensures
        ({
            let one = spec_tick(config, state, first_press);
            let two = spec_tick(config, one.state, first_release);
            let three = spec_tick(config, two.state, second_press);
            let four = spec_tick(config, three.state, second_release);
            &&& one.rows == Seq::<EventView>::empty()
            &&& two.rows == Seq::<EventView>::empty()
            &&& three.rows == Seq::<EventView>::empty()
            &&& four.rows.len() == 1
            &&& four.rows[0].kind == (KindView::ButtonClick { button, patch: None })
            &&& four.rows[0].click_meta == Some(config.spec_recorded_click_meta(button, ClickEdgeMode::Double))
            &&& four.rows[0].pos == Some(
                sampled(
                    second_release.cursor,
                    sampled(
                        second_press.cursor,
                        sampled(first_release.cursor, sampled(first_press.cursor, state.last_pos())),
                    ),
                ),
            )
            &&& four.state.pending(button) is None
        }),
{
    lemma_single_button_tick(config, state, first_press, button);
    let one = spec_tick(config, state, first_press);
    lemma_single_button_tick(config, one.state, first_release, button);
    let two = spec_tick(config, one.state, first_release);
    lemma_single_button_tick(config, two.state, second_press, button);
    let three = spec_tick(config, two.state, second_press);
    lemma_single_button_tick(config, three.state, second_release, button);
    let four = spec_tick(config, three.state, second_release);
    assert(one.rows =~= Seq::<EventView>::empty());
    assert(two.rows =~= Seq::<EventView>::empty());
    assert(two.state.pending(button) is Some);
    assert(two.state.pending(button)->0.up_at_ms == first_release.now_ms);
    assert(three.rows =~= Seq::<EventView>::empty());
    assert(three.state.pending(button) == two.state.pending(button));
}

} // verus!

