//! The recorder: a state machine that turns polled samples of the pointer and
//! of the three buttons into timeline rows.
//!
//! The recorder never reads a clock or the screen itself. Each sample carries
//! the wall time in milliseconds, and rows leave without an image: the caller
//! captures one where `capture_request` asks for it.
//!
//! Rows leave in the order of their stamps. A click that has waited for a
//! second release keeps the stamp of its release, unless rows of another
//! button have left in the meantime: then it is stamped as the last of them.

use vstd::prelude::*;
use crate::model::{
    ClickEdgeMode, ClickListMeta, EventView, KindView, MouseButton, RecordedEvent,
    RecordedEventKind, patch_view, timeline_view,
};
use crate::recorder::laws::{
    in_turn, lemma_clock_never_runs_back, lemma_last_rows_leave_in_order, lemma_rows_leave_in_order,
    lemma_session_starts_sound,
};

pub mod laws;

verus! {

/// The settings a recording session runs with.
#[derive(Debug, Clone, Copy, PartialEq, Eq, Structural)]
pub struct RecorderConfig {
    /// Advance of the synthetic clock per recorded gesture, and the wait stored in each row.
    pub wait_ms: u16,
    /// Two releases at most this far apart make a double click.
    pub click_speed_ms: u16,
    pub mouse_move_speed_ms: u16,
    /// A gesture that moves further than this on either axis is no click.
    pub click_split_px: u16,
    /// A gesture held longer than this is no click.
    pub click_max_hold_ms: u16,
    pub use_find_image: bool,
    pub target_precision_percent: u16,
    pub target_timeout_ms: u16,
    /// Path mode: every press and release is its own row and the pointer is sampled.
    pub mouse_path_enabled: bool,
    /// In path mode, the least movement on either axis that is sampled.
    pub mouse_path_min_delta_px: u16,
}

/// A click candidate that waits for a second release, in the slot of its button.
#[derive(Debug, Clone, Copy, PartialEq, Eq)]
pub struct PendingClick {
    /// The button that was clicked: the button of the slot that holds the click.
    pub button: MouseButton,
    pub pos: Option<(i32, i32)>,
    /// Wall time of the release.
    pub up_at_ms: u64,
    /// Synthetic clock at the release.
    pub synthetic_time_ms: u128,
}

/// What the recorder remembers of one button.
#[derive(Debug, Clone, Copy, PartialEq, Eq)]
pub struct ButtonTrack {
    pub down: bool,
    pub down_pos: Option<(i32, i32)>,
    pub down_at_ms: Option<u64>,
    pub pending_click: Option<PendingClick>,
}

/// The state of one recording session.
#[derive(Debug, Clone, Copy, PartialEq, Eq)]
pub struct RecorderState {
    pub enabled: bool,
    pub last_x: i32,
    pub last_y: i32,
    pub left: ButtonTrack,
    pub right: ButtonTrack,
    pub middle: ButtonTrack,
    pub started_by_click: bool,
    pub last_click_pos: Option<(i32, i32)>,
    /// The synthetic clock. It moves only when a row is produced.
    pub synthetic_time_ms: u128,
    /// The stamp of the last row that left, zero before the first.
    pub last_row_ms: u128,
}

/// One polled sample.
#[derive(Debug, Clone, Copy, PartialEq, Eq)]
pub struct TickSample {
    /// The pointer, or `None` when it could not be read.
    pub cursor: Option<(i32, i32)>,
    pub left_down: bool,
    pub right_down: bool,
    pub middle_down: bool,
    /// Wall time in milliseconds on a clock that does not run backwards.
    pub now_ms: u64,
}

impl TickSample {
    pub open spec fn spec_is_down(self, button: MouseButton) -> bool {
        match button {
            MouseButton::Left => self.left_down,
            MouseButton::Right => self.right_down,
            MouseButton::Middle => self.middle_down,
        }
    }

    #[verifier::when_used_as_spec(spec_is_down)]
    pub fn is_down(self, button: MouseButton) -> (down: bool)
        ensures
            down == self.spec_is_down(button),
    {
        match button {
            MouseButton::Left => self.left_down,
            MouseButton::Right => self.right_down,
            MouseButton::Middle => self.middle_down,
        }
    }
}

// ---------------------------------------------------------------------------
// Small arithmetic
// ---------------------------------------------------------------------------

/// Milliseconds from `then` to `now`, zero if `then` is the later one.
pub open spec fn spec_elapsed_ms(now: u64, then: u64) -> u64 {
    if now >= then {
        (now - then) as u64
    } else {
        0
    }
}

#[verifier::when_used_as_spec(spec_elapsed_ms)]
pub fn elapsed_ms(now: u64, then: u64) -> (ms: u64)
    ensures
        ms == spec_elapsed_ms(now, then),
{
    if now >= then {
        now - then
    } else {
        0
    }
}

/// The distance between two coordinates on one axis.
pub open spec fn spec_axis_distance(a: i32, b: i32) -> int {
    if a >= b {
        a - b
    } else {
        b - a
    }
}

pub fn axis_distance(a: i32, b: i32) -> (d: i64)
    ensures
        d == spec_axis_distance(a, b),
{
    if a >= b {
        a as i64 - b as i64
    } else {
        b as i64 - a as i64
    }
}

/// Whether the pointer went further than `px` on either axis between two
/// positions. An unknown position counts as no movement.
pub open spec fn spec_moved_beyond(from: Option<(i32, i32)>, to: Option<(i32, i32)>, px: u16) -> bool {
    match (from, to) {
        (Some(d), Some(u)) => spec_axis_distance(u.0, d.0) > px || spec_axis_distance(u.1, d.1) > px,
        _ => false,
    }
}

#[verifier::when_used_as_spec(spec_moved_beyond)]
pub fn moved_beyond(from: Option<(i32, i32)>, to: Option<(i32, i32)>, px: u16) -> (moved: bool)
    ensures
        moved == spec_moved_beyond(from, to, px),
{
    match (from, to) {
        (Some(d), Some(u)) => axis_distance(u.0, d.0) > px as i64 || axis_distance(u.1, d.1) > px as i64,
        _ => false,
    }
}

/// Whether the pointer went at least `px` on either axis between two positions.
pub open spec fn spec_moved_at_least(from: (i32, i32), to: (i32, i32), px: u16) -> bool {
    spec_axis_distance(to.0, from.0) >= px || spec_axis_distance(to.1, from.1) >= px
}

#[verifier::when_used_as_spec(spec_moved_at_least)]
pub fn moved_at_least(from: (i32, i32), to: (i32, i32), px: u16) -> (moved: bool)
    ensures
        moved == spec_moved_at_least(from, to, px),
{
    axis_distance(to.0, from.0) >= px as i64 || axis_distance(to.1, from.1) >= px as i64
}

/// The clock after an advance by `by`, held at the largest value it can take.
pub open spec fn spec_advanced(clock: u128, by: u128) -> u128 {
    if clock + by > u128::MAX {
        u128::MAX
    } else {
        (clock + by) as u128
    }
}

#[verifier::when_used_as_spec(spec_advanced)]
pub fn advanced(clock: u128, by: u128) -> (later: u128)
    ensures
        later == spec_advanced(clock, by),
        later >= clock,
{
    if clock > u128::MAX - by {
        u128::MAX
    } else {
        clock + by
    }
}

/// The later of two stamps.
pub open spec fn spec_later_of(a: u128, b: u128) -> u128 {
    if a >= b {
        a
    } else {
        b
    }
}

#[verifier::when_used_as_spec(spec_later_of)]
pub fn later_of(a: u128, b: u128) -> (later: u128)
    ensures
        later == spec_later_of(a, b),
{
    if a >= b {
        a
    } else {
        b
    }
}

/// The first position if it is known, else the second.
pub open spec fn spec_first_known(a: Option<(i32, i32)>, b: Option<(i32, i32)>) -> Option<(i32, i32)> {
    if a is Some {
        a
    } else {
        b
    }
}

#[verifier::when_used_as_spec(spec_first_known)]
pub fn first_known(a: Option<(i32, i32)>, b: Option<(i32, i32)>) -> (p: Option<(i32, i32)>)
    ensures
        p == spec_first_known(a, b),
{
    match a {
        Some(_) => a,
        None => b,
    }
}

// ---------------------------------------------------------------------------
// Rows
// ---------------------------------------------------------------------------

impl RecorderConfig {
    /// The settings stored beside a recorded row of `button` that is replayed as `mode`.
    pub open spec fn spec_recorded_click_meta(self, button: MouseButton, mode: ClickEdgeMode) -> ClickListMeta {
        ClickListMeta {
            left_mode: if button == MouseButton::Left { mode } else { ClickEdgeMode::Auto },
            right_mode: if button == MouseButton::Right { mode } else { ClickEdgeMode::Auto },
            middle_mode: if button == MouseButton::Middle { mode } else { ClickEdgeMode::Auto },
            wait_ms: self.wait_ms,
            click_speed_ms: if self.click_speed_ms > 100 { 100 } else { self.click_speed_ms },
            mouse_move_speed_ms: if self.mouse_move_speed_ms < 5 {
                5
            } else if self.mouse_move_speed_ms > 50 {
                50
            } else {
                self.mouse_move_speed_ms
            },
            use_find_image: self.use_find_image,
            target_precision_permille: if self.target_precision_percent < 50 {
                500
            } else if self.target_precision_percent > 100 {
                1000
            } else {
                (self.target_precision_percent * 10) as u16
            },
            target_timeout_ms: if self.target_timeout_ms < 200 {
                200
            } else if self.target_timeout_ms > 10000 {
                10000
            } else {
                self.target_timeout_ms as u64
            },
        }
    }

    #[verifier::when_used_as_spec(spec_recorded_click_meta)]
    pub fn recorded_click_meta(self, button: MouseButton, mode: ClickEdgeMode) -> (meta: ClickListMeta)
        ensures
            meta == self.spec_recorded_click_meta(button, mode),
    {
        let meta = ClickListMeta {
            left_mode: ClickEdgeMode::Auto,
            right_mode: ClickEdgeMode::Auto,
            middle_mode: ClickEdgeMode::Auto,
            wait_ms: self.wait_ms,
            click_speed_ms: if self.click_speed_ms > 100 { 100 } else { self.click_speed_ms },
            mouse_move_speed_ms: if self.mouse_move_speed_ms < 5 {
                5
            } else if self.mouse_move_speed_ms > 50 {
                50
            } else {
                self.mouse_move_speed_ms
            },
            use_find_image: self.use_find_image,
            target_precision_permille: if self.target_precision_percent < 50 {
                500
            } else if self.target_precision_percent > 100 {
                1000
            } else {
                self.target_precision_percent * 10
            },
            target_timeout_ms: if self.target_timeout_ms < 200 {
                200
            } else if self.target_timeout_ms > 10000 {
                10000
            } else {
                self.target_timeout_ms as u64
            },
        };
        meta.with_mode(button, mode)
    }

    /// The row of a press of `button`.
    pub open spec fn down_row(self, button: MouseButton, at: u128, pos: Option<(i32, i32)>) -> EventView {
        EventView {
            ms_from_start: at,
            kind: KindView::ButtonDown { button, patch: None },
            pos,
            click_meta: Some(self.spec_recorded_click_meta(button, ClickEdgeMode::Down)),
        }
    }

    /// The row of a release of `button`.
    pub open spec fn up_row(self, button: MouseButton, at: u128, pos: Option<(i32, i32)>) -> EventView {
        EventView {
            ms_from_start: at,
            kind: KindView::ButtonUp { button, patch: None },
            pos,
            click_meta: Some(self.spec_recorded_click_meta(button, ClickEdgeMode::Up)),
        }
    }

    /// The row of a click of `button`, single (`Auto`) or double.
    pub open spec fn click_row(
        self,
        button: MouseButton,
        mode: ClickEdgeMode,
        at: u128,
        pos: Option<(i32, i32)>,
    ) -> EventView {
        EventView {
            ms_from_start: at,
            kind: KindView::ButtonClick { button, patch: None },
            pos,
            click_meta: Some(self.spec_recorded_click_meta(button, mode)),
        }
    }

    /// The single click that the click waiting in the slot of `button`
    /// becomes when nothing follows it: a click of that button where it was
    /// released, stamped as at its release, but no earlier than `floor`, the
    /// stamp of the last row that left before it.
    pub open spec fn single_click_row(self, button: MouseButton, pending: PendingClick, floor: u128) -> EventView {
        self.click_row(button, ClickEdgeMode::Auto, spec_later_of(pending.synthetic_time_ms, floor), pending.pos)
    }

    fn make_down_row(&self, button: MouseButton, at: u128, pos: Option<(i32, i32)>) -> (row: RecordedEvent)
        ensures
            row@ == self.down_row(button, at, pos),
    {
        RecordedEvent {
            ms_from_start: at,
            kind: RecordedEventKind::ButtonDown { button, patch_png_base64: None },
            pos,
            click_meta: Some(self.recorded_click_meta(button, ClickEdgeMode::Down)),
        }
    }

    fn make_up_row(&self, button: MouseButton, at: u128, pos: Option<(i32, i32)>) -> (row: RecordedEvent)
        ensures
            row@ == self.up_row(button, at, pos),
    {
        RecordedEvent {
            ms_from_start: at,
            kind: RecordedEventKind::ButtonUp { button, patch_png_base64: None },
            pos,
            click_meta: Some(self.recorded_click_meta(button, ClickEdgeMode::Up)),
        }
    }

    fn make_click_row(
        &self,
        button: MouseButton,
        mode: ClickEdgeMode,
        at: u128,
        pos: Option<(i32, i32)>,
    ) -> (row: RecordedEvent)
        ensures
            row@ == self.click_row(button, mode, at, pos),
    {
        RecordedEvent {
            ms_from_start: at,
            kind: RecordedEventKind::ButtonClick { button, patch_png_base64: None },
            pos,
            click_meta: Some(self.recorded_click_meta(button, mode)),
        }
    }
}

/// The row of a pointer sample.
pub open spec fn move_row(at: u128, pos: (i32, i32)) -> EventView {
    EventView {
        ms_from_start: at,
        kind: KindView::Move { x: pos.0, y: pos.1 },
        pos: Some(pos),
        click_meta: None,
    }
}

/// Appends `row` to `pushed`.
fn emit(pushed: &mut Vec<RecordedEvent>, row: RecordedEvent)
    ensures
        timeline_view(final(pushed)@) == timeline_view(old(pushed)@).push(row@),
{
    proof {
        assert(timeline_view(pushed@.push(row)) =~= timeline_view(pushed@).push(row@));
    }
    pushed.push(row);
}

// ---------------------------------------------------------------------------
// State
// ---------------------------------------------------------------------------

impl ButtonTrack {
    /// A button that is up, with nothing pending.
    pub open spec fn spec_idle() -> ButtonTrack {
        ButtonTrack { down: false, down_pos: None, down_at_ms: None, pending_click: None }
    }

    #[verifier::when_used_as_spec(spec_idle)]
    pub fn idle() -> (track: ButtonTrack)
        ensures
            track == ButtonTrack::spec_idle(),
    {
        ButtonTrack { down: false, down_pos: None, down_at_ms: None, pending_click: None }
    }
}

impl RecorderState {
    /// A recorder that is switched off and remembers nothing.
    pub open spec fn spec_stopped() -> RecorderState {
        RecorderState {
            enabled: false,
            last_x: 0,
            last_y: 0,
            left: ButtonTrack::spec_idle(),
            right: ButtonTrack::spec_idle(),
            middle: ButtonTrack::spec_idle(),
            started_by_click: false,
            last_click_pos: None,
            synthetic_time_ms: 0,
            last_row_ms: 0,
        }
    }

    /// The state in which a session starts: switched on, clock at zero, all
    /// buttons up, and the pointer where it was last seen unless `cursor` is known.
    pub open spec fn spec_started(self, cursor: Option<(i32, i32)>) -> RecorderState {
        RecorderState {
            enabled: true,
            last_x: match cursor {
                Some(at) => at.0,
                None => self.last_x,
            },
            last_y: match cursor {
                Some(at) => at.1,
                None => self.last_y,
            },
            ..RecorderState::spec_stopped()
        }
    }

    pub open spec fn spec_track(self, button: MouseButton) -> ButtonTrack {
        match button {
            MouseButton::Left => self.left,
            MouseButton::Right => self.right,
            MouseButton::Middle => self.middle,
        }
    }

    #[verifier::when_used_as_spec(spec_track)]
    pub fn track(self, button: MouseButton) -> (track: ButtonTrack)
        ensures
            track == self.spec_track(button),
    {
        match button {
            MouseButton::Left => self.left,
            MouseButton::Right => self.right,
            MouseButton::Middle => self.middle,
        }
    }

    /// The same state with what is remembered of `button` replaced.
    pub open spec fn with_track(self, button: MouseButton, track: ButtonTrack) -> RecorderState {
        match button {
            MouseButton::Left => RecorderState { left: track, ..self },
            MouseButton::Right => RecorderState { right: track, ..self },
            MouseButton::Middle => RecorderState { middle: track, ..self },
        }
    }

    fn set_track(&mut self, button: MouseButton, track: ButtonTrack)
        ensures
            *final(self) == old(self).with_track(button, track),
    {
        match button {
            MouseButton::Left => self.left = track,
            MouseButton::Right => self.right = track,
            MouseButton::Middle => self.middle = track,
        }
    }

    /// The click of `button` that waits for a second release, if any.
    pub open spec fn pending(self, button: MouseButton) -> Option<PendingClick> {
        self.spec_track(button).pending_click
    }

    /// The same state with the pending click of `button` replaced.
    pub open spec fn with_pending(self, button: MouseButton, pending: Option<PendingClick>) -> RecorderState {
        self.with_track(button, ButtonTrack { pending_click: pending, ..self.spec_track(button) })
    }

    fn set_pending(&mut self, button: MouseButton, pending: Option<PendingClick>)
        ensures
            *final(self) == old(self).with_pending(button, pending),
    {
        let mut track = self.track(button);
        track.pending_click = pending;
        self.set_track(button, track);
    }

    /// The pointer as it was last sampled.
    pub open spec fn last_pos(self) -> (i32, i32) {
        (self.last_x, self.last_y)
    }

    #[verifier::when_used_as_spec(spec_stopped)]
    pub fn stopped() -> (state: RecorderState)
        ensures
            state == RecorderState::spec_stopped(),
    {
        RecorderState {
            enabled: false,
            last_x: 0,
            last_y: 0,
            left: ButtonTrack::idle(),
            right: ButtonTrack::idle(),
            middle: ButtonTrack::idle(),
            started_by_click: false,
            last_click_pos: None,
            synthetic_time_ms: 0,
            last_row_ms: 0,
        }
    }

    /// Starts a session: the clock goes back to zero and everything that was
    /// remembered of the buttons is dropped. The state is sound, and no row
    /// has left.
    pub fn start(&mut self, cursor: Option<(i32, i32)>)
        ensures
            *final(self) == old(self).spec_started(cursor),
            final(self).sound(),
            final(self).last_row_ms == 0,
    {
        proof {
            lemma_session_starts_sound(*self, cursor);
        }
        let mut fresh = RecorderState::stopped();
        fresh.enabled = true;
        fresh.last_x = self.last_x;
        fresh.last_y = self.last_y;
        if let Some((x, y)) = cursor {
            fresh.last_x = x;
            fresh.last_y = y;
        }
        *self = fresh;
    }
}

impl Default for RecorderState {
    fn default() -> (state: RecorderState)
        ensures
            state == RecorderState::spec_stopped(),
    {
        RecorderState::stopped()
    }
}

/// What one operation of the recorder does: the state it leaves and the rows it emits.
pub struct Step {
    pub state: RecorderState,
    pub rows: Seq<EventView>,
}

impl Step {
    /// A step that emits nothing.
    pub open spec fn quiet(state: RecorderState) -> Step {
        Step { state, rows: Seq::empty() }
    }

    /// This step followed by the one that `next` makes of the state it leaves.
    pub open spec fn followed_by(self, next: spec_fn(RecorderState) -> Step) -> Step {
        let after = next(self.state);
        Step { state: after.state, rows: self.rows + after.rows }
    }
}

// ---------------------------------------------------------------------------
// Pending clicks
// ---------------------------------------------------------------------------

/// Emits the click that waits in the slot of `button`, if there is one, as a
/// single click of that button. It keeps the stamp of its release unless a
/// row with a later stamp has left since: then it takes the stamp of that row,
/// so that rows leave in the order of their stamps.
pub open spec fn spec_flush_pending_click_for_button(
    config: RecorderConfig,
    state: RecorderState,
    button: MouseButton,
) -> Step {
    match state.pending(button) {
        Some(pending) => {
            let row = config.single_click_row(button, pending, state.last_row_ms);
            Step {
                state: RecorderState { last_row_ms: row.ms_from_start, ..state.with_pending(button, None) },
                rows: seq![row],
            }
        },
        None => Step::quiet(state),
    }
}

/// Emits the pending click of `button` as a single click if its window has run out at `now`.
pub open spec fn spec_flush_expired_for_button(
    config: RecorderConfig,
    state: RecorderState,
    button: MouseButton,
    now: u64,
) -> Step {
    match state.pending(button) {
        Some(pending) => if spec_elapsed_ms(now, pending.up_at_ms) > config.click_speed_ms {
            spec_flush_pending_click_for_button(config, state, button)
        } else {
            Step::quiet(state)
        },
        None => Step::quiet(state),
    }
}

/// Emits every pending click whose window has run out at `now`: left, right, middle.
pub open spec fn spec_flush_expired_pending_clicks(config: RecorderConfig, state: RecorderState, now: u64) -> Step {
    spec_flush_expired_for_button(config, state, MouseButton::Left, now).followed_by(
        |s: RecorderState| spec_flush_expired_for_button(config, s, MouseButton::Right, now),
    ).followed_by(|s: RecorderState| spec_flush_expired_for_button(config, s, MouseButton::Middle, now))
}

/// Emits every pending click: left, right, middle.
pub open spec fn spec_flush_all_pending_clicks(config: RecorderConfig, state: RecorderState) -> Step {
    spec_flush_pending_click_for_button(config, state, MouseButton::Left).followed_by(
        |s: RecorderState| spec_flush_pending_click_for_button(config, s, MouseButton::Right),
    ).followed_by(|s: RecorderState| spec_flush_pending_click_for_button(config, s, MouseButton::Middle))
}

impl RecorderConfig {
    /// Emits the pending click of `button`, if there is one, as a single click.
    pub fn flush_pending_click_for_button(
        &self,
        state: &mut RecorderState,
        pushed: &mut Vec<RecordedEvent>,
        button: MouseButton,
    )
        ensures
            *final(state) == spec_flush_pending_click_for_button(*self, *old(state), button).state,
            timeline_view(final(pushed)@) == timeline_view(old(pushed)@)
                + spec_flush_pending_click_for_button(*self, *old(state), button).rows,
    {
        let track = state.track(button);
        match track.pending_click {
            Some(pending) => {
                let at = later_of(pending.synthetic_time_ms, state.last_row_ms);
                state.set_pending(button, None);
                state.last_row_ms = at;
                let row = self.make_click_row(button, ClickEdgeMode::Auto, at, pending.pos);
                emit(pushed, row);
                assert(timeline_view(old(pushed)@).push(row@) =~= timeline_view(old(pushed)@) + seq![row@]);
            },
            None => {
                assert(timeline_view(pushed@) =~= timeline_view(pushed@) + Seq::<EventView>::empty());
            },
        }
    }

    fn flush_expired_for_button(
        &self,
        state: &mut RecorderState,
        pushed: &mut Vec<RecordedEvent>,
        button: MouseButton,
        now: u64,
    )
        ensures
            *final(state) == spec_flush_expired_for_button(*self, *old(state), button, now).state,
            timeline_view(final(pushed)@) == timeline_view(old(pushed)@)
                + spec_flush_expired_for_button(*self, *old(state), button, now).rows,
    {
        let track = state.track(button);
        match track.pending_click {
            Some(pending) => {
                if elapsed_ms(now, pending.up_at_ms) > self.click_speed_ms as u64 {
                    self.flush_pending_click_for_button(state, pushed, button);
                } else {
                    assert(timeline_view(pushed@) =~= timeline_view(pushed@) + Seq::<EventView>::empty());
                }
            },
            None => {
                assert(timeline_view(pushed@) =~= timeline_view(pushed@) + Seq::<EventView>::empty());
            },
        }
    }

    /// Emits every pending click whose window has run out at `now`.
    pub fn flush_expired_pending_clicks(
        &self,
        state: &mut RecorderState,
        pushed: &mut Vec<RecordedEvent>,
        now: u64,
    )
        ensures
            *final(state) == spec_flush_expired_pending_clicks(*self, *old(state), now).state,
            timeline_view(final(pushed)@) == timeline_view(old(pushed)@)
                + spec_flush_expired_pending_clicks(*self, *old(state), now).rows,
    {
        let ghost before = timeline_view(pushed@);
        let ghost a = spec_flush_expired_for_button(*self, *state, MouseButton::Left, now);
        self.flush_expired_for_button(state, pushed, MouseButton::Left, now);
        let ghost b = spec_flush_expired_for_button(*self, *state, MouseButton::Right, now);
        self.flush_expired_for_button(state, pushed, MouseButton::Right, now);
        let ghost c = spec_flush_expired_for_button(*self, *state, MouseButton::Middle, now);
        self.flush_expired_for_button(state, pushed, MouseButton::Middle, now);
        assert(before + a.rows + b.rows + c.rows =~= before + (a.rows + b.rows + c.rows));
    }

    /// Emits every pending click, as happens when recording stops.
    pub fn flush_all_pending_clicks(&self, state: &mut RecorderState, pushed: &mut Vec<RecordedEvent>)
        ensures
            *final(state) == spec_flush_all_pending_clicks(*self, *old(state)).state,
            timeline_view(final(pushed)@) == timeline_view(old(pushed)@)
                + spec_flush_all_pending_clicks(*self, *old(state)).rows,
    {
        let ghost before = timeline_view(pushed@);
        let ghost a = spec_flush_pending_click_for_button(*self, *state, MouseButton::Left);
        self.flush_pending_click_for_button(state, pushed, MouseButton::Left);
        let ghost b = spec_flush_pending_click_for_button(*self, *state, MouseButton::Right);
        self.flush_pending_click_for_button(state, pushed, MouseButton::Right);
        let ghost c = spec_flush_pending_click_for_button(*self, *state, MouseButton::Middle);
        self.flush_pending_click_for_button(state, pushed, MouseButton::Middle);
        assert(before + a.rows + b.rows + c.rows =~= before + (a.rows + b.rows + c.rows));
    }
}

// ---------------------------------------------------------------------------
// Gestures
// ---------------------------------------------------------------------------

impl RecorderConfig {
    /// The synthetic time of a gesture that ends in `state`: the first gesture
    /// of a session takes the clock as it stands, each later one advances it
    /// by the inter-row wait.
    pub open spec fn gesture_time(self, state: RecorderState) -> u128 {
        if state.started_by_click {
            spec_advanced(state.synthetic_time_ms, self.wait_ms as u128)
        } else {
            state.synthetic_time_ms
        }
    }

    /// Whether a gesture is no click: it moved beyond the deadzone or was held too long.
    pub open spec fn spec_splits(self, down_pos: Option<(i32, i32)>, up_pos: Option<(i32, i32)>, held_ms: u64) -> bool {
        spec_moved_beyond(down_pos, up_pos, self.click_split_px) || held_ms > self.click_max_hold_ms
    }

    #[verifier::when_used_as_spec(spec_splits)]
    pub fn splits(self, down_pos: Option<(i32, i32)>, up_pos: Option<(i32, i32)>, held_ms: u64) -> (split: bool)
        ensures
            split == self.spec_splits(down_pos, up_pos, held_ms),
    {
        moved_beyond(down_pos, up_pos, self.click_split_px) || held_ms > self.click_max_hold_ms as u64
    }
}

/// A release of `button` outside path mode.
///
/// A gesture that is no click flushes the pending click of the button and
/// emits a press row and, one inter-row wait later on the synthetic clock, a
/// release row. A click candidate that follows a pending click within the
/// click-speed window makes one double click with it. Any other candidate
/// becomes the pending click, after an older one has left as a single click.
/// The stamp of the last row that leaves is remembered.
pub open spec fn spec_push_recorded_button_release(
    config: RecorderConfig,
    state: RecorderState,
    down_pos: Option<(i32, i32)>,
    up_pos: Option<(i32, i32)>,
    held_ms: u64,
    button: MouseButton,
    now: u64,
) -> Step {
    let at = config.gesture_time(state);
    let release_pos = spec_first_known(up_pos, down_pos);
    let timed = RecorderState {
        started_by_click: true,
        synthetic_time_ms: at,
        last_click_pos: release_pos,
        ..state
    };
    let candidate = PendingClick { button, pos: release_pos, up_at_ms: now, synthetic_time_ms: at };
    if config.spec_splits(down_pos, up_pos, held_ms) {
        let flushed = spec_flush_pending_click_for_button(config, timed, button);
        let up_at = spec_advanced(at, config.wait_ms as u128);
        Step {
            state: RecorderState { synthetic_time_ms: up_at, last_row_ms: up_at, ..flushed.state },
            rows: flushed.rows + seq![
                config.down_row(button, at, down_pos),
                config.up_row(button, up_at, up_pos),
            ],
        }
    } else {
        match state.pending(button) {
            Some(previous) => if spec_elapsed_ms(now, previous.up_at_ms) <= config.click_speed_ms {
                Step {
                    state: RecorderState { last_row_ms: at, ..timed.with_pending(button, None) },
                    rows: seq![config.click_row(button, ClickEdgeMode::Double, at, release_pos)],
                }
            } else {
                let flushed = spec_flush_pending_click_for_button(config, timed, button);
                Step { state: flushed.state.with_pending(button, Some(candidate)), rows: flushed.rows }
            },
            None => Step::quiet(timed.with_pending(button, Some(candidate))),
        }
    }
}

/// The clock of a row in path mode: the first row of a session takes the clock
/// as it stands, each later one advances it by one.
pub open spec fn path_time(state: RecorderState) -> u128 {
    if state.started_by_click {
        spec_advanced(state.synthetic_time_ms, 1)
    } else {
        state.synthetic_time_ms
    }
}

/// A press of `button` in path mode: the pending click of the button leaves as
/// a single click, then the press is a row of its own.
pub open spec fn spec_push_recorded_button_down_for_path(
    config: RecorderConfig,
    state: RecorderState,
    down_pos: Option<(i32, i32)>,
    button: MouseButton,
) -> Step {
    let flushed = spec_flush_pending_click_for_button(config, state, button);
    let at = path_time(flushed.state);
    Step {
        state: RecorderState { started_by_click: true, synthetic_time_ms: at, last_row_ms: at, ..flushed.state },
        rows: flushed.rows + seq![config.down_row(button, at, down_pos)],
    }
}

/// A release of `button` in path mode: a row of its own.
pub open spec fn spec_push_recorded_button_up_for_path(
    config: RecorderConfig,
    state: RecorderState,
    up_pos: Option<(i32, i32)>,
    button: MouseButton,
) -> Step {
    let at = path_time(state);
    Step {
        state: RecorderState {
            started_by_click: true,
            synthetic_time_ms: at,
            last_row_ms: at,
            last_click_pos: up_pos,
            ..state
        },
        rows: seq![config.up_row(button, at, up_pos)],
    }
}

impl RecorderConfig {
    /// Records a release of `button` outside path mode.
    pub fn push_recorded_button_release(
        &self,
        state: &mut RecorderState,
        pushed: &mut Vec<RecordedEvent>,
        down_pos: Option<(i32, i32)>,
        up_pos: Option<(i32, i32)>,
        held_ms: u64,
        button: MouseButton,
        now: u64,
    )
        ensures
            *final(state) == spec_push_recorded_button_release(
                *self,
                *old(state),
                down_pos,
                up_pos,
                held_ms,
                button,
                now,
            ).state,
            timeline_view(final(pushed)@) == timeline_view(old(pushed)@)
                + spec_push_recorded_button_release(
                *self,
                *old(state),
                down_pos,
                up_pos,
                held_ms,
                button,
                now,
            ).rows,
    {
        let ghost before = timeline_view(pushed@);
        let previous = state.track(button).pending_click;
        let at = if state.started_by_click {
            advanced(state.synthetic_time_ms, self.wait_ms as u128)
        } else {
            state.synthetic_time_ms
        };
        let release_pos = first_known(up_pos, down_pos);
        state.started_by_click = true;
        state.synthetic_time_ms = at;
        state.last_click_pos = release_pos;

        if self.splits(down_pos, up_pos, held_ms) {
            let ghost flushed = spec_flush_pending_click_for_button(*self, *state, button);
            self.flush_pending_click_for_button(state, pushed, button);
            let up_at = advanced(at, self.wait_ms as u128);
            state.synthetic_time_ms = up_at;
            state.last_row_ms = up_at;
            let down_row = self.make_down_row(button, at, down_pos);
            emit(pushed, down_row);
            let up_row = self.make_up_row(button, up_at, up_pos);
            emit(pushed, up_row);
            assert((before + flushed.rows).push(self.down_row(button, at, down_pos)).push(
                self.up_row(button, up_at, up_pos),
            ) =~= before + (flushed.rows + seq![
                self.down_row(button, at, down_pos),
                self.up_row(button, up_at, up_pos),
            ]));
            return ;
        }
        let candidate = PendingClick { button, pos: release_pos, up_at_ms: now, synthetic_time_ms: at };
        match previous {
            Some(earlier) => {
                if elapsed_ms(now, earlier.up_at_ms) <= self.click_speed_ms as u64 {
                    state.set_pending(button, None);
                    state.last_row_ms = at;
                    let row = self.make_click_row(button, ClickEdgeMode::Double, at, release_pos);
                    emit(pushed, row);
                    assert(before.push(self.click_row(button, ClickEdgeMode::Double, at, release_pos))
                        =~= before + seq![
                        self.click_row(button, ClickEdgeMode::Double, at, release_pos),
                    ]);
                } else {
                    self.flush_pending_click_for_button(state, pushed, button);
                    state.set_pending(button, Some(candidate));
                }
            },
            None => {
                state.set_pending(button, Some(candidate));
                assert(before =~= before + Seq::<EventView>::empty());
            },
        }
    }

    /// Records a press of `button` in path mode.
    pub fn push_recorded_button_down_for_path(
        &self,
        state: &mut RecorderState,
        pushed: &mut Vec<RecordedEvent>,
        down_pos: Option<(i32, i32)>,
        button: MouseButton,
    )
        ensures
            *final(state) == spec_push_recorded_button_down_for_path(*self, *old(state), down_pos, button).state,
            timeline_view(final(pushed)@) == timeline_view(old(pushed)@)
                + spec_push_recorded_button_down_for_path(*self, *old(state), down_pos, button).rows,
    {
        let ghost before = timeline_view(pushed@);
        let ghost flushed = spec_flush_pending_click_for_button(*self, *state, button);
        self.flush_pending_click_for_button(state, pushed, button);
        if state.started_by_click {
            state.synthetic_time_ms = advanced(state.synthetic_time_ms, 1);
        } else {
            state.started_by_click = true;
        }
        state.last_row_ms = state.synthetic_time_ms;
        let row = self.make_down_row(button, state.synthetic_time_ms, down_pos);
        emit(pushed, row);
        assert((before + flushed.rows).push(row@) =~= before + (flushed.rows + seq![row@]));
    }

    /// Records a release of `button` in path mode.
    pub fn push_recorded_button_up_for_path(
        &self,
        state: &mut RecorderState,
        pushed: &mut Vec<RecordedEvent>,
        up_pos: Option<(i32, i32)>,
        button: MouseButton,
    )
        ensures
            *final(state) == spec_push_recorded_button_up_for_path(*self, *old(state), up_pos, button).state,
            timeline_view(final(pushed)@) == timeline_view(old(pushed)@)
                + spec_push_recorded_button_up_for_path(*self, *old(state), up_pos, button).rows,
    {
        let ghost before = timeline_view(pushed@);
        if state.started_by_click {
            state.synthetic_time_ms = advanced(state.synthetic_time_ms, 1);
        } else {
            state.started_by_click = true;
        }
        state.last_row_ms = state.synthetic_time_ms;
        let row = self.make_up_row(button, state.synthetic_time_ms, up_pos);
        emit(pushed, row);
        state.last_click_pos = up_pos;
        assert(before.push(row@) =~= before + seq![row@]);
    }
}

// ---------------------------------------------------------------------------
// Ticks
// ---------------------------------------------------------------------------

/// What one sample of `button` does: a press is remembered (and is a row in
/// path mode), a release ends the gesture, anything else changes nothing.
pub open spec fn spec_button_edge(
    config: RecorderConfig,
    state: RecorderState,
    button: MouseButton,
    sample: TickSample,
) -> Step {
    let track = state.spec_track(button);
    let last = Some(state.last_pos());
    let here = spec_first_known(sample.cursor, last);
    if sample.spec_is_down(button) && !track.down {
        let pressed = state.with_track(
            button,
            ButtonTrack { down: true, down_pos: here, down_at_ms: Some(sample.now_ms), ..track },
        );
        if config.mouse_path_enabled {
            spec_push_recorded_button_down_for_path(config, pressed, here, button)
        } else {
            Step::quiet(pressed)
        }
    } else if !sample.spec_is_down(button) && track.down {
        let down_pos = spec_first_known(track.down_pos, last);
        let held_ms = match track.down_at_ms {
            Some(since) => spec_elapsed_ms(sample.now_ms, since),
            None => 0,
        };
        let released = state.with_track(
            button,
            ButtonTrack { down: false, down_pos: None, down_at_ms: None, ..track },
        );
        if config.mouse_path_enabled {
            spec_push_recorded_button_up_for_path(config, released, here, button)
        } else {
            spec_push_recorded_button_release(config, released, down_pos, here, held_ms, button, sample.now_ms)
        }
    } else {
        Step::quiet(state)
    }
}

/// The pointer part of a sample: in path mode a movement of at least the
/// minimum on either axis is a `Move` row, one tick later on the synthetic
/// clock. The sampled position is remembered either way.
pub open spec fn spec_sample_path(config: RecorderConfig, state: RecorderState, cursor: Option<(i32, i32)>) -> Step {
    let previous = state.last_pos();
    let current = match cursor {
        Some(at) => at,
        None => previous,
    };
    if config.mouse_path_enabled && spec_moved_at_least(previous, current, config.mouse_path_min_delta_px) {
        let at = spec_advanced(state.synthetic_time_ms, 1);
        Step {
            state: RecorderState {
                last_x: current.0,
                last_y: current.1,
                synthetic_time_ms: at,
                last_row_ms: at,
                ..state
            },
            rows: seq![move_row(at, current)],
        }
    } else {
        Step::quiet(RecorderState { last_x: current.0, last_y: current.1, ..state })
    }
}

/// One tick of an enabled recorder: pending clicks whose window has run out
/// leave first, then the left, right and middle button are looked at, then the pointer.
pub open spec fn spec_tick(config: RecorderConfig, state: RecorderState, sample: TickSample) -> Step {
    if !state.enabled {
        Step::quiet(state)
    } else {
        spec_flush_expired_pending_clicks(config, state, sample.now_ms).followed_by(
            |s: RecorderState| spec_button_edge(config, s, MouseButton::Left, sample),
        ).followed_by(|s: RecorderState| spec_button_edge(config, s, MouseButton::Right, sample)).followed_by(
            |s: RecorderState| spec_button_edge(config, s, MouseButton::Middle, sample),
        ).followed_by(|s: RecorderState| spec_sample_path(config, s, sample.cursor))
    }
}

/// The end of a session: every pending click leaves as a single click and the
/// recorder is switched off. A recorder that is off is left alone.
pub open spec fn spec_stop(config: RecorderConfig, state: RecorderState) -> Step {
    if !state.enabled {
        Step::quiet(state)
    } else {
        let flushed = spec_flush_all_pending_clicks(config, state);
        Step { state: RecorderState { enabled: false, ..flushed.state }, rows: flushed.rows }
    }
}

impl RecorderConfig {
    fn button_edge(
        &self,
        state: &mut RecorderState,
        pushed: &mut Vec<RecordedEvent>,
        button: MouseButton,
        sample: TickSample,
    )
        ensures
            *final(state) == spec_button_edge(*self, *old(state), button, sample).state,
            timeline_view(final(pushed)@) == timeline_view(old(pushed)@) + spec_button_edge(
                *self,
                *old(state),
                button,
                sample,
            ).rows,
    {
        let track = state.track(button);
        let last = Some((state.last_x, state.last_y));
        let here = first_known(sample.cursor, last);
        let now_down = sample.is_down(button);
        if now_down && !track.down {
            let mut pressed = track;
            pressed.down = true;
            pressed.down_pos = here;
            pressed.down_at_ms = Some(sample.now_ms);
            state.set_track(button, pressed);
            if self.mouse_path_enabled {
                self.push_recorded_button_down_for_path(state, pushed, here, button);
            } else {
                assert(timeline_view(pushed@) =~= timeline_view(pushed@) + Seq::<EventView>::empty());
            }
        } else if !now_down && track.down {
            let down_pos = first_known(track.down_pos, last);
            let held_ms = match track.down_at_ms {
                Some(since) => elapsed_ms(sample.now_ms, since),
                None => 0,
            };
            let mut released = track;
            released.down = false;
            released.down_pos = None;
            released.down_at_ms = None;
            state.set_track(button, released);
            if self.mouse_path_enabled {
                self.push_recorded_button_up_for_path(state, pushed, here, button);
            } else {
                self.push_recorded_button_release(state, pushed, down_pos, here, held_ms, button, sample.now_ms);
            }
        } else {
            assert(timeline_view(pushed@) =~= timeline_view(pushed@) + Seq::<EventView>::empty());
        }
    }

    fn sample_path(&self, state: &mut RecorderState, pushed: &mut Vec<RecordedEvent>, cursor: Option<(i32, i32)>)
        ensures
            *final(state) == spec_sample_path(*self, *old(state), cursor).state,
            timeline_view(final(pushed)@) == timeline_view(old(pushed)@) + spec_sample_path(
                *self,
                *old(state),
                cursor,
            ).rows,
    {
        let ghost before = timeline_view(pushed@);
        let previous = (state.last_x, state.last_y);
        let current = match cursor {
            Some(at) => at,
            None => previous,
        };
        if self.mouse_path_enabled && moved_at_least(previous, current, self.mouse_path_min_delta_px) {
            state.synthetic_time_ms = advanced(state.synthetic_time_ms, 1);
            state.last_row_ms = state.synthetic_time_ms;
            let row = RecordedEvent {
                ms_from_start: state.synthetic_time_ms,
                kind: RecordedEventKind::Move { x: current.0, y: current.1 },
                pos: Some(current),
                click_meta: None,
            };
            emit(pushed, row);
            assert(before.push(row@) =~= before + seq![row@]);
        } else {
            assert(before =~= before + Seq::<EventView>::empty());
        }
        state.last_x = current.0;
        state.last_y = current.1;
    }

    /// Feeds one sample to the recorder and returns the rows it produces, in
    /// the order in which they are produced. In a sound state, which every
    /// state of a session is, the rows are in the order of their stamps, and
    /// none is stamped before the last row that left before them.
    pub fn tick(&self, state: &mut RecorderState, sample: TickSample) -> (pushed: Vec<RecordedEvent>)
        ensures
            *final(state) == spec_tick(*self, *old(state), sample).state,
            timeline_view(pushed@) == spec_tick(*self, *old(state), sample).rows,
            final(state).synthetic_time_ms >= old(state).synthetic_time_ms,
            old(state).sound() ==> in_turn(*old(state), (Step { state: *final(state), rows: timeline_view(pushed@) })),
    {
        proof {
            lemma_clock_never_runs_back(*self, *state, sample, None, None, 0, MouseButton::Left);
            if state.sound() {
                lemma_rows_leave_in_order(*self, *state, sample);
            }
        }
        let mut pushed: Vec<RecordedEvent> = Vec::new();
        assert(timeline_view(pushed@) =~= Seq::<EventView>::empty());
        if !state.enabled {
            return pushed;
        }
        let ghost a = spec_flush_expired_pending_clicks(*self, *state, sample.now_ms);
        self.flush_expired_pending_clicks(state, &mut pushed, sample.now_ms);
        let ghost b = spec_button_edge(*self, *state, MouseButton::Left, sample);
        self.button_edge(state, &mut pushed, MouseButton::Left, sample);
        let ghost c = spec_button_edge(*self, *state, MouseButton::Right, sample);
        self.button_edge(state, &mut pushed, MouseButton::Right, sample);
        let ghost d = spec_button_edge(*self, *state, MouseButton::Middle, sample);
        self.button_edge(state, &mut pushed, MouseButton::Middle, sample);
        let ghost e = spec_sample_path(*self, *state, sample.cursor);
        self.sample_path(state, &mut pushed, sample.cursor);
        assert(Seq::<EventView>::empty() + a.rows + b.rows + c.rows + d.rows + e.rows =~= a.rows + b.rows
            + c.rows + d.rows + e.rows);
        pushed
    }

    /// Ends the session and returns the rows of the clicks that were still
    /// pending. In a sound state they are in the order of their stamps, and
    /// none is stamped before the last row that left before them.
    pub fn stop(&self, state: &mut RecorderState) -> (pushed: Vec<RecordedEvent>)
        ensures
            *final(state) == spec_stop(*self, *old(state)).state,
            timeline_view(pushed@) == spec_stop(*self, *old(state)).rows,
            old(state).sound() ==> in_turn(*old(state), (Step { state: *final(state), rows: timeline_view(pushed@) })),
    {
        proof {
            if state.sound() {
                lemma_last_rows_leave_in_order(*self, *state);
            }
        }
        let mut pushed: Vec<RecordedEvent> = Vec::new();
        assert(timeline_view(pushed@) =~= Seq::<EventView>::empty());
        if !state.enabled {
            return pushed;
        }
        let ghost flushed = spec_flush_all_pending_clicks(*self, *state);
        self.flush_all_pending_clicks(state, &mut pushed);
        state.enabled = false;
        assert(Seq::<EventView>::empty() + flushed.rows =~= flushed.rows);
        pushed
    }
}

// ---------------------------------------------------------------------------
// Images
// ---------------------------------------------------------------------------

/// Where the image of a row is to be captured: at the position of a button
/// row that has no image yet.
pub open spec fn spec_capture_request(row: EventView) -> Option<(i32, i32)> {
    if row.kind.is_button() && row.kind.patch() is None {
        row.pos
    } else {
        None
    }
}

/// Where the image of a row that the recorder made is to be captured.
pub fn capture_request(row: &RecordedEvent) -> (request: Option<(i32, i32)>)
    ensures
        request == spec_capture_request(row@),
{
    let wanted = match &row.kind {
        RecordedEventKind::ButtonDown { patch_png_base64, .. } => patch_png_base64.is_none(),
        RecordedEventKind::ButtonUp { patch_png_base64, .. } => patch_png_base64.is_none(),
        RecordedEventKind::ButtonClick { patch_png_base64, .. } => patch_png_base64.is_none(),
        _ => false,
    };
    if wanted {
        row.pos
    } else {
        None
    }
}

/// The row with the image that was captured for it, or without one if the
/// capture failed. Only button rows change.
pub fn attach_patch(row: RecordedEvent, patch: Option<String>) -> (out: RecordedEvent)
    ensures
        out@ == (EventView { kind: row@.kind.with_patch(patch_view(patch)), ..row@ }),
{
    let RecordedEvent { ms_from_start, kind, pos, click_meta } = row;
    let kind = match kind {
        RecordedEventKind::ButtonDown { button, .. } => RecordedEventKind::ButtonDown {
            button,
            patch_png_base64: patch,
        },
        RecordedEventKind::ButtonUp { button, .. } => RecordedEventKind::ButtonUp { button, patch_png_base64: patch },
        RecordedEventKind::ButtonClick { button, .. } => RecordedEventKind::ButtonClick {
            button,
            patch_png_base64: patch,
        },
        other => other,
    };
    RecordedEvent { ms_from_start, kind, pos, click_meta }
}

} // verus!
