//! The playback engine: a state machine that replays a timeline.
//!
//! The engine moves no pointer and never sleeps. Each call of `step` takes what
//! the caller has learnt since the last call (the cancellation flag, the time,
//! and the result of the action that it performed) and says what to do next.

use vstd::prelude::*;
use vstd::string::StringExecFns;
use crate::codec::{base64_bytes, decode_base64};
use crate::model::{
    ClickEdgeMode, EventView, KindView, MouseButton, RecordedEvent, RecordedEventKind,
    SearchAnchor, timeline_view,
};
use crate::playback::laws::lemma_step_keeps_run_well_formed;
use crate::recorder::{elapsed_ms, first_known, spec_elapsed_ms, spec_first_known};
use crate::region::{compute_region_around_point, spec_region_around_point};
use crate::text::{decimal_text, u64_text};

pub mod laws;
pub mod outcomes;

verus! {

/// The progress value of a run that plays no row: before its first step and
/// after its last.
pub const PROGRESS_DONE: usize = usize::MAX;

/// The longest stretch that a cancellable wait sleeps without looking at the
/// cancellation flag, in milliseconds.
pub const PAUSE_CHUNK_MS: u64 = 10;

/// The pause between two attempts to find a target, in milliseconds.
pub const SEARCH_BACKOFF_MS: u64 = 50;

/// Why a run failed.
#[derive(Debug, Clone, Copy, PartialEq, Eq, Structural)]
pub enum PlaybackError {
    /// A button row has no click settings.
    MissingClickMeta,
    /// A row that is to be found by its image has none.
    MissingPatch,
    /// The image of a row is no base64 text.
    DecodeFailed,
    /// The matcher refused the reference image.
    TemplateFailed,
    /// The matcher failed while searching.
    SearchFailed,
    /// The target did not show within its time.
    TimedOut { timeout_ms: u64 },
    /// The caller answered an action with the result of another one.
    UnexpectedReply,
}

/// Where a run stands.
#[derive(Debug, Clone, Copy, PartialEq, Eq, Structural)]
pub enum RunStatus {
    Idle,
    Running,
    Finished,
    Stopped,
    Failed { error: PlaybackError },
}

/// The result of the action that the caller performed last.
#[derive(Debug, Clone, Copy, PartialEq, Eq)]
pub enum Reply {
    /// Nothing to report: the first call, or an action without a result.
    Done,
    /// The pointer, or `None` if it could not be read.
    Cursor { at: Option<(i32, i32)> },
    ScreenSize { width: i32, height: i32 },
    /// Whether the matcher took the reference image.
    Prepared { ok: bool },
    /// The best match at or above the confidence asked for, if there is one.
    Match { found: Option<(i32, i32)> },
    /// The matcher failed.
    SearchFailed,
}

/// What the caller hands to `step`.
#[derive(Debug, Clone, Copy, PartialEq, Eq)]
pub struct StepInput {
    pub cancelled: bool,
    /// Wall time in milliseconds on a clock that does not run backwards.
    pub now_ms: u64,
    pub reply: Reply,
}

/// What the caller is to do before it calls `step` again.
#[derive(Debug, PartialEq, Eq)]
pub enum PlaybackAction {
    /// Nothing: call `step` again.
    Continue,
    Sleep { ms: u64 },
    MovePointer { x: u32, y: u32 },
    ButtonDown { button: MouseButton },
    ButtonUp { button: MouseButton },
    /// Read the pointer and answer with `Reply::Cursor`.
    ReadCursor,
    /// Read the size of the screen and answer with `Reply::ScreenSize`.
    ReadScreenSize,
    /// Hand the PNG file to the matcher, to be searched for in `region` (left,
    /// top, width, height) or on the whole screen, and answer with `Reply::Prepared`.
    PrepareTemplate { png: Vec<u8>, region: Option<(u32, u32, u32, u32)> },
    /// Search once and answer with `Reply::Match` or `Reply::SearchFailed`.
    FindImage { precision_permille: u16 },
    /// Every row was played.
    Finished,
    /// The run was cancelled.
    Stopped,
    Failed { error: PlaybackError },
}

/// The mathematical value of a `PlaybackAction`.
pub enum ActionView {
    Continue,
    Sleep { ms: u64 },
    MovePointer { x: u32, y: u32 },
    ButtonDown { button: MouseButton },
    ButtonUp { button: MouseButton },
    ReadCursor,
    ReadScreenSize,
    PrepareTemplate { png: Seq<u8>, region: Option<(u32, u32, u32, u32)> },
    FindImage { precision_permille: u16 },
    Finished,
    Stopped,
    Failed { error: PlaybackError },
}

impl ActionView {
    /// Whether the action touches the pointer or a button.
    pub open spec fn is_primitive(self) -> bool {
        self is MovePointer || self is ButtonDown || self is ButtonUp
    }
}

impl View for PlaybackAction {
    type V = ActionView;

    open spec fn view(&self) -> ActionView {
        match *self {
            PlaybackAction::Continue => ActionView::Continue,
            PlaybackAction::Sleep { ms } => ActionView::Sleep { ms },
            PlaybackAction::MovePointer { x, y } => ActionView::MovePointer { x, y },
            PlaybackAction::ButtonDown { button } => ActionView::ButtonDown { button },
            PlaybackAction::ButtonUp { button } => ActionView::ButtonUp { button },
            PlaybackAction::ReadCursor => ActionView::ReadCursor,
            PlaybackAction::ReadScreenSize => ActionView::ReadScreenSize,
            PlaybackAction::PrepareTemplate { png, region } => ActionView::PrepareTemplate {
                png: png@,
                region,
            },
            PlaybackAction::FindImage { precision_permille } => ActionView::FindImage {
                precision_permille,
            },
            PlaybackAction::Finished => ActionView::Finished,
            PlaybackAction::Stopped => ActionView::Stopped,
            PlaybackAction::Failed { error } => ActionView::Failed { error },
        }
    }
}

/// How far the search for a target has come.
#[derive(Debug, Clone, Copy, PartialEq, Eq)]
pub enum LocateStage {
    Begin,
    /// The pointer was asked for, to anchor the search region.
    AwaitCursor,
    /// The screen size was asked for, to place the search region around `anchor`.
    AwaitScreen { anchor: (i32, i32) },
    /// The region is settled; the reference image goes to the matcher next.
    Prepare { region: Option<(u32, u32, u32, u32)> },
    AwaitPrepared,
    /// Searching since `started_ms`; the next step looks again.
    Search { started_ms: u64 },
    AwaitMatch { started_ms: u64 },
}

/// One piece of the work of a row.
#[derive(Debug, Clone, Copy, PartialEq, Eq)]
pub enum Task {
    /// A wait that looks at the cancellation flag every few milliseconds.
    Pause { remaining_ms: u64 },
    /// A sleep that is not interrupted.
    Hold { ms: u64 },
    Press { button: MouseButton },
    Release { button: MouseButton },
    /// Move the pointer to `to` within `speed_ms`. `asked` says that the
    /// pointer was asked for because its position was not known.
    Glide { to: (i32, i32), speed_ms: u64, asked: bool },
    /// Move the pointer to the target that was found last.
    GlideToFound { speed_ms: u64 },
    /// A glide under way: step `next` of `steps` comes next, or the sleep after it.
    Stride { from: (i32, i32), to: (i32, i32), steps: u32, step_ms: u64, next: u32, resting: bool },
    /// Find the image of the row on the screen.
    Locate {
        precision_permille: u16,
        timeout_ms: u64,
        region_size: Option<u32>,
        anchor: SearchAnchor,
        pos: Option<(i32, i32)>,
        stage: LocateStage,
    },
    Fail { error: PlaybackError },
}

// ---------------------------------------------------------------------------
// Interpolation
// ---------------------------------------------------------------------------

/// The number of steps of a glide that takes `total_ms`: one per ten
/// milliseconds, rounded up, at least one and at most sixty.
pub open spec fn spec_stride_steps(total_ms: u64) -> u32 {
    if total_ms <= 10 {
        1
    } else if total_ms > 590 {
        60
    } else {
        ((total_ms + 9) / 10) as u32
    }
}

#[verifier::when_used_as_spec(spec_stride_steps)]
pub fn stride_steps(total_ms: u64) -> (steps: u32)
    ensures
        steps == spec_stride_steps(total_ms),
        1 <= steps <= 60,
{
    if total_ms <= 10 {
        1
    } else if total_ms > 590 {
        60
    } else {
        ((total_ms + 9) / 10) as u32
    }
}

/// The sleep after each step of a glide that takes `total_ms`: an equal share
/// of the time, at least one millisecond.
pub open spec fn spec_stride_ms(total_ms: u64) -> u64 {
    if total_ms / (spec_stride_steps(total_ms) as u64) < 1 {
        1
    } else {
        total_ms / (spec_stride_steps(total_ms) as u64)
    }
}

#[verifier::when_used_as_spec(spec_stride_ms)]
pub fn stride_ms(total_ms: u64) -> (ms: u64)
    ensures
        ms == spec_stride_ms(total_ms),
{
    let share = total_ms / (stride_steps(total_ms) as u64);
    if share < 1 {
        1
    } else {
        share
    }
}

/// The coordinate of step `i` of `steps` on the straight way from `from` to
/// `to`, rounded down and never left of (or above) the screen.
pub open spec fn spec_interpolated(from: i32, to: i32, i: u32, steps: u32) -> int {
    let along = from * (steps - i) + to * i;
    if along <= 0 || steps == 0 {
        0
    } else {
        along / (steps as int)
    }
}

pub fn interpolated(from: i32, to: i32, i: u32, steps: u32) -> (at: u32)
    requires
        i <= steps,
    ensures
        at == spec_interpolated(from, to, i, steps),
{
    if steps == 0 {
        return 0;
    }
    let left: i128 = (steps - i) as i128;
    let right: i128 = i as i128;
    assert(-0x8000_0000 * left <= from * left <= 0x8000_0000 * left) by (nonlinear_arith)
        requires
            -0x8000_0000 <= from < 0x8000_0000,
            0 <= left,
    ;
    assert(-0x8000_0000 * right <= to * right <= 0x8000_0000 * right) by (nonlinear_arith)
        requires
            -0x8000_0000 <= to < 0x8000_0000,
            0 <= right,
    ;
    let along: i128 = from as i128 * left + to as i128 * right;
    if along <= 0 {
        return 0;
    }
    let quotient = along / steps as i128;
    assert(quotient < 0x8000_0000) by (nonlinear_arith)
        requires
            from < 0x8000_0000,
            to < 0x8000_0000,
            0 <= left,
            0 <= right,
            left + right == steps,
            steps > 0,
            along == from * left + to * right,
            quotient == (along as int) / (steps as int),
    {
        assert(from * left <= 0x7fff_ffff * left);
        assert(to * right <= 0x7fff_ffff * right);
        assert(along <= 0x7fff_ffff * steps);
        assert((along as int) / (steps as int) <= 0x7fff_ffff);
    }
    quotient as u32
}

/// A coordinate moved onto the screen: what is left of the screen becomes its edge.
pub open spec fn spec_on_screen(coordinate: i32) -> u32 {
    if coordinate < 0 {
        0
    } else {
        coordinate as u32
    }
}

#[verifier::when_used_as_spec(spec_on_screen)]
pub fn on_screen(coordinate: i32) -> (at: u32)
    ensures
        at == spec_on_screen(coordinate),
{
    if coordinate < 0 {
        0
    } else {
        coordinate as u32
    }
}

// ---------------------------------------------------------------------------
// The work of a row
// ---------------------------------------------------------------------------

/// The wait before a row, from its settings.
pub open spec fn row_wait_ms(row: EventView) -> u64 {
    match row.click_meta {
        Some(meta) => meta.wait_ms as u64,
        None => 0,
    }
}

/// The sleep between press and release of a click, from the settings of the
/// row: twenty milliseconds without settings, never more than a hundred.
pub open spec fn row_click_speed_ms(row: EventView) -> u64 {
    match row.click_meta {
        Some(meta) => if meta.click_speed_ms > 100 {
            100
        } else {
            meta.click_speed_ms as u64
        },
        None => 20,
    }
}

/// The time that the pointer takes to reach the place of a row: from the
/// settings of the row and never more than five hundred milliseconds; without
/// settings a release takes 250 and any other row 150.
pub open spec fn row_move_speed_ms(row: EventView) -> u64 {
    match row.click_meta {
        Some(meta) => if meta.mouse_move_speed_ms > 500 {
            500
        } else {
            meta.mouse_move_speed_ms as u64
        },
        None => if row.kind is ButtonUp {
            250
        } else {
            150
        },
    }
}

/// A glide to `to`.
pub open spec fn glide(to: (i32, i32), speed_ms: u64) -> Task {
    Task::Glide { to, speed_ms, asked: false }
}

/// A glide to each of `points` in turn.
pub open spec fn glides(points: Seq<(i32, i32)>, speed_ms: u64) -> Seq<Task> {
    Seq::new(points.len(), |k: int| glide(points[k], speed_ms))
}

/// The sleep between press and release, if there is any.
pub open spec fn hold(speed_ms: u64) -> Seq<Task> {
    if speed_ms > 0 {
        seq![Task::Hold { ms: speed_ms }]
    } else {
        Seq::empty()
    }
}

/// One click: press, sleep, release.
pub open spec fn click_once(button: MouseButton, speed_ms: u64) -> Seq<Task> {
    seq![Task::Press { button }] + hold(speed_ms) + seq![Task::Release { button }]
}

/// `value` held within `lo..=hi`.
pub open spec fn spec_held_within(value: u64, lo: u64, hi: u64) -> u64 {
    if value < lo {
        lo
    } else if value > hi {
        hi
    } else {
        value
    }
}

#[verifier::when_used_as_spec(spec_held_within)]
pub fn held_within(value: u64, lo: u64, hi: u64) -> (held: u64)
    ensures
        held == spec_held_within(value, lo, hi),
{
    if value < lo {
        lo
    } else if value > hi {
        hi
    } else {
        value
    }
}

/// How the pointer gets to a button row: straight to the recorded position,
/// or, when the row is found by its image, by a search of the whole screen
/// with the confidence held within 0.5 to 1 and the time within 200 ms to 10 s.
pub open spec fn reach(row: EventView) -> Seq<Task> {
    match row.click_meta {
        None => Seq::empty(),
        Some(meta) => if !meta.use_find_image {
            match row.pos {
                Some(at) => seq![glide(at, row_move_speed_ms(row))],
                None => Seq::empty(),
            }
        } else {
            seq![
                Task::Locate {
                    precision_permille: spec_held_within(meta.target_precision_permille as u64, 500, 1000) as u16,
                    timeout_ms: spec_held_within(meta.target_timeout_ms, 200, 10000),
                    region_size: None,
                    anchor: SearchAnchor::RecordedClick,
                    pos: row.pos,
                    stage: LocateStage::Begin,
                },
                Task::GlideToFound { speed_ms: row_move_speed_ms(row) },
            ]
        },
    }
}

/// What is done to the button of a button row once the pointer is in place.
pub open spec fn press(row: EventView) -> Seq<Task> {
    match row.kind {
        KindView::ButtonDown { button, .. } => seq![Task::Press { button }],
        KindView::ButtonUp { button, .. } => seq![Task::Release { button }],
        KindView::ButtonClick { button, .. } => {
            let speed = row_click_speed_ms(row);
            let double = row.click_meta matches Some(meta) && meta.spec_mode_of(button) == ClickEdgeMode::Double;
            if double {
                click_once(button, speed) + hold(speed) + click_once(button, speed)
            } else {
                click_once(button, speed)
            }
        },
        _ => Seq::empty(),
    }
}

/// The work of a row after its wait.
pub open spec fn body(row: EventView) -> Seq<Task> {
    match row.kind {
        KindView::Move { x, y } => seq![glide((x, y), row_move_speed_ms(row))],
        KindView::Moves { points } => glides(points, row_move_speed_ms(row)),
        KindView::Wait { ms } => seq![Task::Pause { remaining_ms: ms }],
        KindView::FindTarget { precision_permille, timeout_ms, search_anchor, search_region_size, .. } => seq![
            Task::Locate {
                precision_permille,
                timeout_ms,
                region_size: search_region_size,
                anchor: search_anchor,
                pos: row.pos,
                stage: LocateStage::Begin,
            },
            Task::GlideToFound { speed_ms: row_move_speed_ms(row) },
        ],
        _ => if row.click_meta is None {
            seq![Task::Fail { error: PlaybackError::MissingClickMeta }]
        } else if row.click_meta->0.use_find_image && row.kind.patch() is None {
            seq![Task::Fail { error: PlaybackError::MissingPatch }]
        } else {
            reach(row) + press(row)
        },
    }
}

/// The work of a row, in the order in which it is done: the wait of its
/// settings first, unless the row is itself a wait, then what the row is for.
pub open spec fn planned(row: EventView) -> Seq<Task> {
    if row_wait_ms(row) > 0 && !(row.kind is Wait) {
        seq![Task::Pause { remaining_ms: row_wait_ms(row) }] + body(row)
    } else {
        body(row)
    }
}

fn has_patch(kind: &RecordedEventKind) -> (has: bool)
    ensures
        has == (kind@.patch() is Some),
{
    match kind {
        RecordedEventKind::FindTarget { .. } => true,
        RecordedEventKind::ButtonDown { patch_png_base64, .. } => patch_png_base64.is_some(),
        RecordedEventKind::ButtonUp { patch_png_base64, .. } => patch_png_base64.is_some(),
        RecordedEventKind::ButtonClick { patch_png_base64, .. } => patch_png_base64.is_some(),
        _ => false,
    }
}

fn wait_ms_of(row: &RecordedEvent) -> (ms: u64)
    ensures
        ms == row_wait_ms(row@),
{
    match row.click_meta {
        Some(meta) => meta.wait_ms as u64,
        None => 0,
    }
}

fn click_speed_ms_of(row: &RecordedEvent) -> (ms: u64)
    ensures
        ms == row_click_speed_ms(row@),
{
    match row.click_meta {
        Some(meta) => if meta.click_speed_ms > 100 {
            100
        } else {
            meta.click_speed_ms as u64
        },
        None => 20,
    }
}

fn move_speed_ms_of(row: &RecordedEvent) -> (ms: u64)
    ensures
        ms == row_move_speed_ms(row@),
{
    let is_up = match &row.kind {
        RecordedEventKind::ButtonUp { .. } => true,
        _ => false,
    };
    match row.click_meta {
        Some(meta) => if meta.mouse_move_speed_ms > 500 {
            500
        } else {
            meta.mouse_move_speed_ms as u64
        },
        None => if is_up {
            250
        } else {
            150
        },
    }
}

fn push_click_once(tasks: &mut Vec<Task>, button: MouseButton, speed_ms: u64)
    ensures
        final(tasks)@ == old(tasks)@ + click_once(button, speed_ms),
{
    tasks.push(Task::Press { button });
    if speed_ms > 0 {
        tasks.push(Task::Hold { ms: speed_ms });
    }
    tasks.push(Task::Release { button });
    assert(tasks@ =~= old(tasks)@ + click_once(button, speed_ms));
}

fn push_glides(tasks: &mut Vec<Task>, points: &Vec<(i32, i32)>, speed_ms: u64)
    ensures
        final(tasks)@ == old(tasks)@ + glides(points@, speed_ms),
{
    let mut k: usize = 0;
    assert(tasks@ =~= old(tasks)@ + glides(points@, speed_ms).take(0));
    while k < points.len()
        invariant
            k <= points.len(),
            tasks@ == old(tasks)@ + glides(points@, speed_ms).take(k as int),
        decreases points.len() - k,
    {
        tasks.push(Task::Glide { to: points[k], speed_ms, asked: false });
        assert(tasks@ =~= old(tasks)@ + glides(points@, speed_ms).take(k + 1));
        k += 1;
    }
    assert(glides(points@, speed_ms).take(points.len() as int) =~= glides(points@, speed_ms));
}

fn push_reach(tasks: &mut Vec<Task>, row: &RecordedEvent)
    ensures
        final(tasks)@ == old(tasks)@ + reach(row@),
{
    let speed_ms = move_speed_ms_of(row);
    match row.click_meta {
        None => {},
        Some(meta) => {
            if !meta.use_find_image {
                if let Some(at) = row.pos {
                    tasks.push(Task::Glide { to: at, speed_ms, asked: false });
                }
            } else {
                tasks.push(
                    Task::Locate {
                        precision_permille: held_within(meta.target_precision_permille as u64, 500, 1000) as u16,
                        timeout_ms: held_within(meta.target_timeout_ms, 200, 10000),
                        region_size: None,
                        anchor: SearchAnchor::RecordedClick,
                        pos: row.pos,
                        stage: LocateStage::Begin,
                    },
                );
                tasks.push(Task::GlideToFound { speed_ms });
            }
        },
    }
    assert(tasks@ =~= old(tasks)@ + reach(row@));
}

fn push_press(tasks: &mut Vec<Task>, row: &RecordedEvent)
    ensures
        final(tasks)@ == old(tasks)@ + press(row@),
{
    let speed_ms = click_speed_ms_of(row);
    match &row.kind {
        RecordedEventKind::ButtonDown { button, .. } => {
            tasks.push(Task::Press { button: *button });
        },
        RecordedEventKind::ButtonUp { button, .. } => {
            tasks.push(Task::Release { button: *button });
        },
        RecordedEventKind::ButtonClick { button, .. } => {
            push_click_once(tasks, *button, speed_ms);
            let double = match row.click_meta {
                Some(meta) => meta.mode_of(*button) == ClickEdgeMode::Double,
                None => false,
            };
            if double {
                if speed_ms > 0 {
                    tasks.push(Task::Hold { ms: speed_ms });
                }
                push_click_once(tasks, *button, speed_ms);
            }
        },
        _ => {},
    }
    assert(tasks@ =~= old(tasks)@ + press(row@));
}

fn push_button_body(tasks: &mut Vec<Task>, row: &RecordedEvent)
    requires
        row@.kind.is_button(),
    ensures
        final(tasks)@ == old(tasks)@ + body(row@),
{
    match row.click_meta {
        None => {
            tasks.push(Task::Fail { error: PlaybackError::MissingClickMeta });
        },
        Some(meta) => {
            if meta.use_find_image && !has_patch(&row.kind) {
                tasks.push(Task::Fail { error: PlaybackError::MissingPatch });
            } else {
                push_reach(tasks, row);
                push_press(tasks, row);
            }
        },
    }
    assert(tasks@ =~= old(tasks)@ + body(row@));
}

fn push_body(tasks: &mut Vec<Task>, row: &RecordedEvent)
    ensures
        final(tasks)@ == old(tasks)@ + body(row@),
{
    let speed_ms = move_speed_ms_of(row);
    match &row.kind {
        RecordedEventKind::Move { x, y } => {
            tasks.push(Task::Glide { to: (*x, *y), speed_ms, asked: false });
            assert(tasks@ =~= old(tasks)@ + body(row@));
        },
        RecordedEventKind::Moves { points } => {
            push_glides(tasks, points, speed_ms);
        },
        RecordedEventKind::Wait { ms } => {
            tasks.push(Task::Pause { remaining_ms: *ms });
            assert(tasks@ =~= old(tasks)@ + body(row@));
        },
        RecordedEventKind::FindTarget {
            precision_permille,
            timeout_ms,
            search_anchor,
            search_region_size,
            ..
        } => {
            tasks.push(
                Task::Locate {
                    precision_permille: *precision_permille,
                    timeout_ms: *timeout_ms,
                    region_size: *search_region_size,
                    anchor: *search_anchor,
                    pos: row.pos,
                    stage: LocateStage::Begin,
                },
            );
            tasks.push(Task::GlideToFound { speed_ms });
            assert(tasks@ =~= old(tasks)@ + body(row@));
        },
        _ => {
            push_button_body(tasks, row);
        },
    }
}

/// The work of a row, in the order in which it is done.
pub fn plan(row: &RecordedEvent) -> (tasks: Vec<Task>)
    ensures
        tasks@ == planned(row@),
{
    let wait_ms = wait_ms_of(row);
    let is_wait = match &row.kind {
        RecordedEventKind::Wait { .. } => true,
        _ => false,
    };
    let mut tasks: Vec<Task> = Vec::new();
    if wait_ms > 0 && !is_wait {
        tasks.push(Task::Pause { remaining_ms: wait_ms });
    }
    let ghost pre = tasks@;
    push_body(&mut tasks, row);
    assert(pre + body(row@) =~= planned(row@));
    tasks
}

// ---------------------------------------------------------------------------
// The run
// ---------------------------------------------------------------------------

/// One replay of a timeline.
pub struct PlaybackRun {
    events: Vec<RecordedEvent>,
    row_map: Vec<usize>,
    /// How many rows were begun.
    next: usize,
    /// The work of the row that is being played.
    tasks: Vec<Task>,
    /// How many of `tasks` are done.
    at: usize,
    progress: usize,
    status: RunStatus,
    current_pos: Option<(i32, i32)>,
    last_found: Option<(i32, i32)>,
}

/// The mathematical value of a `PlaybackRun`.
pub struct RunView {
    pub events: Seq<EventView>,
    pub row_map: Seq<usize>,
    /// How many rows were begun.
    pub next: nat,
    /// The work of the row that is being played.
    pub tasks: Seq<Task>,
    /// How many of `tasks` are done.
    pub at: nat,
    pub progress: usize,
    pub status: RunStatus,
    pub current_pos: Option<(i32, i32)>,
    pub last_found: Option<(i32, i32)>,
}

/// A run after a step, and what the step asks for.
pub struct Turn {
    pub run: RunView,
    pub action: ActionView,
}

impl View for PlaybackRun {
    type V = RunView;

    closed spec fn view(&self) -> RunView {
        RunView {
            events: timeline_view(self.events@),
            row_map: self.row_map@,
            next: self.next as nat,
            tasks: self.tasks@,
            at: self.at as nat,
            progress: self.progress,
            status: self.status,
            current_pos: self.current_pos,
            last_found: self.last_found,
        }
    }
}

impl RunView {
    /// A run of `events` that has not begun. `cursor` is the pointer, if it is known.
    pub open spec fn fresh(events: Seq<EventView>, row_map: Seq<usize>, cursor: Option<(i32, i32)>) -> RunView {
        RunView {
            events,
            row_map,
            next: 0,
            tasks: Seq::empty(),
            at: 0,
            progress: PROGRESS_DONE,
            status: RunStatus::Idle,
            current_pos: cursor,
            last_found: None,
        }
    }

    /// Whether the run has ended, in whichever way.
    pub open spec fn is_over(self) -> bool {
        self.status is Finished || self.status is Stopped || self.status is Failed
    }

    /// The run stops because it was cancelled.
    pub open spec fn stop(self) -> Turn {
        Turn { run: RunView { status: RunStatus::Stopped, ..self }, action: ActionView::Stopped }
    }

    /// The run fails.
    pub open spec fn fail(self, error: PlaybackError) -> Turn {
        Turn { run: RunView { status: RunStatus::Failed { error }, ..self }, action: ActionView::Failed { error } }
    }

    /// The task at hand is done.
    pub open spec fn done(self, action: ActionView) -> Turn {
        Turn { run: RunView { at: self.at + 1, ..self }, action }
    }

    /// The task at hand is replaced by `task`.
    pub open spec fn retask(self, task: Task, action: ActionView) -> Turn {
        Turn { run: RunView { tasks: self.tasks.update(self.at as int, task), ..self }, action }
    }

    /// The image of the row that is being played.
    pub open spec fn current_patch(self) -> Option<Seq<char>> {
        if 1 <= self.next <= self.events.len() {
            self.events[self.next - 1].kind.patch()
        } else {
            None
        }
    }

    /// The row in the editable timeline that the progress counter stands for.
    pub open spec fn active_row(self) -> Option<usize> {
        if self.progress == PROGRESS_DONE {
            None
        } else if self.progress < self.row_map.len() {
            Some(self.row_map[self.progress as int])
        } else {
            Some(self.progress)
        }
    }
}

/// Between two rows: the run finishes when no row is left. Else the index of
/// the next row is published, the cancellation flag is looked at, and the work
/// of the row is laid out.
pub open spec fn spec_begin_row(run: RunView, input: StepInput) -> Turn {
    if run.next >= run.events.len() {
        Turn {
            run: RunView { status: RunStatus::Finished, progress: PROGRESS_DONE, ..run },
            action: ActionView::Finished,
        }
    } else {
        let published = RunView { progress: run.next as usize, status: RunStatus::Running, ..run };
        if input.cancelled {
            published.stop()
        } else {
            Turn {
                run: RunView {
                    tasks: planned(run.events[run.next as int]),
                    at: 0,
                    next: run.next + 1,
                    ..published
                },
                action: ActionView::Continue,
            }
        }
    }
}

/// A cancellable wait: the flag is looked at before every sleep, and no sleep
/// is longer than `PAUSE_CHUNK_MS`.
pub open spec fn spec_pause(run: RunView, remaining_ms: u64, input: StepInput) -> Turn {
    if remaining_ms == 0 {
        run.done(ActionView::Continue)
    } else if input.cancelled {
        run.stop()
    } else {
        let chunk = if remaining_ms < PAUSE_CHUNK_MS {
            remaining_ms
        } else {
            PAUSE_CHUNK_MS
        };
        run.retask(Task::Pause { remaining_ms: (remaining_ms - chunk) as u64 }, ActionView::Sleep { ms: chunk })
    }
}

/// The start of a glide: from where the pointer is known to be, else from
/// where it is read to be, else there is nothing to glide over. A pointer that
/// is in place is not moved, a glide that takes no time is one move, and any
/// other is made in steps.
pub open spec fn spec_glide(run: RunView, to: (i32, i32), speed_ms: u64, asked: bool, input: StepInput) -> Turn {
    if run.current_pos is None && !asked {
        run.retask(Task::Glide { to, speed_ms, asked: true }, ActionView::ReadCursor)
    } else {
        let from = match run.current_pos {
            Some(at) => at,
            None => match input.reply {
                Reply::Cursor { at: Some(at) } => at,
                _ => to,
            },
        };
        if from == to {
            RunView { current_pos: Some(to), ..run }.done(ActionView::Continue)
        } else if speed_ms == 0 {
            RunView { current_pos: Some(to), ..run }.done(
                ActionView::MovePointer { x: spec_on_screen(to.0), y: spec_on_screen(to.1) },
            )
        } else {
            run.retask(
                Task::Stride {
                    from,
                    to,
                    steps: spec_stride_steps(speed_ms),
                    step_ms: spec_stride_ms(speed_ms),
                    next: 1,
                    resting: false,
                },
                ActionView::Continue,
            )
        }
    }
}

/// A glide to the target that was found last.
pub open spec fn spec_glide_to_found(run: RunView, speed_ms: u64) -> Turn {
    match run.last_found {
        Some(found) => run.retask(glide(found, speed_ms), ActionView::Continue),
        None => run.done(ActionView::Continue),
    }
}

/// One piece of a glide in steps: the flag is looked at, the pointer moves to
/// the next point on the straight way, and the step ends with a sleep. The
/// sleep of the last step ends the glide.
pub open spec fn spec_stride(
    run: RunView,
    from: (i32, i32),
    to: (i32, i32),
    steps: u32,
    step_ms: u64,
    next: u32,
    resting: bool,
    input: StepInput,
) -> Turn {
    if next > steps || steps == 0 {
        RunView { current_pos: Some(to), ..run }.done(ActionView::Continue)
    } else if resting {
        if next == steps {
            RunView { current_pos: Some(to), ..run }.done(ActionView::Sleep { ms: step_ms })
        } else {
            run.retask(
                Task::Stride { from, to, steps, step_ms, next: (next + 1) as u32, resting: false },
                ActionView::Sleep { ms: step_ms },
            )
        }
    } else if input.cancelled {
        run.stop()
    } else {
        run.retask(
            Task::Stride { from, to, steps, step_ms, next, resting: true },
            ActionView::MovePointer {
                x: spec_interpolated(from.0, to.0, next, steps) as u32,
                y: spec_interpolated(from.1, to.1, next, steps) as u32,
            },
        )
    }
}

/// A search goes on at `stage`.
pub open spec fn locate_at(
    precision_permille: u16,
    timeout_ms: u64,
    region_size: Option<u32>,
    anchor: SearchAnchor,
    pos: Option<(i32, i32)>,
    stage: LocateStage,
) -> Task {
    Task::Locate { precision_permille, timeout_ms, region_size, anchor, pos, stage }
}

/// The anchor of a search that is known without reading the pointer: the
/// recorded position, or for `LastFound` the last target, else the recorded position.
pub open spec fn known_anchor(run: RunView, anchor: SearchAnchor, pos: Option<(i32, i32)>) -> Option<(i32, i32)> {
    match anchor {
        SearchAnchor::RecordedClick => pos,
        SearchAnchor::CurrentMouse => None,
        SearchAnchor::LastFound => spec_first_known(run.last_found, pos),
    }
}

/// The anchor of a search once the pointer was read: for `CurrentMouse` the
/// pointer, else the recorded position, else the last target; for `LastFound`
/// the last target, else the recorded position, else the pointer.
pub open spec fn read_anchor(
    run: RunView,
    anchor: SearchAnchor,
    pos: Option<(i32, i32)>,
    cursor: Option<(i32, i32)>,
) -> Option<(i32, i32)> {
    match anchor {
        SearchAnchor::RecordedClick => pos,
        SearchAnchor::CurrentMouse => spec_first_known(cursor, spec_first_known(pos, run.last_found)),
        SearchAnchor::LastFound => spec_first_known(run.last_found, spec_first_known(pos, cursor)),
    }
}

/// The search of a target, stage by stage.
///
/// A search without a region size looks at the whole screen. With one, the
/// anchor is settled, the pointer being read only where the policy needs it,
/// the screen is measured and the region is placed around the anchor. Then
/// the image of the row is decoded and handed to the matcher. From the moment
/// the matcher has taken it, every round looks at the cancellation flag and
/// at the time that has gone by, asks the matcher once, and sleeps
/// `SEARCH_BACKOFF_MS` when nothing was found.
pub open spec fn spec_locate(
    run: RunView,
    precision_permille: u16,
    timeout_ms: u64,
    region_size: Option<u32>,
    anchor: SearchAnchor,
    pos: Option<(i32, i32)>,
    stage: LocateStage,
    input: StepInput,
) -> Turn {
    let at_stage = |stage: LocateStage| locate_at(precision_permille, timeout_ms, region_size, anchor, pos, stage);
    let anchored = |found: Option<(i32, i32)>|
        match found {
            Some(around) => run.retask(at_stage(LocateStage::AwaitScreen { anchor: around }), ActionView::ReadScreenSize),
            None => run.retask(at_stage(LocateStage::Prepare { region: None }), ActionView::Continue),
        };
    match stage {
        LocateStage::Begin => if region_size is None {
            run.retask(at_stage(LocateStage::Prepare { region: None }), ActionView::Continue)
        } else if anchor == SearchAnchor::CurrentMouse || (anchor == SearchAnchor::LastFound && known_anchor(
            run,
            anchor,
            pos,
        ) is None) {
            run.retask(at_stage(LocateStage::AwaitCursor), ActionView::ReadCursor)
        } else {
            anchored(known_anchor(run, anchor, pos))
        },
        LocateStage::AwaitCursor => {
            let cursor = match input.reply {
                Reply::Cursor { at } => at,
                _ => None,
            };
            anchored(read_anchor(run, anchor, pos, cursor))
        },
        LocateStage::AwaitScreen { anchor: around } => {
            let region = match (input.reply, region_size) {
                (Reply::ScreenSize { width, height }, Some(size)) => spec_region_around_point(
                    width,
                    height,
                    around.0,
                    around.1,
                    size,
                ),
                _ => None,
            };
            run.retask(at_stage(LocateStage::Prepare { region }), ActionView::Continue)
        },
        LocateStage::Prepare { region } => match run.current_patch() {
            None => run.fail(PlaybackError::MissingPatch),
            Some(text) => match spec_template_request(base64_bytes(text), region) {
                Err(error) => run.fail(error),
                Ok(action) => run.retask(at_stage(LocateStage::AwaitPrepared), action),
            },
        },
        LocateStage::AwaitPrepared => match input.reply {
            Reply::Prepared { ok } => if ok {
                run.retask(at_stage(LocateStage::Search { started_ms: input.now_ms }), ActionView::Continue)
            } else {
                run.fail(PlaybackError::TemplateFailed)
            },
            _ => run.fail(PlaybackError::UnexpectedReply),
        },
        LocateStage::Search { started_ms } => if input.cancelled {
            run.stop()
        } else if spec_elapsed_ms(input.now_ms, started_ms) > timeout_ms {
            run.fail(PlaybackError::TimedOut { timeout_ms })
        } else {
            run.retask(at_stage(LocateStage::AwaitMatch { started_ms }), ActionView::FindImage { precision_permille })
        },
        LocateStage::AwaitMatch { started_ms } => match input.reply {
            Reply::Match { found: Some(found) } => RunView { last_found: Some(found), ..run }.done(
                ActionView::Continue,
            ),
            Reply::Match { found: None } => run.retask(
                at_stage(LocateStage::Search { started_ms }),
                ActionView::Sleep { ms: SEARCH_BACKOFF_MS },
            ),
            Reply::SearchFailed => run.fail(PlaybackError::SearchFailed),
            _ => run.fail(PlaybackError::UnexpectedReply),
        },
    }
}

/// One step of a run.
///
/// A run that is over stays as it is and says again how it ended. Between
/// two rows the next row begins. Else the task at hand goes on.
pub open spec fn spec_step(run: RunView, input: StepInput) -> Turn {
    match run.status {
        RunStatus::Finished => Turn { run, action: ActionView::Finished },
        RunStatus::Stopped => Turn { run, action: ActionView::Stopped },
        RunStatus::Failed { error } => Turn { run, action: ActionView::Failed { error } },
        _ => if run.at >= run.tasks.len() {
            spec_begin_row(run, input)
        } else {
            match run.tasks[run.at as int] {
                Task::Pause { remaining_ms } => spec_pause(run, remaining_ms, input),
                Task::Hold { ms } => run.done(ActionView::Sleep { ms }),
                Task::Press { button } => run.done(ActionView::ButtonDown { button }),
                Task::Release { button } => run.done(ActionView::ButtonUp { button }),
                Task::Glide { to, speed_ms, asked } => spec_glide(run, to, speed_ms, asked, input),
                Task::GlideToFound { speed_ms } => spec_glide_to_found(run, speed_ms),
                Task::Stride { from, to, steps, step_ms, next, resting } => spec_stride(
                    run,
                    from,
                    to,
                    steps,
                    step_ms,
                    next,
                    resting,
                    input,
                ),
                Task::Locate { precision_permille, timeout_ms, region_size, anchor, pos, stage } => spec_locate(
                    run,
                    precision_permille,
                    timeout_ms,
                    region_size,
                    anchor,
                    pos,
                    stage,
                    input,
                ),
                Task::Fail { error } => run.fail(error),
            }
        },
    }
}

/// What a search asks for once the image of its row was decoded. `decoded`
/// holds the bytes of the image, or nothing where its text is no base64: then
/// the run fails. Else a template is to be prepared from the bytes, for a
/// search within `region`.
pub open spec fn spec_template_request(
    decoded: Option<Seq<u8>>,
    region: Option<(u32, u32, u32, u32)>,
) -> Result<ActionView, PlaybackError> {
    match decoded {
        None => Err(PlaybackError::DecodeFailed),
        Some(png) => Ok(ActionView::PrepareTemplate { png, region }),
    }
}

pub fn template_request(decoded: Option<Vec<u8>>, region: Option<(u32, u32, u32, u32)>) -> (request: Result<
    PlaybackAction,
    PlaybackError,
>)
    ensures
        match request {
            Ok(action) => decoded matches Some(png) && spec_template_request(Some(png@), region) == Ok::<
                ActionView,
                PlaybackError,
            >(action@),
            Err(error) => decoded is None && error == PlaybackError::DecodeFailed,
        },
{
    match decoded {
        None => Err(PlaybackError::DecodeFailed),
        Some(png) => Ok(PlaybackAction::PrepareTemplate { png, region }),
    }
}

fn patch_text(kind: &RecordedEventKind) -> (text: Option<&String>)
    ensures
        match text {
            Some(found) => kind@.patch() == Some(found@),
            None => kind@.patch() is None,
        },
{
    match kind {
        RecordedEventKind::FindTarget { patch_png_base64, .. } => Some(patch_png_base64),
        RecordedEventKind::ButtonDown { patch_png_base64, .. } => patch_png_base64.as_ref(),
        RecordedEventKind::ButtonUp { patch_png_base64, .. } => patch_png_base64.as_ref(),
        RecordedEventKind::ButtonClick { patch_png_base64, .. } => patch_png_base64.as_ref(),
        _ => None,
    }
}

impl PlaybackRun {
    /// A run of `events` that has not begun. `row_map` says for each row which
    /// row of the editable timeline it stands for, and `cursor` is the pointer,
    /// if it is known.
    pub fn new(events: Vec<RecordedEvent>, row_map: Vec<usize>, cursor: Option<(i32, i32)>) -> (run: PlaybackRun)
        ensures
            run@ == RunView::fresh(timeline_view(events@), row_map@, cursor),
            run@.wf(),
    {
        assert(timeline_view(events@).len() == events.len());
        PlaybackRun {
            events,
            row_map,
            next: 0,
            tasks: Vec::new(),
            at: 0,
            progress: PROGRESS_DONE,
            status: RunStatus::Idle,
            current_pos: cursor,
            last_found: None,
        }
    }

    /// The index of the row that is being played, or `PROGRESS_DONE`.
    pub fn progress(&self) -> (progress: usize)
        ensures
            progress == self@.progress,
    {
        self.progress
    }

    pub fn status(&self) -> (status: RunStatus)
        ensures
            status == self@.status,
    {
        self.status
    }

    /// The number of rows of the run.
    pub fn len(&self) -> (len: usize)
        ensures
            len == self@.events.len(),
    {
        self.events.len()
    }

    /// The target that was found last in this run.
    pub fn last_found(&self) -> (found: Option<(i32, i32)>)
        ensures
            found == self@.last_found,
    {
        self.last_found
    }

    /// The row of the editable timeline that is being played: the progress
    /// counter taken through the row map, or as it is where the map is too short.
    pub fn active_row(&self) -> (row: Option<usize>)
        ensures
            row == self@.active_row(),
    {
        if self.progress == PROGRESS_DONE {
            None
        } else if self.progress < self.row_map.len() {
            Some(self.row_map[self.progress])
        } else {
            Some(self.progress)
        }
    }

    fn stop(&mut self) -> (action: PlaybackAction)
        ensures
            final(self)@ == old(self)@.stop().run,
            action@ == old(self)@.stop().action,
    {
        self.status = RunStatus::Stopped;
        PlaybackAction::Stopped
    }

    fn fail(&mut self, error: PlaybackError) -> (action: PlaybackAction)
        ensures
            final(self)@ == old(self)@.fail(error).run,
            action@ == old(self)@.fail(error).action,
    {
        self.status = RunStatus::Failed { error };
        PlaybackAction::Failed { error }
    }

    fn done(&mut self, action: PlaybackAction) -> (same: PlaybackAction)
        requires
            old(self).at < old(self).tasks.len(),
        ensures
            final(self)@ == old(self)@.done(action@).run,
            same@ == action@,
            final(self).at <= final(self).tasks.len(),
    {
        self.at = self.at + 1;
        action
    }

    fn retask(&mut self, task: Task, action: PlaybackAction) -> (same: PlaybackAction)
        requires
            old(self).at < old(self).tasks.len(),
        ensures
            final(self)@ == old(self)@.retask(task, action@).run,
            same@ == action@,
    {
        self.tasks.set(self.at, task);
        action
    }

    fn begin_row(&mut self, input: StepInput) -> (action: PlaybackAction)
        ensures
            final(self)@ == spec_begin_row(old(self)@, input).run,
            action@ == spec_begin_row(old(self)@, input).action,
    {
        if self.next >= self.events.len() {
            self.status = RunStatus::Finished;
            self.progress = PROGRESS_DONE;
            return PlaybackAction::Finished;
        }
        self.progress = self.next;
        self.status = RunStatus::Running;
        if input.cancelled {
            return self.stop();
        }
        self.tasks = plan(&self.events[self.next]);
        self.at = 0;
        self.next = self.next + 1;
        PlaybackAction::Continue
    }

    fn pause(&mut self, remaining_ms: u64, input: StepInput) -> (action: PlaybackAction)
        requires
            old(self).at < old(self).tasks.len(),
        ensures
            final(self)@ == spec_pause(old(self)@, remaining_ms, input).run,
            action@ == spec_pause(old(self)@, remaining_ms, input).action,
    {
        if remaining_ms == 0 {
            self.done(PlaybackAction::Continue)
        } else if input.cancelled {
            self.stop()
        } else {
            let chunk = if remaining_ms < PAUSE_CHUNK_MS {
                remaining_ms
            } else {
                PAUSE_CHUNK_MS
            };
            self.retask(Task::Pause { remaining_ms: remaining_ms - chunk }, PlaybackAction::Sleep { ms: chunk })
        }
    }

    fn glide(&mut self, to: (i32, i32), speed_ms: u64, asked: bool, input: StepInput) -> (action: PlaybackAction)
        requires
            old(self).at < old(self).tasks.len(),
        ensures
            final(self)@ == spec_glide(old(self)@, to, speed_ms, asked, input).run,
            action@ == spec_glide(old(self)@, to, speed_ms, asked, input).action,
    {
        if self.current_pos.is_none() && !asked {
            return self.retask(Task::Glide { to, speed_ms, asked: true }, PlaybackAction::ReadCursor);
        }
        let from = match self.current_pos {
            Some(at) => at,
            None => match input.reply {
                Reply::Cursor { at: Some(at) } => at,
                _ => to,
            },
        };
        if from.0 == to.0 && from.1 == to.1 {
            self.current_pos = Some(to);
            self.done(PlaybackAction::Continue)
        } else if speed_ms == 0 {
            self.current_pos = Some(to);
            self.done(PlaybackAction::MovePointer { x: on_screen(to.0), y: on_screen(to.1) })
        } else {
            self.retask(
                Task::Stride {
                    from,
                    to,
                    steps: stride_steps(speed_ms),
                    step_ms: stride_ms(speed_ms),
                    next: 1,
                    resting: false,
                },
                PlaybackAction::Continue,
            )
        }
    }

    fn glide_to_found(&mut self, speed_ms: u64) -> (action: PlaybackAction)
        requires
            old(self).at < old(self).tasks.len(),
        ensures
            final(self)@ == spec_glide_to_found(old(self)@, speed_ms).run,
            action@ == spec_glide_to_found(old(self)@, speed_ms).action,
    {
        match self.last_found {
            Some(found) => self.retask(
                Task::Glide { to: found, speed_ms, asked: false },
                PlaybackAction::Continue,
            ),
            None => self.done(PlaybackAction::Continue),
        }
    }

    fn stride(
        &mut self,
        from: (i32, i32),
        to: (i32, i32),
        steps: u32,
        step_ms: u64,
        next: u32,
        resting: bool,
        input: StepInput,
    ) -> (action: PlaybackAction)
        requires
            old(self).at < old(self).tasks.len(),
        ensures
            final(self)@ == spec_stride(old(self)@, from, to, steps, step_ms, next, resting, input).run,
            action@ == spec_stride(old(self)@, from, to, steps, step_ms, next, resting, input).action,
    {
        if next > steps || steps == 0 {
            self.current_pos = Some(to);
            self.done(PlaybackAction::Continue)
        } else if resting {
            if next == steps {
                self.current_pos = Some(to);
                self.done(PlaybackAction::Sleep { ms: step_ms })
            } else {
                self.retask(
                    Task::Stride { from, to, steps, step_ms, next: next + 1, resting: false },
                    PlaybackAction::Sleep { ms: step_ms },
                )
            }
        } else if input.cancelled {
            self.stop()
        } else {
            self.retask(
                Task::Stride { from, to, steps, step_ms, next, resting: true },
                PlaybackAction::MovePointer {
                    x: interpolated(from.0, to.0, next, steps),
                    y: interpolated(from.1, to.1, next, steps),
                },
            )
        }
    }

    fn prepare(
        &mut self,
        waiting: Task,
        region: Option<(u32, u32, u32, u32)>,
    ) -> (action: PlaybackAction)
        requires
            old(self).at < old(self).tasks.len(),
        ensures
            ({
                let turn = match old(self)@.current_patch() {
                    None => old(self)@.fail(PlaybackError::MissingPatch),
                    Some(text) => match spec_template_request(base64_bytes(text), region) {
                        Err(error) => old(self)@.fail(error),
                        Ok(action) => old(self)@.retask(waiting, action),
                    },
                };
                final(self)@ == turn.run && action@ == turn.action
            }),
    {
        if self.next == 0 || self.next > self.events.len() {
            return self.fail(PlaybackError::MissingPatch);
        }
        let decoded = match patch_text(&self.events[self.next - 1].kind) {
            None => {
                return self.fail(PlaybackError::MissingPatch);
            },
            Some(text) => decode_base64(text.as_str()),
        };
        match template_request(decoded, region) {
            Err(error) => self.fail(error),
            Ok(action) => self.retask(waiting, action),
        }
    }

    fn locate(
        &mut self,
        precision_permille: u16,
        timeout_ms: u64,
        region_size: Option<u32>,
        anchor: SearchAnchor,
        pos: Option<(i32, i32)>,
        stage: LocateStage,
        input: StepInput,
    ) -> (action: PlaybackAction)
        requires
            old(self).at < old(self).tasks.len(),
        ensures
            final(self)@ == spec_locate(
                old(self)@,
                precision_permille,
                timeout_ms,
                region_size,
                anchor,
                pos,
                stage,
                input,
            ).run,
            action@ == spec_locate(
                old(self)@,
                precision_permille,
                timeout_ms,
                region_size,
                anchor,
                pos,
                stage,
                input,
            ).action,
    {
        match stage {
            LocateStage::Begin => {
                if region_size.is_none() {
                    return self.retask(
                        Task::Locate {
                            precision_permille,
                            timeout_ms,
                            region_size,
                            anchor,
                            pos,
                            stage: LocateStage::Prepare { region: None },
                        },
                        PlaybackAction::Continue,
                    );
                }
                let known = match anchor {
                    SearchAnchor::RecordedClick => pos,
                    SearchAnchor::CurrentMouse => None,
                    SearchAnchor::LastFound => first_known(self.last_found, pos),
                };
                let read = match anchor {
                    SearchAnchor::RecordedClick => false,
                    SearchAnchor::CurrentMouse => true,
                    SearchAnchor::LastFound => known.is_none(),
                };
                if read {
                    self.retask(
                        Task::Locate {
                            precision_permille,
                            timeout_ms,
                            region_size,
                            anchor,
                            pos,
                            stage: LocateStage::AwaitCursor,
                        },
                        PlaybackAction::ReadCursor,
                    )
                } else {
                    self.anchored(precision_permille, timeout_ms, region_size, anchor, pos, known)
                }
            },
            LocateStage::AwaitCursor => {
                let cursor = match input.reply {
                    Reply::Cursor { at } => at,
                    _ => None,
                };
                let found = match anchor {
                    SearchAnchor::RecordedClick => pos,
                    SearchAnchor::CurrentMouse => first_known(cursor, first_known(pos, self.last_found)),
                    SearchAnchor::LastFound => first_known(self.last_found, first_known(pos, cursor)),
                };
                self.anchored(precision_permille, timeout_ms, region_size, anchor, pos, found)
            },
            LocateStage::AwaitScreen { anchor: around } => {
                let region = match (input.reply, region_size) {
                    (Reply::ScreenSize { width, height }, Some(size)) => compute_region_around_point(
                        width,
                        height,
                        around.0,
                        around.1,
                        size,
                    ),
                    _ => None,
                };
                self.retask(
                    Task::Locate {
                        precision_permille,
                        timeout_ms,
                        region_size,
                        anchor,
                        pos,
                        stage: LocateStage::Prepare { region },
                    },
                    PlaybackAction::Continue,
                )
            },
            LocateStage::Prepare { region } => self.prepare(
                Task::Locate {
                    precision_permille,
                    timeout_ms,
                    region_size,
                    anchor,
                    pos,
                    stage: LocateStage::AwaitPrepared,
                },
                region,
            ),
            LocateStage::AwaitPrepared => match input.reply {
                Reply::Prepared { ok } => if ok {
                    self.retask(
                        Task::Locate {
                            precision_permille,
                            timeout_ms,
                            region_size,
                            anchor,
                            pos,
                            stage: LocateStage::Search { started_ms: input.now_ms },
                        },
                        PlaybackAction::Continue,
                    )
                } else {
                    self.fail(PlaybackError::TemplateFailed)
                },
                _ => self.fail(PlaybackError::UnexpectedReply),
            },
            LocateStage::Search { started_ms } => {
                if input.cancelled {
                    self.stop()
                } else if elapsed_ms(input.now_ms, started_ms) > timeout_ms {
                    self.fail(PlaybackError::TimedOut { timeout_ms })
                } else {
                    self.retask(
                        Task::Locate {
                            precision_permille,
                            timeout_ms,
                            region_size,
                            anchor,
                            pos,
                            stage: LocateStage::AwaitMatch { started_ms },
                        },
                        PlaybackAction::FindImage { precision_permille },
                    )
                }
            },
            LocateStage::AwaitMatch { started_ms } => match input.reply {
                Reply::Match { found: Some(found) } => {
                    self.last_found = Some(found);
                    self.done(PlaybackAction::Continue)
                },
                Reply::Match { found: None } => self.retask(
                    Task::Locate {
                        precision_permille,
                        timeout_ms,
                        region_size,
                        anchor,
                        pos,
                        stage: LocateStage::Search { started_ms },
                    },
                    PlaybackAction::Sleep { ms: SEARCH_BACKOFF_MS },
                ),
                Reply::SearchFailed => self.fail(PlaybackError::SearchFailed),
                _ => self.fail(PlaybackError::UnexpectedReply),
            },
        }
    }

    fn anchored(
        &mut self,
        precision_permille: u16,
        timeout_ms: u64,
        region_size: Option<u32>,
        anchor: SearchAnchor,
        pos: Option<(i32, i32)>,
        found: Option<(i32, i32)>,
    ) -> (action: PlaybackAction)
        requires
            old(self).at < old(self).tasks.len(),
        ensures
            ({
                let turn = match found {
                    Some(around) => old(self)@.retask(
                        locate_at(
                            precision_permille,
                            timeout_ms,
                            region_size,
                            anchor,
                            pos,
                            LocateStage::AwaitScreen { anchor: around },
                        ),
                        ActionView::ReadScreenSize,
                    ),
                    None => old(self)@.retask(
                        locate_at(
                            precision_permille,
                            timeout_ms,
                            region_size,
                            anchor,
                            pos,
                            LocateStage::Prepare { region: None },
                        ),
                        ActionView::Continue,
                    ),
                };
                final(self)@ == turn.run && action@ == turn.action
            }),
    {
        match found {
            Some(around) => self.retask(
                Task::Locate {
                    precision_permille,
                    timeout_ms,
                    region_size,
                    anchor,
                    pos,
                    stage: LocateStage::AwaitScreen { anchor: around },
                },
                PlaybackAction::ReadScreenSize,
            ),
            None => self.retask(
                Task::Locate {
                    precision_permille,
                    timeout_ms,
                    region_size,
                    anchor,
                    pos,
                    stage: LocateStage::Prepare { region: None },
                },
                PlaybackAction::Continue,
            ),
        }
    }

    /// Takes what the caller has learnt and says what it is to do next.
    pub fn step(&mut self, input: StepInput) -> (action: PlaybackAction)
        ensures
            final(self)@ == spec_step(old(self)@, input).run,
            action@ == spec_step(old(self)@, input).action,
            old(self)@.wf() ==> final(self)@.wf(),
    {
        proof {
            if self@.wf() {
                lemma_step_keeps_run_well_formed(self@, input);
            }
        }
        match self.status {
            RunStatus::Finished => {
                return PlaybackAction::Finished;
            },
            RunStatus::Stopped => {
                return PlaybackAction::Stopped;
            },
            RunStatus::Failed { error } => {
                return PlaybackAction::Failed { error };
            },
            _ => {},
        }
        if self.at >= self.tasks.len() {
            return self.begin_row(input);
        }
        let task = self.tasks[self.at];
        match task {
            Task::Pause { remaining_ms } => self.pause(remaining_ms, input),
            Task::Hold { ms } => self.done(PlaybackAction::Sleep { ms }),
            Task::Press { button } => self.done(PlaybackAction::ButtonDown { button }),
            Task::Release { button } => self.done(PlaybackAction::ButtonUp { button }),
            Task::Glide { to, speed_ms, asked } => self.glide(to, speed_ms, asked, input),
            Task::GlideToFound { speed_ms } => self.glide_to_found(speed_ms),
            Task::Stride { from, to, steps, step_ms, next, resting } => self.stride(
                from,
                to,
                steps,
                step_ms,
                next,
                resting,
                input,
            ),
            Task::Locate { precision_permille, timeout_ms, region_size, anchor, pos, stage } => self.locate(
                precision_permille,
                timeout_ms,
                region_size,
                anchor,
                pos,
                stage,
                input,
            ),
            Task::Fail { error } => self.fail(error),
        }
    }
}

impl RunView {
    /// What holds of every run that began fresh: it has played no more rows
    /// than there are, and while it plays a row the progress counter holds the
    /// index of that row.
    pub open spec fn wf(self) -> bool {
        &&& self.events.len() <= usize::MAX
        &&& self.next <= self.events.len()
        &&& self.at <= self.tasks.len()
        &&& match self.status {
            RunStatus::Idle => self.next == 0 && self.at == self.tasks.len() && self.progress == PROGRESS_DONE,
            RunStatus::Running => self.next >= 1 && self.progress == self.next - 1,
            RunStatus::Finished => self.next == self.events.len() && self.progress == PROGRESS_DONE,
            _ => true,
        }
    }
}

// ---------------------------------------------------------------------------
// Reports
// ---------------------------------------------------------------------------

impl PlaybackError {
    /// The words in which a failure is reported.
    pub open spec fn message_text(self) -> Seq<char> {
        match self {
            PlaybackError::MissingClickMeta => "Click row is missing click metadata"@,
            PlaybackError::MissingPatch => "Target click row is missing patch image data"@,
            PlaybackError::DecodeFailed => "FindTarget decode failed"@,
            PlaybackError::TemplateFailed => "FindTarget image was refused by the matcher"@,
            PlaybackError::SearchFailed => "FindTarget search failed"@,
            PlaybackError::TimedOut { timeout_ms } => "FindTarget timed out ("@ + decimal_text(timeout_ms as int)
                + " ms)"@,
            PlaybackError::UnexpectedReply => "Playback received an unexpected reply"@,
        }
    }

    pub fn message(self) -> (text: String)
        ensures
            text@ == self.message_text(),
    {
        match self {
            PlaybackError::MissingClickMeta => String::from_str("Click row is missing click metadata"),
            PlaybackError::MissingPatch => String::from_str("Target click row is missing patch image data"),
            PlaybackError::DecodeFailed => String::from_str("FindTarget decode failed"),
            PlaybackError::TemplateFailed => String::from_str("FindTarget image was refused by the matcher"),
            PlaybackError::SearchFailed => String::from_str("FindTarget search failed"),
            PlaybackError::TimedOut { timeout_ms } => {
                let mut text = String::from_str("FindTarget timed out (");
                text.append(u64_text(timeout_ms).as_str());
                text.append(" ms)");
                text
            },
            PlaybackError::UnexpectedReply => String::from_str("Playback received an unexpected reply"),
        }
    }
}

} // verus!
