//! What holds of a run: how its progress counts, that cancellation is final,
//! and that no sleep is long.

use vstd::prelude::*;
use crate::model::{EventView, KindView, SearchAnchor};
use crate::playback::{
    ActionView, LocateStage, PAUSE_CHUNK_MS, PROGRESS_DONE, RunStatus,
    RunView, SEARCH_BACKOFF_MS, StepInput, Task, Turn, body, click_once, glide, hold, planned,
    press, reach, row_click_speed_ms, row_move_speed_ms, spec_glide, spec_glide_to_found,
    spec_interpolated, spec_locate, spec_on_screen, spec_pause, spec_step, spec_stride,
    spec_stride_ms, spec_stride_steps,
};

verus! {

impl RunView {
    /// Whether the next step looks at the cancellation flag: between two
    /// rows, before each sleep of a cancellable wait, before each move of a
    /// glide, and before each round of a search.
    pub open spec fn observes_cancel(self) -> bool {
        &&& !self.is_over()
        &&& if self.at >= self.tasks.len() {
            self.next < self.events.len()
        } else {
            match self.tasks[self.at as int] {
                Task::Pause { remaining_ms } => remaining_ms > 0,
                Task::Stride { steps, next, resting, .. } => !resting && next <= steps && steps > 0,
                Task::Locate { stage, .. } => stage is Search,
                _ => false,
            }
        }
    }
}

/// What every step within a row does: it keeps the rows, the number of rows
/// begun and the progress counter, goes on with the task at hand or to the
/// next one, and ends the run only by stopping on a set flag or by failing.
pub open spec fn within_row(run: RunView, turn: Turn, input: StepInput) -> bool {
    &&& turn.run.events == run.events
    &&& turn.run.row_map == run.row_map
    &&& turn.run.next == run.next
    &&& turn.run.progress == run.progress
    &&& turn.run.tasks.len() == run.tasks.len()
    &&& turn.run.at == run.at || turn.run.at == run.at + 1
    &&& {
        ||| turn.run.status == run.status && !(turn.action is Stopped) && !(turn.action is Finished) && !(
        turn.action is Failed)
        ||| turn.run.status is Stopped && turn.action is Stopped && input.cancelled
        ||| turn.run.status is Failed && turn.action is Failed
    }
}

proof fn lemma_pause_within_row(run: RunView, remaining_ms: u64, input: StepInput)
    requires
        run.at < run.tasks.len(),
    ensures
        within_row(run, spec_pause(run, remaining_ms, input), input),
        remaining_ms > 0 && input.cancelled ==> spec_pause(run, remaining_ms, input).action is Stopped,
{
}

proof fn lemma_glide_within_row(run: RunView, to: (i32, i32), speed_ms: u64, asked: bool, input: StepInput)
    requires
        run.at < run.tasks.len(),
    ensures
        within_row(run, spec_glide(run, to, speed_ms, asked, input), input),
        within_row(run, spec_glide_to_found(run, speed_ms), input),
{
}

proof fn lemma_stride_within_row(
    run: RunView,
    from: (i32, i32),
    to: (i32, i32),
    steps: u32,
    step_ms: u64,
    next: u32,
    resting: bool,
    input: StepInput,
)
    requires
        run.at < run.tasks.len(),
    ensures
        within_row(run, spec_stride(run, from, to, steps, step_ms, next, resting, input), input),
        !resting && next <= steps && steps > 0 && input.cancelled ==> spec_stride(
            run,
            from,
            to,
            steps,
            step_ms,
            next,
            resting,
            input,
        ).action is Stopped,
{
}

proof fn lemma_locate_within_row(
    run: RunView,
    precision_permille: u16,
    timeout_ms: u64,
    region_size: Option<u32>,
    anchor: SearchAnchor,
    pos: Option<(i32, i32)>,
    stage: LocateStage,
    input: StepInput,
)
    requires
        run.at < run.tasks.len(),
    ensures
        within_row(
            run,
            spec_locate(run, precision_permille, timeout_ms, region_size, anchor, pos, stage, input),
            input,
        ),
        stage is Search && input.cancelled ==> spec_locate(
            run,
            precision_permille,
            timeout_ms,
            region_size,
            anchor,
            pos,
            stage,
            input,
        ).action is Stopped,
{
    match stage {
        LocateStage::Begin => {},
        LocateStage::AwaitCursor => {},
        LocateStage::AwaitScreen { .. } => {},
        LocateStage::Prepare { .. } => {},
        LocateStage::AwaitPrepared => {},
        LocateStage::Search { .. } => {},
        LocateStage::AwaitMatch { .. } => {},
    }
}

/// A step of a run that is busy with a row stays within the row.
proof fn lemma_task_within_row(run: RunView, input: StepInput)
    requires
        !run.is_over(),
        run.at < run.tasks.len(),
    ensures
        within_row(run, spec_step(run, input), input),
        run.observes_cancel() && input.cancelled ==> spec_step(run, input).action is Stopped,
{
    match run.tasks[run.at as int] {
        Task::Pause { remaining_ms } => {
            lemma_pause_within_row(run, remaining_ms, input);
        },
        Task::Glide { to, speed_ms, asked } => {
            lemma_glide_within_row(run, to, speed_ms, asked, input);
        },
        Task::GlideToFound { speed_ms } => {
            lemma_glide_within_row(run, (0, 0), speed_ms, false, input);
        },
        Task::Stride { from, to, steps, step_ms, next, resting } => {
            lemma_stride_within_row(run, from, to, steps, step_ms, next, resting, input);
        },
        Task::Locate { precision_permille, timeout_ms, region_size, anchor, pos, stage } => {
            lemma_locate_within_row(run, precision_permille, timeout_ms, region_size, anchor, pos, stage, input);
        },
        _ => {},
    }
}

/// How a step within a row can end the run.
proof fn lemma_task_ends(run: RunView, input: StepInput)
    requires
        !run.is_over(),
        run.at < run.tasks.len(),
    ensures
        ({
            let turn = spec_step(run, input);
            &&& turn.action is Stopped ==> turn.run.status is Stopped && input.cancelled
            &&& run.observes_cancel() && input.cancelled ==> turn.action is Stopped
            &&& turn.run.is_over() <==> (turn.action is Stopped || turn.action is Finished || turn.action is Failed)
        }),
{
    match run.tasks[run.at as int] {
        Task::Locate { stage, .. } => {
            match stage {
                LocateStage::Begin => {},
                LocateStage::AwaitCursor => {},
                LocateStage::AwaitScreen { .. } => {},
                LocateStage::Prepare { .. } => {},
                LocateStage::AwaitPrepared => {},
                LocateStage::Search { .. } => {},
                LocateStage::AwaitMatch { .. } => {},
            }
        },
        _ => {},
    }
}

/// A fresh run is well formed, and a step keeps a run well formed.
pub proof fn lemma_step_keeps_run_well_formed(run: RunView, input: StepInput)
    requires
        run.wf(),
    ensures
        spec_step(run, input).run.wf(),
        spec_step(run, input).run.events == run.events,
        spec_step(run, input).run.row_map == run.row_map,
{
    if !run.is_over() && run.at < run.tasks.len() {
        lemma_task_within_row(run, input);
    }
}

/// The progress counter counts the rows up, one by one.
///
/// A step of a well-formed run either leaves the counter and the number of
/// rows begun as they are; or begins the next row, whose index is then the
/// number of rows begun before, and publishes that index; or, with every row
/// begun, finishes the run and sets the counter to `PROGRESS_DONE`; or is
/// cancelled at the start of a row, whose index it has published. So a run of
/// `n` rows that is not cancelled and does not fail publishes 0, 1, up to
/// `n - 1`, in this order, and then `PROGRESS_DONE`.
pub proof fn lemma_progress_counts_rows(run: RunView, input: StepInput)
    requires
        run.wf(),
    ensures
        ({
            let turn = spec_step(run, input);
            let stays = turn.run.next == run.next && turn.run.progress == run.progress && (turn.action is Finished
                ==> run.status is Finished);
            let begins = !run.is_over() && run.next < run.events.len() && turn.run.next == run.next + 1
                && turn.run.progress == run.next && turn.action is Continue && !input.cancelled;
            let finishes = !run.is_over() && run.next == run.events.len() && turn.action is Finished
                && turn.run.progress == PROGRESS_DONE && turn.run.next == run.next;
            let cancelled = !run.is_over() && input.cancelled && turn.action is Stopped && turn.run.next
                == run.next && turn.run.progress == run.next;
            &&& stays || begins || finishes || cancelled
            &&& turn.run.status is Running ==> turn.run.progress == turn.run.next - 1
            &&& turn.action is Finished ==> turn.run.next == run.events.len() && turn.run.progress
                == PROGRESS_DONE
            &&& turn.action is Failed ==> turn.run.progress == run.progress
        }),
{
    if !run.is_over() && run.at < run.tasks.len() {
        lemma_task_within_row(run, input);
    }
}

/// Cancellation is final, and it is no failure.
///
/// A run that is over stays exactly as it is: every later step repeats how
/// the run ended and asks for no move and no press or release. A step answers
/// `Stopped` only when the flag was set or the run had been stopped before,
/// and the run is then stopped, not failed. Wherever the next step looks at
/// the flag, a set flag stops the run.
pub proof fn lemma_cancellation_is_final(run: RunView, input: StepInput)
    ensures
        ({
            let turn = spec_step(run, input);
            &&& run.is_over() ==> turn.run == run && !turn.action.is_primitive()
            &&& run.status is Stopped ==> turn.action is Stopped
            &&& turn.action is Stopped ==> turn.run.status is Stopped && (input.cancelled || run.status is Stopped)
            &&& run.observes_cancel() && input.cancelled ==> turn.action is Stopped
            &&& turn.run.is_over() <==> (turn.action is Stopped || turn.action is Finished || turn.action is Failed)
        }),
{
    if !run.is_over() && run.at < run.tasks.len() {
        lemma_task_ends(run, input);
    }
}

/// A glide ends where it is meant to: the last step of a glide is at the
/// target, moved onto the screen, and the first position is where it began.
pub proof fn lemma_glide_ends_at_target(from: i32, to: i32, steps: u32)
    requires
        steps > 0,
    ensures
        spec_interpolated(from, to, steps, steps) == spec_on_screen(to),
        spec_interpolated(from, to, 0, steps) == spec_on_screen(from),
{
    assert(from * (steps - steps) + to * steps == to * steps) by (nonlinear_arith);
    assert(from * (steps - 0) + to * 0 == from * steps) by (nonlinear_arith);
    assert(to > 0 ==> (to * steps) / (steps as int) == to && to * steps > 0) by (nonlinear_arith)
        requires
            steps > 0,
    ;
    assert(to <= 0 ==> to * steps <= 0) by (nonlinear_arith)
        requires
            steps > 0,
    ;
    assert(from > 0 ==> (from * steps) / (steps as int) == from && from * steps > 0) by (nonlinear_arith)
        requires
            steps > 0,
    ;
    assert(from <= 0 ==> from * steps <= 0) by (nonlinear_arith)
        requires
            steps > 0,
    ;
}

/// The longest sleep that a step asks for while it plays rows as they are
/// laid out, in milliseconds: the sleep of a click.
pub const LONGEST_SLEEP_MS: u64 = 100;

impl Task {
    /// Whether the task sleeps no longer than rows ask for as they are laid
    /// out: a click at most `LONGEST_SLEEP_MS`, a glide at most five hundred
    /// milliseconds in all and `PAUSE_CHUNK_MS` after each step.
    pub open spec fn is_brisk(self) -> bool {
        match self {
            Task::Hold { ms } => ms <= LONGEST_SLEEP_MS,
            Task::Glide { speed_ms, .. } => speed_ms <= 500,
            Task::GlideToFound { speed_ms } => speed_ms <= 500,
            Task::Stride { step_ms, .. } => step_ms <= PAUSE_CHUNK_MS,
            _ => true,
        }
    }
}

impl RunView {
    /// Whether every task at hand is brisk.
    pub open spec fn is_brisk(self) -> bool {
        forall|k: int| 0 <= k < self.tasks.len() ==> (#[trigger] self.tasks[k]).is_brisk()
    }
}

/// The work of every row is brisk: a click sleeps at most a hundred
/// milliseconds, and a glide takes at most five hundred.
pub proof fn lemma_planned_is_brisk(row: EventView)
    ensures
        forall|k: int| 0 <= k < planned(row).len() ==> (#[trigger] planned(row)[k]).is_brisk(),
{
    let tasks = planned(row);
    let work = body(row);
    assert forall|k: int| 0 <= k < work.len() implies (#[trigger] work[k]).is_brisk() by {
        match row.kind {
            KindView::Move { .. } => {},
            KindView::Moves { points } => {
                assert(work[k] == glide(points[k], row_move_speed_ms(row)));
            },
            KindView::Wait { .. } => {},
            KindView::FindTarget { .. } => {},
            _ => {
                let reached = reach(row);
                let pressed = press(row);
                let speed = row_click_speed_ms(row);
                let once = click_once(row.kind.button(), speed);
                assert forall|j: int| 0 <= j < once.len() implies (#[trigger] once[j]).is_brisk() by {}
                assert forall|j: int| 0 <= j < pressed.len() implies (#[trigger] pressed[j]).is_brisk() by {
                    if row.kind is ButtonClick {
                        let twice = once + hold(speed) + once;
                        if pressed == twice {
                            if j < once.len() {
                                assert(twice[j] == once[j]);
                            } else if j < once.len() + hold(speed).len() {
                                assert(twice[j] == hold(speed)[j - once.len()]);
                            } else {
                                assert(twice[j] == once[j - once.len() - hold(speed).len()]);
                            }
                        }
                    }
                }
                if work == reached + pressed {
                    if k < reached.len() {
                        assert(work[k] == reached[k]);
                    } else {
                        assert(work[k] == pressed[k - reached.len()]);
                    }
                }
            },
        }
    }
    assert forall|k: int| 0 <= k < tasks.len() implies (#[trigger] tasks[k]).is_brisk() by {
        if tasks.len() == work.len() {
            assert(tasks == work);
        } else {
            if k > 0 {
                assert(tasks[k] == work[k - 1]);
            }
        }
    }
}

/// Cancellation is seen within one short sleep.
///
/// A run that began fresh holds brisk tasks only, and stays so step by step.
/// No step of such a run asks for a sleep longer than `LONGEST_SLEEP_MS`, and
/// the sleeps of waits, of glides and of searches, after each of which the
/// flag is looked at, are no longer than fifty milliseconds.
pub proof fn lemma_sleeps_are_short(run: RunView, input: StepInput)
    requires
        run.is_brisk(),
    ensures
        spec_step(run, input).run.is_brisk(),
        spec_step(run, input).action matches ActionView::Sleep { ms } ==> ms <= LONGEST_SLEEP_MS,
        spec_step(run, input).action matches ActionView::Sleep { ms } ==> ms <= SEARCH_BACKOFF_MS || (
        !run.is_over() && run.at < run.tasks.len() && run.tasks[run.at as int] is Hold),
{
    let turn = spec_step(run, input);
    if !run.is_over() {
        if run.at >= run.tasks.len() {
            if run.next < run.events.len() {
                lemma_planned_is_brisk(run.events[run.next as int]);
            }
        } else {
            let task = run.tasks[run.at as int];
            assert(task.is_brisk());
            match task {
                Task::Glide { to, speed_ms, asked } => {
                    lemma_stride_is_brisk(speed_ms);
                },
                Task::Locate { stage, .. } => {
                    match stage {
                        LocateStage::Begin => {},
                        LocateStage::AwaitCursor => {},
                        LocateStage::AwaitScreen { .. } => {},
                        LocateStage::Prepare { .. } => {},
                        LocateStage::AwaitPrepared => {},
                        LocateStage::Search { .. } => {},
                        LocateStage::AwaitMatch { .. } => {},
                    }
                },
                _ => {},
            }
            assert forall|k: int| 0 <= k < turn.run.tasks.len() implies (#[trigger] turn.run.tasks[k]).is_brisk() by {
                if k != run.at {
                    assert(turn.run.tasks[k] == run.tasks[k]);
                }
            }
        }
    }
}

/// A glide of at most five hundred milliseconds sleeps at most ten after each step.
proof fn lemma_stride_is_brisk(speed_ms: u64)
    requires
        speed_ms <= 500,
    ensures
        spec_stride_ms(speed_ms) <= 10,
{
    let steps = spec_stride_steps(speed_ms) as int;
    if speed_ms > 10 {
        assert(steps == (speed_ms + 9) / 10);
        assert(speed_ms / (steps as u64) <= 10) by (nonlinear_arith)
            requires
                10 < speed_ms <= 500,
                steps == (speed_ms + 9) / 10,
        ;
    }
}

/// A run goes from idle to running to one of its three ends, and never back.
pub proof fn lemma_status_moves_forward(run: RunView, input: StepInput)
    requires
        run.wf(),
    ensures
        ({
            let after = spec_step(run, input).run.status;
            match run.status {
                RunStatus::Idle => after is Running || after is Finished || after is Stopped,
                RunStatus::Running => !(after is Idle),
                _ => after == run.status,
            }
        }),
        spec_step(run, input).run.status is Finished && !(run.status is Finished) ==> run.next
            == run.events.len() && run.at >= run.tasks.len(),
{
    if !run.is_over() && run.at < run.tasks.len() {
        lemma_task_within_row(run, input);
    }
}

// ---------------------------------------------------------------------------
// Whole runs
// ---------------------------------------------------------------------------

/// The run after it took `inputs` one by one.
pub open spec fn ran(run: RunView, inputs: Seq<StepInput>) -> RunView
    decreases inputs.len(),
{
    if inputs.len() == 0 {
        run
    } else {
        ran(spec_step(run, inputs[0]).run, inputs.skip(1))
    }
}

/// What a step writes to the progress counter: between two rows the index of
/// the row that begins, or `PROGRESS_DONE` when no row is left; else nothing.
pub open spec fn published_by(run: RunView) -> Seq<usize> {
    if !run.is_over() && run.at >= run.tasks.len() {
        if run.next >= run.events.len() {
            seq![PROGRESS_DONE]
        } else {
            seq![run.next as usize]
        }
    } else {
        Seq::empty()
    }
}

/// Everything that is written to the progress counter while the run takes
/// `inputs`, in order.
pub open spec fn published(run: RunView, inputs: Seq<StepInput>) -> Seq<usize>
    decreases inputs.len(),
{
    if inputs.len() == 0 {
        Seq::empty()
    } else {
        published_by(run) + published(spec_step(run, inputs[0]).run, inputs.skip(1))
    }
}

/// No input has the cancellation flag set.
pub open spec fn never_cancelled(inputs: Seq<StepInput>) -> bool {
    forall|k: int| 0 <= k < inputs.len() ==> !(#[trigger] inputs[k]).cancelled
}

/// The numbers from `from` up to, not including, `to`.
pub open spec fn count_up(from: nat, to: nat) -> Seq<usize> {
    Seq::new((to - from) as nat, |i: int| (from + i) as usize)
}

/// A run publishes the index of each row once, in rising order, and the
/// sentinel last.
///
/// Whatever a run that is not cancelled is told, what it writes to the
/// progress counter is the indices of the rows that it begins, counting up
/// one by one from the first row that it had not begun, and then, if and only
/// if it finishes, `PROGRESS_DONE`; and it finishes only when it has begun
/// every row. So a fresh run of `n` rows that finishes has written exactly
/// 0, 1, up to `n - 1`, and then `PROGRESS_DONE`.
pub proof fn lemma_run_publishes_each_row_once(run: RunView, inputs: Seq<StepInput>)
    requires
        run.wf(),
        never_cancelled(inputs),
    ensures
        ({
            let end = ran(run, inputs);
            let finished = end.status is Finished && !(run.status is Finished);
            &&& end.wf()
            &&& run.next <= end.next <= run.events.len()
            &&& end.events == run.events
            &&& published(run, inputs) == count_up(run.next, end.next) + if finished {
                seq![PROGRESS_DONE]
            } else {
                Seq::<usize>::empty()
            }
            &&& end.status is Finished ==> end.next == run.events.len()
            &&& run.is_over() ==> end == run
            &&& end.progress == if published(run, inputs).len() > 0 {
                published(run, inputs).last()
            } else {
                run.progress
            }
        }),
    decreases inputs.len(),
{
    if inputs.len() == 0 {
        assert(count_up(run.next, run.next) =~= Seq::<usize>::empty());
        assert(published(run, inputs) =~= count_up(run.next, run.next) + Seq::<usize>::empty());
    } else {
        let input = inputs[0];
        let rest = inputs.skip(1);
        let turn = spec_step(run, input);
        lemma_step_keeps_run_well_formed(run, input);
        lemma_progress_counts_rows(run, input);
        lemma_status_moves_forward(run, input);
        lemma_cancellation_is_final(run, input);
        assert forall|k: int| 0 <= k < rest.len() implies !(#[trigger] rest[k]).cancelled by {
            assert(rest[k] == inputs[k + 1]);
        }
        lemma_run_publishes_each_row_once(turn.run, rest);
        let end = ran(run, inputs);
        assert(end == ran(turn.run, rest));
        let first = published_by(run);
        let later = published(turn.run, rest);
        let mark = |finished: bool|
            if finished {
                seq![PROGRESS_DONE]
            } else {
                Seq::<usize>::empty()
            };
        let finished = end.status is Finished && !(run.status is Finished);
        let finished_later = end.status is Finished && !(turn.run.status is Finished);
        assert(later == count_up(turn.run.next, end.next) + mark(finished_later));
        if run.is_over() {
            assert(first =~= Seq::<usize>::empty());
            assert(turn.run == run);
            assert(published(run, inputs) =~= count_up(run.next, end.next) + mark(finished));
        } else if run.at < run.tasks.len() {
            lemma_task_within_row(run, input);
            assert(first =~= Seq::<usize>::empty());
            assert(turn.run.next == run.next);
            assert(!(turn.run.status is Finished));
            assert(published(run, inputs) =~= count_up(run.next, end.next) + mark(finished));
        } else if run.next >= run.events.len() {
            assert(turn.run.status is Finished);
            assert(end == turn.run);
            assert(count_up(run.next, end.next) =~= Seq::<usize>::empty());
            assert(later =~= Seq::<usize>::empty());
            assert(published(run, inputs) =~= count_up(run.next, end.next) + mark(finished));
        } else {
            assert(turn.run.next == run.next + 1);
            assert(!(turn.run.status is Finished));
            assert(first =~= seq![run.next as usize]);
            assert(seq![run.next as usize] + count_up((run.next + 1) as nat, end.next) =~= count_up(
                run.next,
                end.next,
            ));
            assert(published(run, inputs) =~= count_up(run.next, end.next) + mark(finished));
        }
    }
}

/// What the run asks for while it takes `inputs`, step by step.
pub open spec fn asked(run: RunView, inputs: Seq<StepInput>) -> Seq<ActionView>
    decreases inputs.len(),
{
    if inputs.len() == 0 {
        Seq::empty()
    } else {
        seq![spec_step(run, inputs[0]).action] + asked(spec_step(run, inputs[0]).run, inputs.skip(1))
    }
}

/// Nothing follows the end of a run.
///
/// Once a run is stopped, whatever it is told later, it stays as it is and
/// answers `Stopped` to every step: it asks for no move of the pointer and
/// for no press or release. The same holds of a run that finished or failed,
/// with its own answer.
pub proof fn lemma_nothing_follows_the_end(run: RunView, inputs: Seq<StepInput>)
    requires
        run.is_over(),
    ensures
        ran(run, inputs) == run,
        asked(run, inputs).len() == inputs.len(),
        forall|k: int|
            0 <= k < inputs.len() ==> {
                &&& !(#[trigger] asked(run, inputs)[k]).is_primitive()
                &&& asked(run, inputs)[k] == spec_step(run, inputs[0]).action
                &&& run.status is Stopped ==> asked(run, inputs)[k] is Stopped
            },
    decreases inputs.len(),
{
    if inputs.len() > 0 {
        let rest = inputs.skip(1);
        lemma_cancellation_is_final(run, inputs[0]);
        lemma_nothing_follows_the_end(run, rest);
        let all = asked(run, inputs);
        let first = spec_step(run, inputs[0]).action;
        assert(all =~= seq![first] + asked(run, rest));
        assert forall|k: int| 0 <= k < inputs.len() implies {
            &&& !(#[trigger] all[k]).is_primitive()
            &&& all[k] == first
            &&& run.status is Stopped ==> all[k] is Stopped
        } by {
            if k > 0 {
                assert(all[k] == asked(run, rest)[k - 1]);
                assert(rest.len() > 0);
                assert(rest[0] == inputs[1]);
                lemma_cancellation_is_final(run, inputs[1]);
            }
        }
    }
}

} // verus!
