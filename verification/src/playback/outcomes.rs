//! How a glide that is cancelled and a search that finds nothing end,
//! whatever the time they were given.

use vstd::prelude::*;
use crate::playback::laws::{asked, lemma_nothing_follows_the_end, ran};
use crate::playback::{
    ActionView, LocateStage, PlaybackError, Reply, RunStatus, RunView, SEARCH_BACKOFF_MS, StepInput,
    Task, spec_step,
};
use crate::recorder::spec_elapsed_ms;

verus! {

// ---------------------------------------------------------------------------
// A cancelled glide
// ---------------------------------------------------------------------------

/// The run is about to glide to `to` within `speed_ms` milliseconds.
pub open spec fn gliding(run: RunView, to: (i32, i32), speed_ms: u64) -> bool {
    &&& !run.is_over()
    &&& run.at < run.tasks.len()
    &&& match run.tasks[run.at as int] {
        Task::Glide { to: target, speed_ms: time, .. } => target == to && time == speed_ms,
        _ => false,
    }
}

/// A glide that is cancelled moves nothing, however long it was to take.
///
/// Let a run be about to glide, in any time above zero, from where it knows
/// the pointer to be to another place. Its first step lays the glide out and
/// asks for nothing. When the flag is set at the second step, that step stops
/// the run, and whatever the run is told from then on, it answers `Stopped`.
/// No step asks for a move of the pointer or for a press or release, the run
/// is stopped and not failed, and it still holds the pointer where it was.
pub proof fn lemma_cancelled_glide_moves_nothing(
    run: RunView,
    to: (i32, i32),
    speed_ms: u64,
    inputs: Seq<StepInput>,
)
    requires
        gliding(run, to, speed_ms),
        speed_ms > 0,
        run.current_pos is Some,
        run.current_pos != Some(to),
        inputs.len() >= 2,
        inputs[1].cancelled,
    ensures
        ran(run, inputs).status is Stopped,
        ran(run, inputs).current_pos == run.current_pos,
        ran(run, inputs).last_found == run.last_found,
        ran(run, inputs).progress == run.progress,
        asked(run, inputs).len() == inputs.len(),
        asked(run, inputs)[0] is Continue,
        forall|k: int| 1 <= k < inputs.len() ==> #[trigger] asked(run, inputs)[k] is Stopped,
        forall|k: int| 0 <= k < inputs.len() ==> !(#[trigger] asked(run, inputs)[k]).is_primitive(),
{
    let laid = spec_step(run, inputs[0]);
    let rest = inputs.skip(1);
    let stopped = spec_step(laid.run, rest[0]);
    let after = rest.skip(1);
    assert(rest[0] == inputs[1]);
    assert(laid.action is Continue);
    assert(stopped.action is Stopped);
    assert(stopped.run.status is Stopped);
    lemma_nothing_follows_the_end(stopped.run, after);
    assert(ran(run, inputs) == ran(laid.run, rest));
    assert(ran(laid.run, rest) == ran(stopped.run, after));
    let tail = asked(stopped.run, after);
    assert(asked(laid.run, rest) =~= seq![stopped.action] + tail);
    assert(asked(run, inputs) =~= seq![laid.action] + (seq![stopped.action] + tail));
    assert forall|k: int| 1 <= k < inputs.len() implies #[trigger] asked(run, inputs)[k] is Stopped by {
        if k >= 2 {
            assert(asked(run, inputs)[k] == tail[k - 2]);
        }
    }
}

// ---------------------------------------------------------------------------
// A search that finds nothing
// ---------------------------------------------------------------------------

/// The run is in the rounds of a search that began at `started_ms` and gives
/// up after `timeout_ms`: it is about to look at the time, or waits for the
/// answer of the matcher.
pub open spec fn searching(run: RunView, started_ms: u64, timeout_ms: u64) -> bool {
    &&& !run.is_over()
    &&& run.at < run.tasks.len()
    &&& match run.tasks[run.at as int] {
        Task::Locate { timeout_ms: limit, stage, .. } => limit == timeout_ms && (stage == (LocateStage::Search {
            started_ms,
        }) || stage == (LocateStage::AwaitMatch { started_ms })),
        _ => false,
    }
}

/// The run is about to look at the time in a search that began at `started_ms`.
pub open spec fn about_to_look(run: RunView, started_ms: u64) -> bool {
    run.at < run.tasks.len() && match run.tasks[run.at as int] {
        Task::Locate { stage, .. } => stage == (LocateStage::Search { started_ms }),
        _ => false,
    }
}

/// The rounds of a search begin when the matcher has taken the image of the
/// row, and their time is counted from that moment: whatever the anchor and
/// the region of the search, the step that learns of it asks for nothing and
/// leaves the run about to look at the time for the first time.
pub proof fn lemma_search_begins_its_rounds(run: RunView, input: StepInput)
    requires
        !run.is_over(),
        run.at < run.tasks.len(),
        run.tasks[run.at as int] is Locate,
        run.tasks[run.at as int]->stage is AwaitPrepared,
        input.reply == (Reply::Prepared { ok: true }),
    ensures
        ({
            let turn = spec_step(run, input);
            &&& turn.action is Continue
            &&& searching(turn.run, input.now_ms, run.tasks[run.at as int]->timeout_ms)
            &&& about_to_look(turn.run, input.now_ms)
            &&& turn.run.last_found == run.last_found
        }),
{
}

/// The flag is never set, and the matcher never finds the target.
pub open spec fn never_found(inputs: Seq<StepInput>) -> bool {
    forall|k: int|
        0 <= k < inputs.len() ==> !(#[trigger] inputs[k]).cancelled && inputs[k].reply == (Reply::Match {
            found: None,
        })
}

/// The clock of `input` reads more than `timeout_ms` after `started_ms`.
pub open spec fn late(input: StepInput, started_ms: u64, timeout_ms: u64) -> bool {
    spec_elapsed_ms(input.now_ms, started_ms) > timeout_ms
}

/// What a round of a search that finds nothing asks for: one look of the
/// matcher, the sleep between two rounds, or the end by timeout.
pub open spec fn round_action(action: ActionView, timeout_ms: u64) -> bool {
    ||| action is FindImage
    ||| action == (ActionView::Sleep { ms: SEARCH_BACKOFF_MS })
    ||| action == (ActionView::Failed { error: PlaybackError::TimedOut { timeout_ms } })
}

/// A search that finds nothing ends by timeout, and by nothing else.
///
/// Let a run be in the rounds of a search, with any anchor and any region,
/// and let it take any number of steps in which the flag is never set and the
/// matcher never finds the target. Then the run either still searches or has
/// failed with `TimedOut`. It asks only for looks of the matcher and for
/// sleeps of `SEARCH_BACKOFF_MS`, and the target found last, the pointer, the
/// progress counter and the rows begun stay as they were. As long as no clock
/// reads more than the timeout after the start, it still searches: it fails
/// only after more than the timeout has gone by.
pub proof fn lemma_unanswered_search_times_out(
    run: RunView,
    started_ms: u64,
    timeout_ms: u64,
    inputs: Seq<StepInput>,
)
    requires
        searching(run, started_ms, timeout_ms),
        never_found(inputs),
    ensures
        ({
            let end = ran(run, inputs);
            &&& searching(end, started_ms, timeout_ms) || end.status == (RunStatus::Failed {
                error: PlaybackError::TimedOut { timeout_ms },
            })
            &&& end.last_found == run.last_found
            &&& end.current_pos == run.current_pos
            &&& end.progress == run.progress
            &&& end.next == run.next
            &&& end.events == run.events
            &&& (forall|k: int| 0 <= k < inputs.len() ==> !late(#[trigger] inputs[k], started_ms, timeout_ms))
                ==> searching(end, started_ms, timeout_ms)
        }),
        asked(run, inputs).len() == inputs.len(),
        forall|k: int| 0 <= k < inputs.len() ==> round_action(#[trigger] asked(run, inputs)[k], timeout_ms),
    decreases inputs.len(),
{
    if inputs.len() > 0 {
        let turn = spec_step(run, inputs[0]);
        let rest = inputs.skip(1);
        let all = asked(run, inputs);
        assert(all =~= seq![turn.action] + asked(turn.run, rest));
        assert(round_action(turn.action, timeout_ms));
        assert forall|k: int| 0 <= k < rest.len() implies !(#[trigger] rest[k]).cancelled && rest[k].reply == (
        Reply::Match { found: None }) by {
            assert(rest[k] == inputs[k + 1]);
        }
        if turn.run.is_over() {
            assert(late(inputs[0], started_ms, timeout_ms));
            lemma_nothing_follows_the_end(turn.run, rest);
            assert forall|k: int| 0 <= k < inputs.len() implies round_action(#[trigger] all[k], timeout_ms) by {
                if k > 0 {
                    assert(all[k] == asked(turn.run, rest)[k - 1]);
                    assert(asked(turn.run, rest)[k - 1] == spec_step(turn.run, rest[0]).action);
                }
            }
        } else {
            lemma_unanswered_search_times_out(turn.run, started_ms, timeout_ms, rest);
            assert forall|k: int| 0 <= k < inputs.len() implies round_action(#[trigger] all[k], timeout_ms) by {
                if k > 0 {
                    assert(all[k] == asked(turn.run, rest)[k - 1]);
                }
            }
            if forall|k: int| 0 <= k < inputs.len() ==> !late(#[trigger] inputs[k], started_ms, timeout_ms) {
                assert forall|k: int| 0 <= k < rest.len() implies !late(#[trigger] rest[k], started_ms, timeout_ms) by {
                    assert(rest[k] == inputs[k + 1]);
                }
            }
        }
    }
}

/// A search that finds nothing ends within a round of the timeout.
///
/// In the rounds of a search in which the flag is never set and the matcher
/// never finds the target, once the clock reads more than the timeout after
/// the start at two steps in a row, the run has failed with `TimedOut`: the
/// search makes finitely many rounds.
pub proof fn lemma_late_search_has_failed(
    run: RunView,
    started_ms: u64,
    timeout_ms: u64,
    inputs: Seq<StepInput>,
    k: int,
)
    requires
        searching(run, started_ms, timeout_ms),
        never_found(inputs),
        0 <= k,
        k + 1 < inputs.len(),
        late(inputs[k], started_ms, timeout_ms),
        late(inputs[k + 1], started_ms, timeout_ms),
    ensures
        ran(run, inputs).status == (RunStatus::Failed { error: PlaybackError::TimedOut { timeout_ms } }),
    decreases inputs.len(),
{
    let turn = spec_step(run, inputs[0]);
    let rest = inputs.skip(1);
    assert forall|i: int| 0 <= i < rest.len() implies !(#[trigger] rest[i]).cancelled && rest[i].reply == (
    Reply::Match { found: None }) by {
        assert(rest[i] == inputs[i + 1]);
    }
    if turn.run.is_over() {
        lemma_nothing_follows_the_end(turn.run, rest);
    } else if k == 0 {
        assert(!about_to_look(run, started_ms));
        assert(about_to_look(turn.run, started_ms));
        assert(rest[0] == inputs[1]);
        let failed = spec_step(turn.run, rest[0]);
        assert(failed.run.status == (RunStatus::Failed { error: PlaybackError::TimedOut { timeout_ms } }));
        lemma_nothing_follows_the_end(failed.run, rest.skip(1));
        assert(ran(turn.run, rest) == ran(failed.run, rest.skip(1)));
    } else {
        assert(rest[k - 1] == inputs[k]);
        assert(rest[k] == inputs[k + 1]);
        lemma_late_search_has_failed(turn.run, started_ms, timeout_ms, rest, k - 1);
    }
}

/// A search touches nothing but the target that it finds.
///
/// Whatever the stage of a search, its anchor and its region, and whatever
/// the run is told, a step of the search asks for no move of the pointer and
/// for no press or release, and leaves the pointer where the run holds it. The
/// target found last changes at one place only: where the matcher answers
/// with a target.
pub proof fn lemma_search_keeps_what_was_found(run: RunView, input: StepInput)
    requires
        !run.is_over(),
        run.at < run.tasks.len(),
        run.tasks[run.at as int] is Locate,
    ensures
        ({
            let turn = spec_step(run, input);
            let found = run.tasks[run.at as int]->stage is AwaitMatch && input.reply is Match
                && input.reply->found is Some;
            &&& !turn.action.is_primitive()
            &&& turn.run.current_pos == run.current_pos
            &&& turn.run.last_found == if found {
                input.reply->found
            } else {
                run.last_found
            }
        }),
{
}

} // verus!
