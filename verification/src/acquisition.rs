//! The course of one background acquisition: from a granted slot, through
//! preparing the session directory, acquiring and validating the media, to
//! publishing it or discarding it.  The driver performs each action and
//! reports what happened; the decisions are taken here.

use vstd::prelude::*;

use crate::error::AppError;
use crate::routes::acquisition_time_left;

verus! {

/// Where a run is.
#[derive(Clone, Copy, Debug, PartialEq, Eq, Structural)]
pub enum RunPhase {
    /// A slot was granted; the session is about to be marked downloading.
    Starting,
    /// The session directory is being created.
    Preparing,
    /// The media is being acquired.
    Acquiring,
    /// The media was acquired; the time left is being measured.
    Checking,
    /// The media is being validated.
    Validating,
    /// Nothing is left to do.
    Finished,
}

/// What the driver observed after its last action.
#[derive(Debug)]
pub enum RunEvent {
    /// The session was marked downloading; `false` when it no longer exists.
    Started(bool),
    /// The session directory was created, or could not be.
    Prepared(Result<(), AppError>),
    /// The acquisition ended.
    Acquired(Result<(), AppError>),
    /// So many nanoseconds have passed since the acquisition started.
    Elapsed(u128),
    /// The validation ended.
    Validated(Result<(), AppError>),
}

/// What the driver does next.
#[derive(Debug)]
pub enum RunAction {
    /// Create the session directory.
    Prepare,
    /// Acquire the media within the whole acquisition budget.
    Acquire,
    /// Mark the session as validating, then measure the time elapsed.
    MarkValidating,
    /// Validate the media within this many nanoseconds.
    Validate(u128),
    /// Mark the session ready with its media.
    Publish,
    /// Remove the session directory and mark the session failed; the error
    /// is what went wrong.
    Discard(AppError),
    /// Stop: the session is gone.
    Stop,
}

/// The acquisition budget of `timeout_secs` seconds, in nanoseconds.
pub open spec fn budget_nanos(timeout_secs: u64) -> int {
    timeout_secs * 1_000_000_000
}

/// The next phase and action of a run in `phase` that observed `event`,
/// with an acquisition budget of `timeout_secs` seconds; `None` when the
/// event cannot happen in that phase.
pub open spec fn run_step_spec(phase: RunPhase, timeout_secs: u64, event: RunEvent) -> Option<
    (RunPhase, RunAction),
> {
    match phase {
        RunPhase::Starting => match event {
            RunEvent::Started(true) => Some((RunPhase::Preparing, RunAction::Prepare)),
            RunEvent::Started(false) => Some((RunPhase::Finished, RunAction::Stop)),
            _ => None,
        },
        RunPhase::Preparing => match event {
            RunEvent::Prepared(Ok(())) => Some((RunPhase::Acquiring, RunAction::Acquire)),
            RunEvent::Prepared(Err(e)) => Some((RunPhase::Finished, RunAction::Discard(e))),
            _ => None,
        },
        RunPhase::Acquiring => match event {
            RunEvent::Acquired(Ok(())) => Some((RunPhase::Checking, RunAction::MarkValidating)),
            RunEvent::Acquired(Err(e)) => Some((RunPhase::Finished, RunAction::Discard(e))),
            _ => None,
        },
        RunPhase::Checking => match event {
            RunEvent::Elapsed(n) => if n <= budget_nanos(timeout_secs) {
                Some(
                    (
                        RunPhase::Validating,
                        RunAction::Validate((budget_nanos(timeout_secs) - n) as u128),
                    ),
                )
            } else {
                Some((RunPhase::Finished, RunAction::Discard(AppError::MediaAcquisitionTimeout)))
            },
            _ => None,
        },
        RunPhase::Validating => match event {
            RunEvent::Validated(Ok(())) => Some((RunPhase::Finished, RunAction::Publish)),
            RunEvent::Validated(Err(e)) => Some((RunPhase::Finished, RunAction::Discard(e))),
            _ => None,
        },
        RunPhase::Finished => None,
    }
}

/// Takes one step of a run: the next phase and action after `event`, or
/// `None` when the event cannot happen in `phase`.
pub fn run_step(phase: RunPhase, timeout_secs: u64, event: RunEvent) -> (r: Option<
    (RunPhase, RunAction),
>)
    ensures
        r == run_step_spec(phase, timeout_secs, event),
{
    match phase {
        RunPhase::Starting => match event {
            RunEvent::Started(true) => Some((RunPhase::Preparing, RunAction::Prepare)),
            RunEvent::Started(false) => Some((RunPhase::Finished, RunAction::Stop)),
            _ => None,
        },
        RunPhase::Preparing => match event {
            RunEvent::Prepared(Ok(())) => Some((RunPhase::Acquiring, RunAction::Acquire)),
            RunEvent::Prepared(Err(e)) => Some((RunPhase::Finished, RunAction::Discard(e))),
            _ => None,
        },
        RunPhase::Acquiring => match event {
            RunEvent::Acquired(Ok(())) => Some((RunPhase::Checking, RunAction::MarkValidating)),
            RunEvent::Acquired(Err(e)) => Some((RunPhase::Finished, RunAction::Discard(e))),
            _ => None,
        },
        RunPhase::Checking => match event {
            RunEvent::Elapsed(n) => match acquisition_time_left(timeout_secs, n) {
                Ok(left) => Some((RunPhase::Validating, RunAction::Validate(left))),
                Err(e) => Some((RunPhase::Finished, RunAction::Discard(e))),
            },
            _ => None,
        },
        RunPhase::Validating => match event {
            RunEvent::Validated(Ok(())) => Some((RunPhase::Finished, RunAction::Publish)),
            RunEvent::Validated(Err(e)) => Some((RunPhase::Finished, RunAction::Discard(e))),
            _ => None,
        },
        RunPhase::Finished => None,
    }
}

/// The phase a run that starts in `phase` ends in after `events`, with the
/// actions it took; `None` when some event cannot happen where it comes.
pub open spec fn run_from(phase: RunPhase, timeout_secs: u64, events: Seq<RunEvent>) -> Option<
    (RunPhase, Seq<RunAction>),
>
    decreases events.len(),
{
    if events.len() == 0 {
        Some((phase, Seq::empty()))
    } else {
        match run_step_spec(phase, timeout_secs, events[0]) {
            None => None,
            Some((next, action)) => match run_from(next, timeout_secs, events.drop_first()) {
                None => None,
                Some((end, actions)) => Some((end, seq![action] + actions)),
            },
        }
    }
}

/// An action that ends a run.
pub open spec fn is_final_action(a: RunAction) -> bool {
    a is Publish || a is Discard || a is Stop
}

proof fn lemma_run_length(phase: RunPhase, timeout_secs: u64, events: Seq<RunEvent>)
    ensures
        run_from(phase, timeout_secs, events) matches Some((_, actions)) ==> actions.len()
            == events.len(),
    decreases events.len(),
{
    if events.len() > 0 {
        if let Some((next, _)) = run_step_spec(phase, timeout_secs, events[0]) {
            lemma_run_length(next, timeout_secs, events.drop_first());
        }
    }
}

proof fn lemma_publish_follows_acquisition(
    phase: RunPhase,
    timeout_secs: u64,
    events: Seq<RunEvent>,
    k: int,
)
    requires
        run_from(phase, timeout_secs, events) matches Some((_, actions)) && 0 <= k < actions.len()
            && actions[k] is Publish,
    ensures
        events[k] matches RunEvent::Validated(Ok(())),
        phase == RunPhase::Checking || phase == RunPhase::Validating || exists|i: int|
            0 <= i < k && #[trigger] events[i] matches RunEvent::Acquired(Ok(())),
    decreases events.len(),
{
    lemma_run_length(phase, timeout_secs, events);
    let (next, action) = run_step_spec(phase, timeout_secs, events[0]).unwrap();
    let (_, rest) = run_from(next, timeout_secs, events.drop_first()).unwrap();
    let (_, actions) = run_from(phase, timeout_secs, events).unwrap();
    assert(actions == seq![action] + rest);
    if k > 0 {
        assert(rest[k - 1] == actions[k]);
        lemma_publish_follows_acquisition(next, timeout_secs, events.drop_first(), k - 1);
        assert(events.drop_first()[k - 1] == events[k]);
        if next == RunPhase::Checking {
            assert(events[0] matches RunEvent::Acquired(Ok(())));
        } else if next != RunPhase::Validating {
            let i = choose|i: int|
                0 <= i < k - 1 && #[trigger] events.drop_first()[i] matches RunEvent::Acquired(
                    Ok(()),
                );
            assert(events[i + 1] == events.drop_first()[i]);
        }
    }
}

/// Media is published only once it was acquired and then validated: in
/// any run, the event that leads to publishing is a successful validation,
/// and a successful acquisition came before it.
pub proof fn law_publish_only_after_validation(timeout_secs: u64, events: Seq<RunEvent>, k: int)
    requires
        run_from(RunPhase::Starting, timeout_secs, events) matches Some((_, actions)) && 0 <= k
            < actions.len() && actions[k] is Publish,
    ensures
        events[k] matches RunEvent::Validated(Ok(())),
        exists|i: int| 0 <= i < k && #[trigger] events[i] matches RunEvent::Acquired(Ok(())),
{
    lemma_publish_follows_acquisition(RunPhase::Starting, timeout_secs, events, k);
}

/// A run ends exactly once: it finishes with the action that publishes,
/// discards or stops, and a finished run takes no further step.
pub proof fn law_run_ends_once(phase: RunPhase, timeout_secs: u64, event: RunEvent)
    ensures
        run_step_spec(phase, timeout_secs, event) matches Some((next, action)) ==> (next
            == RunPhase::Finished <==> is_final_action(action)),
        run_step_spec(RunPhase::Finished, timeout_secs, event) is None,
{
}

/// In a run, only the last action can end it: publishing, discarding and
/// stopping are never followed by anything.
pub proof fn law_final_action_is_last(phase: RunPhase, timeout_secs: u64, events: Seq<RunEvent>)
    ensures
        run_from(phase, timeout_secs, events) matches Some((_, actions)) ==> forall|k: int|
            0 <= k < actions.len() - 1 ==> !is_final_action(#[trigger] actions[k]),
    decreases events.len(),
{
    lemma_run_length(phase, timeout_secs, events);
    if events.len() > 0 {
        if let Some((next, action)) = run_step_spec(phase, timeout_secs, events[0]) {
            law_final_action_is_last(next, timeout_secs, events.drop_first());
            if let Some((_, rest)) = run_from(next, timeout_secs, events.drop_first()) {
                let actions = seq![action] + rest;
                if is_final_action(action) && events.len() > 1 {
                    assert(next == RunPhase::Finished);
                    assert(run_step_spec(next, timeout_secs, events.drop_first()[0]) is None);
                }
                assert forall|k: int| 0 <= k < actions.len() - 1 implies !is_final_action(
                    #[trigger] actions[k],
                ) by {
                    if k > 0 {
                        assert(actions[k] == rest[k - 1]);
                    }
                }
            }
        }
    }
}

/// Validation gets only what is left of the acquisition budget: the time
/// it is given and the time the acquisition took add up to the budget.
pub proof fn law_validation_within_budget(phase: RunPhase, timeout_secs: u64, event: RunEvent)
    ensures
        run_step_spec(phase, timeout_secs, event) matches Some((_, RunAction::Validate(left)))
            ==> phase == RunPhase::Checking && (event matches RunEvent::Elapsed(n) && n + left
            == budget_nanos(timeout_secs)),
{
}

} // verus!
