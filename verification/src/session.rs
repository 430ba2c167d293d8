//! The course of one export: from idle through validating, compiling and
//! invoking the engine to success or failure.

use vstd::prelude::*;
use crate::engine::{classify_failure, says_codec, says_disk_space, says_invalid};
use crate::error::{EngineFailure, ExportError};

verus! {

/// How a run of the engine ended.
#[derive(Clone, Debug, PartialEq, Eq)]
pub enum EngineOutcome {
    /// The engine could not be started; holds the reason.
    NotStarted(String),
    /// The engine ran to its end and wrote `diagnostic`.
    Exited { success: bool, diagnostic: String },
}

/// Where an export stands.
#[derive(Clone, Debug, PartialEq, Eq)]
pub enum ExportState {
    Idle,
    Validating,
    Compiling,
    Invoking,
    Succeeded,
    Failed(ExportError),
}

/// What can happen to an export.
#[derive(Clone, Debug, PartialEq, Eq)]
pub enum ExportEvent {
    /// A request was handed in.
    Submitted,
    /// The request passed validation.
    Admitted,
    /// The request was turned down.
    Rejected(ExportError),
    /// The graph was compiled and written out.
    Compiled,
    /// The graph was found unsound.
    Unsound,
    /// The engine came back.
    EngineFinished(EngineOutcome),
}

/// The category of the diagnostic `diagnostic`.
pub open spec fn classified(diagnostic: String) -> EngineFailure {
    if says_disk_space(diagnostic@) {
        EngineFailure::DiskSpace
    } else if says_codec(diagnostic@) {
        EngineFailure::CodecIncompatible
    } else if says_invalid(diagnostic@) {
        EngineFailure::InvalidParameters
    } else {
        EngineFailure::Generic(diagnostic)
    }
}

/// How an export ends after the engine came back with `outcome`.
pub open spec fn concluded(outcome: EngineOutcome) -> ExportState {
    match outcome {
        EngineOutcome::NotStarted(reason) => ExportState::Failed(
            ExportError::EngineInvocation(reason),
        ),
        EngineOutcome::Exited { success, diagnostic } => if success {
            ExportState::Succeeded
        } else {
            ExportState::Failed(
                ExportError::Engine { failure: classified(diagnostic), diagnostic },
            )
        },
    }
}

/// The state that follows `state` on `event`. An event that does not belong
/// to the state leaves it as it is; nothing follows success or failure.
pub open spec fn next_state(state: ExportState, event: ExportEvent) -> ExportState {
    match (state, event) {
        (ExportState::Idle, ExportEvent::Submitted) => ExportState::Validating,
        (ExportState::Validating, ExportEvent::Admitted) => ExportState::Compiling,
        (ExportState::Validating, ExportEvent::Rejected(e)) => ExportState::Failed(e),
        (ExportState::Compiling, ExportEvent::Compiled) => ExportState::Invoking,
        (ExportState::Compiling, ExportEvent::Unsound) => ExportState::Failed(
            ExportError::GraphIntegrity,
        ),
        (ExportState::Invoking, ExportEvent::EngineFinished(outcome)) => concluded(outcome),
        (s, _) => s,
    }
}

/// Sorts an owned diagnostic into its category, keeping it whole where none
/// of the known phrasings fits.
pub fn classify_owned(diagnostic: &String) -> (failure: EngineFailure)
    ensures
        failure == classified(*diagnostic),
{
    match classify_failure(diagnostic.as_str()) {
        EngineFailure::Generic(_) => EngineFailure::Generic(diagnostic.clone()),
        other => other,
    }
}

/// Ends an export with what the engine did.
pub fn conclude(outcome: EngineOutcome) -> (state: ExportState)
    ensures
        state == concluded(outcome),
{
    match outcome {
        EngineOutcome::NotStarted(reason) => ExportState::Failed(
            ExportError::EngineInvocation(reason),
        ),
        EngineOutcome::Exited { success, diagnostic } => {
            if success {
                ExportState::Succeeded
            } else {
                let failure = classify_owned(&diagnostic);
                ExportState::Failed(ExportError::Engine { failure, diagnostic })
            }
        },
    }
}

/// Moves an export on by one event.
pub fn advance(state: ExportState, event: ExportEvent) -> (next: ExportState)
    ensures
        next == next_state(state, event),
{
    match state {
        ExportState::Idle => match event {
            ExportEvent::Submitted => ExportState::Validating,
            _ => ExportState::Idle,
        },
        ExportState::Validating => match event {
            ExportEvent::Admitted => ExportState::Compiling,
            ExportEvent::Rejected(e) => ExportState::Failed(e),
            _ => ExportState::Validating,
        },
        ExportState::Compiling => match event {
            ExportEvent::Compiled => ExportState::Invoking,
            ExportEvent::Unsound => ExportState::Failed(ExportError::GraphIntegrity),
            _ => ExportState::Compiling,
        },
        ExportState::Invoking => match event {
            ExportEvent::EngineFinished(outcome) => conclude(outcome),
            _ => ExportState::Invoking,
        },
        ExportState::Succeeded => ExportState::Succeeded,
        ExportState::Failed(e) => ExportState::Failed(e),
    }
}

/// The state after `events`, one after the other, from `state` on.
pub open spec fn state_after(state: ExportState, events: Seq<ExportEvent>) -> ExportState
    decreases events.len(),
{
    if events.len() == 0 {
        state
    } else {
        next_state(state_after(state, events.drop_last()), events.last())
    }
}

/// Nothing follows success or failure.
pub proof fn lemma_final_states_stay(state: ExportState, events: Seq<ExportEvent>)
    requires
        state is Succeeded || state is Failed,
    ensures
        state_after(state, events) == state,
    decreases events.len(),
{
    if events.len() > 0 {
        lemma_final_states_stay(state, events.drop_last());
    }
}

/// A run in which the request is turned down for `e`, and `later` happens
/// afterwards.
pub open spec fn rejected_run(e: ExportError, later: Seq<ExportEvent>) -> Seq<ExportEvent> {
    seq![ExportEvent::Submitted, ExportEvent::Rejected(e)] + later
}

/// An export that is turned down at validation never invokes the engine:
/// whatever happens after the rejection, the export stays failed with the
/// error it was rejected for.
pub proof fn theorem_rejected_export_never_invokes(e: ExportError, later: Seq<ExportEvent>)
    ensures
        state_after(ExportState::Idle, rejected_run(e, later)) == ExportState::Failed(e),
        forall|k: int|
            0 <= k <= later.len() ==> !(state_after(
                ExportState::Idle,
                rejected_run(e, #[trigger] later.take(k)),
            ) is Invoking),
{
    assert forall|k: int| 0 <= k <= later.len() implies state_after(
        ExportState::Idle,
        rejected_run(e, #[trigger] later.take(k)),
    ) == ExportState::Failed(e) by {
        lemma_rejected_stays(e, later.take(k));
    }
    lemma_rejected_stays(e, later);
}

proof fn lemma_rejected_stays(e: ExportError, later: Seq<ExportEvent>)
    ensures
        state_after(ExportState::Idle, rejected_run(e, later)) == ExportState::Failed(e),
    decreases later.len(),
{
    let start = seq![ExportEvent::Submitted, ExportEvent::Rejected(e)];
    if later.len() == 0 {
        reveal_with_fuel(state_after, 3);
        assert(start + later =~= start);
        assert(start.drop_last() =~= seq![ExportEvent::Submitted]);
        assert(seq![ExportEvent::Submitted].drop_last() =~= Seq::<ExportEvent>::empty());
        assert(state_after(ExportState::Idle, seq![ExportEvent::Submitted])
            == ExportState::Validating);
    } else {
        lemma_rejected_stays(e, later.drop_last());
        assert((start + later).drop_last() =~= start + later.drop_last());
    }
}

} // verus!
