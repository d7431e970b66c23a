//! The run as a state machine: which component is called next, and where a
//! failure ends the run.
//!
//! A run goes from `Idle` through `AddressesResolved`, `MessageBuilt`,
//! `Signed` and `Sent` to `Succeeded`. Each step is the call of one
//! component; the caller makes the call that [`next_action`] names and hands
//! its outcome to [`advance`]. A failure ends the run at once, with the phase
//! in which it came. Nothing is ever tried twice.

use crate::error::UpdateError;
use crate::transport::{is_interpretation, ResponseOutcome, UpdateResult, NO_ANSWER_RECEIVED};
use vstd::prelude::*;

verus! {

/// The phase of a run in which a failure came.
#[derive(Clone, Copy, Debug, PartialEq, Eq)]
pub enum Phase {
    AddressResolution,
    MessageConstruction,
    Signing,
    Transport,
    ServerRejection,
}

/// A failure with the phase in which it came.
#[derive(Debug, PartialEq, Eq)]
pub struct WorkflowFailure {
    pub phase: Phase,
    pub error: UpdateError,
}

/// Where a run stands.
#[derive(Debug, PartialEq, Eq)]
pub enum WorkflowState {
    Idle,
    AddressesResolved,
    MessageBuilt,
    Signed,
    Sent,
    Succeeded,
    Failed(WorkflowFailure),
}

/// What the caller is to do next.
#[derive(Clone, Copy, Debug, PartialEq, Eq)]
pub enum Action {
    /// Choose the addresses to publish.
    ResolveAddresses,
    /// Read the zone and the host as names and build the message.
    BuildMessage,
    /// Make the signing identity from the key material.
    Sign,
    /// Connect to the server and send the message, signed.
    Send,
    /// Await the first response and interpret it.
    AwaitResponse,
    /// Report how the run ended.
    Stop,
}

impl WorkflowState {
    /// Whether the run is over.
    pub open spec fn spec_is_terminal(&self) -> bool {
        self is Succeeded || self is Failed
    }

    /// How far the run has come: the number of phases behind it, and 5 once it is over.
    pub open spec fn progress(self) -> nat {
        match self {
            WorkflowState::Idle => 0,
            WorkflowState::AddressesResolved => 1,
            WorkflowState::MessageBuilt => 2,
            WorkflowState::Signed => 3,
            WorkflowState::Sent => 4,
            WorkflowState::Succeeded => 5,
            WorkflowState::Failed(_) => 5,
        }
    }

    /// Whether the run is over.
    #[verifier::when_used_as_spec(spec_is_terminal)]
    pub fn is_terminal(&self) -> (terminal: bool)
        ensures
            terminal == self.spec_is_terminal(),
    {
        match self {
            WorkflowState::Succeeded => true,
            WorkflowState::Failed(_) => true,
            _ => false,
        }
    }
}

/// The phase to which a failure in `state` belongs. Once the message is sent,
/// a code from the server is a rejection by the server and everything else a
/// failure of the transport.
pub open spec fn failure_phase(state: WorkflowState, error: UpdateError) -> Phase {
    match state {
        WorkflowState::Idle => Phase::AddressResolution,
        WorkflowState::AddressesResolved => Phase::MessageConstruction,
        WorkflowState::MessageBuilt => Phase::Signing,
        WorkflowState::Signed => Phase::Transport,
        _ => if error is ServerRejected {
            Phase::ServerRejection
        } else {
            Phase::Transport
        },
    }
}

/// The state that follows `state` when its component succeeds.
pub open spec fn successor(state: WorkflowState) -> WorkflowState {
    match state {
        WorkflowState::Idle => WorkflowState::AddressesResolved,
        WorkflowState::AddressesResolved => WorkflowState::MessageBuilt,
        WorkflowState::MessageBuilt => WorkflowState::Signed,
        WorkflowState::Signed => WorkflowState::Sent,
        WorkflowState::Sent => WorkflowState::Succeeded,
        WorkflowState::Succeeded => WorkflowState::Succeeded,
        WorkflowState::Failed(failure) => WorkflowState::Failed(failure),
    }
}

/// The state that follows `state` on the outcome of its component. A run
/// that is over stays as it is.
pub open spec fn spec_advance(state: WorkflowState, outcome: Result<(), UpdateError>) -> WorkflowState {
    if state.spec_is_terminal() {
        state
    } else {
        match outcome {
            Ok(_) => successor(state),
            Err(error) => WorkflowState::Failed(
                WorkflowFailure { phase: failure_phase(state, error), error },
            ),
        }
    }
}

/// The call that `state` waits for.
pub open spec fn spec_next_action(state: &WorkflowState) -> Action {
    match *state {
        WorkflowState::Idle => Action::ResolveAddresses,
        WorkflowState::AddressesResolved => Action::BuildMessage,
        WorkflowState::MessageBuilt => Action::Sign,
        WorkflowState::Signed => Action::Send,
        WorkflowState::Sent => Action::AwaitResponse,
        WorkflowState::Succeeded => Action::Stop,
        WorkflowState::Failed(_) => Action::Stop,
    }
}

/// The state after `outcomes` have been handed in, one after the other, from `state` on.
pub open spec fn run_from(state: WorkflowState, outcomes: Seq<Result<(), UpdateError>>) -> WorkflowState
    decreases outcomes.len(),
{
    if outcomes.len() == 0 {
        state
    } else {
        spec_advance(run_from(state, outcomes.drop_last()), outcomes.last())
    }
}

/// Names the call that `state` waits for.
#[verifier::when_used_as_spec(spec_next_action)]
pub fn next_action(state: &WorkflowState) -> (action: Action)
    ensures
        action == spec_next_action(state),
{
    match state {
        WorkflowState::Idle => Action::ResolveAddresses,
        WorkflowState::AddressesResolved => Action::BuildMessage,
        WorkflowState::MessageBuilt => Action::Sign,
        WorkflowState::Signed => Action::Send,
        WorkflowState::Sent => Action::AwaitResponse,
        WorkflowState::Succeeded => Action::Stop,
        WorkflowState::Failed(_) => Action::Stop,
    }
}

/// Takes the outcome of the call that `state` waited for and gives the next
/// state with the call that it waits for.
pub fn advance(state: WorkflowState, outcome: Result<(), UpdateError>) -> (next: (
    WorkflowState,
    Action,
))
    ensures
        next.0 == spec_advance(state, outcome),
        next.1 == spec_next_action(&next.0),
{
    let next_state = match state {
        WorkflowState::Succeeded => WorkflowState::Succeeded,
        WorkflowState::Failed(failure) => WorkflowState::Failed(failure),
        WorkflowState::Idle => match outcome {
            Ok(_) => WorkflowState::AddressesResolved,
            Err(error) => WorkflowState::Failed(
                WorkflowFailure { phase: Phase::AddressResolution, error },
            ),
        },
        WorkflowState::AddressesResolved => match outcome {
            Ok(_) => WorkflowState::MessageBuilt,
            Err(error) => WorkflowState::Failed(
                WorkflowFailure { phase: Phase::MessageConstruction, error },
            ),
        },
        WorkflowState::MessageBuilt => match outcome {
            Ok(_) => WorkflowState::Signed,
            Err(error) => WorkflowState::Failed(WorkflowFailure { phase: Phase::Signing, error }),
        },
        WorkflowState::Signed => match outcome {
            Ok(_) => WorkflowState::Sent,
            Err(error) => WorkflowState::Failed(
                WorkflowFailure { phase: Phase::Transport, error },
            ),
        },
        WorkflowState::Sent => match outcome {
            Ok(_) => WorkflowState::Succeeded,
            Err(error) => {
                let phase = match &error {
                    UpdateError::ServerRejected(_) => Phase::ServerRejection,
                    _ => Phase::Transport,
                };
                WorkflowState::Failed(WorkflowFailure { phase, error })
            },
        },
    };
    let action = next_action(&next_state);
    (next_state, action)
}

/// No step is taken twice: every outcome moves a run that is not over one
/// phase forward or ends it, and a run that is over never changes again.
pub proof fn lemma_no_retry(state: WorkflowState, outcome: Result<(), UpdateError>)
    ensures
        state.spec_is_terminal() ==> spec_advance(state, outcome) == state,
        !state.spec_is_terminal() ==> spec_advance(state, outcome).progress() > state.progress(),
        !state.spec_is_terminal() && outcome is Ok ==> spec_advance(state, outcome).progress()
            == state.progress() + 1,
        !state.spec_is_terminal() && outcome is Err ==> spec_advance(state, outcome) is Failed,
        spec_next_action(&state) == Action::Stop <==> state.spec_is_terminal(),
{
}

/// A failure keeps its error and says where it came: an error handed in
/// while the run is not over is the error of the failed state, under the
/// phase of the state in which it came.
pub proof fn lemma_failure_keeps_error(state: WorkflowState, error: UpdateError)
    requires
        !state.spec_is_terminal(),
    ensures
        spec_advance(state, Err(error)) matches WorkflowState::Failed(failure) && failure.error
            == error && failure.phase == failure_phase(state, error),
{
}

/// A run in which every component succeeds is over after five steps, in `Succeeded`.
pub proof fn lemma_five_successes_succeed(outcomes: Seq<Result<(), UpdateError>>)
    requires
        outcomes.len() == 5,
        forall|i: int| 0 <= i < 5 ==> (#[trigger] outcomes[i]) is Ok,
    ensures
        run_from(WorkflowState::Idle, outcomes) == WorkflowState::Succeeded,
{
    let one = outcomes.drop_last();
    let two = one.drop_last();
    let three = two.drop_last();
    let four = three.drop_last();
    let five = four.drop_last();
    assert(outcomes.last() == outcomes[4]);
    assert(one.last() == outcomes[3]);
    assert(two.last() == outcomes[2]);
    assert(three.last() == outcomes[1]);
    assert(four.last() == outcomes[0]);
    assert(run_from(WorkflowState::Idle, five) == WorkflowState::Idle);
    assert(run_from(WorkflowState::Idle, four) == WorkflowState::AddressesResolved);
    assert(run_from(WorkflowState::Idle, three) == WorkflowState::MessageBuilt);
    assert(run_from(WorkflowState::Idle, two) == WorkflowState::Signed);
    assert(run_from(WorkflowState::Idle, one) == WorkflowState::Sent);
}

/// The first failure decides: whatever is handed in after a failure, the run
/// stays in the failed state that the failure gave.
pub proof fn lemma_first_failure_decides(
    state: WorkflowState,
    error: UpdateError,
    later: Seq<Result<(), UpdateError>>,
)
    requires
        !state.spec_is_terminal(),
    ensures
        run_from(spec_advance(state, Err(error)), later) == spec_advance(state, Err(error)),
    decreases later.len(),
{
    if later.len() > 0 {
        lemma_first_failure_decides(state, error, later.drop_last());
    }
}

/// The run that ended with `error` in `phase`.
pub open spec fn failed_in(phase: Phase, error: UpdateError) -> WorkflowState {
    WorkflowState::Failed(WorkflowFailure { phase, error })
}

/// Whether `state` is a run that the transport ended as a protocol failure with `cause`.
pub open spec fn is_protocol_failure(state: WorkflowState, cause: Seq<char>) -> bool {
    match state {
        WorkflowState::Failed(failure) => failure.phase == Phase::Transport && match failure.error {
            UpdateError::ProtocolFailure(text) => text@ == cause,
            _ => false,
        },
        _ => false,
    }
}

/// The answer decides a run whose message is sent: it succeeds exactly on
/// `NoError`; any other code ends it as a rejection by the server, with the
/// code as it came; an error of the transport ends it with its cause; and a
/// stream that closed without a response ends it as a protocol failure.
pub proof fn lemma_answer_decides(outcome: ResponseOutcome, result: UpdateResult)
    requires
        is_interpretation(outcome, result),
    ensures
        match outcome {
            ResponseOutcome::Answered(code) => if code.spec_is_no_error() {
                spec_advance(WorkflowState::Sent, result.spec_into_outcome())
                    == WorkflowState::Succeeded
            } else {
                spec_advance(WorkflowState::Sent, result.spec_into_outcome()) == failed_in(
                    Phase::ServerRejection,
                    UpdateError::ServerRejected(code),
                )
            },
            ResponseOutcome::Failed(cause) => spec_advance(
                WorkflowState::Sent,
                result.spec_into_outcome(),
            ) == failed_in(Phase::Transport, UpdateError::TransportFailure(cause)),
            ResponseOutcome::Closed => is_protocol_failure(
                spec_advance(WorkflowState::Sent, result.spec_into_outcome()),
                NO_ANSWER_RECEIVED@,
            ),
        },
{
}

} // verus!
