//! What the one answer to an update means.

use crate::error::{ResponseCode, UpdateError};
use vstd::prelude::*;

verus! {

/// The time, in seconds, that a connection attempt may take.
pub const CONNECT_TIMEOUT_SECS: u64 = 5;

/// The cause reported when the response stream ends without a response.
pub const NO_ANSWER_RECEIVED: &'static str = "no answer received";

/// What awaiting the first response gave.
#[derive(Debug, PartialEq, Eq)]
pub enum ResponseOutcome {
    /// The server answered, with this code.
    Answered(ResponseCode),
    /// The transport failed while the answer was awaited, for this cause.
    Failed(String),
    /// The response stream ended without any response.
    Closed,
}

/// How an update ended, once it was sent.
#[derive(Debug, PartialEq, Eq)]
pub enum UpdateResult {
    /// The server accepted the update.
    Success,
    /// The server answered with a code other than `NoError`.
    ServerRejected(ResponseCode),
    /// The transport failed while the answer was awaited.
    TransportFailure(String),
    /// No well-formed answer came.
    ProtocolFailure(String),
}

/// Whether `result` is what `outcome` means.
pub open spec fn is_interpretation(outcome: ResponseOutcome, result: UpdateResult) -> bool {
    match outcome {
        ResponseOutcome::Answered(code) => if code.spec_is_no_error() {
            result == UpdateResult::Success
        } else {
            result == UpdateResult::ServerRejected(code)
        },
        ResponseOutcome::Failed(cause) => result == UpdateResult::TransportFailure(cause),
        ResponseOutcome::Closed => result matches UpdateResult::ProtocolFailure(cause) && cause@
            == NO_ANSWER_RECEIVED@,
    }
}

/// Interprets the outcome of awaiting the first response: `NoError` is
/// success, any other code a rejection that carries the code, an error of the
/// transport a transport failure with its cause, and a stream that ended
/// without a response a protocol failure.
pub fn interpret_response(outcome: ResponseOutcome) -> (result: UpdateResult)
    ensures
        is_interpretation(outcome, result),
{
    match outcome {
        ResponseOutcome::Answered(code) => {
            if code.is_no_error() {
                UpdateResult::Success
            } else {
                UpdateResult::ServerRejected(code)
            }
        },
        ResponseOutcome::Failed(cause) => UpdateResult::TransportFailure(cause),
        ResponseOutcome::Closed => UpdateResult::ProtocolFailure(NO_ANSWER_RECEIVED.to_owned()),
    }
}

impl UpdateResult {
    /// The result as the outcome of the last phase: success, or the error
    /// that ended the run.
    pub open spec fn spec_into_outcome(self) -> Result<(), UpdateError> {
        match self {
            UpdateResult::Success => Ok(()),
            UpdateResult::ServerRejected(code) => Err(UpdateError::ServerRejected(code)),
            UpdateResult::TransportFailure(cause) => Err(UpdateError::TransportFailure(cause)),
            UpdateResult::ProtocolFailure(cause) => Err(UpdateError::ProtocolFailure(cause)),
        }
    }

    /// The result as the outcome of the last phase: success, or the error
    /// that ended the run.
    pub fn into_outcome(self) -> (outcome: Result<(), UpdateError>)
        ensures
            outcome == self.spec_into_outcome(),
    {
        match self {
            UpdateResult::Success => Ok(()),
            UpdateResult::ServerRejected(code) => Err(UpdateError::ServerRejected(code)),
            UpdateResult::TransportFailure(cause) => Err(UpdateError::TransportFailure(cause)),
            UpdateResult::ProtocolFailure(cause) => Err(UpdateError::ProtocolFailure(cause)),
        }
    }
}

} // verus!
