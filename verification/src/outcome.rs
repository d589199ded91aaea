//! The uniform result every front end receives, and the error taxonomy.

use vstd::prelude::*;

verus! {

/// Why an action failed. Every error is terminal for the single request that
/// produced it: nothing is retried and no error state outlives the request.
#[derive(Clone, PartialEq, Eq, Debug)]
pub enum ControlError {
    /// The detected platform family has no backend for the requested action.
    UnsupportedPlatform,
    /// The backend process could not be launched; carries the text of the
    /// underlying operating-system error.
    LaunchFailure(String),
    /// A volume query ran, but its textual output did not match the shape the
    /// tool is known to print.
    ParseFailure,
    /// Every fallback tool for the platform failed to launch; carries the text
    /// of the last launch error.
    BackendUnavailable(String),
}

/// The outcome handed back to any front end after dispatching an action.
///
/// Invariant ([`ActionOutcome::wf`]): a failed outcome always carries a
/// non-empty message, and a reported volume level is a percentage in
/// `[0, 100]`.
#[derive(Clone, PartialEq, Eq, Debug)]
pub struct ActionOutcome {
    pub succeeded: bool,
    pub message: String,
    pub value: Option<i32>,
}

impl ActionOutcome {
    /// Well-formedness: failures explain themselves, and any reported volume
    /// is a valid percentage.
    pub open spec fn wf(self) -> bool {
        &&& !self.succeeded ==> self.message@.len() > 0
        &&& match self.value {
            Some(v) => 0 <= v <= 100,
            None => true,
        }
    }
}

/// The HTTP status code a route handler reports for an outcome: 200 for
/// success, 500 (server error) for any failure.
pub fn http_status(outcome: &ActionOutcome) -> (status: u16)
    ensures
        status == if outcome.succeeded {
            200u16
        } else {
            500u16
        },
{
    if outcome.succeeded {
        200
    } else {
        500
    }
}

} // verus!
