//! How a call ends: the status code, and the error that a failed call returns.

use vstd::prelude::*;

verus! {

/// The status codes that a call of this service ends with.
#[derive(Debug, Clone, Copy, PartialEq, Eq, Structural)]
pub enum StatusCode {
    /// The call succeeded (`OK`).
    Success,
    /// The call failed for a reason that has no code of its own (`UNKNOWN`).
    Unknown,
}

impl StatusCode {
    /// The number that the remote-call protocol gives the code.
    pub open spec fn spec_number(self) -> i64 {
        match self {
            StatusCode::Success => 0,
            StatusCode::Unknown => 2,
        }
    }

    /// The number that the remote-call protocol gives the code.
    #[verifier::when_used_as_spec(spec_number)]
    pub fn number(self) -> (n: i64)
        ensures
            n == self.spec_number(),
    {
        match self {
            StatusCode::Success => 0,
            StatusCode::Unknown => 2,
        }
    }
}

/// The error that a failed call returns to its caller.
#[derive(Debug, PartialEq, Eq)]
pub struct RpcStatus {
    pub code: StatusCode,
    pub message: String,
}

impl RpcStatus {
    /// An error of unknown kind with a message.
    pub fn unknown(message: String) -> (status: RpcStatus)
        ensures
            status.code == StatusCode::Unknown,
            status.message@ == message@,
    {
        RpcStatus { code: StatusCode::Unknown, message }
    }
}

} // verus!
