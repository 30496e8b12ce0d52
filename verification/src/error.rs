//! How a request fails.

use vstd::prelude::*;

verus! {

/// Why a request produced no reply of the expected kind.
///
/// The three causes are told apart for the caller's benefit only: nothing in
/// this crate recovers from one or treats it differently from another.
#[derive(Debug, Clone, Copy, PartialEq, Eq, Structural)]
pub enum RequestError {
    /// The session could not carry the request or deliver its reply.
    Transport,
    /// A reply arrived but did not have the expected shape.
    Decode,
    /// The server answered with the given failure status.
    Status(i32),
}

/// Outcome of one request.
pub type RequestResult<T> = Result<T, RequestError>;

/// The status of a reply that reports success.
pub const STATUS_OK: i32 = 0;

impl RequestError {
    /// Judges the status that a reply carries: `STATUS_OK` lets the reply
    /// through, any other value is the failure that the server reports.
    pub fn check_status(status: i32) -> (outcome: RequestResult<()>)
        ensures
            status == STATUS_OK ==> outcome == Ok::<(), RequestError>(()),
            status != STATUS_OK ==> outcome == Err::<(), RequestError>(
                RequestError::Status(status),
            ),
    {
        if status == STATUS_OK {
            Ok(())
        } else {
            Err(RequestError::Status(status))
        }
    }
}

} // verus!
