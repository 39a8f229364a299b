//! The endpoints of the alignment service.

use vstd::prelude::*;

use crate::error::ApiError;

verus! {

/// How many log lines are asked for.
#[derive(Debug)]
pub struct TailQuery {
    pub tail: usize,
}

/// How many log lines are shown where the request does not say.
pub fn default_tail() -> (r: usize)
    ensures
        r == 200,
{
    200
}

impl Default for TailQuery {
    fn default() -> (r: TailQuery)
        ensures
            r.tail == 200,
    {
        TailQuery { tail: default_tail() }
    }
}

/// An error where the service is not there.
pub fn require_nfa(present: bool) -> (r: Result<(), ApiError>)
    ensures
        r is Ok <==> present,
        r matches Err(e) ==> e matches ApiError::ServiceUnavailable(m) && m@ == "NFA disabled"@,
{
    if present {
        Ok(())
    } else {
        Err(ApiError::ServiceUnavailable("NFA disabled".to_owned()))
    }
}

/// The answer to a request that the service could not do.
pub fn nfa_failure(error: String) -> (r: ApiError)
    ensures
        r == ApiError::Internal(error),
{
    ApiError::Internal(error)
}

} // verus!
