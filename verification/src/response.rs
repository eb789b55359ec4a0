//! What a request that went well is answered with.

use vstd::prelude::*;

verus! {

/// The body of a successful answer.
#[derive(Debug, Clone, PartialEq, Eq)]
pub struct SuccessResponse<T>(pub T);

/// The answer to a successful login.
#[derive(Debug, Clone, PartialEq, Eq)]
pub struct LoginResponse {
    pub token: String,
}

impl<T> From<T> for SuccessResponse<T> {
    fn from(value: T) -> (r: SuccessResponse<T>)
        ensures
            r.0 == value,
    {
        SuccessResponse(value)
    }
}

impl<T> vstd::std_specs::convert::FromSpecImpl<T> for SuccessResponse<T> {
    open spec fn obeys_from_spec() -> bool {
        true
    }

    open spec fn from_spec(value: T) -> SuccessResponse<T> {
        SuccessResponse(value)
    }
}

} // verus!
