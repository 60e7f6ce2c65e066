//! What the operations of the application can fail with.

use crate::entities::vote::VoteError;
use crate::error::ChangeError;
use vstd::prelude::*;
use vstd::std_specs::convert::FromSpecImpl;

verus! {

/// A failure at the boundary of the application: either the storage layer
/// or the validation refused a change, or a rule of the domain did. The two
/// stay apart, so that a caller can answer them differently.
#[derive(Debug)]
pub enum APIError<'a> {
    ChangeError(ChangeError),
    VoteError(VoteError<'a>),
}

impl<'a> From<ChangeError> for APIError<'a> {
    fn from(value: ChangeError) -> (r: APIError<'a>) {
        APIError::ChangeError(value)
    }
}

impl<'a> FromSpecImpl<ChangeError> for APIError<'a> {
    open spec fn obeys_from_spec() -> bool {
        true
    }

    open spec fn from_spec(value: ChangeError) -> APIError<'a> {
        APIError::ChangeError(value)
    }
}

impl<'a> From<VoteError<'a>> for APIError<'a> {
    fn from(value: VoteError<'a>) -> (r: APIError<'a>) {
        APIError::VoteError(value)
    }
}

impl<'a> FromSpecImpl<VoteError<'a>> for APIError<'a> {
    open spec fn obeys_from_spec() -> bool {
        true
    }

    open spec fn from_spec(value: VoteError<'a>) -> APIError<'a> {
        APIError::VoteError(value)
    }
}

} // verus!
