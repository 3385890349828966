//! The failure taxonomy shared by every call to the vendor API.

use vstd::prelude::*;
use vstd::std_specs::convert::FromSpecImpl;

verus! {

/// How a call to the vendor API failed.
#[derive(Debug, Clone, PartialEq, Eq)]
pub enum ApiError {
    /// The access token was rejected; a fresh login may cure it.
    Unauthorized,
    /// Transport failure, unexpected status or undecodable payload, with its message.
    Other(String),
}

impl ApiError {
    /// Whether a fresh login can be expected to help.
    pub fn is_unauthorized(&self) -> (r: bool)
        ensures
            r == (*self is Unauthorized),
    {
        match self {
            ApiError::Unauthorized => true,
            ApiError::Other(_) => false,
        }
    }
}

impl From<String> for ApiError {
    fn from(err: String) -> (r: ApiError) {
        ApiError::Other(err)
    }
}

impl FromSpecImpl<String> for ApiError {
    open spec fn obeys_from_spec() -> bool {
        true
    }

    open spec fn from_spec(err: String) -> ApiError {
        ApiError::Other(err)
    }
}

} // verus!
