use super::response_types::ApiResponseType;
use vstd::prelude::*;

verus! {

/// What a successful request yields.
#[derive(Debug, PartialEq)]
pub struct ApiResponse {
    /// How many requests the service still allows, where it said so.
    pub ratelimit_remaining: Option<i32>,
    /// The result itself.
    pub response: ApiResponseType,
}

} // verus!
