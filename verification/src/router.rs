//! The answer to a request that no route matches.
use vstd::prelude::*;

use crate::errors::{AppError, NOT_FOUND, not_found};
use crate::text::str_eq;

verus! {

/// The answer to a request that no route matches.
#[derive(Debug)]
pub enum FallbackResponse {
    /// A bare status 404, for a `HEAD` request.
    EmptyNotFound,
    /// The JSON "Not Found" error, for every other method.
    NotFound(AppError),
}

/// The answer to a request with the given method that no route matches.
pub fn fallback(method: &str) -> (r: FallbackResponse)
    ensures
        method@ == "HEAD"@ ==> r is EmptyNotFound,
        method@ != "HEAD"@ ==> (r matches FallbackResponse::NotFound(AppError::Custom {
            status,
            detail,
        }) && status == NOT_FOUND && detail@ == "Not Found"@),
{
    if str_eq(method, "HEAD") {
        FallbackResponse::EmptyNotFound
    } else {
        FallbackResponse::NotFound(not_found())
    }
}

} // verus!
