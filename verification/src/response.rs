//! The outcome of a handler: either a payload (serialised as JSON by the
//! HTTP layer) or one of the bodyless status responses the API uses.

use vstd::prelude::*;
use crate::err::ApiErrors;

verus! {

/// What a handler answers. `Success` carries the payload of a 200 response;
/// `Error` carries a named API error whose status and JSON body come from
/// [`ApiErrors`]; the remaining variants are plain responses without a body.
pub enum ApiResponse<T> {
    Success(T),
    NoContent,
    BadRequest,
    NotFound,
    Conflict,
    Internal,
    Error(ApiErrors),
}

impl<T> ApiResponse<T> {
    pub open spec fn spec_status(self) -> u16 {
        match self {
            ApiResponse::Success(_) => 200,
            ApiResponse::NoContent => 204,
            ApiResponse::BadRequest => 400,
            ApiResponse::NotFound => 404,
            ApiResponse::Conflict => 409,
            ApiResponse::Internal => 500,
            ApiResponse::Error(e) => e.spec_status(),
        }
    }

    /// The HTTP status code this response is sent with.
    pub fn status(&self) -> (s: u16)
        ensures
            s == self.spec_status(),
    {
        match self {
            ApiResponse::Success(_) => 200,
            ApiResponse::NoContent => 204,
            ApiResponse::BadRequest => 400,
            ApiResponse::NotFound => 404,
            ApiResponse::Conflict => 409,
            ApiResponse::Internal => 500,
            ApiResponse::Error(e) => e.status(),
        }
    }
}

} // verus!
