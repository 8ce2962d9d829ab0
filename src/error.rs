use vstd::prelude::*;

verus! {

/// The failures a request can end in, one per kind of cause.
#[derive(PartialEq, Eq, Structural, Clone, Copy, Debug)]
pub enum ApiError {
    /// No valid session (or key) where one is required.
    Unauthenticated,
    /// A banned user asked to rebind.
    Forbidden,
    /// An upstream call failed in transport or decoding.
    UpstreamError,
    /// The requested game account is already bound to another user.
    CollisionError,
    /// Any other storage or validation failure.
    BadRequest,
    /// The session or its user could not be found.
    NotFound,
}

impl ApiError {
    /// The HTTP status each error is rendered as.
    pub open spec fn status_spec(self) -> u16 {
        match self {
            ApiError::Unauthenticated => 401,
            ApiError::Forbidden => 403,
            ApiError::UpstreamError => 502,
            ApiError::CollisionError => 409,
            ApiError::BadRequest => 400,
            ApiError::NotFound => 404,
        }
    }

    pub fn status_code(&self) -> (r: u16)
        ensures
            r == self.status_spec(),
    {
        match self {
            ApiError::Unauthenticated => 401,
            ApiError::Forbidden => 403,
            ApiError::UpstreamError => 502,
            ApiError::CollisionError => 409,
            ApiError::BadRequest => 400,
            ApiError::NotFound => 404,
        }
    }
}

} // verus!
