//! Error taxonomy of the service. Every failure surfaced to the request
//! boundary is one of these kinds; the boundary maps each kind to a fixed
//! HTTP status and a fixed message.

use vstd::prelude::*;
use vstd::string::StringExecFns;

verus! {

/// One error kind per way a request can fail; the payload of `BadRequest`
/// and `NotFound` names what was malformed or absent.
#[derive(Debug, Clone)]
pub enum AppError {
    InternalServerError,
    BadRequest(String),
    NotFound(String),
    Unauthorized,
    Forbidden,
}

impl AppError {
    /// The fixed HTTP status that answers this error kind.
    pub open spec fn spec_status_code(self) -> u16 {
        match self {
            AppError::InternalServerError => 500,
            AppError::BadRequest(_) => 400,
            AppError::NotFound(_) => 404,
            AppError::Unauthorized => 401,
            AppError::Forbidden => 403,
        }
    }

    pub fn status_code(&self) -> (code: u16)
        ensures
            code == self.spec_status_code(),
    {
        match self {
            AppError::InternalServerError => 500,
            AppError::BadRequest(_) => 400,
            AppError::NotFound(_) => 404,
            AppError::Unauthorized => 401,
            AppError::Forbidden => 403,
        }
    }

    /// The message shown at the request boundary for this error.
    pub open spec fn spec_message(self) -> Seq<char> {
        match self {
            AppError::InternalServerError => "Internal server error"@,
            AppError::BadRequest(detail) => "Bad request: "@ + detail@,
            AppError::NotFound(detail) => "Not found: "@ + detail@,
            AppError::Unauthorized => "Unauthorized"@,
            AppError::Forbidden => "Forbidden"@,
        }
    }

    pub fn message(&self) -> (msg: String)
        ensures
            msg@ == self.spec_message(),
    {
        match self {
            AppError::InternalServerError => String::from_str("Internal server error"),
            AppError::BadRequest(detail) => {
                let mut msg = String::from_str("Bad request: ");
                msg.append(detail.as_str());
                msg
            },
            AppError::NotFound(detail) => {
                let mut msg = String::from_str("Not found: ");
                msg.append(detail.as_str());
                msg
            },
            AppError::Unauthorized => String::from_str("Unauthorized"),
            AppError::Forbidden => String::from_str("Forbidden"),
        }
    }
}

} // verus!
