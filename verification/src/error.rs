use vstd::prelude::*;
use crate::database::envelope_msg;
use crate::database::write_message_response;
use crate::response::Data;

verus! {

/// The error taxonomy that front-ends recover at their boundary and map to a
/// status/message pair; no error propagates past a front-end.
pub enum ServiceError {
    BadRequest { error_message: &'static str },
    Unauthorized { error_message: &'static str },
    Forbidden { error_message: &'static str },
    NotFound { error_message: &'static str },
    InternalServerError { error_message: &'static str },
}

impl ServiceError {
    /// The message carried by the error, regardless of its kind.
    pub fn message(&self) -> (r: &'static str)
        ensures
            r == self.spec_message(),
    {
        match self {
            ServiceError::BadRequest { error_message } => error_message,
            ServiceError::Unauthorized { error_message } => error_message,
            ServiceError::Forbidden { error_message } => error_message,
            ServiceError::NotFound { error_message } => error_message,
            ServiceError::InternalServerError { error_message } => error_message,
        }
    }

    pub open spec fn spec_message(&self) -> &'static str {
        match self {
            ServiceError::BadRequest { error_message } => error_message,
            ServiceError::Unauthorized { error_message } => error_message,
            ServiceError::Forbidden { error_message } => error_message,
            ServiceError::NotFound { error_message } => error_message,
            ServiceError::InternalServerError { error_message } => error_message,
        }
    }

    /// The transport status code that each error kind resolves to.
    pub fn status(&self) -> (r: u16)
        ensures
            r == self.spec_status(),
    {
        match self {
            ServiceError::BadRequest { .. } => 400,
            ServiceError::Unauthorized { .. } => 401,
            ServiceError::Forbidden { .. } => 403,
            ServiceError::NotFound { .. } => 404,
            ServiceError::InternalServerError { .. } => 500,
        }
    }

    pub open spec fn spec_status(&self) -> u16 {
        match self {
            ServiceError::BadRequest { .. } => 400,
            ServiceError::Unauthorized { .. } => 401,
            ServiceError::Forbidden { .. } => 403,
            ServiceError::NotFound { .. } => 404,
            ServiceError::InternalServerError { .. } => 500,
        }
    }

    /// Renders the error as its wire response: the message in a data-less
    /// envelope, under the error's own status.
    pub fn respond(&self, out: &mut Vec<u8>) -> (st: u16)
        ensures
            st == self.spec_status(),
            final(out)@ == envelope_msg::<()>(self.spec_message()@, Data::Empty),
    {
        write_message_response::<()>(self.message(), self.status(), out)
    }
}

} // verus!
