use vstd::prelude::*;

verus! {

/// The answers that the service gives to a request.
#[derive(Debug, PartialEq, Eq, Clone, Copy, Structural)]
pub enum Response {
    /// The request was carried out.
    Success,
    /// The request could not be read, or what it held is not valid.
    BadRequest,
    /// The token is not outstanding.
    Unauthorized,
    /// The address is confirmed already.
    Conflict,
    /// The store or the event channel failed.
    InternalServerError,
}

impl Response {
    /// The status code of the answer.
    pub open spec fn code(self) -> u16 {
        match self {
            Response::Success => 200,
            Response::BadRequest => 400,
            Response::Unauthorized => 401,
            Response::Conflict => 409,
            Response::InternalServerError => 500,
        }
    }

    /// The status code of the answer.
    pub fn status_code(&self) -> (code: u16)
        ensures
            code == self.code(),
    {
        match self {
            Response::Success => 200,
            Response::BadRequest => 400,
            Response::Unauthorized => 401,
            Response::Conflict => 409,
            Response::InternalServerError => 500,
        }
    }
}

} // verus!
