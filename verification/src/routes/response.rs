use vstd::prelude::*;

verus! {

/// The answer to a request: a bare status, with no body.
#[derive(Clone, Copy, Debug, PartialEq, Eq, Structural)]
pub enum Response {
    Success,
    BadRequest,
    Unauthorized,
    InternalServerError,
}

impl Response {
    /// The HTTP status of the answer.
    pub open spec fn spec_status_code(self) -> u16 {
        match self {
            Response::Success => 200,
            Response::BadRequest => 400,
            Response::Unauthorized => 401,
            Response::InternalServerError => 500,
        }
    }

    /// The HTTP status of the answer.
    pub fn status_code(&self) -> (code: u16)
        ensures
            code == self.spec_status_code(),
    {
        match self {
            Response::Success => 200,
            Response::BadRequest => 400,
            Response::Unauthorized => 401,
            Response::InternalServerError => 500,
        }
    }
}

} // verus!
