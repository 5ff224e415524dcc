use vstd::prelude::*;

pub mod identifier;
pub mod registry;
pub mod store;
pub mod guard;
pub mod handlers;
pub mod laws;

verus! {

/// HTTP-level status of a handler's response.
#[derive(Clone, Copy, Debug, PartialEq, Eq, Structural)]
pub enum Status {
    Okay,
    Created,
    Found,
    NoContent,
    Forbidden,
    NotFound,
    Conflict,
    InternalServerError,
}

impl Status {
    pub open spec fn spec_code(&self) -> u16 {
        match self {
            Status::Okay => 200,
            Status::Created => 201,
            Status::Found => 302,
            Status::NoContent => 204,
            Status::Forbidden => 403,
            Status::NotFound => 404,
            Status::Conflict => 409,
            Status::InternalServerError => 500,
        }
    }

    /// The numeric HTTP status code of this status.
    pub fn code(&self) -> (c: u16)
        ensures
            c == self.spec_code(),
    {
        match self {
            Status::Okay => 200,
            Status::Created => 201,
            Status::Found => 302,
            Status::NoContent => 204,
            Status::Forbidden => 403,
            Status::NotFound => 404,
            Status::Conflict => 409,
            Status::InternalServerError => 500,
        }
    }
}

} // verus!
