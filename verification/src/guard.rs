//! The ownership guard: turns the raw `uuid` request header into a
//! validated owner identifier, or rejects the request. It runs before the
//! identity read and before every product operation, never before issuance.

use crate::identifier::{parse_identifier, parsed_identifier};
use crate::registry::UserState;
use vstd::prelude::*;

verus! {

/// Why a request's claimed identifier was rejected. Every rejection answers
/// with the forbidden status and a short reason string.
#[derive(Clone, Copy, Debug, PartialEq, Eq, Structural)]
pub enum AuthError {
    /// No `uuid` header came with the request.
    MissingIdentifier,
    /// The header value does not parse as an identifier.
    MalformedIdentifier,
    /// The header parses, but the identifier was never issued.
    UnknownIdentifier,
}

impl AuthError {
    pub open spec fn spec_message(&self) -> Seq<char> {
        match self {
            AuthError::MissingIdentifier => "Please pass your identifier"@,
            AuthError::MalformedIdentifier => "Invalid identifier"@,
            AuthError::UnknownIdentifier => "Invalid identifier"@,
        }
    }

    /// The reason string sent with the rejection.
    pub fn message(&self) -> (m: &'static str)
        ensures
            m@ == self.spec_message(),
    {
        match self {
            AuthError::MissingIdentifier => "Please pass your identifier",
            AuthError::MalformedIdentifier => "Invalid identifier",
            AuthError::UnknownIdentifier => "Invalid identifier",
        }
    }

    /// Every rejection of the guard is forbidden.
    pub fn status(&self) -> (s: crate::Status)
        ensures
            s == crate::Status::Forbidden,
    {
        crate::Status::Forbidden
    }
}

/// An identifier the guard has validated: syntactically well formed and
/// present in the identity registry at the time of the check.
#[derive(Clone, Copy, Debug)]
pub struct RequiredUserId(pub u128);

/// The abstract content of the optional `uuid` header.
pub open spec fn header_text(header: Option<&str>) -> Option<Seq<char>> {
    match header {
        Some(h) => Some(h@),
        None => None,
    }
}

/// The guard's whole decision: a missing header, an unparseable value and
/// an unissued identifier are each rejected with their own error; anything
/// else yields the parsed identifier.
pub open spec fn guard_decision(header: Option<Seq<char>>, reg: Map<u128, Seq<char>>) -> Result<
    u128,
    AuthError,
> {
    match header {
        None => Err(AuthError::MissingIdentifier),
        Some(h) => match parsed_identifier(h) {
            None => Err(AuthError::MalformedIdentifier),
            Some(id) => if reg.contains_key(id) {
                Ok(id)
            } else {
                Err(AuthError::UnknownIdentifier)
            },
        },
    }
}

/// Validates a header value that was present: parses it and confirms the
/// parsed identifier was issued.
pub fn verify_uuid(uuid: &str, user: &UserState) -> (r: Result<RequiredUserId, AuthError>)
    ensures
        match r {
            Ok(id) => guard_decision(Some(uuid@), user@) == Ok::<u128, AuthError>(id.0),
            Err(e) => guard_decision(Some(uuid@), user@) == Err::<u128, AuthError>(e),
        },
{
    match parse_identifier(uuid) {
        None => Err(AuthError::MalformedIdentifier),
        Some(id) => {
            if user.contains(id) {
                Ok(RequiredUserId(id))
            } else {
                Err(AuthError::UnknownIdentifier)
            }
        },
    }
}

impl RequiredUserId {
    /// The guard as the router runs it: takes the `uuid` header as it came,
    /// absent or present, and decides as `guard_decision` says.
    pub fn from_request_parts(header: Option<&str>, user: &UserState) -> (r: Result<
        RequiredUserId,
        AuthError,
    >)
        ensures
            match r {
                Ok(id) => guard_decision(header_text(header), user@) == Ok::<u128, AuthError>(
                    id.0,
                ),
                Err(e) => guard_decision(header_text(header), user@) == Err::<u128, AuthError>(e),
            },
    {
        match header {
            None => Err(AuthError::MissingIdentifier),
            Some(h) => verify_uuid(h, user),
        }
    }
}

} // verus!
