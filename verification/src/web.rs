//! The outward-facing side: the response envelope every endpoint answers
//! with, the endpoints themselves, and where they are mounted.

pub mod route_handler;
pub mod router;

use crate::validation::ValidationErrors;
use vstd::prelude::*;

verus! {

/// The HTTP status of an answer that carries an envelope, whatever the
/// envelope says.
pub const STATUS_OK: u16 = 200;

/// The HTTP status of the answer to a query that failed validation.
pub const STATUS_BAD_REQUEST: u16 = 400;

/// The uniform response envelope: a short message and the payload.
#[derive(Debug, Clone, PartialEq, Eq)]
pub struct ApiRep<T> {
    /// What happened, in a few fixed words.
    pub message: String,
    /// The payload that goes with the message.
    pub data: T,
}

/// Wraps a message and an optional payload into an envelope, unchanged.
/// Nothing is checked: the caller supplies a pair that belongs together.
pub fn create_api_rep_with_none<T>(msg: String, data: Option<T>) -> (rep: ApiRep<Option<T>>)
    ensures
        rep.message == msg,
        rep.data == data,
{
    ApiRep { message: msg, data }
}

/// The HTTP status an endpoint answers with: `STATUS_BAD_REQUEST` where the
/// query failed validation, `STATUS_OK` in every other case.
pub fn status_of<T>(answer: &Result<T, ValidationErrors>) -> (status: u16)
    ensures
        status == (if answer is Ok {
            STATUS_OK
        } else {
            STATUS_BAD_REQUEST
        }),
{
    match answer {
        Ok(_) => STATUS_OK,
        Err(_) => STATUS_BAD_REQUEST,
    }
}

} // verus!
