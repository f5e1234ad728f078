//! Sorting what came of a profile request into the three outcomes a caller
//! is told of.

use crate::gravatar::GravatarEntry;
use crate::web::{create_api_rep_with_none, ApiRep};
use vstd::prelude::*;
use vstd::string::*;

verus! {

/// The status with which the service says that no profile matches a hash.
pub const NOT_FOUND: u16 = 404;

/// Whether a status is one of the 2xx success statuses.
pub open spec fn is_success(status: u16) -> bool {
    200 <= status < 300
}

/// What came of sending a profile request.
#[derive(Debug, Clone, PartialEq, Eq)]
pub enum FetchOutcome {
    /// No response arrived: the request failed in transport.
    TransportFailure,
    /// A response arrived with this status, but its body could not be read.
    BodyReadFailure { status: u16 },
    /// A response arrived with this status and this body.
    Response { status: u16, body: String },
}

/// The three outcomes of a profile lookup.
#[derive(Debug, Clone, PartialEq, Eq)]
pub enum ProfileLookup {
    /// The service answered with a profile entry.
    Success(GravatarEntry),
    /// The service knows no profile for the hash.
    NotFound,
    /// Anything else: a failed transport, an unreadable or undecodable body,
    /// an unexpected status.
    SystemError,
}

/// What is known once the fetch is over: the outcome, or the body that has to
/// be decoded before the outcome is known.
#[derive(Debug, Clone, PartialEq, Eq)]
pub enum Fetched {
    /// The outcome is settled without looking at the body.
    Settled(ProfileLookup),
    /// The status was a success: the outcome depends on decoding this body.
    Undecoded(String),
}

/// The outcome that a fetch settles, if it settles one: a failed transport or
/// an unreadable body is a system error whatever the status was, then 404
/// means not found, and any other status outside 2xx is a system error. A
/// readable 2xx response settles nothing yet.
pub open spec fn settled_by(outcome: FetchOutcome) -> Option<ProfileLookup> {
    match outcome {
        FetchOutcome::TransportFailure => Some(ProfileLookup::SystemError),
        FetchOutcome::BodyReadFailure { status } => Some(ProfileLookup::SystemError),
        FetchOutcome::Response { status, body } => if status == NOT_FOUND {
            Some(ProfileLookup::NotFound)
        } else if !is_success(status) {
            Some(ProfileLookup::SystemError)
        } else {
            None
        },
    }
}

/// The outcome that decoding a success body gives: the entry if the body
/// matched the schema, a system error if it did not.
pub open spec fn decoded_as(decoded: Option<GravatarEntry>) -> ProfileLookup {
    match decoded {
        Some(entry) => ProfileLookup::Success(entry),
        None => ProfileLookup::SystemError,
    }
}

/// The outcome of a whole lookup, from what the fetch gave and what decoding
/// its body gives.
pub open spec fn classification(outcome: FetchOutcome, decoded: Option<GravatarEntry>) -> ProfileLookup {
    match settled_by(outcome) {
        Some(lookup) => lookup,
        None => decoded_as(decoded),
    }
}

/// Whether `status` is a 2xx status.
pub fn status_is_success(status: u16) -> (success: bool)
    ensures
        success == is_success(status),
{
    200 <= status && status < 300
}

/// Sorts the outcome of the fetch: either it settles the lookup, or it hands
/// over the body to decode.
pub fn classify_fetch(outcome: FetchOutcome) -> (fetched: Fetched)
    ensures
        match settled_by(outcome) {
            Some(lookup) => fetched == Fetched::Settled(lookup),
            None => outcome matches FetchOutcome::Response { status, body } && fetched
                == Fetched::Undecoded(body),
        },
{
    match outcome {
        FetchOutcome::TransportFailure => Fetched::Settled(ProfileLookup::SystemError),
        FetchOutcome::BodyReadFailure { status } => Fetched::Settled(ProfileLookup::SystemError),
        FetchOutcome::Response { status, body } => {
            if status == NOT_FOUND {
                Fetched::Settled(ProfileLookup::NotFound)
            } else if !status_is_success(status) {
                Fetched::Settled(ProfileLookup::SystemError)
            } else {
                Fetched::Undecoded(body)
            }
        },
    }
}

/// Sorts the result of decoding a success body.
pub fn classify_decoded(decoded: Option<GravatarEntry>) -> (lookup: ProfileLookup)
    ensures
        lookup == decoded_as(decoded),
{
    match decoded {
        Some(entry) => ProfileLookup::Success(entry),
        None => ProfileLookup::SystemError,
    }
}

/// Sorts a whole lookup, from the outcome of the fetch and the result of
/// decoding its body. The result of decoding counts only where the fetch
/// gave a readable 2xx response.
pub fn classify(outcome: FetchOutcome, decoded: Option<GravatarEntry>) -> (lookup: ProfileLookup)
    ensures
        lookup == classification(outcome, decoded),
{
    match classify_fetch(outcome) {
        Fetched::Settled(lookup) => lookup,
        Fetched::Undecoded(_) => classify_decoded(decoded),
    }
}

impl ProfileLookup {
    /// The message a caller is given for this outcome. Nothing of what went
    /// wrong upstream is in it.
    pub open spec fn message_text(self) -> Seq<char> {
        match self {
            ProfileLookup::Success(_) => "success"@,
            ProfileLookup::NotFound => "user not found"@,
            ProfileLookup::SystemError => "system error"@,
        }
    }

    /// The payload a caller is given for this outcome: the entry on success,
    /// nothing otherwise.
    pub open spec fn payload(self) -> Option<GravatarEntry> {
        match self {
            ProfileLookup::Success(entry) => Some(entry),
            _ => None,
        }
    }

    /// The message for this outcome.
    pub fn message(&self) -> (text: String)
        ensures
            text@ == self.message_text(),
    {
        match self {
            ProfileLookup::Success(_) => String::from_str("success"),
            ProfileLookup::NotFound => String::from_str("user not found"),
            ProfileLookup::SystemError => String::from_str("system error"),
        }
    }

    /// Wraps this outcome into the response envelope.
    pub fn into_envelope(self) -> (rep: ApiRep<Option<GravatarEntry>>)
        ensures
            rep.message@ == self.message_text(),
            rep.data == self.payload(),
    {
        let message = self.message();
        let data = match self {
            ProfileLookup::Success(entry) => Some(entry),
            _ => None,
        };
        create_api_rep_with_none(message, data)
    }
}

/// A 404 response is answered with "user not found" and no payload,
/// whatever its body holds.
pub proof fn lemma_not_found(body: String, decoded: Option<GravatarEntry>)
    ensures
        ({
            let lookup = classification(
                FetchOutcome::Response { status: NOT_FOUND, body },
                decoded,
            );
            &&& lookup == ProfileLookup::NotFound
            &&& lookup.message_text() == "user not found"@
            &&& lookup.payload() is None
        }),
{
}

/// A 2xx response whose body decodes is answered with "success" and the
/// decoded entry, unchanged.
pub proof fn lemma_success(status: u16, body: String, entry: GravatarEntry)
    requires
        is_success(status),
    ensures
        ({
            let lookup = classification(FetchOutcome::Response { status, body }, Some(entry));
            &&& lookup == ProfileLookup::Success(entry)
            &&& lookup.message_text() == "success"@
            &&& lookup.payload() == Some(entry)
        }),
{
}

/// A lookup is a system error exactly when the transport failed, the body
/// could not be read, the status was neither 404 nor 2xx, or a 2xx body did
/// not decode. It is then answered with "system error" and no payload.
pub proof fn lemma_system_error(outcome: FetchOutcome, decoded: Option<GravatarEntry>)
    ensures
        ({
            let lookup = classification(outcome, decoded);
            &&& lookup == ProfileLookup::SystemError <==> match outcome {
                FetchOutcome::TransportFailure => true,
                FetchOutcome::BodyReadFailure { status } => true,
                FetchOutcome::Response { status, body } => status != NOT_FOUND && (!is_success(
                    status,
                ) || decoded is None),
            }
            &&& lookup == ProfileLookup::SystemError ==> lookup.message_text() == "system error"@
                && lookup.payload() is None
        }),
{
}

/// The message alone tells the outcome: two outcomes with the same message
/// are of the same kind.
pub proof fn lemma_message_tells_outcome(a: ProfileLookup, b: ProfileLookup)
    requires
        a.message_text() == b.message_text(),
    ensures
        a is Success <==> b is Success,
        a is NotFound <==> b is NotFound,
        a is SystemError <==> b is SystemError,
{
    reveal_strlit("success");
    reveal_strlit("user not found");
    reveal_strlit("system error");
    assert("success"@.len() == 7);
    assert("user not found"@.len() == 14);
    assert("system error"@.len() == 12);
}

} // verus!
