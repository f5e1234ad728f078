//! The profile endpoint: from an e-mail address to the public profile the
//! service holds for it.
//!
//! The endpoint needs a request to the service and the decoding of its
//! answer, which the caller performs. What is decided here is what to do
//! next: the caller reports what happened as an event and is told the next
//! step, until the step is an answer.

use crate::gravatar::classify::{
    classification, classify_decoded, classify_fetch, decoded_as, settled_by, FetchOutcome,
    Fetched,
};
use crate::gravatar::hash::{hash_email, profile_hash};
use crate::gravatar::{GravatarEntry, GRAVATAR_URL};
use crate::validation::{errors_of, query_is_valid, validate_query, ValidationErrors};
use crate::web::{ApiRep, STATUS_BAD_REQUEST, STATUS_OK};
use vstd::prelude::*;
use vstd::string::*;

verus! {

/// What the profile request says of its sender.
pub const USER_AGENT: &'static str = "rust api";

/// The parameters of the profile endpoint.
#[derive(Debug, Clone, PartialEq, Eq)]
pub struct QueryGravatarUserInfoParams {
    /// The user's e-mail address.
    pub email: String,
    /// A size, if the query names one. The profile does not depend on it,
    /// but a query with a size out of range is not answered.
    pub size: Option<i16>,
}

impl QueryGravatarUserInfoParams {
    /// Whether these parameters pass validation.
    pub open spec fn is_valid(self) -> bool {
        query_is_valid(self.email@, self.size)
    }

    /// Validates the parameters: `Ok` exactly when the e-mail address is
    /// syntactically valid and the size, if given, is in range.
    pub fn validate(&self) -> (checked: Result<(), ValidationErrors>)
        ensures
            checked is Ok <==> self.is_valid(),
            checked matches Err(errors) ==> errors == errors_of(self.email@, self.size),
    {
        validate_query(self.email.as_str(), self.size)
    }
}

/// A GET request for a profile: where it goes and the `User-Agent` header it
/// carries.
#[derive(Debug, Clone, PartialEq, Eq)]
pub struct ProfileRequest {
    /// The URL to get.
    pub url: String,
    /// The value of the `User-Agent` header.
    pub user_agent: String,
}

/// The URL of the profile with a given hash.
pub open spec fn profile_url_of(hash: Seq<char>) -> Seq<char> {
    GRAVATAR_URL@ + hash + ".json"@
}

impl ProfileRequest {
    /// Whether this is the request for the profile with the given hash.
    pub open spec fn asks_for(self, hash: Seq<char>) -> bool {
        &&& self.url@ == profile_url_of(hash)
        &&& self.user_agent@ == USER_AGENT@
    }
}

/// Builds the request for the profile with a given hash: a GET of
/// `<base><hash>.json` with the `User-Agent` header set.
pub fn build_gravatar_info_request(hash: &str) -> (request: ProfileRequest)
    ensures
        request.asks_for(hash@),
{
    let mut url = String::from_str(GRAVATAR_URL);
    url.append(hash);
    url.append(".json");
    assert(url@ =~= profile_url_of(hash@));
    ProfileRequest { url, user_agent: String::from_str(USER_AGENT) }
}

/// What the caller reports.
#[derive(Debug, Clone, PartialEq, Eq)]
pub enum UserInfoEvent {
    /// A query arrived.
    Query(QueryGravatarUserInfoParams),
    /// The request that was asked for has been sent, with this outcome.
    Fetched(FetchOutcome),
    /// The body that was handed over has been decoded: the entry, or nothing
    /// if the body did not match the schema.
    Decoded(Option<GravatarEntry>),
}

/// What the caller does next.
#[derive(Debug, Clone, PartialEq, Eq)]
pub enum UserInfoStep {
    /// Answer with a client error that describes these failures. Nothing is
    /// sent to the service.
    Reject(ValidationErrors),
    /// Send this request and report its outcome.
    Fetch(ProfileRequest),
    /// Decode this body against the entry schema and report the result.
    Decode(String),
    /// Answer with this envelope.
    Respond(ApiRep<Option<GravatarEntry>>),
}

impl UserInfoStep {
    /// The HTTP status of the answer, where this step is one: a rejection is
    /// a bad request, and an envelope is answered with `STATUS_OK` whatever
    /// its message is.
    pub open spec fn answer_status(self) -> Option<u16> {
        match self {
            UserInfoStep::Reject(_) => Some(STATUS_BAD_REQUEST),
            UserInfoStep::Respond(_) => Some(STATUS_OK),
            _ => None,
        }
    }

    /// The HTTP status to answer with, if this step is an answer.
    pub fn status(&self) -> (status: Option<u16>)
        ensures
            status == self.answer_status(),
    {
        match self {
            UserInfoStep::Reject(_) => Some(STATUS_BAD_REQUEST),
            UserInfoStep::Respond(_) => Some(STATUS_OK),
            _ => None,
        }
    }
}

/// Whether `step` is the step that follows `event`.
///
/// A query is rejected if it fails validation, and otherwise leads to the
/// request for the profile of the hashed address. The outcome of the fetch
/// either settles the answer or hands over the body to decode. The result of
/// decoding settles the answer.
pub open spec fn follows(event: UserInfoEvent, step: UserInfoStep) -> bool {
    match event {
        UserInfoEvent::Query(query) => if query.is_valid() {
            step matches UserInfoStep::Fetch(request) && request.asks_for(
                profile_hash(query.email@),
            )
        } else {
            step == UserInfoStep::Reject(errors_of(query.email@, query.size))
        },
        UserInfoEvent::Fetched(outcome) => match settled_by(outcome) {
            Some(lookup) => {
                &&& step matches UserInfoStep::Respond(rep)
                &&& rep.message@ == lookup.message_text()
                &&& rep.data == lookup.payload()
            },
            None => {
                &&& outcome matches FetchOutcome::Response { status, body }
                &&& step == UserInfoStep::Decode(body)
            },
        },
        UserInfoEvent::Decoded(decoded) => {
            &&& step matches UserInfoStep::Respond(rep)
            &&& rep.message@ == decoded_as(decoded).message_text()
            &&& rep.data == decoded_as(decoded).payload()
        },
    }
}

/// Decides the next step of the profile endpoint.
pub fn get_user_info_by_gravatar(event: UserInfoEvent) -> (step: UserInfoStep)
    ensures
        follows(event, step),
{
    match event {
        UserInfoEvent::Query(query) => {
            match query.validate() {
                Err(errors) => UserInfoStep::Reject(errors),
                Ok(()) => {
                    let hash = hash_email(query.email.as_str());
                    UserInfoStep::Fetch(build_gravatar_info_request(hash.as_str()))
                },
            }
        },
        UserInfoEvent::Fetched(outcome) => {
            match classify_fetch(outcome) {
                Fetched::Settled(lookup) => UserInfoStep::Respond(lookup.into_envelope()),
                Fetched::Undecoded(body) => UserInfoStep::Decode(body),
            }
        },
        UserInfoEvent::Decoded(decoded) => UserInfoStep::Respond(
            classify_decoded(decoded).into_envelope(),
        ),
    }
}

/// A query that fails validation is rejected with its failures: the step
/// that follows it is never a request, so nothing is sent to the service.
pub proof fn lemma_invalid_query_sends_nothing(
    query: QueryGravatarUserInfoParams,
    step: UserInfoStep,
)
    requires
        follows(UserInfoEvent::Query(query), step),
        !query.is_valid(),
    ensures
        step == UserInfoStep::Reject(errors_of(query.email@, query.size)),
        !(step is Fetch),
        step.answer_status() == Some(STATUS_BAD_REQUEST),
{
}

/// A request is asked for only for a valid query, and it is the request for
/// the profile of the hashed address.
pub proof fn lemma_request_follows_valid_query(
    query: QueryGravatarUserInfoParams,
    step: UserInfoStep,
)
    requires
        follows(UserInfoEvent::Query(query), step),
    ensures
        step is Fetch <==> query.is_valid(),
        step matches UserInfoStep::Fetch(request) ==> request.asks_for(profile_hash(query.email@)),
{
}

/// Followed to its end, the endpoint answers with the message and payload of
/// the lookup's classification: at once where the fetch settles it, and after
/// decoding the very body that was fetched where it does not.
pub proof fn lemma_answer_is_classification(
    outcome: FetchOutcome,
    decoded: Option<GravatarEntry>,
    after_fetch: UserInfoStep,
    after_decode: UserInfoStep,
)
    requires
        follows(UserInfoEvent::Fetched(outcome), after_fetch),
        follows(UserInfoEvent::Decoded(decoded), after_decode),
    ensures
        ({
            let lookup = classification(outcome, decoded);
            match after_fetch {
                UserInfoStep::Respond(rep) => {
                    &&& rep.message@ == lookup.message_text()
                    &&& rep.data == lookup.payload()
                },
                UserInfoStep::Decode(text) => {
                    &&& outcome matches FetchOutcome::Response { status, body }
                    &&& text == body
                    &&& after_decode matches UserInfoStep::Respond(rep)
                    &&& rep.message@ == lookup.message_text()
                    &&& rep.data == lookup.payload()
                },
                _ => false,
            }
        }),
{
}

} // verus!
