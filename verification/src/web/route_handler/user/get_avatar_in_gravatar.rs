//! The avatar endpoint: from an e-mail address and a size to the URL of the
//! avatar image. No request is made to the profile service.

use crate::gravatar::avatar::{avatar_url, avatar_url_of, effective_size};
use crate::gravatar::hash::{hash_email, profile_hash};
use crate::validation::{errors_of, query_is_valid, validate_query, ValidationErrors};
use crate::web::{create_api_rep_with_none, ApiRep};
use vstd::prelude::*;
use vstd::string::*;

verus! {

/// The parameters of the avatar endpoint.
#[derive(Debug, Clone, PartialEq, Eq)]
pub struct GetAvatarInGravatarParamsModel {
    /// The user's e-mail address.
    pub email: String,
    /// The size of the image, if one is asked for.
    pub size: Option<i16>,
}

impl GetAvatarInGravatarParamsModel {
    /// Whether these parameters pass validation.
    pub open spec fn is_valid(self) -> bool {
        query_is_valid(self.email@, self.size)
    }

    /// The URL that is answered for these parameters.
    pub open spec fn url(self) -> Seq<char> {
        avatar_url_of(profile_hash(self.email@), effective_size(self.size))
    }

    /// Validates the parameters: `Ok` exactly when the e-mail address is
    /// syntactically valid and the size, if given, is in range.
    pub fn validate(&self) -> (checked: Result<(), ValidationErrors>)
        ensures
            checked is Ok <==> self.is_valid(),
            checked matches Err(errors) ==> errors == errors_of(self.email@, self.size),
    {
        validate_query(self.email.as_str(), self.size)
    }
}

/// Answers the avatar endpoint. Parameters that fail validation are rejected
/// with the failures; for valid ones the answer is always a `"success"`
/// envelope that carries the avatar URL of the hashed address.
pub fn get_avatar_in_gravatar(query: GetAvatarInGravatarParamsModel) -> (answer: Result<
    ApiRep<Option<String>>,
    ValidationErrors,
>)
    ensures
        answer is Ok <==> query.is_valid(),
        answer matches Err(errors) ==> errors == errors_of(query.email@, query.size),
        answer matches Ok(rep) ==> {
            &&& rep.message@ == "success"@
            &&& rep.data matches Some(url)
            &&& url@ == query.url()
        },
{
    match query.validate() {
        Err(errors) => Err(errors),
        Ok(()) => {
            let hash = hash_email(query.email.as_str());
            let url = avatar_url(hash.as_str(), query.size);
            Ok(create_api_rep_with_none(String::from_str("success"), Some(url)))
        },
    }
}

} // verus!
