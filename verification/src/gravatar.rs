//! The profile service: where it lives, how a profile is identified, and the
//! shape of what it answers.

pub mod avatar;
pub mod classify;
pub mod hash;

use crate::serde_visitor::bool_form_string::StringOrBoolVisitor;
use vstd::prelude::*;

verus! {

/// The base URL of the profile service.
pub const GRAVATAR_URL: &'static str = "https://gravatar.com/";

/// What the service answers for a hash: the profiles that match it. The
/// service sends one, but the shape is a list.
#[derive(Debug, Clone, PartialEq, Eq)]
pub struct GravatarEntry {
    pub entry: Vec<Gravatar>,
}

/// One public profile, field for field as the service sends it.
#[derive(Debug, Clone, PartialEq, Eq)]
pub struct Gravatar {
    pub hash: String,
    pub request_hash: String,
    pub profile_url: String,
    pub preferred_username: String,
    pub thumbnail_url: String,
    pub photos: Vec<Photos>,
    pub last_profile_edit: String,
    pub display_name: String,
    pub pronunciation: String,
    pub pronouns: String,
    pub about_me: String,
    pub current_location: String,
    pub job_title: String,
    pub company: String,
    pub emails: Vec<Email>,
    pub name: Name,
    pub full_name: String,
    pub accounts: Vec<Account>,
    pub urls: Vec<Link>,
    pub profile_background: ProfileBackground,
    pub share_flags: ShareFlags,
}

/// What a profile allows to be shared.
#[derive(Debug, Clone, PartialEq, Eq)]
pub struct ShareFlags {
    /// Whether search engines may show the profile.
    pub search_engines: bool,
}

/// The background of a profile page.
#[derive(Debug, Clone, PartialEq, Eq)]
pub struct ProfileBackground {
    pub opacity: i8,
}

/// A labelled link on a profile.
#[derive(Debug, Clone, PartialEq, Eq)]
pub struct Link {
    pub title: String,
    pub value: String,
}

/// An account on another site that a profile links to.
#[derive(Debug, Clone, PartialEq, Eq)]
pub struct Account {
    pub domain: String,
    pub display: String,
    pub url: String,
    pub icon_url: String,
    pub username: String,
    pub verified: String,
    pub name: String,
    pub shortname: String,
}

/// The structured name of a profile's owner.
#[derive(Debug, Clone, PartialEq, Eq)]
pub struct Name {
    pub given_name: String,
    pub family_name: String,
    pub formatted: String,
}

/// An e-mail address of a profile.
#[derive(Debug, Clone, PartialEq, Eq)]
pub struct Email {
    /// Whether this is the primary address.
    pub primary: bool,
    pub value: String,
}

/// A photo of a profile.
#[derive(Debug, Clone, PartialEq, Eq)]
pub struct Photos {
    /// Where the photo is.
    pub value: String,
    /// The kind of photo, as the service tags it.
    pub type_: String,
}

/// The two forms in which the service sends the `primary` flag of an e-mail
/// address: a boolean, or a string.
#[derive(Debug, Clone, PartialEq, Eq)]
pub enum StringOrBool {
    Bool(bool),
    Str(String),
}

/// What a `primary` flag means: a boolean means itself, and a string means
/// `true` exactly when it is `"true"`.
pub open spec fn primary_flag(flag: StringOrBool) -> bool {
    match flag {
        StringOrBool::Bool(b) => b,
        StringOrBool::Str(s) => s@ == "true"@,
    }
}

/// Reads a `primary` flag in either of its forms. This never fails: the
/// error type is the caller's own.
pub fn bool_from_string<E>(flag: &StringOrBool) -> (primary: Result<bool, E>)
    ensures
        primary matches Ok(value) && value == primary_flag(*flag),
{
    match flag {
        StringOrBool::Bool(b) => StringOrBoolVisitor.visit_bool(*b),
        StringOrBool::Str(s) => StringOrBoolVisitor.visit_str(s.as_str()),
    }
}

} // verus!
