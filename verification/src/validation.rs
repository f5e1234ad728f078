//! The rules a query has to meet before anything else is done with it.

use validator::ValidateEmail;
use vstd::prelude::*;
use vstd::string::*;

verus! {

/// The smallest avatar size that is accepted.
pub const MIN_SIZE: i16 = 1;

/// The largest avatar size that is accepted.
pub const MAX_SIZE: i16 = 2048;

/// What `validator::ValidateEmail::validate_email` answers for `text`.
pub uninterp spec fn validator_accepts(text: Seq<char>) -> bool;

/// Calls `validator::ValidateEmail::validate_email` on a string slice. The
/// answer depends on the text alone, and a text without an `@` is never
/// accepted: the function returns `false` for it before it looks further.
#[verifier::external_body]
fn email_is_valid(email: &str) -> (valid: bool)
    ensures
        valid == validator_accepts(email@),
        valid ==> email@.contains('@'),
{
    email.validate_email()
}

/// Whether `text` is a syntactically valid e-mail address: it holds an `@`
/// and the validator accepts it.
pub open spec fn is_email_address(text: Seq<char>) -> bool {
    text.contains('@') && validator_accepts(text)
}

/// Whether a size, if one is given, lies in `[MIN_SIZE, MAX_SIZE]`.
pub open spec fn size_in_range(size: Option<i16>) -> bool {
    match size {
        Some(s) => MIN_SIZE <= s <= MAX_SIZE,
        None => true,
    }
}

/// Whether a query passes validation.
pub open spec fn query_is_valid(email: Seq<char>, size: Option<i16>) -> bool {
    is_email_address(email) && size_in_range(size)
}

/// Which fields of a query failed validation.
#[derive(Debug, Clone, Copy, PartialEq, Eq, Structural)]
pub struct ValidationErrors {
    /// The e-mail address is not syntactically valid.
    pub email: bool,
    /// The size is outside `[MIN_SIZE, MAX_SIZE]`.
    pub size: bool,
}

/// The failures that validating `email` and `size` reports.
pub open spec fn errors_of(email: Seq<char>, size: Option<i16>) -> ValidationErrors {
    ValidationErrors { email: !is_email_address(email), size: !size_in_range(size) }
}

impl ValidationErrors {
    /// What is reported for an e-mail address that is not valid.
    pub open spec fn email_line() -> Seq<char> {
        "email: email validate fail..."@
    }

    /// What is reported for a size that is out of range.
    pub open spec fn size_line() -> Seq<char> {
        "size: maxmum size is 2048"@
    }

    /// The description of the failures: one line for each field that failed,
    /// the e-mail address first, with a line feed between two lines.
    pub open spec fn description(self) -> Seq<char> {
        if self.email && self.size {
            Self::email_line() + "\n"@ + Self::size_line()
        } else if self.email {
            Self::email_line()
        } else if self.size {
            Self::size_line()
        } else {
            Seq::empty()
        }
    }

    /// Turns the results of the two checks into the result of validation:
    /// `Ok` when both passed, and otherwise the fields that failed.
    pub fn from_checks(email_ok: bool, size_ok: bool) -> (checked: Result<(), ValidationErrors>)
        ensures
            checked is Ok <==> email_ok && size_ok,
            checked matches Err(errors) ==> errors == (ValidationErrors {
                email: !email_ok,
                size: !size_ok,
            }),
    {
        if email_ok && size_ok {
            Ok(())
        } else {
            Err(ValidationErrors { email: !email_ok, size: !size_ok })
        }
    }

    /// Describes the failures, naming each field that failed.
    pub fn describe(&self) -> (text: String)
        ensures
            text@ == self.description(),
    {
        let mut text = String::new();
        if self.email {
            text.append("email: email validate fail...");
        }
        if self.email && self.size {
            text.append("\n");
        }
        if self.size {
            text.append("size: maxmum size is 2048");
        }
        assert(text@ =~= self.description());
        text
    }
}

/// Whether `size`, if given, lies in `[MIN_SIZE, MAX_SIZE]`.
pub fn check_size(size: Option<i16>) -> (ok: bool)
    ensures
        ok == size_in_range(size),
{
    match size {
        Some(s) => MIN_SIZE <= s && s <= MAX_SIZE,
        None => true,
    }
}

/// Validates a query: the e-mail address must be syntactically valid and the
/// size, if given, in range. Both fields are checked, and every failure is
/// reported.
pub fn validate_query(email: &str, size: Option<i16>) -> (checked: Result<(), ValidationErrors>)
    ensures
        checked is Ok <==> query_is_valid(email@, size),
        checked matches Err(errors) ==> errors == errors_of(email@, size),
{
    ValidationErrors::from_checks(email_is_valid(email), check_size(size))
}

/// A size outside `[MIN_SIZE, MAX_SIZE]` fails validation whatever the e-mail
/// address is, and is reported.
pub proof fn lemma_size_out_of_range_is_reported(email: Seq<char>, size: i16)
    requires
        size < MIN_SIZE || size > MAX_SIZE,
    ensures
        !query_is_valid(email, Some(size)),
        errors_of(email, Some(size)).size,
{
}

/// A size in `[MIN_SIZE, MAX_SIZE]`, or none at all, is never reported: such
/// a query is valid exactly when its e-mail address is.
pub proof fn lemma_size_in_range_is_accepted(email: Seq<char>, size: Option<i16>)
    requires
        size matches Some(s) ==> MIN_SIZE <= s <= MAX_SIZE,
    ensures
        !errors_of(email, size).size,
        query_is_valid(email, size) <==> is_email_address(email),
{
}

/// An address without an `@` fails validation whatever the size is, and is
/// reported.
pub proof fn lemma_no_at_sign_is_reported(email: Seq<char>, size: Option<i16>)
    requires
        !email.contains('@'),
    ensures
        !query_is_valid(email, size),
        errors_of(email, size).email,
{
}

} // verus!
