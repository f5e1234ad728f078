//! A boolean that may arrive as a boolean or as a string.

use crate::text::str_eq;
use vstd::prelude::*;
use vstd::string::*;

verus! {

/// Turns either form of a boolean field into a `bool`.
#[derive(Debug, Clone, Copy, PartialEq, Eq, Structural)]
pub struct StringOrBoolVisitor;

impl StringOrBoolVisitor {
    /// What this visitor accepts, for error messages.
    pub fn expecting(&self) -> (what: String)
        ensures
            what@ == "a boolean or string representing a boolean"@,
    {
        String::from_str("a boolean or string representing a boolean")
    }

    /// A string stands for `true` exactly when it is `"true"`; any other
    /// string stands for `false`. This never fails: the error type is the
    /// caller's own.
    pub fn visit_str<E>(self, str_val: &str) -> (value: Result<bool, E>)
        ensures
            value matches Ok(flag) && flag == (str_val@ == "true"@),
    {
        Ok(str_eq(str_val, "true"))
    }

    /// A boolean stands for itself. This never fails: the error type is the
    /// caller's own.
    pub fn visit_bool<E>(self, bool_val: bool) -> (value: Result<bool, E>)
        ensures
            value matches Ok(flag) && flag == bool_val,
    {
        Ok(bool_val)
    }
}

} // verus!
