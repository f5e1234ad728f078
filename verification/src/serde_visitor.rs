//! Decoding steps for fields that arrive in more than one form.

pub mod bool_form_string;
