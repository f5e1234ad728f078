//! A thin layer in front of the Gravatar profile service: it
//! validates a query, hashes the e-mail address into the identifier the
//! service is keyed by, builds avatar and profile URLs, and turns what the
//! service answered into a uniform `{message, data}` envelope.
//!
//! Everything here is pure: the caller performs the network request and the
//! JSON decoding, and hands the outcomes over as plain values.

pub mod config;
pub mod gravatar;
pub mod serde_visitor;
pub mod text;
pub mod validation;
pub mod web;
