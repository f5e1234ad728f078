//! The endpoints, grouped by what they are about.

pub mod user;
