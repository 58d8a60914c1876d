//! Credential digests, text scanning and session tokens.

pub mod auth;
pub mod digest;
pub mod text;
pub mod token;
