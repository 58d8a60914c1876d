//! What the request layer answers with, and the decisions behind the
//! account pages.

pub mod catcher;
pub mod failure;
pub mod resp;
pub mod success;
pub mod user;
