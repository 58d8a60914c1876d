//! Roles, their privileges, and the catalog they are decided against.

pub mod role;
pub mod user;
