//! Authorization and session integrity for a small user-management backend:
//! role-based access decisions over a catalog of pages, credential digests,
//! and signed, time-limited session tokens.

pub mod auth;
pub mod util;
pub mod page;
