//! The decisions of the request handlers.

pub mod auth;
pub mod policy;
pub mod user;
pub mod rate_limit;
