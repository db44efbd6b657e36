//! Tokens and request authentication.

pub mod jwt;
pub mod middleware;
