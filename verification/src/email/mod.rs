//! The password-reset email.

pub mod service;
pub mod templates;
pub mod url;
