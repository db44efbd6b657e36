//! Verified core of an authentication and user-data web backend.
//!
//! The library holds the rules of the service: token claims and their
//! encoding, request validation, the decisions taken by each request
//! handler, the migration plan of the schema and the password-reset email.
//! Reading and writing the database, sending mail and serving HTTP are left
//! to the binary around it.

pub mod errors;
pub mod json;
pub mod auth;
pub mod email;
pub mod config;
pub mod validation;
pub mod routes;
pub mod db;
