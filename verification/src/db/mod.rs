//! The database schema.

pub mod migrations;
