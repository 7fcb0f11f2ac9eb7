//! Bookmark domain for a personal homescreen dashboard: the fixed set of
//! sections, the validated website entry, the statements and result handling
//! of the relational store, an in-memory store, and the status codes that the
//! REST boundary answers with; and the dashboard clock's time in words.

pub mod catalog;
pub mod clock;
pub mod config;
pub mod error;
pub mod memory;
pub mod routes;
pub mod section;
pub mod store;
pub mod text;
pub mod website;
