//! Verified core of the Scriptorium notes service: HTTP Basic credential
//! parsing, password checking, and the decisions that turn the outcome of each
//! store operation into the answer a client receives.

pub mod encoding;
pub mod auth;
pub mod store;
pub mod password;
pub mod models;
pub mod api;
