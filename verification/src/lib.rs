//! Decision logic of a plugin that grants Discord roles from Steam account data.
//!
//! The crate holds everything that can be said without talking to a database, to Steam or to
//! Discord: what a condition means, when a call may spend quota, what a sync has to do next.

pub mod clock;
pub mod config;
pub mod digest;
pub mod error;
pub mod json;
pub mod lookup;
pub mod models;
pub mod order;
pub mod routes;
pub mod schema;
pub mod services;
pub mod tasks;
pub mod text;
pub mod url;
