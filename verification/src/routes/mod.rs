//! What the plugin answers to requests.

pub mod admin;
pub mod pages;
pub mod players;
pub mod plugin;
pub mod verification;
