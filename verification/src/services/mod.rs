//! What the plugin does with players, guilds and the Steam Web API.

pub mod auth_gateway;
pub mod cache_docs;
pub mod condition_eval;
pub mod condition_sql;
pub mod link_sync;
pub mod quota;
pub mod steam_api;
pub mod sync;
