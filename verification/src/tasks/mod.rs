//! Work that goes on in the background.

pub mod data_hash;
pub mod refresh_batch;
pub mod refresh_user;
pub mod refresh_worker;
