//! The data that the rules work on.

pub mod condition;
