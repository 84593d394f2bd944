//! A small read-only records service core: a fixed in-memory store of users
//! and posts, an equality filter over them, a bounded random number utility,
//! and the mapping from domain errors to HTTP status codes and messages.

pub mod errors;
pub mod query;
pub mod random;
pub mod records;
