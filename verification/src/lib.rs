//! Ownership-scoped management of topics.
//!
//! A topic is a named conversational context that belongs to exactly one
//! user. This crate holds the decisions of the four topic operations (create,
//! delete, update, list) and leaves every slow call (the resolver, the
//! datastore) to its caller: each operation is a short chain of total
//! functions, one per answer that the caller hands back.

pub mod identity;
pub mod topic;
pub mod error;
pub mod guard;
pub mod store;
pub mod response;
pub mod service;
pub mod protocol;
