//! A verified model of a pooled-connection client library: a generic
//! resource-lifecycle adapter (create / recycle), a per-client statement
//! cache, and transaction scopes that share the parent client's cache.

pub mod errors;
pub mod resource;
pub mod cache;
pub mod client;
pub mod txn;
pub mod adapter;
pub mod messaging;
pub mod sql;
pub mod pool;
