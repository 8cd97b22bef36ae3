//! Connection-management and retry-decision core of a shard-aware database
//! client: the retry policy engine, the per-node connection pool's slot table
//! with its reconnection backoff, the stream ids of one connection, and the
//! local validations made before a request is sent.

pub mod retry;
pub mod fallthrough;
pub mod default_policy;

pub mod backoff;
pub mod pool;
pub mod streams;

pub mod batch;
pub mod keyspace;
pub mod serialize;
