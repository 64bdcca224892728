//! A persistable-object capability: a domain type opts into durable storage
//! through a pluggable backend, tracks whether its in-memory state has
//! diverged from the last stored version, and can auto-flush changes.

pub mod persistence;
