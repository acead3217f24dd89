//! Connection managers that adapt SurrealDB clients to the `bb8` connection
//! pool.
//!
//! A pool drives every manager through three operations: `connect` opens a new
//! connection from the manager's stored configuration, `is_valid` runs a
//! round-trip liveness probe on an open connection, and `has_broken` is a
//! cheap synchronous pre-filter. The managers here differ only in how the
//! endpoint scheme is resolved: fixed at compile time through a scheme marker
//! type, or chosen at runtime from the address text.
//!
//! The manager logic itself is verified: construction, duplication of the
//! stored state on each connect, assembly of the endpoint descriptor, the
//! synchronous resolution of that descriptor, and the `has_broken` policy.
//! The network dial and the liveness probe are asynchronous I/O owned by the
//! SurrealDB client library and stay outside this crate.

pub mod any;
pub mod client;
pub mod compiletime;
pub mod runtime;
pub mod surreal;
pub mod temp;
