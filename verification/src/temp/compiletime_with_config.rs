//! A split target/configuration manager bound to its scheme at compile
//! time.
//!
//! The client library's configuration type cannot be duplicated, so this
//! manager stores the network target as a plain address string separately
//! from a locally-owned, duplicable configuration, and recombines the two
//! into one endpoint descriptor on every connect.

use crate::temp::config::LocalConfig;
use core::marker::PhantomData;
use vstd::prelude::*;

verus! {

/// A connection manager that keeps a plain address string beside a
/// duplicable configuration, bound at compile time to one endpoint scheme
/// by a zero-sized marker type. Both stored parts are immutable after
/// construction; every connect works on fresh duplicates of them.
#[derive(Debug)]
pub struct SurrealConnectionManager<Scheme> {
    config: LocalConfig,
    path: String,
    scheme: PhantomData<Scheme>,
}

impl<Scheme> SurrealConnectionManager<Scheme> {
    /// The stored configuration, as the contracts see it.
    pub closed spec fn spec_config(&self) -> LocalConfig {
        self.config
    }

    /// The stored address text, as the contracts see it.
    pub closed spec fn spec_path(&self) -> Seq<char> {
        self.path@
    }

    /// The endpoint descriptor every connect call recombines: the stored
    /// address text beside the stored configuration content.
    pub open spec fn spec_descriptor(&self) -> (Seq<char>, LocalConfig) {
        (self.spec_path(), self.spec_config())
    }

    /// A manager that will open every connection to the given address with
    /// the given configuration, under the scheme the marker type fixes.
    pub fn new(path: &str, config: LocalConfig) -> (r: SurrealConnectionManager<Scheme>)
        ensures
            r.spec_path() == path@,
            r.spec_config() == config,
    {
        SurrealConnectionManager { config, path: path.to_owned(), scheme: PhantomData }
    }

    /// The descriptor a connect call hands to the client library: a fresh
    /// duplicate of the stored address string and a fresh duplicate of the
    /// stored configuration, equal in content to what the manager stores,
    /// never the stored values themselves. Concurrent connects therefore
    /// share no mutable state, and each succeeds or fails on the stored
    /// content alone.
    pub fn connect_descriptor(&self) -> (r: (String, LocalConfig))
        ensures
            (r.0@, r.1) == self.spec_descriptor(),
    {
        (self.path.clone(), self.config.clone())
    }

    /// The cheap synchronous pre-filter of the pool contract. By design it
    /// never reports a connection as broken — fault detection is delegated
    /// entirely to the liveness probe — and it leaves the connection
    /// untouched.
    pub fn has_broken<C>(&self, connection: &mut C) -> (r: bool)
        ensures
            !r,
            *final(connection) == *old(connection),
    {
        false
    }
}

impl<Scheme> Clone for SurrealConnectionManager<Scheme> {
    /// Duplicating a manager copies its address text and its configuration
    /// content exactly and leaves the original untouched.
    fn clone(&self) -> (r: Self)
        ensures
            r.spec_path() == self.spec_path(),
            r.spec_config() == self.spec_config(),
    {
        SurrealConnectionManager {
            config: self.config.clone(),
            path: self.path.clone(),
            scheme: PhantomData,
        }
    }
}

impl SurrealConnectionManager<surrealdb::engine::remote::ws::Ws> {
    /// The synchronous half of a connect call under the plain-WebSocket
    /// scheme: the stored address and configuration are recombined into one
    /// endpoint descriptor and resolved by the client library. Resolution
    /// succeeds if and only if the client library accepts the stored address
    /// text under this scheme, so every connect from this manager resolves
    /// alike, and a malformed address is reported as an error and never as a
    /// connection.
    pub fn resolve_endpoint(&self) -> (r: Result<
        surrealdb::opt::Endpoint,
        surrealdb::Error,
    >)
        ensures
            r is Ok <==> crate::client::ws_endpoint_ok(self.spec_path()),
    {
        let descriptor = self.connect_descriptor();
        let client_config = descriptor.1.to_client_config();
        crate::client::ws_resolve_with_config(descriptor.0.as_str(), client_config)
    }
}

impl SurrealConnectionManager<surrealdb::engine::remote::ws::Wss> {
    /// The synchronous half of a connect call under the TLS-WebSocket
    /// scheme: the stored address and configuration are recombined into one
    /// endpoint descriptor and resolved by the client library. Resolution
    /// succeeds if and only if the client library accepts the stored address
    /// text under this scheme, so every connect from this manager resolves
    /// alike, and a malformed address is reported as an error and never as a
    /// connection.
    pub fn resolve_endpoint(&self) -> (r: Result<
        surrealdb::opt::Endpoint,
        surrealdb::Error,
    >)
        ensures
            r is Ok <==> crate::client::wss_endpoint_ok(self.spec_path()),
    {
        let descriptor = self.connect_descriptor();
        let client_config = descriptor.1.to_client_config();
        crate::client::wss_resolve_with_config(descriptor.0.as_str(), client_config)
    }
}

/// Law: concurrent connects cannot interfere through the manager. Every
/// descriptor a connect call computes is exactly the stored address and
/// configuration — the manager is read through a shared reference and never
/// written — so any two descriptors computed from one manager are equal, and
/// each connect succeeds or fails on the same unchanged stored content.
pub proof fn lemma_connects_share_no_state<Scheme>(
    manager: &SurrealConnectionManager<Scheme>,
    first: (String, LocalConfig),
    second: (String, LocalConfig),
)
    requires
        (first.0@, first.1) == manager.spec_descriptor(),
        (second.0@, second.1) == manager.spec_descriptor(),
    ensures
        first.0@ == second.0@,
        first.1 == second.1,
{
}

/// Law: a duplicated manager connects exactly as its original. Duplication
/// copies the stored address text and configuration content, so the
/// duplicate recombines the same endpoint descriptor on every connect, and
/// duplication itself leaves the original's stored state untouched.
pub proof fn lemma_duplicate_connects_like_original<Scheme>(
    original: &SurrealConnectionManager<Scheme>,
    duplicate: &SurrealConnectionManager<Scheme>,
)
    requires
        duplicate.spec_path() == original.spec_path(),
        duplicate.spec_config() == original.spec_config(),
    ensures
        duplicate.spec_descriptor() == original.spec_descriptor(),
{
}

} // verus!
