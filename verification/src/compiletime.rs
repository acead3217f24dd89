//! A connection manager for SurrealDB that determines the kind of connection
//! at compile time.
//!
//! The manager is bound to an endpoint scheme through a zero-sized marker
//! type parameter. The marker carries no data and is never inspected at
//! runtime; it only fixes, at compile time, which concrete resolution the
//! client library performs, so the connection type a connect produces is
//! statically known to callers.

use core::marker::PhantomData;
use vstd::prelude::*;

verus! {

/// A connection manager bound at compile time to one endpoint scheme. The
/// manager stores its configuration once, never mutates it, and hands a
/// fresh duplicate of it to every connect; two managers with the same
/// configuration and the same scheme marker behave identically, since the
/// marker holds no runtime state.
#[derive(Debug)]
pub struct SurrealConnectionManager<Config, Scheme> {
    config: Config,
    scheme: PhantomData<Scheme>,
}

impl<Config, Scheme> SurrealConnectionManager<Config, Scheme> {
    /// The stored configuration, as the contracts see it.
    pub closed spec fn spec_config(&self) -> Config {
        self.config
    }

    /// A manager that will open every connection from the given
    /// configuration, under the scheme the marker type fixes.
    pub fn new(config: Config) -> (r: SurrealConnectionManager<Config, Scheme>)
        ensures
            r.spec_config() == config,
    {
        SurrealConnectionManager { config, scheme: PhantomData }
    }

    /// The cheap synchronous pre-filter of the pool contract. By design it
    /// never reports a connection as broken — fault detection is delegated
    /// entirely to the liveness probe — and it leaves the connection
    /// untouched.
    pub fn has_broken<C>(&self, connection: &mut C) -> (r: bool)
        ensures
            !r,
            *final(connection) == *old(connection),
    {
        false
    }
}

impl<Config: Clone, Scheme> SurrealConnectionManager<Config, Scheme> {
    /// The configuration a connect call hands to the client library: a fresh
    /// duplicate of the stored configuration, never the stored value itself,
    /// so concurrent connects share no mutable state.
    pub fn connect_config(&self) -> (r: Config)
        ensures
            cloned::<Config>(self.spec_config(), r),
    {
        self.config.clone()
    }
}

impl<Config: Clone, Scheme> Clone for SurrealConnectionManager<Config, Scheme> {
    /// Duplicating a manager duplicates its stored configuration and leaves
    /// the original untouched. The scheme marker carries no state, so the
    /// duplicate is bound to the same scheme.
    fn clone(&self) -> (r: Self)
        ensures
            cloned::<Config>(self.spec_config(), r.spec_config()),
    {
        SurrealConnectionManager { config: self.config.clone(), scheme: PhantomData }
    }
}

impl SurrealConnectionManager<String, surrealdb::engine::remote::ws::Ws> {
    /// The synchronous half of a connect call for an address-string
    /// configuration bound to the plain-WebSocket scheme: resolution of the
    /// stored address into a server endpoint. It succeeds if and only if the
    /// client library accepts the stored address text under this scheme, so
    /// every connect from this manager resolves alike, and a malformed
    /// address is reported as an error and never as a connection.
    pub fn resolve_endpoint(&self) -> (r: Result<
        surrealdb::opt::Endpoint,
        surrealdb::Error,
    >)
        ensures
            r is Ok <==> crate::client::ws_endpoint_ok(self.spec_config()@),
    {
        let address = self.connect_config();
        crate::client::ws_resolve(address.as_str())
    }
}

impl SurrealConnectionManager<String, surrealdb::engine::remote::ws::Wss> {
    /// The synchronous half of a connect call for an address-string
    /// configuration bound to the TLS-WebSocket scheme: resolution of the
    /// stored address into a server endpoint. It succeeds if and only if the
    /// client library accepts the stored address text under this scheme, so
    /// every connect from this manager resolves alike, and a malformed
    /// address is reported as an error and never as a connection.
    pub fn resolve_endpoint(&self) -> (r: Result<
        surrealdb::opt::Endpoint,
        surrealdb::Error,
    >)
        ensures
            r is Ok <==> crate::client::wss_endpoint_ok(self.spec_config()@),
    {
        let address = self.connect_config();
        crate::client::wss_resolve(address.as_str())
    }
}

} // verus!
