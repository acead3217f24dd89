//! A connection manager for the scheme-erased SurrealDB client.
//!
//! This is the runtime-resolved manager under its older, more explicit name:
//! the endpoint scheme is read out of the stored configuration at connect
//! time and the resulting connection has one uniform, scheme-erased type.

use vstd::prelude::*;

verus! {

/// A connection manager for scheme-erased connections. The manager stores
/// its configuration once, never mutates it, and hands a fresh duplicate of
/// it to every connect; which transport a connect opens is decided from the
/// configuration's runtime content.
#[derive(Debug)]
pub struct SurrealAnyConnectionManager<Config> {
    config: Config,
}

impl<Config> SurrealAnyConnectionManager<Config> {
    /// The stored configuration, as the contracts see it.
    pub closed spec fn spec_config(&self) -> Config {
        self.config
    }

    /// A manager that will open every connection from the given
    /// configuration.
    pub fn new(config: Config) -> (r: SurrealAnyConnectionManager<Config>)
        ensures
            r.spec_config() == config,
    {
        SurrealAnyConnectionManager { config }
    }

    /// The cheap synchronous pre-filter of the pool contract. By design it
    /// never reports a connection as broken — fault detection is delegated
    /// entirely to the liveness probe — and it leaves the connection
    /// untouched.
    pub fn has_broken<C>(&self, connection: &mut C) -> (r: bool)
        ensures
            !r,
            *final(connection) == *old(connection),
    {
        false
    }
}

impl<Config: Clone> SurrealAnyConnectionManager<Config> {
    /// The configuration a connect call hands to the client library: a fresh
    /// duplicate of the stored configuration, never the stored value itself,
    /// so concurrent connects share no mutable state.
    pub fn connect_config(&self) -> (r: Config)
        ensures
            cloned::<Config>(self.spec_config(), r),
    {
        self.config.clone()
    }
}

impl<Config: Clone> Clone for SurrealAnyConnectionManager<Config> {
    /// Duplicating a manager duplicates its stored configuration and leaves
    /// the original untouched.
    fn clone(&self) -> (r: Self)
        ensures
            cloned::<Config>(self.spec_config(), r.spec_config()),
    {
        SurrealAnyConnectionManager { config: self.config.clone() }
    }
}

impl SurrealAnyConnectionManager<String> {
    /// The synchronous half of a connect call for an address-string
    /// configuration: the scheme-erasing resolution of the stored address
    /// into a server endpoint. It succeeds if and only if the client library
    /// accepts the stored address text, so every connect from this manager
    /// resolves alike, and a malformed address is reported as an error and
    /// never as a connection.
    pub fn resolve_endpoint(&self) -> (r: Result<
        surrealdb::opt::Endpoint,
        surrealdb::Error,
    >)
        ensures
            r is Ok <==> crate::client::any_endpoint_ok(self.spec_config()@),
    {
        let address = self.connect_config();
        crate::client::any_resolve(address.as_str())
    }
}

} // verus!
