//! A connection manager for SurrealDB that determines the kind of connection
//! at runtime.
//!
//! The stored configuration is any value the scheme-erasing engine can turn
//! into an endpoint — most often an address string whose scheme prefix picks
//! the transport at connect time. Every connection produced this way has one
//! uniform, scheme-erased type, whichever transport was chosen.

use vstd::prelude::*;

verus! {

/// A connection manager whose endpoint scheme is read out of the stored
/// configuration at connect time. The manager stores the configuration once,
/// never mutates it, and hands a fresh duplicate of it to every connect.
#[derive(Debug)]
pub struct SurrealConnectionManager<Config> {
    config: Config,
}

impl<Config> SurrealConnectionManager<Config> {
    /// The stored configuration, as the contracts see it.
    pub closed spec fn spec_config(&self) -> Config {
        self.config
    }

    /// A manager that will open every connection from the given
    /// configuration.
    pub fn new(config: Config) -> (r: SurrealConnectionManager<Config>)
        ensures
            r.spec_config() == config,
    {
        SurrealConnectionManager { config }
    }

    /// The cheap synchronous pre-filter of the pool contract. By design it
    /// never reports a connection as broken — fault detection is delegated
    /// entirely to the liveness probe — and it leaves the connection
    /// untouched.
    pub fn has_broken<C>(&self, connection: &mut C) -> (r: bool)
        ensures
            !r,
            *final(connection) == *old(connection),
    {
        false
    }
}

impl<Config: Clone> SurrealConnectionManager<Config> {
    /// The configuration a connect call hands to the client library: a fresh
    /// duplicate of the stored configuration, never the stored value itself,
    /// so concurrent connects share no mutable state.
    pub fn connect_config(&self) -> (r: Config)
        ensures
            cloned::<Config>(self.spec_config(), r),
    {
        self.config.clone()
    }
}

impl<Config: Clone> Clone for SurrealConnectionManager<Config> {
    /// Duplicating a manager duplicates its stored configuration and leaves
    /// the original untouched.
    fn clone(&self) -> (r: Self)
        ensures
            cloned::<Config>(self.spec_config(), r.spec_config()),
    {
        SurrealConnectionManager { config: self.config.clone() }
    }
}

impl SurrealConnectionManager<String> {
    /// The synchronous half of a connect call for an address-string
    /// configuration: the scheme-erasing resolution of the stored address
    /// into a server endpoint. It succeeds if and only if the client library
    /// accepts the stored address text, so every connect from this manager
    /// resolves alike, and a malformed address is reported as an error and
    /// never as a connection.
    pub fn resolve_endpoint(&self) -> (r: Result<
        surrealdb::opt::Endpoint,
        surrealdb::Error,
    >)
        ensures
            r is Ok <==> crate::client::any_endpoint_ok(self.spec_config()@),
    {
        let address = self.connect_config();
        crate::client::any_resolve(address.as_str())
    }
}

} // verus!
