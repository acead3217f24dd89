//! The boundary to the SurrealDB client library.
//!
//! Everything the managers take from the client library without proof stands
//! here: declarations of its opaque types, names for the outcome of its
//! endpoint resolution, and thin wrappers around the calls the managers make.
//! Each wrapper's contract states no more than the client library's source
//! shows of the wrapped call.

use vstd::prelude::*;

verus! {

#[verifier::external_type_specification]
#[verifier::external_body]
/// Declares the client library's error type, which the managers forward
/// verbatim and never inspect.
pub struct ExError(surrealdb::Error);

#[verifier::external_type_specification]
#[verifier::external_body]
/// Declares the client library's resolved server-address type.
pub struct ExEndpoint(surrealdb::opt::Endpoint);

#[verifier::external_type_specification]
#[verifier::external_body]
/// Declares the client library's connection configuration type, which cannot
/// be duplicated and is rebuilt from plain values on every connect.
pub struct ExClientConfig(surrealdb::opt::Config);

#[verifier::external_type_specification]
#[verifier::external_body]
/// Declares the client library's capability-set type.
pub struct ExClientCapabilities(surrealdb::opt::capabilities::Capabilities);

#[verifier::external_type_specification]
#[verifier::external_body]
/// Declares the scheme marker for plain WebSocket connections.
pub struct ExWs(surrealdb::engine::remote::ws::Ws);

#[verifier::external_type_specification]
#[verifier::external_body]
/// Declares the scheme marker for TLS WebSocket connections.
pub struct ExWss(surrealdb::engine::remote::ws::Wss);

/// Whether the client library resolves the given address under the `Ws`
/// scheme: it prefixes the address with `ws://` and parses the result as a
/// URL, so the outcome depends on the address text alone.
pub uninterp spec fn ws_endpoint_ok(address: Seq<char>) -> bool;

/// Whether the client library resolves the given address under the `Wss`
/// scheme: it prefixes the address with `wss://` and parses the result as a
/// URL, so the outcome depends on the address text alone.
pub uninterp spec fn wss_endpoint_ok(address: Seq<char>) -> bool;

/// Whether the client library's scheme-erasing engine resolves the given
/// address: it reads the scheme prefix out of the address text and parses
/// the rest as a URL, so the outcome depends on the address text alone.
pub uninterp spec fn any_endpoint_ok(address: Seq<char>) -> bool;

/// Relies on `surrealdb::opt::IntoEndpoint<Ws>` for `&str`: the address is
/// prefixed with `ws://` and parsed as a URL; resolution succeeds or fails
/// on the address text alone.
#[verifier::external_body]
pub(crate) fn ws_resolve(address: &str) -> (r: Result<
    surrealdb::opt::Endpoint,
    surrealdb::Error,
>)
    ensures
        r is Ok <==> ws_endpoint_ok(address@),
{
    surrealdb::opt::IntoEndpoint::<surrealdb::engine::remote::ws::Ws>::into_endpoint(address)
}

/// Relies on `surrealdb::opt::IntoEndpoint<Ws>` for `(&str, Config)`: the
/// address alone decides success, exactly as without a configuration, and
/// the given configuration is carried into the resolved endpoint.
#[verifier::external_body]
pub(crate) fn ws_resolve_with_config(address: &str, config: surrealdb::opt::Config) -> (r: Result<
    surrealdb::opt::Endpoint,
    surrealdb::Error,
>)
    ensures
        r is Ok <==> ws_endpoint_ok(address@),
{
    surrealdb::opt::IntoEndpoint::<surrealdb::engine::remote::ws::Ws>::into_endpoint((
        address,
        config,
    ))
}

/// Relies on `surrealdb::opt::IntoEndpoint<Wss>` for `&str`: the address is
/// prefixed with `wss://` and parsed as a URL; resolution succeeds or fails
/// on the address text alone.
#[verifier::external_body]
pub(crate) fn wss_resolve(address: &str) -> (r: Result<
    surrealdb::opt::Endpoint,
    surrealdb::Error,
>)
    ensures
        r is Ok <==> wss_endpoint_ok(address@),
{
    surrealdb::opt::IntoEndpoint::<surrealdb::engine::remote::ws::Wss>::into_endpoint(address)
}

/// Relies on `surrealdb::opt::IntoEndpoint<Wss>` for `(&str, Config)`: the
/// address alone decides success, exactly as without a configuration, and
/// the given configuration is carried into the resolved endpoint.
#[verifier::external_body]
pub(crate) fn wss_resolve_with_config(address: &str, config: surrealdb::opt::Config) -> (r:
    Result<surrealdb::opt::Endpoint, surrealdb::Error>)
    ensures
        r is Ok <==> wss_endpoint_ok(address@),
{
    surrealdb::opt::IntoEndpoint::<surrealdb::engine::remote::ws::Wss>::into_endpoint((
        address,
        config,
    ))
}

/// Relies on `surrealdb::engine::any::IntoEndpoint` for `&str`: the engine
/// is chosen from the scheme prefix of the address text and the address is
/// parsed as a URL, so resolution succeeds or fails on the address text
/// alone.
#[verifier::external_body]
pub(crate) fn any_resolve(address: &str) -> (r: Result<
    surrealdb::opt::Endpoint,
    surrealdb::Error,
>)
    ensures
        r is Ok <==> any_endpoint_ok(address@),
{
    surrealdb::engine::any::IntoEndpoint::into_endpoint(address)
}

/// Relies on `surrealdb::engine::any::IntoEndpoint` for `(&str, Config)`:
/// the address alone decides success, exactly as without a configuration,
/// and the given configuration is carried into the resolved endpoint.
#[verifier::external_body]
pub(crate) fn any_resolve_with_config(address: &str, config: surrealdb::opt::Config) -> (r:
    Result<surrealdb::opt::Endpoint, surrealdb::Error>)
    ensures
        r is Ok <==> any_endpoint_ok(address@),
{
    surrealdb::engine::any::IntoEndpoint::into_endpoint((address, config))
}

/// Relies on `surrealdb::opt::capabilities::Capabilities::default`: the
/// client library's default capability set.
#[verifier::external_body]
pub(crate) fn client_capabilities_default() -> surrealdb::opt::capabilities::Capabilities {
    surrealdb::opt::capabilities::Capabilities::default()
}

/// Relies on `Capabilities::with_scripting`: sets the scripting switch on
/// the client library's capability set.
#[verifier::external_body]
pub(crate) fn client_capabilities_with_scripting(
    capabilities: surrealdb::opt::capabilities::Capabilities,
    scripting: bool,
) -> surrealdb::opt::capabilities::Capabilities {
    capabilities.with_scripting(scripting)
}

/// Relies on `Capabilities::with_guest_access`: sets the guest-access switch
/// on the client library's capability set.
#[verifier::external_body]
pub(crate) fn client_capabilities_with_guest_access(
    capabilities: surrealdb::opt::capabilities::Capabilities,
    guest_access: bool,
) -> surrealdb::opt::capabilities::Capabilities {
    capabilities.with_guest_access(guest_access)
}

/// Relies on `surrealdb::opt::Config::new`: the client library's default
/// connection configuration.
#[verifier::external_body]
pub(crate) fn client_config_new() -> surrealdb::opt::Config {
    surrealdb::opt::Config::new()
}

/// Relies on `Config::set_strict`: sets strict server mode on the client
/// library's configuration.
#[verifier::external_body]
pub(crate) fn client_config_set_strict(
    config: surrealdb::opt::Config,
    strict: bool,
) -> surrealdb::opt::Config {
    config.set_strict(strict)
}

/// Relies on `Config::capabilities`: sets the capability set on the client
/// library's configuration.
#[verifier::external_body]
pub(crate) fn client_config_capabilities(
    config: surrealdb::opt::Config,
    capabilities: surrealdb::opt::capabilities::Capabilities,
) -> surrealdb::opt::Config {
    config.capabilities(capabilities)
}

/// Relies on `Config::user`: sets root credentials on the client library's
/// configuration.
#[verifier::external_body]
pub(crate) fn client_config_user(
    config: surrealdb::opt::Config,
    username: &str,
    password: &str,
) -> surrealdb::opt::Config {
    config.user(surrealdb::opt::auth::Root { username, password })
}

} // verus!
