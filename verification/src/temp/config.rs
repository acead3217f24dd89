//! A duplicable connection configuration owned by this crate.
//!
//! The client library's own configuration type cannot be duplicated, yet a
//! connection manager must hand a fresh configuration to every `connect`
//! call. This module therefore keeps the configurable content — strictness,
//! capability switches and root credentials — as plain values that can be
//! duplicated exactly, and only turns them into the client library's type at
//! the boundary, once per connect.

use vstd::prelude::*;

verus! {

/// The capability switches a configuration grants to a database instance:
/// whether embedded scripting is allowed and whether guest (unauthenticated)
/// access is allowed. Both are off unless switched on.
#[derive(Clone, Copy, Debug, PartialEq, Eq, Structural)]
pub struct LocalCapabilities {
    /// Whether embedded scripting is allowed.
    pub scripting: bool,
    /// Whether guest (unauthenticated) access is allowed.
    pub guest_access: bool,
}

impl LocalCapabilities {
    /// A capability set with every switch off.
    pub fn new() -> (r: Self)
        ensures
            !r.scripting,
            !r.guest_access,
    {
        LocalCapabilities { scripting: false, guest_access: false }
    }

    /// A capability set with every switch on.
    pub fn all() -> (r: Self)
        ensures
            r.scripting,
            r.guest_access,
    {
        LocalCapabilities { scripting: true, guest_access: true }
    }

    /// The same capability set with the scripting switch set as given.
    pub fn with_scripting(self, scripting: bool) -> (r: Self)
        ensures
            r.scripting == scripting,
            r.guest_access == self.guest_access,
    {
        LocalCapabilities { scripting, ..self }
    }

    /// The same capability set with the guest-access switch set as given.
    pub fn with_guest_access(self, guest_access: bool) -> (r: Self)
        ensures
            r.scripting == self.scripting,
            r.guest_access == guest_access,
    {
        LocalCapabilities { guest_access, ..self }
    }

    /// Whether embedded scripting is allowed.
    pub fn allows_scripting(&self) -> (r: bool)
        ensures
            r == self.scripting,
    {
        self.scripting
    }

    /// Whether guest access is allowed.
    pub fn allows_guest_access(&self) -> (r: bool)
        ensures
            r == self.guest_access,
    {
        self.guest_access
    }
}

impl Default for LocalCapabilities {
    /// The default capability set: every switch off.
    fn default() -> (r: Self)
        ensures
            !r.scripting,
            !r.guest_access,
    {
        LocalCapabilities { scripting: false, guest_access: false }
    }
}

/// A connection configuration that a manager can store once and duplicate on
/// every `connect` call: server strictness, capability switches, and optional
/// root credentials. A value is never mutated in place; every builder method
/// consumes its receiver and returns the adjusted value.
#[derive(Debug)]
pub struct LocalConfig {
    /// Whether the server is asked to run in strict mode.
    pub strict: bool,
    /// The capability switches granted to the database instance.
    pub capabilities: LocalCapabilities,
    /// Whether root credentials were set.
    pub root_auth: bool,
    /// The root user name; meaningful only when `root_auth` is set.
    pub username: String,
    /// The root password; meaningful only when `root_auth` is set.
    pub password: String,
}

impl LocalConfig {
    /// A configuration with strict mode off, default capabilities and no
    /// credentials.
    pub fn new() -> (r: Self)
        ensures
            !r.strict,
            !r.capabilities.scripting,
            !r.capabilities.guest_access,
            !r.root_auth,
            r.username@ == Seq::<char>::empty(),
            r.password@ == Seq::<char>::empty(),
    {
        LocalConfig {
            strict: false,
            capabilities: LocalCapabilities::new(),
            root_auth: false,
            username: String::new(),
            password: String::new(),
        }
    }

    /// The same configuration with strict server mode on.
    pub fn strict(self) -> (r: Self)
        ensures
            r == (LocalConfig { strict: true, ..self }),
    {
        LocalConfig { strict: true, ..self }
    }

    /// The same configuration with strict server mode set as given.
    pub fn set_strict(self, strict: bool) -> (r: Self)
        ensures
            r == (LocalConfig { strict, ..self }),
    {
        LocalConfig { strict, ..self }
    }

    /// The same configuration with the given capability set.
    pub fn capabilities(self, capabilities: LocalCapabilities) -> (r: Self)
        ensures
            r == (LocalConfig { capabilities, ..self }),
    {
        LocalConfig { capabilities, ..self }
    }

    /// The same configuration with root credentials set to the given user
    /// name and password.
    pub fn user(self, username: &str, password: &str) -> (r: Self)
        ensures
            r.strict == self.strict,
            r.capabilities == self.capabilities,
            r.root_auth,
            r.username@ == username@,
            r.password@ == password@,
    {
        LocalConfig {
            root_auth: true,
            username: username.to_owned(),
            password: password.to_owned(),
            ..self
        }
    }

    /// Whether strict server mode is on.
    pub fn is_strict(&self) -> (r: bool)
        ensures
            r == self.strict,
    {
        self.strict
    }

    /// The capability set this configuration grants.
    pub fn capability_set(&self) -> (r: LocalCapabilities)
        ensures
            r == self.capabilities,
    {
        self.capabilities
    }

    /// Whether root credentials were set.
    pub fn has_root_auth(&self) -> (r: bool)
        ensures
            r == self.root_auth,
    {
        self.root_auth
    }

    /// The configured root user name; empty unless credentials were set.
    pub fn username_str(&self) -> (r: &str)
        ensures
            r@ == self.username@,
    {
        self.username.as_str()
    }

    /// The configured root password; empty unless credentials were set.
    pub fn password_str(&self) -> (r: &str)
        ensures
            r@ == self.password@,
    {
        self.password.as_str()
    }

    /// The client library's configuration value carrying this content:
    /// strictness, the capability switches, and the root credentials where
    /// they were set. The result is opaque to this crate; it is rebuilt from
    /// the stored plain values on every call, so no two connects ever share
    /// one client configuration value.
    pub fn to_client_config(&self) -> surrealdb::opt::Config {
        let capabilities = crate::client::client_capabilities_default();
        let capabilities = crate::client::client_capabilities_with_scripting(
            capabilities,
            self.capabilities.scripting,
        );
        let capabilities = crate::client::client_capabilities_with_guest_access(
            capabilities,
            self.capabilities.guest_access,
        );
        let config = crate::client::client_config_new();
        let config = crate::client::client_config_set_strict(config, self.strict);
        let config = crate::client::client_config_capabilities(config, capabilities);
        if self.root_auth {
            crate::client::client_config_user(
                config,
                self.username.as_str(),
                self.password.as_str(),
            )
        } else {
            config
        }
    }
}

impl Clone for LocalConfig {
    /// Duplication is exact: the copy carries the same strictness,
    /// capabilities and credentials as the original, and the original is
    /// left untouched.
    fn clone(&self) -> (r: Self)
        ensures
            r == *self,
    {
        LocalConfig {
            strict: self.strict,
            capabilities: self.capabilities,
            root_auth: self.root_auth,
            username: self.username.clone(),
            password: self.password.clone(),
        }
    }
}

} // verus!
