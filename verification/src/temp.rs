//! Managers that carry a locally-owned, duplicable configuration beside a
//! plain address string, working around the missing duplication support on
//! the client library's own configuration type.

pub mod compiletime_with_config;
pub mod config;
pub mod runtime_with_config;
