//! A recording HTTP proxy: the decisions of the live path, the HAR codec,
//! the bounded buffers between the live path and the capture store, and the
//! configuration rules, each with its contract.

pub mod api;
pub mod config;
pub mod har;
pub mod proxy;
pub mod ring;
pub mod store;
pub mod tee;
pub mod text;

pub use config::{
    default_bind, default_client_timeout, default_max_connections, default_max_size,
    default_server_timeout, BindAddress, Config, ConfigError, Database, Scheme, Server,
    UpstreamAddress,
};
pub use har::Har;
