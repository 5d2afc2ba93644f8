//! The settings of the gateway.

use vstd::prelude::*;

verus! {

/// Where the server listens and with how many workers.
#[derive(Debug, Clone)]
pub struct ServerConfig {
    pub host: String,
    pub port: u16,
    pub workers: usize,
}

/// How the database is reached.
#[derive(Debug, Clone)]
pub struct DatabaseConfig {
    pub url: String,
    pub max_connections: u32,
    pub min_connections: u32,
}

/// What is logged and in which form.
#[derive(Debug, Clone)]
pub struct LoggingConfig {
    /// The level from which on events are logged, such as `info`.
    pub level: String,
    /// The form of the log: `json`, or anything else for readable text.
    pub format: String,
}

/// All settings of the gateway.
#[derive(Debug, Clone)]
pub struct AppConfig {
    pub server: ServerConfig,
    pub database: DatabaseConfig,
    pub logging: LoggingConfig,
}

} // verus!
