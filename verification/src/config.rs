//! The configuration the surrounding program loads at startup and hands
//! to the library as plain data: where to listen, how to reach the
//! store, how to log, and the authentication defaults.

use vstd::prelude::*;

verus! {

/// Listening address, port, and the allowed CORS origin.
pub struct ServerConfig {
    pub address: String,
    pub port: u16,
    pub cors: String,
}

/// Connection coordinates of the relational store.
pub struct DatabaseConfig {
    pub host: String,
    pub port: u16,
    pub name: String,
    pub user: String,
    pub password: String,
}

/// Log level and format.
pub struct LoggerConfig {
    pub level: String,
    pub format: String,
}

/// Token signing secret and the bootstrap administrator's defaults.
pub struct AuthConfig {
    pub jwt_secret: String,
    pub default_name: String,
    pub default_username: String,
    pub default_password: String,
}

/// The whole configuration.
pub struct Config {
    pub environment: String,
    pub server: ServerConfig,
    pub database: DatabaseConfig,
    pub logger: LoggerConfig,
    pub auth: AuthConfig,
}

} // verus!
