//! The settings of the service.

use vstd::prelude::*;

verus! {

/// The settings of the service.
#[derive(Debug)]
pub struct AppConfig {
    /// Bind address, e.g. "0.0.0.0:8080"
    pub host: String,
    /// PostgreSQL connection URL
    pub database_url: String,
    /// Max DB connections in pool
    pub database_pool_size: u32,
    /// NATS connection URL, e.g. "nats://nats:4222"
    pub nats_url: String,
    /// OTLP collector endpoint, e.g. "http://otel-collector:4317"
    pub otlp_endpoint: String,
    /// Log level string passed to the log filter
    pub log_level: String,
    /// Service name reported with traces
    pub service_name: String,
}

/// The settings that the environment gives.
#[derive(Debug)]
pub struct EnvSettings {
    pub host: Option<String>,
    pub database_url: Option<String>,
    pub database_pool_size: Option<u32>,
    pub nats_url: Option<String>,
    pub otlp_endpoint: Option<String>,
    pub log_level: Option<String>,
    pub service_name: Option<String>,
}

/// What is wrong with the environment.
#[derive(Debug, Clone, Copy, PartialEq, Eq, Structural)]
pub enum ConfigError {
    /// There is no database URL, and no default for one.
    MissingDatabaseUrl,
}

pub fn default_host() -> (value: String)
    ensures
        value@ == "0.0.0.0:8080"@,
{
    "0.0.0.0:8080".to_owned()
}

pub fn default_pool_size() -> (value: u32)
    ensures
        value == 10,
{
    10
}

pub fn default_nats_url() -> (value: String)
    ensures
        value@ == "nats://localhost:4222"@,
{
    "nats://localhost:4222".to_owned()
}

pub fn default_otlp() -> (value: String)
    ensures
        value@ == "http://localhost:4317"@,
{
    "http://localhost:4317".to_owned()
}

pub fn default_log_level() -> (value: String)
    ensures
        value@ == "info"@,
{
    "info".to_owned()
}

pub fn default_service_name() -> (value: String)
    ensures
        value@ == "task-service"@,
{
    "task-service".to_owned()
}

/// What a setting says: the given text, or the default.
pub open spec fn setting(given: Option<String>, default: Seq<char>) -> Seq<char> {
    match given {
        Some(text) => text@,
        None => default,
    }
}

impl AppConfig {
    /// The settings: what the environment gives, and the defaults for what it
    /// does not.  Only the database URL has no default.
    pub fn from_env(env: EnvSettings) -> (config: Result<AppConfig, ConfigError>)
        ensures
            match config {
                Err(_) => env.database_url is None,
                Ok(config) => {
                    &&& env.database_url is Some
                    &&& config.database_url@ == env.database_url->0@
                    &&& config.host@ == setting(env.host, "0.0.0.0:8080"@)
                    &&& config.database_pool_size == (match env.database_pool_size {
                        Some(n) => n,
                        None => 10,
                    })
                    &&& config.nats_url@ == setting(env.nats_url, "nats://localhost:4222"@)
                    &&& config.otlp_endpoint@ == setting(
                        env.otlp_endpoint,
                        "http://localhost:4317"@,
                    )
                    &&& config.log_level@ == setting(env.log_level, "info"@)
                    &&& config.service_name@ == setting(env.service_name, "task-service"@)
                },
            },
    {
        let database_url = match env.database_url {
            Some(url) => url,
            None => return Err(ConfigError::MissingDatabaseUrl),
        };
        Ok(
            AppConfig {
                host: match env.host {
                    Some(host) => host,
                    None => default_host(),
                },
                database_url,
                database_pool_size: match env.database_pool_size {
                    Some(size) => size,
                    None => default_pool_size(),
                },
                nats_url: match env.nats_url {
                    Some(url) => url,
                    None => default_nats_url(),
                },
                otlp_endpoint: match env.otlp_endpoint {
                    Some(endpoint) => endpoint,
                    None => default_otlp(),
                },
                log_level: match env.log_level {
                    Some(level) => level,
                    None => default_log_level(),
                },
                service_name: match env.service_name {
                    Some(name) => name,
                    None => default_service_name(),
                },
            },
        )
    }
}

} // verus!
