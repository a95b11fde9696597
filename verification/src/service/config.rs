//! The task service's configuration, as its file describes it.
use vstd::prelude::*;
use crate::connection::{tcp_connection, RedisConnection};
use crate::telemetry::TracingConfig;

verus! {

/// How to reach PostgreSQL, the connection pool's limits (durations in
/// seconds), and where the schema migrations are.
pub struct PostgresConfig {
    pub host: String,
    pub port: u16,
    pub login: String,
    pub password: String,
    pub db: String,
    pub max_connections: u32,
    pub idle_timeout_sec: u64,
    pub max_lifetime_sec: u64,
    pub acquire_time_sec: u64,
    pub path_migrations: String,
}

impl PostgresConfig {
    /// The directory of the schema migrations.
    pub fn get_path_migrations(&self) -> (p: &str)
        ensures
            p@ == self.path_migrations@,
    {
        self.path_migrations.as_str()
    }
}

/// How to reach Redis.
pub struct RedisConfig {
    pub host: String,
    pub port: u16,
    pub password: String,
    pub db: i64,
}

impl RedisConfig {
    /// The connection to open.
    pub fn to_connect_info(&self) -> (c: RedisConnection)
        ensures
            c.host@ == self.host@,
            c.port == self.port,
            c.db == self.db,
            c.username is None,
            c.password matches Some(p) && p@ == self.password@,
    {
        tcp_connection(&self.host, self.port, self.db, &self.password)
    }
}

/// The service's whole configuration.
pub struct AppConfig {
    pub postgres: PostgresConfig,
    pub redis: RedisConfig,
    pub tracing: TracingConfig,
}

} // verus!
