//! The notifier's configuration, as its file describes it.
use vstd::prelude::*;
use crate::connection::{tcp_connection, RedisConnection};
use crate::telemetry::TracingConfig;

verus! {

/// How to reach Redis, and the connection pool's limits (timeouts in
/// seconds).
pub struct RedisConfig {
    pub host: String,
    pub port: u16,
    pub password: String,
    pub db: i64,
    pub max_connections: usize,
    pub wait: u64,
    pub create: u64,
}

impl RedisConfig {
    /// The connection to open.
    pub fn to_connect_info(&self) -> (c: RedisConnection)
        ensures
            c.host@ == self.host@,
            c.port == self.port,
            c.db == self.db,
            c.username is None,
            c.password matches Some(p) && p@ == self.password@,
    {
        tcp_connection(&self.host, self.port, self.db, &self.password)
    }
}

/// Where the last read stream positions are kept between runs.
pub struct LastNotifierConfig {
    pub path: String,
}

/// The notifier's whole configuration.
pub struct AppConfig {
    pub redis: RedisConfig,
    pub tracing: TracingConfig,
    pub last_notifier_tasks: LastNotifierConfig,
}

} // verus!
