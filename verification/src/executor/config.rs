//! The executor's configuration, as its file describes it.
use vstd::prelude::*;
use crate::connection::{tcp_connection, RedisConnection};
use crate::telemetry::TracingConfig;

verus! {

/// Where the id of the last handled stream entry is kept between runs.
pub struct LastTaskManagerConfig {
    pub path: String,
}

/// How to reach Redis.
pub struct RedisConfig {
    pub host: String,
    pub port: u16,
    pub password: String,
    pub db: i64,
}

impl RedisConfig {
    /// The connection to open.
    pub fn to_connect_info(&self) -> (c: RedisConnection)
        ensures
            c.host@ == self.host@,
            c.port == self.port,
            c.db == self.db,
            c.username is None,
            c.password matches Some(p) && p@ == self.password@,
    {
        tcp_connection(&self.host, self.port, self.db, &self.password)
    }
}

/// The worker pool: how many workers, and the task service they report to.
pub struct ExecutorConfig {
    pub num_workers: usize,
    pub url: String,
}

/// The executor's whole configuration.
pub struct AppConfig {
    pub last_task_manager: LastTaskManagerConfig,
    pub redis: RedisConfig,
    pub executor: ExecutorConfig,
    pub tracing: TracingConfig,
}

impl AppConfig {
    /// How many workers the pool runs.
    pub fn get_executor_size(&self) -> (n: usize)
        ensures
            n == self.executor.num_workers,
    {
        self.executor.num_workers
    }
}

} // verus!
