pub mod cli;
pub mod config;
pub mod models;
pub mod notifications;
pub mod redis_stream;
