pub mod stream;
pub mod cli;
pub mod connection;
pub mod telemetry;
pub mod executor;
pub mod notifier;
pub mod service;
