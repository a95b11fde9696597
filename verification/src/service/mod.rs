pub mod cli;
pub mod config;
pub mod errors;
pub mod queue;
pub mod requests;
pub mod tasks;
