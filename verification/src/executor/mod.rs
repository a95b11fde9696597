pub mod cli;
pub mod config;
pub mod receiver;
pub mod worker;
