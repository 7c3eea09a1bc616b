//! The client of the reverse-proxy manager.

pub mod client;
pub mod config;
pub mod error;
pub mod models;
pub mod session;
