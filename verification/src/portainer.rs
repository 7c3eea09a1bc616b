//! The client of the container platform.

pub mod client;
pub mod config;
pub mod error;
pub mod labels;
pub mod models;
pub mod session;
