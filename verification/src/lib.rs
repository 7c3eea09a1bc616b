//! Clients for two REST management APIs: a container-orchestration platform
//! and a reverse-proxy manager.
//!
//! The crate holds everything that is decided or computed on the way from a
//! command line to a printed answer: how a base URL is normalised, which
//! request a command sends, what an HTTP status means, how a raw record is
//! relabelled, and which fields of the result are shown. Sending a request,
//! decoding a body and writing text are left to the caller, who is told what
//! to do by a session and reports back what happened.

pub mod config;
pub mod document;
pub mod error;
pub mod http;
pub mod nproxy;
pub mod output;
pub mod portainer;
pub mod text;
