//! Argument rewriting for a `curl` front end.
//!
//! The crate inspects the URLs of a command line, looks the hosts up in a
//! per-user configuration, and places the options, the `Authorization` header,
//! a default `Accept` header and the tracing headers that apply in front of
//! the arguments of the command line.

pub mod accept;
pub mod cli;
pub mod config;
pub mod hostname;
pub mod resolve;
pub mod rewrite;
pub mod text;
pub mod tokens;
pub mod trace;
