//! A small library for a Postgres inspection client with a
//! natural-language assistant layer.
//!
//! The library holds the verified logic: the configuration and
//! connection model, connection-string construction, and the state
//! machines that drive a session's request/response cycle.  All I/O
//! (the database wire protocol, TLS, the model API, the window system)
//! stays with the caller.

pub mod config;
pub mod connection;
pub mod dashboard;
pub mod error;
pub mod openai;
pub mod session;
pub mod shell;
pub mod sidebar;
pub mod text;
pub mod url_parts;
pub mod value;
pub mod viewport;
