//! A configurable "busy" endpoint: the request path names a delay in seconds,
//! the server waits that long (clamped to a configured ceiling) and answers
//! `204 No Content`. This crate holds the per-connection logic; sockets,
//! timers and the audit store are driven by the caller.

pub mod config;
pub mod handler;
pub mod request;
pub mod response;
pub mod text;
pub mod timeout;
pub mod validator;
