//! A forwarding HTTP proxy core: per-request target resolution, loop
//! prevention, header and body passthrough, and response reconstruction.
//!
//! The crate holds the decision logic of the proxy. Network I/O (the
//! listening socket and the upstream HTTP client) lives outside; the
//! functions here work on plain byte values and say exactly what they
//! compute.

pub mod bytes;
pub mod config;
pub mod host;
pub mod model;
pub mod target;
pub mod handler;
pub mod trace;
