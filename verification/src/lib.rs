//! A small diagnostic library for exercising an HTTP backend over TLS with an
//! extra root of trust, together with a helper for a profiling wrapper.
//!
//! The library holds the decisions and the data of two console tools: a client
//! that issues a bounded number of GET requests against a backend, and a
//! wrapper that runs a performance counter against a compiled binary. All I/O
//! stays with the callers; the functions here validate configuration, drive
//! the request loop's state, build the exact console messages, and select the
//! profiling target.

pub mod config;
pub mod decimal;
pub mod messages;
pub mod profiling;
pub mod request_loop;
pub mod tls;
