//! A lazily started loopback listener for tests: the startup protocol that
//! lets many callers share one listener, the address strings callers connect
//! to, and the fixed reply every connection gets.

pub mod host;
pub mod state;
pub mod response;
pub mod server;
