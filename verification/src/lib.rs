//! A verified core for a TLS server: credential loading from PEM bytes,
//! construction of an immutable TLS server context, and the per-connection
//! and accept-loop state machines that a runtime drives.

pub mod pem;
pub mod credentials;
pub mod context;
pub mod connection;
pub mod system;
pub mod startup;
