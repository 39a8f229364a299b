//! The SSH server.

pub mod server;
