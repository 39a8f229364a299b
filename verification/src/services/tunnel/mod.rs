//! The tunnel.

pub mod client;
pub mod client_laws;
pub mod laws;
pub mod server;
pub mod server_laws;
