//! The data that the agent works on.

pub mod code;
pub mod container;
pub mod database;
pub mod deploy;
pub mod laws;
pub mod ssh;
pub mod tunnel;
