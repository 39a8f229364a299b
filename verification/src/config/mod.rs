//! Configuration.

pub mod autoupdate;
pub mod env;
pub mod environment;
pub mod laws;
pub mod project;
