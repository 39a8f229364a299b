//! Deployment agent: the decision logic of a private-cloud deployment node.

pub mod api;
pub mod collections;
pub mod config;
pub mod domain;
pub mod error;
pub mod infra;
pub mod middleware;
pub mod runtime;
pub mod runtime_laws;
pub mod services;
pub mod state;
pub mod text;
pub mod time;

pub use runtime::RuntimeConfig;
