//! What stands before the request handlers.

pub mod auth;
