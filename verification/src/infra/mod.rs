//! The edges to other programs.

pub mod command;
pub mod deploy_center;
pub mod ids;
pub mod json;
