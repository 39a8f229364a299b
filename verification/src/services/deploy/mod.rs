//! Deployments, as machines that turn events into actions.

pub mod action;
pub mod build_laws;
pub mod build_step_laws;
pub mod canary;
pub mod canary_laws;
pub mod compose_laws;
pub mod compose_step_laws;
pub mod context;
pub mod docker_build;
pub mod docker_compose;
pub mod execute;
pub mod execute_laws;
pub mod fatal;
pub mod monitor;
pub mod script;
pub mod stage_laws;
pub mod told_laws;
pub mod xiaojincut;
pub mod zombies;
