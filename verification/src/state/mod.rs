//! The state of the agent.

pub mod app_state;
pub mod laws;
pub mod log_hub;
pub mod port_listener_manager;
pub mod task_store;
pub mod tunnel_state;
