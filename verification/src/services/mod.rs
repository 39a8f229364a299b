//! The services of the agent.

pub mod autoupdate;
pub mod deploy;
pub mod discovery_laws;
pub mod frp;
pub mod lan_discovery;
pub mod log_reporter;
pub mod log_ring;
pub mod mesh;
pub mod network;
pub mod nfa;
pub mod process_laws;
pub mod queue_persistence;
pub mod restart;
pub mod restart_laws;
pub mod service_router;
pub mod ssh;
pub mod tunnel;
pub mod update_laws;
pub mod windows_service;
