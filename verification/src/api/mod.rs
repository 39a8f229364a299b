//! The HTTP interface.

pub mod containers;
pub mod database;
pub mod database_laws;
pub mod deploy;
pub mod health;
pub mod images;
pub mod interface_laws;
pub mod lan;
pub mod nfa;
pub mod system;
pub mod tunnel;
