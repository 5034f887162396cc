//! Types and configuration shared by the agent, the journal and the CLI.

pub mod types;
pub mod error;
pub mod identity;
pub mod overlay;
pub mod node_mgmt;
pub mod config;
