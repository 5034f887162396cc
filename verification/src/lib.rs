//! Verified core of pact: configuration types, identity mapping, command
//! whitelisting, shell session bookkeeping, supervisor decisions and the
//! text formatting used by the command-line client.

pub mod text;
pub mod common;
pub mod keyed;
pub mod agent;
pub mod cli;
