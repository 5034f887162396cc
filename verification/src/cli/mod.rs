//! Command-line client logic: request validation and the text rendering of
//! results.  Talking to the journal and agents is the client runtime's work.

pub mod service;
pub mod status;
pub mod exec;
pub mod commit;
pub mod emergency;
pub mod blacklist;
pub mod approve;
pub mod diff;
pub mod group;
pub mod log;
pub mod promote;
pub mod delegate;
pub mod config;
pub mod execute;
pub mod node;
pub mod apply;
pub mod diag;
pub mod wire;
pub mod lattice;
pub mod requests;
pub mod remote;
pub mod backends;
pub mod scheduler;
pub mod budget;
