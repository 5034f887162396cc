//! Node agent logic: command whitelist, authentication, diagnostics,
//! sessions, configuration subscription and process supervision.

pub mod whitelist;
pub mod auth;
pub mod token;
pub mod exec;
pub mod session;
pub mod shell;
pub mod diag;
pub mod supervisor;
pub mod subscription;
