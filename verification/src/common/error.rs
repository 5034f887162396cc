//! Typed error values for pact operations and their messages.

use vstd::prelude::*;

use crate::text::{dec, push_str, push_string, push_u64, string_of};

verus! {

/// Top-level error type for pact operations.
#[derive(Debug, Clone, PartialEq, Eq)]
pub enum PactError {
    NodeNotFound(String),
    VClusterNotFound(String),
    EntryNotFound(u64),
    Unauthorized { reason: String },
    PolicyError(String),
    JournalUnavailable(String),
    DriftDetected { node: String, detail: String },
    ServiceFailed { node: String, service: String, reason: String },
    EmergencyActive(String),
    ShellError(String),
    Serialization(String),
    Internal(String),
    NodeNotEnrolled(String),
    NodeAlreadyEnrolled(String),
    HardwareIdentityConflict(String),
    NodeRevoked(String),
    AlreadyActive(String),
    RateLimited(String),
    ActiveSessionsExist { node: String, count: u32 },
    CertificateError(String),
    OrgNotRegistered(String),
    UidRangeExhausted { org: String, stride: u32, assigned: u32 },
}

/// The text of each error.
pub open spec fn pact_error_text(e: PactError) -> Seq<char> {
    match e {
        PactError::NodeNotFound(s) => "node not found: "@ + s@,
        PactError::VClusterNotFound(s) => "vcluster not found: "@ + s@,
        PactError::EntryNotFound(n) => "config entry not found: sequence "@ + dec(n as nat),
        PactError::Unauthorized { reason } => "authorization denied: "@ + reason@,
        PactError::PolicyError(s) => "policy evaluation failed: "@ + s@,
        PactError::JournalUnavailable(s) => "journal unavailable: "@ + s@,
        PactError::DriftDetected { node, detail } => "drift detected on node "@ + node@ + ": "@
            + detail@,
        PactError::ServiceFailed { node, service, reason } => "service "@ + service@
            + " failed on node "@ + node@ + ": "@ + reason@,
        PactError::EmergencyActive(s) => "emergency mode active on node "@ + s@,
        PactError::ShellError(s) => "shell connection failed: "@ + s@,
        PactError::Serialization(s) => "serialization error: "@ + s@,
        PactError::Internal(s) => "internal error: "@ + s@,
        PactError::NodeNotEnrolled(s) => "node not enrolled: "@ + s@,
        PactError::NodeAlreadyEnrolled(s) => "node already enrolled: "@ + s@,
        PactError::HardwareIdentityConflict(s) => "hardware identity conflict: "@ + s@,
        PactError::NodeRevoked(s) => "node has been revoked: "@ + s@,
        PactError::AlreadyActive(s) => "node is already active: "@ + s@,
        PactError::RateLimited(s) => "rate limited: "@ + s@,
        PactError::ActiveSessionsExist { node, count } => "active sessions exist on node "@
            + node@ + ": "@ + dec(count as nat) + " session(s)"@,
        PactError::CertificateError(s) => "certificate error: "@ + s@,
        PactError::OrgNotRegistered(s) => "organization not registered: "@ + s@,
        PactError::UidRangeExhausted { org, stride, assigned } => "UID range exhausted for org "@
            + org@ + ": "@ + dec(assigned as nat) + " of "@ + dec(stride as nat) + " assigned"@,
    }
}

impl PactError {
    /// The human-readable message of this error.
    pub fn message(&self) -> (m: String)
        ensures
            m@ == pact_error_text(*self),
    {
        let mut out: Vec<char> = Vec::new();
        match self {
            PactError::NodeNotFound(s) => {
                push_str(&mut out, "node not found: ");
                push_string(&mut out, s);
            },
            PactError::VClusterNotFound(s) => {
                push_str(&mut out, "vcluster not found: ");
                push_string(&mut out, s);
            },
            PactError::EntryNotFound(n) => {
                push_str(&mut out, "config entry not found: sequence ");
                push_u64(&mut out, *n);
            },
            PactError::Unauthorized { reason } => {
                push_str(&mut out, "authorization denied: ");
                push_string(&mut out, reason);
            },
            PactError::PolicyError(s) => {
                push_str(&mut out, "policy evaluation failed: ");
                push_string(&mut out, s);
            },
            PactError::JournalUnavailable(s) => {
                push_str(&mut out, "journal unavailable: ");
                push_string(&mut out, s);
            },
            PactError::DriftDetected { node, detail } => {
                push_str(&mut out, "drift detected on node ");
                push_string(&mut out, node);
                push_str(&mut out, ": ");
                push_string(&mut out, detail);
            },
            PactError::ServiceFailed { node, service, reason } => {
                push_str(&mut out, "service ");
                push_string(&mut out, service);
                push_str(&mut out, " failed on node ");
                push_string(&mut out, node);
                push_str(&mut out, ": ");
                push_string(&mut out, reason);
            },
            PactError::EmergencyActive(s) => {
                push_str(&mut out, "emergency mode active on node ");
                push_string(&mut out, s);
            },
            PactError::ShellError(s) => {
                push_str(&mut out, "shell connection failed: ");
                push_string(&mut out, s);
            },
            PactError::Serialization(s) => {
                push_str(&mut out, "serialization error: ");
                push_string(&mut out, s);
            },
            PactError::Internal(s) => {
                push_str(&mut out, "internal error: ");
                push_string(&mut out, s);
            },
            PactError::NodeNotEnrolled(s) => {
                push_str(&mut out, "node not enrolled: ");
                push_string(&mut out, s);
            },
            PactError::NodeAlreadyEnrolled(s) => {
                push_str(&mut out, "node already enrolled: ");
                push_string(&mut out, s);
            },
            PactError::HardwareIdentityConflict(s) => {
                push_str(&mut out, "hardware identity conflict: ");
                push_string(&mut out, s);
            },
            PactError::NodeRevoked(s) => {
                push_str(&mut out, "node has been revoked: ");
                push_string(&mut out, s);
            },
            PactError::AlreadyActive(s) => {
                push_str(&mut out, "node is already active: ");
                push_string(&mut out, s);
            },
            PactError::RateLimited(s) => {
                push_str(&mut out, "rate limited: ");
                push_string(&mut out, s);
            },
            PactError::ActiveSessionsExist { node, count } => {
                push_str(&mut out, "active sessions exist on node ");
                push_string(&mut out, node);
                push_str(&mut out, ": ");
                push_u64(&mut out, *count as u64);
                push_str(&mut out, " session(s)");
            },
            PactError::CertificateError(s) => {
                push_str(&mut out, "certificate error: ");
                push_string(&mut out, s);
            },
            PactError::OrgNotRegistered(s) => {
                push_str(&mut out, "organization not registered: ");
                push_string(&mut out, s);
            },
            PactError::UidRangeExhausted { org, stride, assigned } => {
                push_str(&mut out, "UID range exhausted for org ");
                push_string(&mut out, org);
                push_str(&mut out, ": ");
                push_u64(&mut out, *assigned as u64);
                push_str(&mut out, " of ");
                push_u64(&mut out, *stride as u64);
                push_str(&mut out, " assigned");
            },
        }
        string_of(&out)
    }
}

} // verus!
