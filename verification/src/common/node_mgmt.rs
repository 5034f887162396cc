//! Node management backend selection and errors (BMC/power operations
//! delegated to CSM or OpenCHAMI).

use vstd::prelude::*;

use crate::text::{dec, push_str, push_string, push_u64, string_of};

verus! {

/// Backend type selection. One per deployment; no default.
#[derive(Debug, Clone, Copy, PartialEq, Eq, Structural)]
pub enum NodeMgmtBackendType {
    /// HPE Cray System Management (CAPMC + BOS + HSM).
    Csm,
    /// OpenCHAMI (SMD Redfish + BSS + HSM).
    Ochami,
}

/// A backend for BMC and power operations, one per deployment. Issuing
/// the reboot and reimage requests is the client runtime's part; a backend
/// says where its hardware state manager lives and how it is named.
pub trait NodeManagementBackend {
    /// The path prefix of the backend's hardware state manager.
    fn hsm_path_prefix(&self) -> &'static str;

    /// The backend's display name for messages.
    fn backend_name(&self) -> &'static str;
}

/// The display name of each backend type.
pub open spec fn backend_display_name(t: NodeMgmtBackendType) -> Seq<char> {
    match t {
        NodeMgmtBackendType::Csm => "CSM"@,
        NodeMgmtBackendType::Ochami => "OpenCHAMI"@,
    }
}

impl NodeMgmtBackendType {
    /// Display name for audit entries.
    pub fn display_name(&self) -> (r: &'static str)
        ensures
            r@ == backend_display_name(*self),
    {
        match self {
            NodeMgmtBackendType::Csm => "CSM",
            NodeMgmtBackendType::Ochami => "OpenCHAMI",
        }
    }
}

/// Errors from node management delegation.
#[derive(Debug, Clone, PartialEq, Eq)]
pub enum NodeMgmtError {
    NotConfigured,
    Unreachable(String),
    BackendError { status: u16, body: String },
    AuthError(String),
    NoBootTemplate(String),
}

/// The text of each error.
pub open spec fn node_mgmt_error_text(e: NodeMgmtError) -> Seq<char> {
    match e {
        NodeMgmtError::NotConfigured => "node management backend not configured"@,
        NodeMgmtError::Unreachable(s) => "backend unreachable: "@ + s@,
        NodeMgmtError::BackendError { status, body } => "backend returned error: HTTP "@ + dec(
            status as nat,
        ) + " \u{2014} "@ + body@,
        NodeMgmtError::AuthError(s) => "authentication failed: "@ + s@,
        NodeMgmtError::NoBootTemplate(s) => "no boot template found for node "@ + s@,
    }
}

impl NodeMgmtError {
    /// The human-readable message of this error.
    pub fn message(&self) -> (m: String)
        ensures
            m@ == node_mgmt_error_text(*self),
    {
        let mut out: Vec<char> = Vec::new();
        match self {
            NodeMgmtError::NotConfigured => {
                push_str(&mut out, "node management backend not configured");
            },
            NodeMgmtError::Unreachable(s) => {
                push_str(&mut out, "backend unreachable: ");
                push_string(&mut out, s);
            },
            NodeMgmtError::BackendError { status, body } => {
                push_str(&mut out, "backend returned error: HTTP ");
                push_u64(&mut out, *status as u64);
                push_str(&mut out, " \u{2014} ");
                push_string(&mut out, body);
            },
            NodeMgmtError::AuthError(s) => {
                push_str(&mut out, "authentication failed: ");
                push_string(&mut out, s);
            },
            NodeMgmtError::NoBootTemplate(s) => {
                push_str(&mut out, "no boot template found for node ");
                push_string(&mut out, s);
            },
        }
        string_of(&out)
    }
}

} // verus!
