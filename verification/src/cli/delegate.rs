//! Delegated operations (drain, cordon, reboot, reimage): rendering of
//! results, the audit note, and the choice of node management backend.

use vstd::prelude::*;

use crate::agent::auth::{opt_view, trim_end_slashes};
use crate::common::config::DelegationConfig;
use crate::common::node_mgmt::{backend_display_name, node_mgmt_error_text, NodeMgmtBackendType, NodeMgmtError};
use crate::text::{chars_of, dec, push_chars, push_str, push_u64, string_from, string_of};

verus! {

broadcast use vstd::string::group_string_axioms;

/// Result of a delegation command.
#[derive(Debug, Clone)]
pub struct DelegationResult {
    pub command: String,
    pub node_id: String,
    pub target_system: String,
    pub success: bool,
    pub message: String,
}

/// The text of a delegation result.
pub open spec fn delegation_text(r: DelegationResult) -> Seq<char> {
    (if r.success { Seq::empty() } else { "FAILED: "@ }) + r.command@ + " on "@ + r.node_id@ + " \u{2192} "@
        + r.message@ + " (via "@ + r.target_system@ + ")"@
}

/// Formats a delegation result for display.
pub fn format_delegation_result(result: &DelegationResult) -> (r: String)
    ensures
        r@ == delegation_text(*result),
{
    let mut out: Vec<char> = Vec::new();
    if !result.success {
        push_str(&mut out, "FAILED: ");
    }
    push_chars(&mut out, &chars_of(result.command.as_str()));
    push_str(&mut out, " on ");
    push_chars(&mut out, &chars_of(result.node_id.as_str()));
    push_str(&mut out, " \u{2192} ");
    push_chars(&mut out, &chars_of(result.message.as_str()));
    push_str(&mut out, " (via ");
    push_chars(&mut out, &chars_of(result.target_system.as_str()));
    push_str(&mut out, ")");
    proof {
        if result.success {
            assert(out@ =~= delegation_text(*result));
        }
    }
    string_of(&out)
}

/// The audit note added to a delegation message: the journal sequence of
/// the audit entry, or nothing when recording it failed.
pub fn audit_note(audit_seq: Option<u64>) -> (r: String)
    ensures
        r@ == match audit_seq {
            Some(s) => "audit seq:"@ + dec(s as nat),
            None => Seq::<char>::empty(),
        },
{
    let mut out: Vec<char> = Vec::new();
    match audit_seq {
        Some(s) => {
            push_str(&mut out, "audit seq:");
            push_u64(&mut out, s);
        },
        None => {},
    }
    string_of(&out)
}

/// The system named in the audit entry of a reboot or reimage: the
/// configured backend, or OpenCHAMI when none is configured.
pub fn delegation_target(config: &DelegationConfig) -> (r: &'static str)
    ensures
        r@ == match config.node_mgmt_backend {
            Some(b) => backend_display_name(b),
            None => "OpenCHAMI"@,
        },
{
    match &config.node_mgmt_backend {
        Some(b) => b.display_name(),
        None => "OpenCHAMI",
    }
}

/// A node management backend chosen from the configuration.
#[derive(Debug, Clone)]
pub struct BackendSelection {
    /// Which backend.
    pub backend: NodeMgmtBackendType,
    /// Its base URL, without trailing slashes.
    pub base_url: String,
    /// Token to authenticate with, if any.
    pub token: Option<String>,
    /// Request timeout in seconds.
    pub timeout_secs: u64,
}

impl BackendSelection {
    /// A backend at a base URL, kept without its trailing slashes.
    pub fn new(backend: NodeMgmtBackendType, base_url: &str, token: Option<&str>, timeout_secs: u64) -> (r: Self)
        ensures
            r.backend == backend,
            r.base_url@ == trim_end_slashes(base_url@),
            opt_view(r.token) == (match token {
                Some(t) => Some(t@),
                None => None::<Seq<char>>,
            }),
            r.timeout_secs == timeout_secs,
    {
        let token = match token {
            Some(t) => Some(t.to_string()),
            None => None,
        };
        BackendSelection { backend, base_url: trimmed_url(base_url), token, timeout_secs }
    }

    /// The display name of the chosen backend.
    pub fn backend_name(&self) -> (r: &'static str)
        ensures
            r@ == backend_display_name(self.backend),
    {
        self.backend.display_name()
    }
}

/// The base URL chosen: an explicit backend uses the node management URL,
/// OpenCHAMI falling back to the legacy SMD URL; without a backend type, a
/// legacy SMD URL selects OpenCHAMI.
pub open spec fn chosen_backend(c: DelegationConfig) -> Option<(NodeMgmtBackendType, Seq<char>)> {
    match c.node_mgmt_backend {
        None => match c.openchami_smd_url {
            Some(u) => Some((NodeMgmtBackendType::Ochami, u@)),
            None => None,
        },
        Some(NodeMgmtBackendType::Csm) => match c.node_mgmt_base_url {
            Some(u) => Some((NodeMgmtBackendType::Csm, u@)),
            None => None,
        },
        Some(NodeMgmtBackendType::Ochami) => match c.node_mgmt_base_url {
            Some(u) => Some((NodeMgmtBackendType::Ochami, u@)),
            None => match c.openchami_smd_url {
                Some(u) => Some((NodeMgmtBackendType::Ochami, u@)),
                None => None,
            },
        },
    }
}

/// The token chosen: the node management token, else the legacy one.
pub open spec fn chosen_token(c: DelegationConfig) -> Option<Seq<char>> {
    match c.node_mgmt_token {
        Some(t) => Some(t@),
        None => opt_view(c.openchami_token),
    }
}

fn trimmed_url(url: &str) -> (r: String)
    ensures
        r@ == trim_end_slashes(url@),
{
    let v = chars_of(url);
    let mut end = v.len();
    proof {
        assert(v@.take(v@.len() as int) =~= v@);
    }
    while end > 0 && v[end - 1] == '/'
        invariant
            end <= v@.len(),
            trim_end_slashes(v@) == trim_end_slashes(v@.take(end as int)),
        decreases end,
    {
        proof {
            assert(v@.take(end as int).drop_last() =~= v@.take(end - 1));
        }
        end = end - 1;
    }
    let out = crate::text::copy_range(&v, 0, end);
    proof {
        assert(out@ =~= v@.take(end as int));
    }
    string_of(&out)
}

fn chosen_token_exec(c: &DelegationConfig) -> (r: Option<String>)
    ensures
        opt_view(r) == chosen_token(*c),
{
    match &c.node_mgmt_token {
        Some(t) => Some(t.clone()),
        None => match &c.openchami_token {
            Some(t) => Some(t.clone()),
            None => None,
        },
    }
}

/// Chooses the node management backend from the configuration; without a
/// usable URL the backend is not configured.
pub fn select_node_mgmt_backend(config: &DelegationConfig) -> (r: Result<BackendSelection, NodeMgmtError>)
    ensures
        match chosen_backend(*config) {
            None => r matches Err(NodeMgmtError::NotConfigured),
            Some((b, url)) => r matches Ok(s) && s.backend == b && s.base_url@ == trim_end_slashes(url)
                && opt_view(s.token) == chosen_token(*config) && s.timeout_secs == config.timeout_secs,
        },
{
    let chosen: Option<(NodeMgmtBackendType, &String)> = match &config.node_mgmt_backend {
        None => match &config.openchami_smd_url {
            Some(u) => Some((NodeMgmtBackendType::Ochami, u)),
            None => None,
        },
        Some(NodeMgmtBackendType::Csm) => match &config.node_mgmt_base_url {
            Some(u) => Some((NodeMgmtBackendType::Csm, u)),
            None => None,
        },
        Some(NodeMgmtBackendType::Ochami) => match &config.node_mgmt_base_url {
            Some(u) => Some((NodeMgmtBackendType::Ochami, u)),
            None => match &config.openchami_smd_url {
                Some(u) => Some((NodeMgmtBackendType::Ochami, u)),
                None => None,
            },
        },
    };
    match chosen {
        None => Err(NodeMgmtError::NotConfigured),
        Some((backend, url)) => Ok(BackendSelection {
            backend,
            base_url: trimmed_url(url.as_str()),
            token: chosen_token_exec(config),
            timeout_secs: config.timeout_secs,
        }),
    }
}

/// A CSM backend is never chosen through the legacy OpenCHAMI URL, and
/// without any URL no backend is chosen.
pub proof fn law_backend_choice(c: DelegationConfig)
    ensures
        c.node_mgmt_base_url is None && c.node_mgmt_backend == Some(NodeMgmtBackendType::Csm)
            ==> chosen_backend(c) is None,
        c.node_mgmt_base_url is None && c.openchami_smd_url is None ==> chosen_backend(c) is None,
        chosen_backend(c) matches Some((b, _)) ==> (c.node_mgmt_backend is None ==> b == NodeMgmtBackendType::Ochami),
{
}

/// The audit note of a delegation, as the note shown in its message.
pub open spec fn audit_text(audit_seq: Option<u64>) -> Seq<char> {
    match audit_seq {
        Some(s) => "audit seq:"@ + dec(s as nat),
        None => Seq::empty(),
    }
}

/// The policy reference of the audit entry of a delegation.
pub fn delegation_policy_ref(target_system: &str, command: &str, node_id: &str) -> (r: String)
    ensures
        r@ == "delegate:"@ + target_system@ + ":"@ + command@ + ":"@ + node_id@,
{
    let mut out: Vec<char> = Vec::new();
    push_str(&mut out, "delegate:");
    push_str(&mut out, target_system);
    push_str(&mut out, ":");
    push_str(&mut out, command);
    push_str(&mut out, ":");
    push_str(&mut out, node_id);
    string_of(&out)
}

/// A node operation delegated to the scheduler.
#[derive(Debug, Clone, Copy, PartialEq, Eq, Structural)]
pub enum LatticeNodeOp {
    Drain,
    Cordon,
    Uncordon,
    Undrain,
}

/// The command name of a scheduler operation.
pub open spec fn lattice_op_name(op: LatticeNodeOp) -> Seq<char> {
    match op {
        LatticeNodeOp::Drain => "drain"@,
        LatticeNodeOp::Cordon => "cordon"@,
        LatticeNodeOp::Uncordon => "uncordon"@,
        LatticeNodeOp::Undrain => "undrain"@,
    }
}

fn lattice_op_str(op: LatticeNodeOp) -> (r: &'static str)
    ensures
        r@ == lattice_op_name(op),
{
    match op {
        LatticeNodeOp::Drain => "drain",
        LatticeNodeOp::Cordon => "cordon",
        LatticeNodeOp::Uncordon => "uncordon",
        LatticeNodeOp::Undrain => "undrain",
    }
}

/// What happened when a scheduler operation was attempted.
#[derive(Debug)]
pub enum LatticeOpOutcome {
    /// No scheduler endpoint is configured.
    NotConfigured,
    /// The connection failed; the error.
    ConnectFailed(String),
    /// The call failed; the error.
    CallFailed(String),
    /// The scheduler answered; drains report the allocations still active.
    Answered { success: bool, active_allocations: u32 },
}

/// The message of a scheduler operation.
pub open spec fn lattice_op_message(op: LatticeNodeOp, audit_seq: Option<u64>, o: LatticeOpOutcome) -> Seq<char> {
    let note = audit_text(audit_seq);
    match o {
        LatticeOpOutcome::NotConfigured => "lattice endpoint not configured ("@ + note + ")"@,
        LatticeOpOutcome::ConnectFailed(e) => "connection failed: "@ + e@ + " ("@ + note + ")"@,
        LatticeOpOutcome::CallFailed(e) => e@ + " ("@ + note + ")"@,
        LatticeOpOutcome::Answered { active_allocations, .. } => match op {
            LatticeNodeOp::Drain => "drained ("@ + dec(active_allocations as nat) + " active allocations, "@ + note
                + ")"@,
            LatticeNodeOp::Cordon => "cordoned ("@ + note + ")"@,
            LatticeNodeOp::Uncordon => "uncordoned ("@ + note + ")"@,
            LatticeNodeOp::Undrain => "undrained ("@ + note + ")"@,
        },
    }
}

/// The result of a scheduler operation on a node, recorded under audit
/// entry `audit_seq` (none when recording it failed): it succeeded when
/// the scheduler says so.
pub fn lattice_delegation_result(
    op: LatticeNodeOp,
    node_id: &str,
    audit_seq: Option<u64>,
    outcome: LatticeOpOutcome,
) -> (r: DelegationResult)
    ensures
        r.command@ == lattice_op_name(op),
        r.node_id@ == node_id@,
        r.target_system@ == "lattice"@,
        r.success == (outcome matches LatticeOpOutcome::Answered { success, .. } && success),
        r.message@ == lattice_op_message(op, audit_seq, outcome),
{
    let note = chars_of(audit_note(audit_seq).as_str());
    let mut m: Vec<char> = Vec::new();
    let mut ok = false;
    match &outcome {
        LatticeOpOutcome::NotConfigured => {
            push_str(&mut m, "lattice endpoint not configured (");
        },
        LatticeOpOutcome::ConnectFailed(e) => {
            push_str(&mut m, "connection failed: ");
            push_str(&mut m, e.as_str());
            push_str(&mut m, " (");
        },
        LatticeOpOutcome::CallFailed(e) => {
            push_str(&mut m, e.as_str());
            push_str(&mut m, " (");
        },
        LatticeOpOutcome::Answered { success, active_allocations } => {
            ok = *success;
            match op {
                LatticeNodeOp::Drain => {
                    push_str(&mut m, "drained (");
                    push_u64(&mut m, *active_allocations as u64);
                    push_str(&mut m, " active allocations, ");
                },
                LatticeNodeOp::Cordon => push_str(&mut m, "cordoned ("),
                LatticeNodeOp::Uncordon => push_str(&mut m, "uncordoned ("),
                LatticeNodeOp::Undrain => push_str(&mut m, "undrained ("),
            }
        },
    }
    push_chars(&mut m, &note);
    push_str(&mut m, ")");
    proof {
        assert(m@ =~= lattice_op_message(op, audit_seq, outcome));
    }
    DelegationResult {
        command: string_from(lattice_op_str(op)),
        node_id: string_from(node_id),
        target_system: string_from("lattice"),
        success: ok,
        message: string_of(&m),
    }
}

/// A node operation delegated to the node management backend.
#[derive(Debug, Clone, Copy, PartialEq, Eq, Structural)]
pub enum NodeMgmtOp {
    Reboot,
    Reimage,
}

/// The command name of a node management operation.
pub open spec fn mgmt_op_name(op: NodeMgmtOp) -> Seq<char> {
    match op {
        NodeMgmtOp::Reboot => "reboot"@,
        NodeMgmtOp::Reimage => "reimage"@,
    }
}

/// What happened when a node management operation was attempted.
#[derive(Debug)]
pub enum NodeMgmtOutcome {
    /// No backend could be chosen; the error.
    NoBackend(NodeMgmtError),
    /// The chosen backend was called; its answer.
    Called { backend: NodeMgmtBackendType, result: Result<String, NodeMgmtError> },
}

/// The result of a reboot or reimage, recorded under audit entry
/// `audit_seq`: the system named is the chosen backend, or the configured
/// one (OpenCHAMI by default) when none could be chosen.
pub fn mgmt_delegation_result(
    op: NodeMgmtOp,
    node_id: &str,
    audit_seq: Option<u64>,
    config: &DelegationConfig,
    outcome: NodeMgmtOutcome,
) -> (r: DelegationResult)
    ensures
        r.command@ == mgmt_op_name(op),
        r.node_id@ == node_id@,
        r.success == (outcome matches NodeMgmtOutcome::Called { result: Ok(_), .. }),
        match outcome {
            NodeMgmtOutcome::NoBackend(e) => r.target_system@ == match config.node_mgmt_backend {
                Some(b) => backend_display_name(b),
                None => "OpenCHAMI"@,
            } && r.message@ == node_mgmt_error_text(e) + " ("@ + audit_text(audit_seq) + ")"@,
            NodeMgmtOutcome::Called { backend, result } => r.target_system@ == backend_display_name(backend)
                && r.message@ == match result {
                Ok(m) => m@,
                Err(e) => node_mgmt_error_text(e),
            } + " ("@ + audit_text(audit_seq) + ")"@,
        },
{
    let note = chars_of(audit_note(audit_seq).as_str());
    let mut m: Vec<char> = Vec::new();
    let (target, ok) = match &outcome {
        NodeMgmtOutcome::NoBackend(e) => {
            push_chars(&mut m, &chars_of(e.message().as_str()));
            (delegation_target(config), false)
        },
        NodeMgmtOutcome::Called { backend, result } => {
            let ok = match result {
                Ok(msg) => {
                    push_str(&mut m, msg.as_str());
                    true
                },
                Err(e) => {
                    push_chars(&mut m, &chars_of(e.message().as_str()));
                    false
                },
            };
            (backend.display_name(), ok)
        },
    };
    push_str(&mut m, " (");
    push_chars(&mut m, &note);
    push_str(&mut m, ")");
    let command = match op {
        NodeMgmtOp::Reboot => string_from("reboot"),
        NodeMgmtOp::Reimage => string_from("reimage"),
    };
    DelegationResult {
        command,
        node_id: string_from(node_id),
        target_system: string_from(target),
        success: ok,
        message: string_of(&m),
    }
}

} // verus!
