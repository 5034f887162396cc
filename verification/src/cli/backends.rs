//! The node management backends (CSM and OpenCHAMI): the endpoints they
//! are asked at, the request bodies, and what their HTTP answers mean.
//! Sending the requests is the client runtime's work.

use vstd::prelude::*;

use crate::cli::delegate::BackendSelection;
use crate::common::node_mgmt::{backend_display_name, NodeManagementBackend, NodeMgmtBackendType, NodeMgmtError};
use crate::text::{has_sub, push_str, str_contains, string_from, string_of};

verus! {

broadcast use vstd::string::group_string_axioms;

impl BackendSelection {
    /// The path under which the backend serves its hardware state manager.
    pub fn hsm_path_prefix(&self) -> (r: &'static str)
        ensures
            r@ == match self.backend {
                NodeMgmtBackendType::Csm => "/smd/hsm/v2"@,
                NodeMgmtBackendType::Ochami => "/hsm/v2"@,
            },
    {
        match self.backend {
            NodeMgmtBackendType::Csm => "/smd/hsm/v2",
            NodeMgmtBackendType::Ochami => "/hsm/v2",
        }
    }
}

impl NodeManagementBackend for BackendSelection {
    fn hsm_path_prefix(&self) -> (r: &'static str)
        ensures
            r@ == match self.backend {
                NodeMgmtBackendType::Csm => "/smd/hsm/v2"@,
                NodeMgmtBackendType::Ochami => "/hsm/v2"@,
            },
    {
        BackendSelection::hsm_path_prefix(self)
    }

    fn backend_name(&self) -> (r: &'static str)
        ensures
            r@ == backend_display_name(self.backend),
    {
        BackendSelection::backend_name(self)
    }
}

/// A CAPMC power action.
#[derive(Debug, Clone)]
pub struct CapmcPowerAction {
    pub reason: String,
    pub xnames: Vec<String>,
    pub force: bool,
}

/// A BOS session request.
#[derive(Debug, Clone)]
pub struct BosSessionRequest {
    pub operation: String,
    pub limit: String,
}

/// A Redfish power action.
#[derive(Debug, Clone)]
pub struct PowerAction {
    pub reset_type: String,
}

fn with_path(base: &str, path: &str) -> (r: String)
    ensures
        r@ == base@ + path@,
{
    let mut out: Vec<char> = Vec::new();
    push_str(&mut out, base);
    push_str(&mut out, path);
    string_of(&out)
}

/// The CAPMC endpoint that reboots nodes.
pub fn capmc_reinit_url(base_url: &str) -> (r: String)
    ensures
        r@ == base_url@ + "/capmc/capmc/v1/xname_reinit"@,
{
    with_path(base_url, "/capmc/capmc/v1/xname_reinit")
}

/// The BOS endpoint that creates sessions.
pub fn bos_sessions_url(base_url: &str) -> (r: String)
    ensures
        r@ == base_url@ + "/bos/v2/sessions"@,
{
    with_path(base_url, "/bos/v2/sessions")
}

/// The Redfish endpoint that power cycles a node.
pub fn power_cycle_url(base_url: &str, node_id: &str) -> (r: String)
    ensures
        r@ == base_url@ + "/hsm/v2/State/Components/"@ + node_id@ + "/Actions/PowerCycle"@,
{
    let mut out: Vec<char> = Vec::new();
    push_str(&mut out, base_url);
    push_str(&mut out, "/hsm/v2/State/Components/");
    push_str(&mut out, node_id);
    push_str(&mut out, "/Actions/PowerCycle");
    string_of(&out)
}

/// The CAPMC request that reboots a node: not forced.
pub fn capmc_reboot_body(node_id: &str) -> (r: CapmcPowerAction)
    ensures
        r.reason@ == "pact reboot"@,
        r.xnames@.len() == 1 && r.xnames@[0]@ == node_id@,
        !r.force,
{
    let mut xnames: Vec<String> = Vec::new();
    xnames.push(string_from(node_id));
    CapmcPowerAction { reason: string_from("pact reboot"), xnames, force: false }
}

/// The BOS request that reboots (and so reimages) a node.
pub fn bos_reboot_body(node_id: &str) -> (r: BosSessionRequest)
    ensures
        r.operation@ == "reboot"@,
        r.limit@ == node_id@,
{
    BosSessionRequest { operation: string_from("reboot"), limit: string_from(node_id) }
}

/// The Redfish request that power cycles a node.
pub fn force_restart_body() -> (r: PowerAction)
    ensures
        r.reset_type@ == "ForceRestart"@,
{
    PowerAction { reset_type: string_from("ForceRestart") }
}

/// Whether an HTTP status is a success.
pub open spec fn http_success(status: u16) -> bool {
    200 <= status < 300
}

/// The error of a refused request: authentication for 401 and 403, else
/// the status and body.
pub open spec fn http_error(status: u16, body: String) -> NodeMgmtError {
    if status == 401 || status == 403 {
        NodeMgmtError::AuthError(body)
    } else {
        NodeMgmtError::BackendError { status, body }
    }
}

/// Maps a refused request to its error.
pub fn map_http_error(status: u16, body: String) -> (r: NodeMgmtError)
    ensures
        r == http_error(status, body),
{
    if status == 401 || status == 403 {
        NodeMgmtError::AuthError(body)
    } else {
        NodeMgmtError::BackendError { status, body }
    }
}

/// What a CAPMC reboot answered.
pub fn capmc_reboot_outcome(node_id: &str, status: u16, body: String) -> (r: Result<String, NodeMgmtError>)
    ensures
        http_success(status) ==> (r matches Ok(m) && m@ == "reboot initiated for "@ + node_id@ + " via CAPMC"@),
        !http_success(status) ==> r == Err::<String, NodeMgmtError>(http_error(status, body)),
{
    if 200 <= status && status < 300 {
        let mut out: Vec<char> = Vec::new();
        push_str(&mut out, "reboot initiated for ");
        push_str(&mut out, node_id);
        push_str(&mut out, " via CAPMC");
        Ok(string_of(&out))
    } else {
        Err(map_http_error(status, body))
    }
}

/// Whether a refused BOS request means the node has no boot template.
pub open spec fn no_template(status: u16, body: Seq<char>) -> bool {
    (status == 404 || status == 400) && (has_sub(body, "template"@) || has_sub(body, "not found"@))
}

/// What a BOS reimage answered: the session created (named when BOS named
/// it), a missing boot template, or the refusal.
pub fn bos_reimage_outcome(node_id: &str, status: u16, body: String, session_name: Option<String>) -> (r: Result<
    String,
    NodeMgmtError,
>)
    ensures
        http_success(status) ==> (r matches Ok(m) && m@ == "reimage initiated for "@ + node_id@ + " via BOS"@ + match session_name {
            Some(n) => if n@.len() > 0 { " (session: "@ + n@ + ")"@ } else { Seq::empty() },
            None => Seq::empty(),
        }),
        !http_success(status) && no_template(status, body@) ==> (r matches Err(NodeMgmtError::NoBootTemplate(n)) && n@
            == node_id@),
        !http_success(status) && !no_template(status, body@) ==> r == Err::<String, NodeMgmtError>(
            http_error(status, body),
        ),
{
    if 200 <= status && status < 300 {
        let mut out: Vec<char> = Vec::new();
        push_str(&mut out, "reimage initiated for ");
        push_str(&mut out, node_id);
        push_str(&mut out, " via BOS");
        match &session_name {
            Some(n) => {
                if crate::text::chars_of(n.as_str()).len() > 0 {
                    push_str(&mut out, " (session: ");
                    push_str(&mut out, n.as_str());
                    push_str(&mut out, ")");
                }
            },
            None => {},
        }
        return Ok(string_of(&out));
    }
    if (status == 404 || status == 400) && (str_contains(body.as_str(), "template") || str_contains(
        body.as_str(),
        "not found",
    )) {
        return Err(NodeMgmtError::NoBootTemplate(string_from(node_id)));
    }
    Err(map_http_error(status, body))
}

/// What a Redfish power cycle answered; a reimage reports the
/// re-provisioning that follows the power cycle.
pub fn power_cycle_outcome(node_id: &str, reimage: bool, status: u16, body: String) -> (r: Result<
    String,
    NodeMgmtError,
>)
    ensures
        http_success(status) ==> (r matches Ok(m) && m@ == if reimage {
            "reimage initiated for "@ + node_id@ + " (power cycle + BSS re-provision)"@
        } else {
            "power cycle initiated for "@ + node_id@
        }),
        !http_success(status) ==> r == Err::<String, NodeMgmtError>(http_error(status, body)),
{
    if 200 <= status && status < 300 {
        let mut out: Vec<char> = Vec::new();
        if reimage {
            push_str(&mut out, "reimage initiated for ");
            push_str(&mut out, node_id);
            push_str(&mut out, " (power cycle + BSS re-provision)");
        } else {
            push_str(&mut out, "power cycle initiated for ");
            push_str(&mut out, node_id);
        }
        Ok(string_of(&out))
    } else {
        Err(map_http_error(status, body))
    }
}

} // verus!
