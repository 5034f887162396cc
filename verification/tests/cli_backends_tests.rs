use pact::cli::backends::{
    bos_reboot_body, bos_reimage_outcome, bos_sessions_url, capmc_reboot_body, capmc_reboot_outcome,
    capmc_reinit_url, force_restart_body, map_http_error, power_cycle_outcome, power_cycle_url,
};
use pact::cli::delegate::BackendSelection;
use pact::common::node_mgmt::{NodeManagementBackend, NodeMgmtBackendType, NodeMgmtError};

#[test]
fn csm_new_trims_trailing_slash() {
    let backend = BackendSelection::new(NodeMgmtBackendType::Csm, "https://api.example.com/", None, 30);
    assert_eq!(backend.base_url, "https://api.example.com");
}

#[test]
fn csm_hsm_path_prefix() {
    let backend = BackendSelection::new(NodeMgmtBackendType::Csm, "https://api.example.com", None, 30);
    assert_eq!(backend.hsm_path_prefix(), "/smd/hsm/v2");
}

#[test]
fn csm_backend_name() {
    let backend = BackendSelection::new(NodeMgmtBackendType::Csm, "https://api.example.com", None, 30);
    assert_eq!(backend.backend_name(), "CSM");
}

#[test]
fn openchami_new_trims_trailing_slash() {
    let backend = BackendSelection::new(NodeMgmtBackendType::Ochami, "https://smd.example.com/", None, 30);
    assert_eq!(backend.base_url, "https://smd.example.com");
}

#[test]
fn openchami_hsm_path_prefix() {
    let backend = BackendSelection::new(NodeMgmtBackendType::Ochami, "https://smd.example.com", None, 30);
    assert_eq!(backend.hsm_path_prefix(), "/hsm/v2");
}

#[test]
fn openchami_backend_name() {
    let backend = BackendSelection::new(NodeMgmtBackendType::Ochami, "https://smd.example.com", None, 30);
    assert_eq!(backend.backend_name(), "OpenCHAMI");
}

#[test]
fn dispatch_routes_reboot_to_csm() {
    let dispatch = BackendSelection::new(NodeMgmtBackendType::Csm, "https://csm.example.com", None, 5);
    assert_eq!(dispatch.backend_name(), "CSM");
}

#[test]
fn dispatch_routes_reboot_to_ochami() {
    let dispatch = BackendSelection::new(NodeMgmtBackendType::Ochami, "https://ochami.example.com", None, 5);
    assert_eq!(dispatch.backend_name(), "OpenCHAMI");
}

#[test]
fn new_trims_every_trailing_slash_and_keeps_token() {
    let backend = BackendSelection::new(NodeMgmtBackendType::Csm, "https://api.example.com///", Some("tok"), 7);
    assert_eq!(backend.base_url, "https://api.example.com");
    assert_eq!(backend.token.as_deref(), Some("tok"));
    assert_eq!(backend.timeout_secs, 7);
}

#[test]
fn backend_endpoints() {
    assert_eq!(capmc_reinit_url("https://csm"), "https://csm/capmc/capmc/v1/xname_reinit");
    assert_eq!(bos_sessions_url("https://csm"), "https://csm/bos/v2/sessions");
    assert_eq!(
        power_cycle_url("https://smd", "x1000c0s0b0n0"),
        "https://smd/hsm/v2/State/Components/x1000c0s0b0n0/Actions/PowerCycle"
    );
}

#[test]
fn request_bodies() {
    let capmc = capmc_reboot_body("x1000c0s0b0n0");
    assert_eq!(capmc.reason, "pact reboot");
    assert_eq!(capmc.xnames, vec!["x1000c0s0b0n0".to_string()]);
    assert!(!capmc.force);
    let bos = bos_reboot_body("x1000c0s0b0n0");
    assert_eq!(bos.operation, "reboot");
    assert_eq!(bos.limit, "x1000c0s0b0n0");
    assert_eq!(force_restart_body().reset_type, "ForceRestart");
}

#[test]
fn http_errors_map_by_status() {
    assert_eq!(map_http_error(401, "denied".to_string()), NodeMgmtError::AuthError("denied".to_string()));
    assert_eq!(map_http_error(403, "no".to_string()), NodeMgmtError::AuthError("no".to_string()));
    assert_eq!(
        map_http_error(500, "boom".to_string()),
        NodeMgmtError::BackendError { status: 500, body: "boom".to_string() }
    );
}

#[test]
fn capmc_outcomes() {
    assert_eq!(
        capmc_reboot_outcome("n1", 200, String::new()),
        Ok("reboot initiated for n1 via CAPMC".to_string())
    );
    assert_eq!(
        capmc_reboot_outcome("n1", 502, "bad gateway".to_string()),
        Err(NodeMgmtError::BackendError { status: 502, body: "bad gateway".to_string() })
    );
}

#[test]
fn bos_outcomes() {
    assert_eq!(
        bos_reimage_outcome("n1", 201, String::new(), Some("s-42".to_string())),
        Ok("reimage initiated for n1 via BOS (session: s-42)".to_string())
    );
    assert_eq!(
        bos_reimage_outcome("n1", 200, String::new(), Some(String::new())),
        Ok("reimage initiated for n1 via BOS".to_string())
    );
    assert_eq!(
        bos_reimage_outcome("n1", 404, "session template not found".to_string(), None),
        Err(NodeMgmtError::NoBootTemplate("n1".to_string()))
    );
    assert_eq!(
        bos_reimage_outcome("n1", 400, "bad limit".to_string(), None),
        Err(NodeMgmtError::BackendError { status: 400, body: "bad limit".to_string() })
    );
    assert_eq!(
        bos_reimage_outcome("n1", 401, "template".to_string(), None),
        Err(NodeMgmtError::AuthError("template".to_string()))
    );
}

#[test]
fn power_cycle_outcomes() {
    assert_eq!(power_cycle_outcome("n1", false, 204, String::new()), Ok("power cycle initiated for n1".to_string()));
    assert_eq!(
        power_cycle_outcome("n1", true, 200, String::new()),
        Ok("reimage initiated for n1 (power cycle + BSS re-provision)".to_string())
    );
    assert_eq!(
        power_cycle_outcome("n1", true, 403, "forbidden".to_string()),
        Err(NodeMgmtError::AuthError("forbidden".to_string()))
    );
}

#[test]
fn backend_trait_answers_like_the_selection() {
    let csm = BackendSelection::new(NodeMgmtBackendType::Csm, "https://csm", None, 5);
    let ochami = BackendSelection::new(NodeMgmtBackendType::Ochami, "https://smd", None, 5);
    assert_eq!(NodeManagementBackend::hsm_path_prefix(&csm), "/smd/hsm/v2");
    assert_eq!(NodeManagementBackend::backend_name(&csm), "CSM");
    assert_eq!(NodeManagementBackend::hsm_path_prefix(&ochami), "/hsm/v2");
    assert_eq!(NodeManagementBackend::backend_name(&ochami), "OpenCHAMI");
}
