use pact::agent::shell::{ExecOutputMsg, ShellInputMsg, ShellOutputMsg};
use pact::agent::whitelist::WhitelistManager;
use pact::cli::approve::{format_pending_approvals, ApprovalSummary};
use pact::cli::delegate::{
    delegation_policy_ref, lattice_delegation_result, mgmt_delegation_result, LatticeNodeOp, LatticeOpOutcome,
    NodeMgmtOp, NodeMgmtOutcome,
};
use pact::cli::remote::{
    command_entries, format_command_list, format_remote_output, gather_exec_stream, shell_client_step,
    shell_open_message, CommandEntry, RemoteOutput, ShellClientStep,
};
use pact::cli::requests::{
    apply_report, apply_request, approval_decision_reply, blacklist_reply, blacklist_request, commit_reply,
    commit_request, delegation_audit_request, emergency_end_reply, emergency_end_request, emergency_start_reply,
    emergency_start_request, extend_reply, rollback_reply, rollback_request, ENTRY_COMMIT, ENTRY_EMERGENCY_END,
    ENTRY_EMERGENCY_START, ENTRY_ROLLBACK,
    ENTRY_SERVICE_LIFECYCLE,
};
use pact::common::config::DelegationConfig;
use pact::common::node_mgmt::{NodeMgmtBackendType, NodeMgmtError};
use pact::common::types::Scope;

#[test]
fn commit_and_rollback_requests() {
    let c = commit_request("add hugepages", "ml", "alice", "pact-ops-ml");
    assert_eq!(c.entry_type, ENTRY_COMMIT);
    assert_eq!(c.scope, Scope::VCluster("ml".into()));
    assert_eq!(c.policy_ref, "add hugepages");
    assert_eq!(c.principal_type, "Human");
    let r = rollback_request(45, "ml", "alice", "pact-ops-ml");
    assert_eq!(r.entry_type, ENTRY_ROLLBACK);
    assert_eq!(r.parent, Some(45));
    assert_eq!(commit_reply(4812, "ml"), "Committed (seq:4812) on vCluster: ml");
    assert_eq!(rollback_reply(45, 50), "Rolled back to seq:45 (new seq:50)");
}

#[test]
fn emergency_and_blacklist_requests() {
    let e = emergency_start_request("gpu failure", "ml", "ops", "pact-ops-ml");
    assert_eq!(e.entry_type, ENTRY_EMERGENCY_START);
    assert_eq!(e.emergency_reason.as_deref(), Some("gpu failure"));
    assert_eq!(emergency_start_reply(5, "ml", "gpu failure"), "Emergency mode ACTIVE (seq:5) on vCluster: ml\nReason: gpu failure");
    assert_eq!(emergency_end_reply(6, "ml"), "Emergency mode ENDED (seq:6) on vCluster: ml");
    let b = blacklist_request(false, "/tmp/**", "ml", "ops", "r");
    assert_eq!(b.policy_ref, "blacklist:remove:/tmp/**");
    assert_eq!(blacklist_reply(true, "/x/**", 9, "ml"), "Added to blacklist: /x/** (seq:9) on vCluster: ml");
}

#[test]
fn delegation_audit_and_apply_requests() {
    let a = delegation_audit_request("reboot", "node-1", "CSM", "alice", "pact-platform-admin");
    assert_eq!(a.entry_type, ENTRY_SERVICE_LIFECYCLE);
    assert_eq!(a.scope, Scope::Node("node-1".into()));
    assert_eq!(a.policy_ref, "delegate:CSM:reboot:node-1");
    assert_eq!(delegation_policy_ref("lattice", "drain", "n2"), "delegate:lattice:drain:n2");
    assert_eq!(apply_request("spec.toml", "ml", "a", "r").policy_ref, "apply:spec.toml");
    assert_eq!(
        apply_report("vCluster ml: 1 changes", &[("ml".to_string(), 12), ("dev".to_string(), 13)]),
        "vCluster ml: 1 changes\n\nApplied to ml (seq:12)\nApplied to dev (seq:13)"
    );
}

#[test]
fn service_replies() {
    assert_eq!(approval_decision_reply("ap-1", "approve", true, None).unwrap(), "Approval ap-1: approve");
    assert_eq!(
        approval_decision_reply("ap-1", "deny", false, Some("expired".into())).unwrap_err(),
        "approval decision failed: expired"
    );
    assert_eq!(extend_reply(15, true, 1799, None).unwrap(), "Commit window extended by 15 minutes (29 minutes remaining)");
    assert_eq!(extend_reply(15, false, 0, None).unwrap_err(), "extend failed: unknown error");
}

#[test]
fn lattice_delegation_messages() {
    let r = lattice_delegation_result(
        LatticeNodeOp::Drain,
        "node-001",
        Some(42),
        LatticeOpOutcome::Answered { success: true, active_allocations: 3 },
    );
    assert!(r.success);
    assert_eq!(r.command, "drain");
    assert_eq!(r.message, "drained (3 active allocations, audit seq:42)");
    let r = lattice_delegation_result(LatticeNodeOp::Cordon, "n", None, LatticeOpOutcome::NotConfigured);
    assert!(!r.success);
    assert_eq!(r.message, "lattice endpoint not configured ()");
    let r = lattice_delegation_result(LatticeNodeOp::Undrain, "n", Some(1), LatticeOpOutcome::ConnectFailed("refused".into()));
    assert_eq!(r.message, "connection failed: refused (audit seq:1)");
    let r = lattice_delegation_result(
        LatticeNodeOp::Uncordon,
        "n",
        Some(1),
        LatticeOpOutcome::Answered { success: false, active_allocations: 0 },
    );
    assert!(!r.success);
    assert_eq!(r.message, "uncordoned (audit seq:1)");
}

#[test]
fn node_mgmt_delegation_messages() {
    let config = DelegationConfig::default();
    let r = mgmt_delegation_result(NodeMgmtOp::Reboot, "n1", Some(7), &config, NodeMgmtOutcome::NoBackend(NodeMgmtError::NotConfigured));
    assert_eq!(r.target_system, "OpenCHAMI");
    assert!(!r.success);
    assert_eq!(r.message, "node management backend not configured (audit seq:7)");
    let r = mgmt_delegation_result(
        NodeMgmtOp::Reimage,
        "n1",
        None,
        &config,
        NodeMgmtOutcome::Called { backend: NodeMgmtBackendType::Csm, result: Ok("BOS session created".into()) },
    );
    assert!(r.success);
    assert_eq!(r.command, "reimage");
    assert_eq!(r.target_system, "CSM");
    assert_eq!(r.message, "BOS session created ()");
}

#[test]
fn remote_exec_output_collection() {
    let msgs = vec![
        Some(ExecOutputMsg::Stdout(b"GPU 0".to_vec())),
        None,
        Some(ExecOutputMsg::Stdout(b": A100".to_vec())),
        Some(ExecOutputMsg::Stderr(b"warn".to_vec())),
        Some(ExecOutputMsg::ExitCode(2)),
    ];
    let out = gather_exec_stream(&msgs).unwrap();
    assert_eq!(out.stdout, b"GPU 0: A100");
    assert_eq!(out.exit_code, 2);
    assert_eq!(format_remote_output(&out), "GPU 0: A100\nwarn\n(exit code: 2)");
    let err = gather_exec_stream(&[Some(ExecOutputMsg::Stdout(b"x".to_vec())), Some(ExecOutputMsg::Error("denied".into()))]);
    assert_eq!(err.unwrap_err(), "denied");
}

#[test]
fn remote_output_decodes_lossily() {
    let out = RemoteOutput { stdout: vec![0x66, 0xff, 0x6f], stderr: vec![], exit_code: 0 };
    assert_eq!(format_remote_output(&out), "f\u{fffd}o");
    let only_err = RemoteOutput { stdout: vec![], stderr: b"e".to_vec(), exit_code: 0 };
    assert_eq!(format_remote_output(&only_err), "e");
}

#[test]
fn agent_command_listing() {
    let mgr = WhitelistManager::new(false);
    let entries = command_entries(&mgr.exec_commands());
    assert!(entries.iter().any(|e| e.command == "nvidia-smi"));
    let listing = format_command_list(&[CommandEntry {
        command: "systemctl".into(),
        state_changing: true,
        description: "Service control".into(),
    }]);
    assert_eq!(listing, format!("{:<24} {:<6} {}\n{:<24} {:<6} {}\n", "COMMAND", "STATE", "DESCRIPTION", "systemctl", "yes", "Service control"));
    assert_eq!(format_command_list(&[]), "No commands available.");
}

#[test]
fn interactive_shell_client() {
    assert!(matches!(shell_open_message(None), ShellInputMsg::Open { rows: 24, cols: 80, ref term } if term == "xterm"));
    assert!(matches!(shell_client_step(Some(ShellOutputMsg::Stdout(vec![1]))), ShellClientStep::Print(_)));
    assert!(matches!(shell_client_step(Some(ShellOutputMsg::SessionId("s1".into()))), ShellClientStep::Notice(ref m) if m == "Shell session: s1"));
    assert!(matches!(shell_client_step(Some(ShellOutputMsg::ExitCode(0))), ShellClientStep::Finish(Ok(ref m)) if m == "Shell exited with code 0"));
    assert!(matches!(shell_client_step(Some(ShellOutputMsg::Error("x".into()))), ShellClientStep::Finish(Err(ref m)) if m == "shell error: x"));
    assert!(matches!(shell_client_step(None), ShellClientStep::Continue));
}

#[test]
fn pending_approvals_listing() {
    let a = ApprovalSummary {
        approval_id: "ap-0123456789abc".into(),
        scope: "ml".into(),
        action: "commit".into(),
        requester: "alice".into(),
        status: "pending".into(),
    };
    let text = format_pending_approvals(&[a]);
    let lines: Vec<&str> = text.lines().collect();
    assert!(lines[0].starts_with("ID           SCOPE"));
    assert!(lines[1].starts_with("ap-0123456   ml"));
    assert!(lines[1].ends_with(" pending"));
    assert_eq!(format_pending_approvals(&[]), "No pending approvals.");
}

#[test]
fn emergency_end_request_is_plain() {
    let e = emergency_end_request("ml", "ops", "pact-ops-ml");
    assert_eq!(e.entry_type, ENTRY_EMERGENCY_END);
    assert_eq!(e.scope, Scope::VCluster("ml".into()));
    assert_eq!(e.principal, "ops");
    assert_eq!(e.principal_type, "Human");
    assert_eq!(e.role, "pact-ops-ml");
    assert_eq!(e.parent, None);
    assert_eq!(e.policy_ref, "");
    assert_eq!(e.emergency_reason, None);
}

#[test]
fn policy_update_request_names_the_vcluster() {
    let r = pact::cli::requests::policy_update_request("ml", "/etc/pact/ml.toml", "alice", "pact-platform-admin");
    assert_eq!(r.vcluster_id, "ml");
    assert_eq!(r.policy_vcluster_id, "ml");
    assert_eq!(r.principal, "alice");
    assert_eq!(r.principal_type, "Human");
    assert_eq!(r.role, "pact-platform-admin");
    assert_eq!(r.message, "Policy update from /etc/pact/ml.toml");
}
