use pact::cli::delegate::{
    audit_note, delegation_target, format_delegation_result, select_node_mgmt_backend, DelegationResult,
};
use pact::cli::promote::{export_deltas_as_toml, format_promote_result, PromoteConflict, PromoteResult};
use pact::common::config::DelegationConfig;
use pact::common::node_mgmt::{NodeMgmtBackendType, NodeMgmtError};
use pact::common::types::{DeltaAction, DeltaItem, StateDelta};

fn test_delta() -> StateDelta {
    StateDelta {
        kernel: vec![
            DeltaItem {
                action: DeltaAction::Modify,
                key: "net.core.somaxconn".into(),
                value: Some("2048".into()),
                previous: Some("128".into()),
            },
            DeltaItem {
                action: DeltaAction::Modify,
                key: "vm.swappiness".into(),
                value: Some("10".into()),
                previous: Some("60".into()),
            },
        ],
        ..StateDelta::default()
    }
}

#[test]
fn export_deltas_produces_toml() {
    let deltas = vec![test_delta()];
    let toml = export_deltas_as_toml(&deltas);
    assert!(toml.contains("[kernel]"));
    assert!(toml.contains("net.core.somaxconn"));
    assert!(toml.contains("vm.swappiness"));
}

#[test]
fn export_deltas_exact_layout() {
    let toml = export_deltas_as_toml(&[test_delta()]);
    assert_eq!(
        toml,
        "# Promoted from node deltas\n# Review and apply with: pact apply <this-file.toml>\n\n[kernel]\nnet.core.somaxconn = \"2048\"\nvm.swappiness = \"10\"\n\n"
    );
}

#[test]
fn export_item_without_value_is_commented() {
    let delta = StateDelta {
        gpu: vec![DeltaItem { action: DeltaAction::Add, key: "gpu0".into(), value: None, previous: None }],
        ..StateDelta::default()
    };
    let toml = export_deltas_as_toml(&[delta]);
    assert!(toml.contains("[gpu]\n# gpu0 (action: Add)\n"));
}

#[test]
fn export_empty_deltas() {
    let toml = export_deltas_as_toml(&[]);
    assert!(toml.contains("Promoted from node deltas"));
    assert!(!toml.contains("[kernel]"));
}

#[test]
fn export_skips_removed_items() {
    let delta = StateDelta {
        kernel: vec![DeltaItem {
            action: DeltaAction::Remove,
            key: "old.param".into(),
            value: None,
            previous: Some("old".into()),
        }],
        ..StateDelta::default()
    };
    let toml = export_deltas_as_toml(&[delta]);
    assert!(!toml.contains("old.param"));
}

#[test]
fn format_promote_dry_run() {
    let result = PromoteResult {
        node_id: "node-001".into(),
        vcluster_id: "ml-training".into(),
        deltas_exported: 3,
        overlay_toml: String::new(),
        conflicts: vec![],
        dry_run: true,
    };
    let output = format_promote_result(&result);
    assert!(output.contains("DRY RUN"));
    assert!(output.contains("3 delta(s)"));
}

#[test]
fn format_promote_with_conflicts() {
    let result = PromoteResult {
        node_id: "node-001".into(),
        vcluster_id: "ml-training".into(),
        deltas_exported: 1,
        overlay_toml: String::new(),
        conflicts: vec![PromoteConflict {
            key: "vm.swappiness".into(),
            promoted_value: "10".into(),
            existing_value: "60".into(),
            node_id: "node-002".into(),
        }],
        dry_run: false,
    };
    let output = format_promote_result(&result);
    assert!(output.contains("1 conflict(s)"));
    assert!(output.contains("vm.swappiness"));
}

#[test]
fn format_promote_applied_without_conflicts() {
    let result = PromoteResult {
        node_id: "n1".into(),
        vcluster_id: "vc".into(),
        deltas_exported: 2,
        overlay_toml: String::new(),
        conflicts: vec![],
        dry_run: false,
    };
    assert_eq!(
        format_promote_result(&result),
        "Promoted 2 delta(s) from node n1 to vCluster vc\n\nOverlay updated. Subscribed agents will receive the update.\n"
    );
}

#[test]
fn format_success() {
    let result = DelegationResult {
        command: "drain".into(),
        node_id: "node-001".into(),
        target_system: "lattice".into(),
        success: true,
        message: "drained successfully".into(),
    };
    let output = format_delegation_result(&result);
    assert!(output.contains("drain on node-001"));
    assert!(!output.contains("FAILED"));
}

#[test]
fn format_failure() {
    let result = DelegationResult {
        command: "reboot".into(),
        node_id: "node-002".into(),
        target_system: "OpenCHAMI".into(),
        success: false,
        message: "BMC unreachable".into(),
    };
    let output = format_delegation_result(&result);
    assert!(output.contains("FAILED"));
    assert!(output.contains("BMC unreachable"));
}

#[test]
fn format_with_audit_seq() {
    let result = DelegationResult {
        command: "drain".into(),
        node_id: "node-001".into(),
        target_system: "lattice".into(),
        success: false,
        message: "lattice endpoint not configured (audit seq:42)".into(),
    };
    let output = format_delegation_result(&result);
    assert!(output.contains("audit seq:42"));
    assert!(output.contains("FAILED"));
}

#[test]
fn audit_note_values() {
    assert_eq!(audit_note(Some(42)), "audit seq:42");
    assert_eq!(audit_note(None), "");
}

fn config_with(backend: Option<NodeMgmtBackendType>, url: Option<&str>, token: Option<&str>) -> DelegationConfig {
    DelegationConfig {
        node_mgmt_backend: backend,
        node_mgmt_base_url: url.map(String::from),
        node_mgmt_token: token.map(String::from),
        ..Default::default()
    }
}

#[test]
fn factory_csm_explicit() {
    let config = config_with(Some(NodeMgmtBackendType::Csm), Some("https://csm.example.com"), None);
    let backend = select_node_mgmt_backend(&config).unwrap();
    assert_eq!(backend.backend_name(), "CSM");
}

#[test]
fn factory_ochami_explicit() {
    let config = config_with(Some(NodeMgmtBackendType::Ochami), Some("https://ochami.example.com"), None);
    let backend = select_node_mgmt_backend(&config).unwrap();
    assert_eq!(backend.backend_name(), "OpenCHAMI");
}

#[test]
fn factory_not_configured() {
    let config = DelegationConfig::default();
    let err = select_node_mgmt_backend(&config).unwrap_err();
    assert!(matches!(err, NodeMgmtError::NotConfigured));
}

#[test]
fn factory_csm_without_url_fails() {
    let mut config = config_with(Some(NodeMgmtBackendType::Csm), None, None);
    config.openchami_smd_url = Some("https://ochami.example.com".into());
    let err = select_node_mgmt_backend(&config).unwrap_err();
    assert!(matches!(err, NodeMgmtError::NotConfigured));
}

#[test]
fn factory_legacy_fallback_uses_ochami() {
    let mut config = DelegationConfig::default();
    config.openchami_smd_url = Some("https://legacy.example.com".into());
    let backend = select_node_mgmt_backend(&config).unwrap();
    assert_eq!(backend.backend_name(), "OpenCHAMI");
}

#[test]
fn factory_ochami_falls_back_to_legacy_url() {
    let mut config = config_with(Some(NodeMgmtBackendType::Ochami), None, None);
    config.openchami_smd_url = Some("https://legacy-ochami.example.com".into());
    let backend = select_node_mgmt_backend(&config).unwrap();
    assert_eq!(backend.backend_name(), "OpenCHAMI");
    assert_eq!(backend.base_url, "https://legacy-ochami.example.com");
}

#[test]
fn factory_trims_trailing_slashes_and_picks_token() {
    let mut config = config_with(Some(NodeMgmtBackendType::Csm), Some("https://api.example.com//"), None);
    config.openchami_token = Some("legacy".into());
    let backend = select_node_mgmt_backend(&config).unwrap();
    assert_eq!(backend.base_url, "https://api.example.com");
    assert_eq!(backend.token.as_deref(), Some("legacy"));
    assert_eq!(backend.timeout_secs, config.timeout_secs);
}

#[test]
fn reboot_not_configured_includes_target_system() {
    let config = DelegationConfig::default();
    assert_eq!(delegation_target(&config), "OpenCHAMI");
    let config_csm = config_with(Some(NodeMgmtBackendType::Csm), None, None);
    assert_eq!(delegation_target(&config_csm), "CSM");
}
