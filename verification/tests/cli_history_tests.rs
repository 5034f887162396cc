use pact::agent::diag::DiagChunk;
use pact::cli::diag::{diag_request, format_diag_output};
use pact::cli::diff::{format_committed_diff, format_diff};
use pact::cli::group::{format_group_list, GroupSummary};
use pact::cli::log::{format_entry_type, format_log, format_log_entry, format_scope};
use pact::common::types::{ConfigEntry, DeltaAction, DeltaItem, EntryType, Identity, PrincipalType, Scope, StateDelta};

fn unix_now() -> i64 {
    std::time::SystemTime::now().duration_since(std::time::UNIX_EPOCH).unwrap().as_secs() as i64
}

fn test_entry(seq: u64, entry_type: EntryType, scope: Scope) -> ConfigEntry {
    ConfigEntry {
        sequence: seq,
        timestamp: unix_now(),
        entry_type,
        scope,
        author: Identity {
            principal: "admin@example.com".into(),
            principal_type: PrincipalType::Human,
            role: "pact-platform-admin".into(),
        },
        parent: None,
        state_delta: None,
        policy_ref: None,
        ttl_seconds: None,
        emergency_reason: None,
    }
}

#[test]
fn format_diff_no_changes() {
    let delta = StateDelta::default();
    assert_eq!(format_diff(&delta), "(no differences)");
}

#[test]
fn format_diff_kernel_modify() {
    let delta = StateDelta {
        kernel: vec![DeltaItem {
            action: DeltaAction::Modify,
            key: "vm.nr_hugepages".into(),
            value: Some("1024".into()),
            previous: Some("0".into()),
        }],
        ..Default::default()
    };
    let output = format_diff(&delta);
    assert!(output.contains("~ kernel: vm.nr_hugepages: 0 → 1024"));
}

#[test]
fn format_diff_mount_add() {
    let delta = StateDelta {
        mounts: vec![DeltaItem {
            action: DeltaAction::Add,
            key: "/scratch".into(),
            value: Some("nfs:storage03:/scratch".into()),
            previous: None,
        }],
        ..Default::default()
    };
    let output = format_diff(&delta);
    assert!(output.contains("+ mounts: /scratch: nfs:storage03:/scratch"));
}

#[test]
fn format_diff_service_remove() {
    let delta = StateDelta {
        services: vec![DeltaItem {
            action: DeltaAction::Remove,
            key: "old-agent".into(),
            value: None,
            previous: Some("running".into()),
        }],
        ..Default::default()
    };
    let output = format_diff(&delta);
    assert!(output.contains("- services: old-agent: running (removed)"));
}

#[test]
fn format_diff_multiple_categories() {
    let delta = StateDelta {
        kernel: vec![DeltaItem {
            action: DeltaAction::Modify,
            key: "vm.swappiness".into(),
            value: Some("10".into()),
            previous: Some("60".into()),
        }],
        files: vec![DeltaItem {
            action: DeltaAction::Add,
            key: "/etc/pact/local.conf".into(),
            value: Some("hash:abc123".into()),
            previous: None,
        }],
        ..Default::default()
    };
    let output = format_diff(&delta);
    assert!(output.contains("kernel"));
    assert!(output.contains("files"));
}

#[test]
fn format_diff_empty_delta_from_constructor() {
    assert_eq!(format_diff(&StateDelta::empty()), "(no differences)");
}

#[test]
fn format_committed_diff_empty() {
    let output = format_committed_diff("node042", &[]);
    assert!(output.contains("no committed node deltas"));
}

#[test]
fn format_committed_diff_with_entries() {
    let deltas = vec![(
        4812,
        "2026-03-10T14:00:00Z".to_string(),
        StateDelta {
            kernel: vec![DeltaItem {
                action: DeltaAction::Modify,
                key: "vm.nr_hugepages".into(),
                value: Some("1024".into()),
                previous: Some("0".into()),
            }],
            ..Default::default()
        },
    )];
    let output = format_committed_diff("node042", &deltas);
    assert!(output.contains("seq:4812"));
    assert!(output.contains("vm.nr_hugepages"));
}

#[test]
fn format_empty_group_list() {
    let output = format_group_list(&[]);
    assert!(output.contains("No vClusters"));
}

#[test]
fn format_group_list_with_entries() {
    let groups = vec![
        GroupSummary {
            name: "ml-training".into(),
            node_count: 128,
            enforcement_mode: "enforce".into(),
            two_person_approval: false,
        },
        GroupSummary {
            name: "regulated".into(),
            node_count: 32,
            enforcement_mode: "enforce".into(),
            two_person_approval: true,
        },
    ];
    let output = format_group_list(&groups);
    assert!(output.contains("ml-training"));
    assert!(output.contains("128"));
    assert!(output.contains("regulated"));
    assert!(output.contains("yes"));
}

#[test]
fn format_group_list_separator_width() {
    let groups = vec![GroupSummary {
        name: "a".into(),
        node_count: 1,
        enforcement_mode: "observe".into(),
        two_person_approval: false,
    }];
    let output = format_group_list(&groups);
    let lines: Vec<&str> = output.lines().collect();
    assert_eq!(lines[1], "-".repeat(52));
    assert!(lines[2].ends_with(" no"));
}

#[test]
fn format_log_entry_commit() {
    let entry = test_entry(42, EntryType::Commit, Scope::Node("node042".into()));
    let output = format_log_entry(&entry);
    assert!(output.contains("#42"));
    assert!(output.contains("COMMIT"));
    assert!(output.contains("node:node042"));
    assert!(output.contains("admin@example.com"));
}

#[test]
fn format_log_entry_emergency_with_reason() {
    let mut entry = test_entry(100, EntryType::EmergencyStart, Scope::Global);
    entry.emergency_reason = Some("GPU failure on node042".into());
    let output = format_log_entry(&entry);
    assert!(output.contains("EMERGENCY_ON"));
    assert!(output.contains("GPU failure"));
}

#[test]
fn format_log_entry_with_policy_ref() {
    let mut entry = test_entry(50, EntryType::PolicyUpdate, Scope::VCluster("ml-train".into()));
    entry.policy_ref = Some("pol-abc123".into());
    let output = format_log_entry(&entry);
    assert!(output.contains("POLICY_UPDATE"));
    assert!(output.contains("vc:ml-train"));
    assert!(output.contains("pol-abc123"));
}

#[test]
fn format_log_empty() {
    assert_eq!(format_log(&[]), "(no log entries)");
}

#[test]
fn format_log_multiple_entries() {
    let entries = vec![
        test_entry(1, EntryType::BootConfig, Scope::Global),
        test_entry(2, EntryType::Commit, Scope::Node("node001".into())),
        test_entry(3, EntryType::DriftDetected, Scope::Node("node002".into())),
    ];
    let output = format_log(&entries);
    assert!(output.contains("#1"));
    assert!(output.contains("#2"));
    assert!(output.contains("#3"));
    assert!(output.contains("BOOT_CONFIG"));
    assert!(output.contains("COMMIT"));
    assert!(output.contains("DRIFT_DETECTED"));
    assert_eq!(output.lines().count(), 3);
}

#[test]
fn format_log_entry_exact_line() {
    let mut entry = test_entry(42, EntryType::Commit, Scope::Node("node042".into()));
    entry.timestamp = 1_741_622_400;
    assert_eq!(
        format_log_entry(&entry),
        "#42     2025-03-10 16:00:00 COMMIT           node:node042 by admin@example.com"
    );
}

#[test]
fn format_scope_values() {
    assert_eq!(format_scope(&Scope::Global), "global");
    assert_eq!(format_scope(&Scope::VCluster("ml".into())), "vc:ml");
    assert_eq!(format_scope(&Scope::Node("n01".into())), "node:n01");
}

#[test]
fn format_entry_type_all_variants() {
    assert_eq!(format_entry_type(&EntryType::Commit), "COMMIT");
    assert_eq!(format_entry_type(&EntryType::Rollback), "ROLLBACK");
    assert_eq!(format_entry_type(&EntryType::ExecLog), "EXEC");
    assert_eq!(format_entry_type(&EntryType::ShellSession), "SHELL");
    assert_eq!(format_entry_type(&EntryType::PendingApproval), "APPROVAL");
    assert_eq!(format_entry_type(&EntryType::NodeEnrolled), "NODE_ENROLLED");
    assert_eq!(format_entry_type(&EntryType::CertRevoked), "CERT_REVOKED");
}

#[test]
fn diag_request_builds_correctly() {
    let req = diag_request("system", None, Some("error"), 200);
    assert_eq!(req.source_filter, "system");
    assert_eq!(req.service_name, "");
    assert_eq!(req.grep_pattern, "error");
    assert_eq!(req.line_limit, 200);
}

#[test]
fn diag_output_renders_chunks() {
    let chunks = vec![
        DiagChunk { source: "dmesg".into(), lines: vec!["a".into(), "b".into()], truncated: true },
        DiagChunk { source: "syslog".into(), lines: vec![], truncated: false },
        DiagChunk { source: "service:chronyd".into(), lines: vec!["c".into()], truncated: false },
    ];
    assert_eq!(
        format_diag_output(&chunks),
        "--- dmesg ---\na\nb\n(truncated)\n--- service:chronyd ---\nc\n"
    );
}

#[test]
fn diag_output_empty_notice() {
    let chunks = vec![DiagChunk { source: "dmesg".into(), lines: vec![], truncated: true }];
    assert_eq!(format_diag_output(&chunks), "No log entries found.");
    assert_eq!(format_diag_output(&[]), "No log entries found.");
}

#[test]
fn timestamps_render_in_utc() {
    assert_eq!(pact::cli::log::format_timestamp(0), "1970-01-01 00:00:00");
    assert_eq!(pact::cli::log::format_timestamp(1_700_000_000), "2023-11-14 22:13:20");
    assert_eq!(pact::cli::log::format_clock(3661), "01:01:01");
    assert_eq!(pact::cli::log::format_timestamp(i64::MAX), "---");
}
