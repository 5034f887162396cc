use pact::cli::group::{format_group_detail, GroupDetail};
use pact::cli::status::{format_drift_categories, format_node_status, Decimal1, DriftReport, NodeStatus};
use pact::common::types::{ConfigState, SupervisorBackend, SupervisorStatus};

fn gb(tenths: u64) -> Decimal1 {
    Decimal1 { negative: false, tenths }
}

fn no_drift() -> DriftReport {
    DriftReport { mounts: None, files: None, network: None, services: None, kernel: None, packages: None, gpu: None }
}

fn test_status() -> NodeStatus {
    NodeStatus {
        node_id: "node042".into(),
        vcluster_id: "ml-training".into(),
        config_state: ConfigState::Committed,
        drift_summary: None,
        supervisor: SupervisorStatus {
            backend: SupervisorBackend::Pact,
            services_declared: 4,
            services_running: 4,
            services_failed: 0,
        },
        gpu_count: 4,
        gpu_healthy: 3,
        gpu_degraded: 1,
        memory_total_gb: gb(5120),
        memory_avail_gb: gb(4800),
    }
}

#[test]
fn format_status_committed_node() {
    let status = test_status();
    let output = format_node_status(&status);
    assert!(output.contains("node042"));
    assert!(output.contains("ml-training"));
    assert!(output.contains("COMMITTED"));
    assert!(output.contains("4/4 running"));
    assert!(output.contains("GPUs: 4 total"));
    assert!(output.contains("3 healthy, 1 degraded"));
}

#[test]
fn format_status_with_drift() {
    let status = NodeStatus {
        drift_summary: Some(DriftReport { kernel: Some(20), mounts: Some(10), ..no_drift() }),
        config_state: ConfigState::Drifted,
        ..test_status()
    };
    let output = format_node_status(&status);
    assert!(output.contains("DRIFTED"));
    assert!(output.contains("kernel(2.0)"));
    assert!(output.contains("mounts(1.0)"));
    assert!(!output.contains("files"));
}

#[test]
fn format_status_no_gpus() {
    let status = NodeStatus { gpu_count: 0, gpu_healthy: 0, gpu_degraded: 0, ..test_status() };
    let output = format_node_status(&status);
    assert!(!output.contains("GPUs"));
}

#[test]
fn format_status_emergency() {
    let status = NodeStatus { config_state: ConfigState::Emergency, ..test_status() };
    let output = format_node_status(&status);
    assert!(output.contains("EMERGENCY"));
}

#[test]
fn format_status_systemd_backend() {
    let status = NodeStatus {
        supervisor: SupervisorStatus {
            backend: SupervisorBackend::Systemd,
            services_declared: 2,
            services_running: 1,
            services_failed: 1,
        },
        ..test_status()
    };
    let output = format_node_status(&status);
    assert!(output.contains("systemd"));
    assert!(output.contains("1/2 running, 1 failed"));
}

#[test]
fn format_drift_empty_when_no_drift() {
    let drift = no_drift();
    assert!(format_drift_categories(&drift).is_empty());
}

#[test]
fn format_drift_all_categories() {
    let drift = DriftReport {
        kernel: Some(10),
        mounts: Some(20),
        files: Some(30),
        network: Some(40),
        services: Some(50),
        packages: Some(60),
        gpu: Some(70),
    };
    let output = format_drift_categories(&drift);
    assert!(output.contains("kernel(1.0)"));
    assert!(output.contains("gpu(7.0)"));
}

#[test]
fn node_status_lines_exactly() {
    let status = NodeStatus {
        drift_summary: Some(DriftReport { files: Some(3), gpu: Some(125), ..no_drift() }),
        ..test_status()
    };
    assert_eq!(
        format_node_status(&status),
        "Node: node042  vCluster: ml-training  State: COMMITTED\nSupervisor: pact (4/4 running, 0 failed)\nMemory: 480.0 GB / 512.0 GB available\nGPUs: 4 total (3 healthy, 1 degraded)\nDrift: files(0.3), gpu(12.5)"
    );
    let quiet = NodeStatus { gpu_count: 0, drift_summary: Some(no_drift()), ..test_status() };
    assert_eq!(
        format_node_status(&quiet),
        "Node: node042  vCluster: ml-training  State: COMMITTED\nSupervisor: pact (4/4 running, 0 failed)\nMemory: 480.0 GB / 512.0 GB available"
    );
}

#[test]
fn format_group_detail_shows_policy() {
    let detail = GroupDetail {
        name: "ml-training".into(),
        enforcement_mode: "observe".into(),
        two_person_approval: false,
        base_commit_window_seconds: 900,
        drift_sensitivity: Decimal1 { negative: false, tenths: 20 },
        node_ids: vec!["node-001".into(), "node-002".into()],
    };
    let output = format_group_detail(&detail);
    assert!(output.contains("ml-training"));
    assert!(output.contains("observe"));
    assert!(output.contains("node-001"));
    assert!(output.contains("nodes: 2"));
    assert_eq!(
        output,
        "vCluster: ml-training\n  enforcement: observe\n  two-person approval: false\n  base commit window: 900s\n  drift sensitivity: 2.0\n  nodes: 2\n    - node-001\n    - node-002\n"
    );
}
