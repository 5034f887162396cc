use pact::agent::subscription::UpdatePayload;
use pact::cli::group::{policy_update_outcome, summary_from_policy, vcluster_ids};
use pact::cli::lattice::{
    format_allocation, format_health_report, format_job_list, lattice_client_config, AllocationSpec,
    AllocationStatus, LatticeHealth, LivenessProbe, ResourceRequest, ServiceLookup,
};
use pact::cli::promote::{committed_deltas, promote_report, promotion_summary};
use pact::cli::wire::{
    decode_action, delta_from_wire, entry_type_name, format_entries, format_entry_line, watch_line, FileChange,
    GpuChange, KernelChange, MountChange, NetworkChange, PackageChange, ServiceChange, WireEntry, WireStateDelta,
};
use pact::common::config::DelegationConfig;
use pact::common::types::{DeltaAction, Scope, StateDelta};

fn empty_wire() -> WireStateDelta {
    WireStateDelta {
        kernel: vec![],
        services: vec![],
        mounts: vec![],
        files: vec![],
        network: vec![],
        packages: vec![],
        gpu: vec![],
    }
}

fn entry(seq: u64, entry_type: i32, scope: Option<Scope>, delta: Option<WireStateDelta>) -> WireEntry {
    WireEntry {
        sequence: seq,
        timestamp: None,
        entry_type,
        scope,
        author: Some("admin@example.com".into()),
        state_delta: delta,
    }
}

fn allocation() -> AllocationStatus {
    AllocationStatus {
        allocation_id: "job-1".into(),
        state: "Running".into(),
        user: "alice".into(),
        message: "ok".into(),
        exit_code: -1,
        assigned_nodes: vec!["n1".into(), "n2".into(), "n3".into()],
        spec: None,
        created_at: Some(100),
        started_at: None,
        completed_at: None,
    }
}

#[test]
fn proto_actions_decode() {
    assert_eq!(decode_action(1), DeltaAction::Add);
    assert_eq!(decode_action(2), DeltaAction::Remove);
    assert_eq!(decode_action(3), DeltaAction::Modify);
    assert_eq!(decode_action(0), DeltaAction::Modify);
}

#[test]
fn delta_from_wire_maps_each_category() {
    let mut w = empty_wire();
    w.kernel.push(KernelChange {
        action: 3,
        key: "vm.swappiness".into(),
        declared_value: Some("10".into()),
        actual_value: Some("60".into()),
    });
    w.services.push(ServiceChange {
        action: 1,
        name: "chronyd".into(),
        declared_state: Some("running".into()),
        actual_state: None,
    });
    w.mounts.push(MountChange { action: 2, path: "/scratch".into() });
    w.files.push(FileChange {
        action: 1,
        path: "/etc/motd".into(),
        content_hash: Some("h".into()),
        owner: Some("root".into()),
    });
    w.network.push(NetworkChange { action: 3, interface: "eth0".into(), detail: Some("mtu".into()) });
    w.packages.push(PackageChange { action: 1, name: "cuda".into(), version: Some("12.4".into()) });
    w.gpu.push(GpuChange { action: 3, gpu_index: 7, detail: None });
    let d = delta_from_wire(&w);
    assert_eq!(d.kernel[0].key, "vm.swappiness");
    assert_eq!(d.kernel[0].previous.as_deref(), Some("60"));
    assert_eq!(d.services[0].action, DeltaAction::Add);
    assert_eq!(d.mounts[0].action, DeltaAction::Remove);
    assert!(d.mounts[0].value.is_none());
    assert_eq!(d.files[0].previous.as_deref(), Some("root"));
    assert_eq!(d.network[0].value.as_deref(), Some("mtu"));
    assert_eq!(d.packages[0].value.as_deref(), Some("12.4"));
    assert_eq!(d.gpu[0].key, "7");
}

#[test]
fn promote_collects_commit_deltas_only() {
    let mut w = empty_wire();
    w.kernel.push(KernelChange { action: 3, key: "vm.swappiness".into(), declared_value: Some("10".into()), actual_value: None });
    let entries = vec![
        entry(1, 1, None, Some(w.clone())),
        entry(2, 4, None, Some(w.clone())),
        entry(3, 1, None, None),
    ];
    assert_eq!(committed_deltas(&entries).len(), 1);
    let report = promote_report("node-001", &entries, false);
    assert!(report.starts_with("Exported 1 delta(s) from node node-001\n\n# Promoted from node deltas"));
    assert!(report.contains("vm.swappiness = \"10\""));
}

#[test]
fn promote_dry_run_lists_sections_sorted() {
    let mut w = empty_wire();
    w.services.push(ServiceChange { action: 1, name: "a".into(), declared_state: None, actual_state: None });
    w.kernel.push(KernelChange { action: 1, key: "k".into(), declared_value: None, actual_value: None });
    let mut w2 = empty_wire();
    w2.files.push(FileChange { action: 1, path: "/f".into(), content_hash: None, owner: None });
    w2.kernel.push(KernelChange { action: 1, key: "k2".into(), declared_value: None, actual_value: None });
    let entries = vec![entry(1, 1, None, Some(w)), entry(2, 1, None, Some(w2))];
    assert_eq!(
        promote_report("n1", &entries, true),
        "DRY RUN \u{2014} would export 2 delta(s) from node n1\nSections: files, kernel, services"
    );
    let empty = vec![entry(1, 1, None, Some(empty_wire()))];
    assert!(promote_report("n1", &empty, true).ends_with("Sections: (none)"));
    assert_eq!(promote_report("n1", &[], true), "No committed deltas found for node n1.");
    assert_eq!(promotion_summary("n1", &[StateDelta::empty()], true), "DRY RUN \u{2014} would export 1 delta(s) from node n1\nSections: (none)");
}

#[test]
fn format_proto_entry_commit() {
    let mut e = entry(42, 1, Some(Scope::VCluster("ml-training".into())), None);
    e.timestamp = Some(1_741_622_400);
    let formatted = format_entry_line(&e);
    assert!(formatted.contains("#42"));
    assert!(formatted.contains("COMMIT"));
    assert!(formatted.contains("vc:ml-training"));
    assert!(formatted.contains("admin@example.com"));
    assert!(formatted.contains("2025-03-10 16:00:00"));
}

#[test]
fn format_proto_entry_emergency() {
    let mut e = entry(100, 8, Some(Scope::Global), None);
    e.author = Some("ops@example.com".into());
    let formatted = format_entry_line(&e);
    assert!(formatted.contains("#100"));
    assert!(formatted.contains("EMERGENCY_ON"));
    assert!(formatted.contains("global"));
    assert!(formatted.contains(" --- "));
}

#[test]
fn entry_listing_and_names() {
    assert_eq!(entry_type_name(13), "PENDING_APPROVAL");
    assert_eq!(entry_type_name(99), "UNKNOWN");
    let mut e = entry(7, 2, Some(Scope::Node("n1".into())), None);
    e.author = None;
    assert_eq!(
        format_entry_line(&e),
        "#7      --- ROLLBACK           node:n1              by unknown"
    );
    assert_eq!(format_entries(&[]), "No entries found.");
    assert_eq!(format_entries(&[e.clone(), e]).lines().count(), 2);
}

#[test]
fn watch_lines() {
    assert_eq!(
        watch_line(Some(1_741_622_400), 12, &Some(UpdatePayload::PolicyChange(vec![]))),
        "[16:00:00] seq:12     POLICY"
    );
    assert_eq!(watch_line(None, 1, &None), "[---] seq:1      UNKNOWN");
}

#[test]
fn vcluster_ids_are_sorted_and_unique() {
    let entries = vec![
        entry(1, 1, Some(Scope::VCluster("zeta".into())), None),
        entry(2, 1, Some(Scope::Node("n1".into())), None),
        entry(3, 1, Some(Scope::VCluster("alpha".into())), None),
        entry(4, 1, Some(Scope::VCluster("zeta".into())), None),
        entry(5, 1, None, None),
    ];
    assert_eq!(vcluster_ids(&entries), vec!["alpha", "zeta"]);
}

#[test]
fn group_summaries_from_policies() {
    let s = summary_from_policy("ml".into(), Some((String::new(), true)));
    assert_eq!(s.enforcement_mode, "observe");
    assert!(s.two_person_approval);
    let s = summary_from_policy("ml".into(), Some(("enforce".into(), false)));
    assert_eq!(s.enforcement_mode, "enforce");
    let s = summary_from_policy("new".into(), None);
    assert_eq!((s.enforcement_mode.as_str(), s.two_person_approval, s.node_count), ("observe", false, 0));
    assert_eq!(policy_update_outcome("ml", true, "pol-1", None).unwrap(), "Policy updated for vCluster 'ml' (ref: pol-1)");
    assert_eq!(policy_update_outcome("ml", false, "", None).unwrap_err(), "policy update failed: unknown error");
}

#[test]
fn list_jobs_no_endpoint() {
    let err = lattice_client_config(&DelegationConfig::default()).unwrap_err();
    assert!(err.contains("not configured"));
}

#[test]
fn lattice_config_from_delegation() {
    let mut c = DelegationConfig::default();
    c.lattice_endpoint = Some("http://lattice:50051".into());
    c.lattice_token = Some("t".into());
    let lc = lattice_client_config(&c).unwrap();
    assert_eq!(lc.endpoint, "http://lattice:50051");
    assert_eq!(lc.token.as_deref(), Some("t"));
    assert_eq!(lc.timeout_secs, 30);
}

#[test]
fn inspect_allocation_text() {
    let mut a = allocation();
    a.spec = Some(AllocationSpec {
        tenant: "t".into(),
        project: "p".into(),
        vcluster: "vc".into(),
        entrypoint: "train.sh".into(),
        sensitive: false,
        resources: Some(ResourceRequest { min_nodes: 1, max_nodes: 4, gpu_type: "a100".into() }),
        liveness_probe: Some(LivenessProbe {
            probe_type: "http".into(),
            port: 8080,
            path: "/healthz".into(),
            period_secs: 10,
            failure_threshold: 3,
            timeout_secs: 2,
            initial_delay_secs: 5,
        }),
    });
    let text = format_allocation(&a);
    assert!(text.starts_with("Allocation: job-1\nState:      Running\n"));
    assert!(text.contains("Exit code:  -1\n"));
    assert!(text.contains("Nodes:      n1, n2, n3\n"));
    assert!(text.contains("Sensitive:  false\n"));
    assert!(text.contains("Resources:  min_nodes=1, max_nodes=4, gpu_type=a100\n"));
    assert!(text.contains("Probe:      HTTP GET :8080/healthz every 10s (threshold=3, timeout=2s, delay=5s)\n"));
    assert!(text.ends_with("Created:    100s\n"));
}

#[test]
fn job_list_filters_by_node() {
    let mut b = allocation();
    b.allocation_id = "job-2".into();
    b.assigned_nodes = vec!["n9".into()];
    let all = format_job_list(&[allocation(), b.clone()], None);
    assert!(all.contains("n1+2"));
    assert!(all.contains("job-2"));
    let filtered = format_job_list(&[allocation(), b], Some("n9"));
    assert!(!filtered.contains("job-1"));
    assert!(filtered.contains("job-2"));
    assert_eq!(format_job_list(&[], None), "No jobs found.");
}

#[test]
fn health_report_pass_and_fail() {
    let h = LatticeHealth::Reported {
        status: "healthy".into(),
        version: "1.2".into(),
        uptime_secs: 60,
        services: Ok(vec![
            ServiceLookup { name: "api".into(), endpoints: Some(2) },
            ServiceLookup { name: "db".into(), endpoints: None },
        ]),
    };
    let text = format_health_report(&Ok(()), &h);
    assert!(text.contains("  Status: HEALTHY\n"));
    assert!(text.contains("  Status:  HEALTHY\n"));
    assert!(text.contains("  Registered: 2 services, 2 endpoints\n    api: 2 endpoints\n    db: (lookup failed)\n"));
    assert!(text.ends_with("\nOverall: PASS"));
    let text = format_health_report(&Err("down".into()), &LatticeHealth::Unavailable("no endpoint".into()));
    assert!(text.contains("  Status: UNHEALTHY (down)\n"));
    assert!(text.contains("  Status: UNAVAILABLE (no endpoint)\n"));
    assert!(text.contains("(unavailable \u{2014} see above)"));
    assert!(text.ends_with("FAIL"));
}

#[test]
fn health_report_uppercases_status() {
    let h = LatticeHealth::Reported { status: "degraded".into(), version: "v".into(), uptime_secs: 1, services: Ok(vec![]) };
    let text = format_health_report(&Ok(()), &h);
    assert!(text.contains("  Status:  DEGRADED\n"));
    assert!(text.contains("  Registered: 0 services\n"));
    assert!(text.ends_with("FAIL"));
}
