use pact::cli::scheduler::{
    audit_sources, backup_reply, backup_verify_reply, cancel_dag_reply, cancel_job_reply, format_audit_report,
    format_cluster_status, format_dag, format_dag_list, format_queue_status, format_scheduler_node,
    format_scheduler_nodes, format_service_lookup, format_service_names, node_state_line, queue_vcluster_id,
    restore_reply, AuditAnswer, BackupReport, DagStep, DagSummary, RaftAnswer, RaftMember, SchedulerAuditEntry,
    SchedulerNode, ServiceEndpoint,
};

#[test]
fn queue_status_defaults_to_default_vcluster() {
    assert_eq!(queue_vcluster_id(None), "default");
    assert_eq!(queue_vcluster_id(Some("ml")), "ml");
    assert_eq!(
        format_queue_status("ml", 3, 2, 5),
        "Queue status for vCluster: ml\n  Pending: 3\n  Running: 2\n  Total:   5\n"
    );
}

#[test]
fn cancel_replies() {
    assert_eq!(cancel_job_reply("j1", true), "Job j1 cancelled.");
    assert_eq!(cancel_job_reply("j1", false), "Job j1 cancel returned: success=false");
    assert_eq!(cancel_dag_reply("d1", true, 4), "DAG d1 cancelled (4 allocations cancelled).");
    assert_eq!(cancel_dag_reply("d1", false, 4), "DAG d1 cancel returned: success=false");
}

#[test]
fn service_listing_and_lookup() {
    assert_eq!(format_service_names(&vec![]), "No services registered.\n");
    assert_eq!(
        format_service_names(&vec!["db".to_string(), "web".to_string()]),
        "2 registered services:\n  db\n  web\n"
    );
    assert_eq!(format_service_lookup("db", &[]), "Service: db\n  No endpoints registered.\n");
    let eps = vec![ServiceEndpoint {
        allocation_id: "a1".to_string(),
        tenant: "t".to_string(),
        port: 5432,
        protocol: String::new(),
        nodes: vec!["n1".to_string(), "n2".to_string()],
    }];
    assert_eq!(
        format_service_lookup("db", &eps),
        "Service: db\n  1 endpoints:\n    alloc=a1 tenant=t port=5432 proto=tcp nodes=[n1, n2]\n"
    );
}

#[test]
fn dag_listing_and_detail() {
    assert_eq!(format_dag_list(&[]), "No DAGs found.");
    let dags = vec![DagSummary { dag_id: "d1".to_string(), state: "Running".to_string(), steps: 3, created_at: Some(100) }];
    let out = format_dag_list(&dags);
    let lines: Vec<&str> = out.lines().collect();
    assert_eq!(lines[0], format!("{:<36}  {:<12}  {:<12}  CREATED", "DAG ID", "STATE", "STEPS"));
    assert_eq!(lines[1], "-".repeat(80));
    assert_eq!(lines[2], format!("{:<36}  {:<12}  {:<12}  100s", "d1", "Running", "3"));
    let steps = vec![DagStep { allocation_id: "a1".to_string(), state: "Done".to_string(), user: "u".to_string() }];
    assert_eq!(
        format_dag("d1", "Running", &steps, Some(10), None),
        "DAG:       d1\nState:     Running\nSteps:     1\nCreated:   10s\n\nAllocations:\n  a1 \u{2014} Done (u)\n"
    );
    assert_eq!(format_dag("d2", "Pending", &[], None, None), "DAG:       d2\nState:     Pending\nSteps:     0\n");
}

#[test]
fn backup_and_restore_replies() {
    let ok = BackupReport {
        success: true,
        message: "/tmp/b".to_string(),
        node_count: 1,
        allocation_count: 2,
        tenant_count: 3,
        audit_entry_count: 4,
        backup_timestamp: Some(7),
    };
    assert_eq!(
        backup_reply(&ok),
        Ok("Backup created: /tmp/b\n  Nodes: 1, Allocations: 2, Tenants: 3, Audit entries: 4\n  Timestamp: 7s\n"
            .to_string())
    );
    let bad = BackupReport { success: false, message: "disk full".to_string(), ..ok };
    assert_eq!(backup_reply(&bad), Err("Backup failed: disk full".to_string()));
    assert_eq!(
        backup_verify_reply(false, "corrupt", None, 2, 9),
        "Backup valid: NO\ncorrupt\n  Snapshot: term=2, index=9\n"
    );
    assert_eq!(restore_reply(true, "ok"), Ok("Restore completed: ok".to_string()));
    assert_eq!(restore_reply(false, "no"), Err("Restore failed: no".to_string()));
}

fn node() -> SchedulerNode {
    SchedulerNode {
        node_id: "n1".to_string(),
        state: "Ready".to_string(),
        state_reason: String::new(),
        group: "g".to_string(),
        gpu_count: 4,
        gpu_type: "A100".to_string(),
        cpu_cores: 64,
        memory_gb: 512,
        features: vec!["ib".to_string()],
        owner_tenant: String::new(),
        owner_vcluster: String::new(),
        owner_allocation: String::new(),
        allocation_ids: vec![],
        last_heartbeat: None,
    }
}

#[test]
fn scheduler_node_listing_and_detail() {
    assert_eq!(format_scheduler_nodes(&[]), "No nodes found.");
    let out = format_scheduler_nodes(&[node()]);
    let lines: Vec<&str> = out.lines().collect();
    assert_eq!(lines[2], format!("{:<20}  {:<10}  {:<8}  {:<6}  {:<8}  {:<16}  ", "n1", "Ready", "4", "64", "512", "-"));
    assert_eq!(
        format_scheduler_node(&node()),
        "Node:      n1\nState:     Ready\nGroup:     g\nGPU:       4 x A100\nCPU:       64 cores\nMemory:    512 GB\nFeatures:  ib\n"
    );
    assert_eq!(node_state_line("n1", "Committed"), "Node: n1  State: Committed");
}

#[test]
fn cluster_status_combines_journal_and_scheduler() {
    let raft = RaftAnswer::Status {
        leader_id: 1,
        current_term: 2,
        last_applied: 3,
        commit_index: 4,
        members: vec![RaftMember { node_id: 1, address: "a:1".to_string(), role: "leader".to_string(), match_index: 4 }],
    };
    assert_eq!(
        format_cluster_status(&Ok("healthy".to_string()), &raft),
        "=== Pact Journal ===\nhealthy\n\n=== Lattice Scheduler ===\n  Leader:       1\n  Term:         2\n  Last applied: 3\n  Commit index: 4\n  Members:\n    1 (a:1) \u{2014} role=leader, match_index=4\n"
    );
    assert_eq!(
        format_cluster_status(&Err("down".to_string()), &RaftAnswer::QueryFailed("x".to_string())),
        "=== Pact Journal ===\n  Status: error (down)\n\n=== Lattice Scheduler ===\n  Raft query failed: x\n"
    );
}

#[test]
fn audit_sources_by_name() {
    assert_eq!(audit_sources("all"), (true, true));
    assert_eq!(audit_sources("pact"), (true, false));
    assert_eq!(audit_sources("lattice"), (false, true));
    assert_eq!(audit_sources("other"), (false, false));
}

#[test]
fn audit_report_sections() {
    let entries = vec![SchedulerAuditEntry {
        timestamp: Some(5),
        user_id: "u".to_string(),
        action: "submit".to_string(),
        details: "job".to_string(),
    }];
    assert_eq!(
        format_audit_report(&Some(Ok("log".to_string())), &Some(AuditAnswer::Entries(entries))),
        "=== Pact Audit Log ===\nlog\n=== Lattice Audit Log ===\n  [5s] u submit \u{2014} job\n"
    );
    assert_eq!(
        format_audit_report(&None, &Some(AuditAnswer::Entries(vec![]))),
        "=== Lattice Audit Log ===\n  No audit entries.\n"
    );
    assert_eq!(format_audit_report(&Some(Err("e".to_string())), &None), "=== Pact Audit Log ===\n  Error: e\n");
}
