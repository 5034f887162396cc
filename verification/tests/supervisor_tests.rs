use pact::agent::supervisor::plan_crash_responses;
use pact::agent::supervisor::{
    parse_memory_value, process_health, should_restart, sorted_services, stop_order,
    ProcessTable, SupervisionConfig, SystemdBackend, WorkloadState,
};
use pact::common::types::{HealthCheckType, RestartPolicy, ServiceDecl, ServiceState};

fn test_service() -> ServiceDecl {
    ServiceDecl {
        name: "chronyd".into(),
        binary: "/usr/sbin/chronyd".into(),
        args: vec![],
        restart: RestartPolicy::Always,
        restart_delay_seconds: 5,
        depends_on: vec![],
        order: 1,
        cgroup_memory_max: Some("128M".into()),
        cgroup_slice: None,
        cgroup_cpu_weight: Some(200),
        health_check: None,
    }
}

fn svc(name: &str, order: u32) -> ServiceDecl {
    ServiceDecl { name: name.into(), order, ..test_service() }
}

#[test]
fn generate_unit_basic() {
    let unit = SystemdBackend::generate_unit(&test_service());
    assert!(unit.contains("[Unit]"));
    assert!(unit.contains("Description=pact-managed: chronyd"));
    assert!(unit.contains("ExecStart=/usr/sbin/chronyd"));
    assert!(unit.contains("Restart=always"));
    assert!(unit.contains("RestartSec=5"));
    assert!(unit.contains("MemoryMax=128M"));
    assert!(unit.contains("CPUWeight=200"));
}

#[test]
fn generate_unit_with_args() {
    let svc = ServiceDecl {
        name: "cxi_rh".into(),
        binary: "/usr/bin/cxi_rh".into(),
        args: vec!["--device=cxi0".into()],
        restart: RestartPolicy::OnFailure,
        restart_delay_seconds: 2,
        depends_on: vec![],
        order: 3,
        cgroup_memory_max: None,
        cgroup_slice: None,
        cgroup_cpu_weight: None,
        health_check: None,
    };
    let unit = SystemdBackend::generate_unit(&svc);
    assert!(unit.contains("ExecStart=/usr/bin/cxi_rh --device=cxi0"));
    assert!(unit.contains("Restart=on-failure"));
    assert!(!unit.contains("MemoryMax"));
}

#[test]
fn generate_unit_never_restart() {
    let svc = ServiceDecl { restart: RestartPolicy::Never, ..test_service() };
    let unit = SystemdBackend::generate_unit(&svc);
    assert!(unit.contains("Restart=no"));
}

#[test]
fn generate_unit_exact_text() {
    let svc = ServiceDecl {
        args: vec!["-d".into(), "-x".into()],
        cgroup_memory_max: None,
        cgroup_cpu_weight: None,
        ..test_service()
    };
    assert_eq!(
        SystemdBackend::generate_unit(&svc),
        "[Unit]\nDescription=pact-managed: chronyd\nAfter=network.target\n\n[Service]\nType=simple\nExecStart=/usr/sbin/chronyd -d -x\nRestart=always\nRestartSec=5\n\n[Install]\nWantedBy=multi-user.target\n"
    );
}

#[test]
fn systemd_status_from_is_active_output() {
    let s = SystemdBackend::status_from_is_active(&test_service(), "active\n");
    assert_eq!(s.state, ServiceState::Running);
    assert_eq!(s.name, "chronyd");
    assert!(s.pid.is_none());
    let f = SystemdBackend::status_from_is_active(&test_service(), " failed ");
    assert_eq!(f.state, ServiceState::Failed);
    let n = SystemdBackend::status_from_is_active(&test_service(), "");
    assert_eq!(n.state, ServiceState::Stopped);
    let h = SystemdBackend::health_from_status(&n);
    assert!(!h.healthy);
    assert_eq!(h.detail, "systemd state: Stopped");
    assert_eq!(SystemdBackend::unit_name(&test_service()), "pact-chronyd.service");
}

#[test]
fn restart_policy_decisions() {
    assert!(should_restart(RestartPolicy::Always, Some(0)));
    assert!(should_restart(RestartPolicy::OnFailure, Some(1)));
    assert!(should_restart(RestartPolicy::OnFailure, None));
    assert!(!should_restart(RestartPolicy::OnFailure, Some(0)));
    assert!(!should_restart(RestartPolicy::Never, Some(1)));
}

#[test]
fn supervision_poll_intervals() {
    let c = SupervisionConfig::default();
    assert_eq!(c.poll_interval_ms(WorkloadState::Idle), 500);
    assert_eq!(c.poll_interval_ms(WorkloadState::Active), 2000);
}

#[test]
fn memory_values_parse() {
    assert_eq!(parse_memory_value("512M"), Some(512 * 1024 * 1024));
    assert_eq!(parse_memory_value("1G"), Some(1024 * 1024 * 1024));
    assert_eq!(parse_memory_value("4k"), Some(4096));
    assert_eq!(parse_memory_value(" 1048576 "), Some(1_048_576));
    assert_eq!(parse_memory_value("+7"), Some(7));
    assert_eq!(parse_memory_value(""), None);
    assert_eq!(parse_memory_value("G"), None);
    assert_eq!(parse_memory_value("12X"), None);
    assert_eq!(parse_memory_value("99999999999999999999"), None);
}

#[test]
fn services_sorted_stably_by_order() {
    let services = vec![svc("c", 3), svc("a", 1), svc("b", 1), svc("z", 0)];
    let names: Vec<&str> = sorted_services(&services).iter().map(|s| s.name.as_str()).collect();
    assert_eq!(names, vec!["z", "a", "b", "c"]);
    let rev: Vec<&str> = stop_order(&services).iter().map(|s| s.name.as_str()).collect();
    assert_eq!(rev, vec!["c", "b", "a", "z"]);
}

#[test]
fn process_table_lifecycle() {
    let mut t = ProcessTable::new();
    assert_eq!(t.status("svc").state, ServiceState::Stopped);
    assert!(!t.is_running("svc"));
    t.record_started("svc", Some(42));
    assert!(t.is_running("svc"));
    assert_eq!(t.status("svc").pid, Some(42));
    assert!(t.record_exit("svc", Some(1)));
    let s = t.status("svc");
    assert_eq!(s.state, ServiceState::Failed);
    assert_eq!(s.restarts, 1);
    assert_eq!(s.last_exit_code, Some(1));
    assert!(s.pid.is_none());
    t.record_loop_restart("svc", Some(43));
    assert!(t.is_running("svc"));
    assert_eq!(t.status("svc").restarts, 1);
    assert!(t.record_stopped("svc", Some(Some(0))));
    let s = t.status("svc");
    assert_eq!(s.state, ServiceState::Stopped);
    assert_eq!(s.last_exit_code, Some(0));
    assert!(!t.record_stopped("svc", None));
    t.record_restart_request("svc");
    assert_eq!(t.status("svc").state, ServiceState::Restarting);
    assert_eq!(t.status("svc").restarts, 2);
    t.record_started("svc", Some(50));
    assert_eq!(t.status("svc").restarts, 2);
}

#[test]
fn process_table_no_restart_under_never_policy() {
    let mut t = ProcessTable::new();
    t.record_started("svc", Some(1));
    t.record_exit("svc", None);
    t.record_no_restart("svc", RestartPolicy::Never);
    assert_eq!(t.status("svc").state, ServiceState::Stopped);
    t.record_started("other", Some(2));
    t.record_exit("other", Some(0));
    t.record_no_restart("other", RestartPolicy::OnFailure);
    assert_eq!(t.status("other").state, ServiceState::Failed);
}

#[test]
fn process_health_without_probe() {
    let mut t = ProcessTable::new();
    t.record_started("svc", Some(1));
    let h = process_health(&t.status("svc"), None).unwrap();
    assert!(h.healthy);
    assert_eq!(h.detail, "process alive");
    assert!(process_health(&t.status("svc"), Some(&HealthCheckType::Tcp { port: 80 })).is_none());
    let h = process_health(&t.status("gone"), None).unwrap();
    assert!(!h.healthy);
    assert_eq!(h.detail, "service is Stopped");
}

#[test]
fn process_table_exit_seen_by_status_counts_no_restart() {
    let mut t = ProcessTable::new();
    t.record_started("svc", Some(7));
    assert!(t.record_exit_seen("svc", Some(3)));
    let s = t.status("svc");
    assert_eq!(s.state, ServiceState::Failed);
    assert_eq!(s.pid, None);
    assert_eq!(s.restarts, 0);
    assert_eq!(s.last_exit_code, Some(3));
    assert!(!t.record_exit_seen("svc", Some(4)));
    assert!(!t.record_exit_seen("never-started", None));
}

#[test]
fn crash_responses_follow_policy_and_skip_undeclared() {
    let decls = vec![
        ServiceDecl { restart: RestartPolicy::OnFailure, restart_delay_seconds: 2, ..svc("a", 1) },
        ServiceDecl { restart: RestartPolicy::Never, ..svc("b", 2) },
        svc("c", 3),
    ];
    let crashed = vec![
        ("a".to_string(), Some(0)),
        ("ghost".to_string(), Some(1)),
        ("b".to_string(), Some(1)),
        ("c".to_string(), None),
        ("a".to_string(), Some(9)),
    ];
    let r = plan_crash_responses(&crashed, &decls);
    let got: Vec<(&str, Option<i32>, bool, u32)> =
        r.iter().map(|c| (c.service.as_str(), c.exit_code, c.restart, c.delay_seconds)).collect();
    assert_eq!(
        got,
        vec![("a", Some(0), false, 2), ("b", Some(1), false, 5), ("c", None, true, 5), ("a", Some(9), true, 2)]
    );
    assert_eq!(r[1].policy, RestartPolicy::Never);
}

#[test]
fn started_service_keeps_its_pid_on_a_second_start() {
    let mut t = ProcessTable::new();
    t.record_started("chronyd", Some(4242));
    assert!(t.is_running("chronyd"));
    let st = t.status("chronyd");
    assert_eq!(st.state, ServiceState::Running);
    assert_eq!(st.pid, Some(4242));
}

#[test]
fn never_policy_crash_ends_stopped() {
    let mut t = ProcessTable::new();
    t.record_started("oneshot", Some(7));
    assert!(t.record_exit("oneshot", Some(0)));
    assert!(!should_restart(RestartPolicy::Never, Some(0)));
    assert!(!should_restart(RestartPolicy::Never, Some(1)));
    t.record_no_restart("oneshot", RestartPolicy::Never);
    let st = t.status("oneshot");
    assert_eq!(st.state, ServiceState::Stopped);
    assert_eq!(st.pid, None);
    assert_eq!(st.restarts, 1);
    assert!(!t.is_running("oneshot"));
}
