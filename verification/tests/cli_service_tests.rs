use pact::cli::service::{format_service_state, format_service_status, format_single_service, format_uptime};
use pact::cli::status::{format_config_state, format_gpu_health};
use pact::common::types::{ConfigState, GpuHealth, ServiceState, ServiceStatusInfo};

fn test_services() -> Vec<ServiceStatusInfo> {
    vec![
        ServiceStatusInfo {
            name: "chronyd".into(),
            state: ServiceState::Running,
            pid: 1234,
            uptime_seconds: 86400,
            restart_count: 0,
        },
        ServiceStatusInfo {
            name: "nvidia-persistenced".into(),
            state: ServiceState::Running,
            pid: 1235,
            uptime_seconds: 86300,
            restart_count: 1,
        },
        ServiceStatusInfo {
            name: "lattice-node-agent".into(),
            state: ServiceState::Failed,
            pid: 0,
            uptime_seconds: 0,
            restart_count: 5,
        },
    ]
}

#[test]
fn format_service_status_table() {
    let output = format_service_status(&test_services());
    assert!(output.contains("chronyd"));
    assert!(output.contains("nvidia-persistenced"));
    assert!(output.contains("lattice-node-agent"));
    assert!(output.contains("running"));
    assert!(output.contains("FAILED"));
    assert!(output.contains("SERVICE")); // header
}

#[test]
fn format_service_status_empty() {
    assert_eq!(format_service_status(&[]), "(no services)");
}

#[test]
fn format_single_service_running() {
    let svc = ServiceStatusInfo {
        name: "chronyd".into(),
        state: ServiceState::Running,
        pid: 1234,
        uptime_seconds: 3661,
        restart_count: 0,
    };
    let output = format_single_service(&svc);
    assert!(output.contains("chronyd: running"));
    assert!(output.contains("PID 1234"));
    assert!(output.contains("1h1m"));
    assert!(output.contains("0 restarts"));
}

#[test]
fn format_single_service_stopped_exact() {
    let svc = ServiceStatusInfo {
        name: "sshd".into(),
        state: ServiceState::Stopped,
        pid: 0,
        uptime_seconds: 0,
        restart_count: 2,
    };
    let output = format_single_service(&svc);
    assert_eq!(output, "sshd: stopped (PID 0, uptime 0s, 2 restarts)");
}

#[test]
fn format_uptime_seconds() {
    assert_eq!(format_uptime(30), "30s");
}

#[test]
fn format_uptime_minutes() {
    assert_eq!(format_uptime(125), "2m5s");
}

#[test]
fn format_uptime_hours() {
    assert_eq!(format_uptime(7261), "2h1m");
}

#[test]
fn format_uptime_days() {
    assert_eq!(format_uptime(90000), "1d1h");
}

#[test]
fn format_uptime_boundaries() {
    assert_eq!(format_uptime(0), "0s");
    assert_eq!(format_uptime(59), "59s");
    assert_eq!(format_uptime(60), "1m0s");
    assert_eq!(format_uptime(3600), "1h0m");
    assert_eq!(format_uptime(86400), "1d0h");
}

#[test]
fn format_service_state_all_variants() {
    assert_eq!(format_service_state(&ServiceState::Starting), "starting");
    assert_eq!(format_service_state(&ServiceState::Running), "running");
    assert_eq!(format_service_state(&ServiceState::Stopping), "stopping");
    assert_eq!(format_service_state(&ServiceState::Stopped), "stopped");
    assert_eq!(format_service_state(&ServiceState::Failed), "FAILED");
    assert_eq!(format_service_state(&ServiceState::Restarting), "restarting");
}

#[test]
fn format_gpu_health_values() {
    assert_eq!(format_gpu_health(&GpuHealth::Healthy), "healthy");
    assert_eq!(format_gpu_health(&GpuHealth::Degraded), "DEGRADED");
    assert_eq!(format_gpu_health(&GpuHealth::Failed), "FAILED");
}

#[test]
fn format_config_state_names() {
    assert_eq!(format_config_state(&ConfigState::Committed), "COMMITTED");
    assert_eq!(format_config_state(&ConfigState::Drifted), "DRIFTED");
    assert_eq!(format_config_state(&ConfigState::Emergency), "EMERGENCY");
}
