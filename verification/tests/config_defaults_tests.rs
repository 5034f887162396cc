use pact::common::config::{
    default_base_window, default_cert_dir, default_cert_lifetime, default_emergency_window,
    default_enforcement_mode, default_enrollment_rate_limit, default_gpu_poll_interval, default_heartbeat_timeout,
    default_journal_listen, default_log_format, default_log_level, default_max_concurrent,
    default_renewal_before_expiry, default_shell_listen, default_snapshot_interval, default_supervisor_backend,
    default_sync_interval, default_true, default_whitelist_mode,
};
use pact::common::types::SupervisorBackend;

#[test]
fn agent_defaults() {
    assert_eq!(default_cert_dir(), "/var/lib/pact/certs");
    assert_eq!(default_renewal_before_expiry(), 43200);
    assert_eq!(default_enforcement_mode(), "observe");
    assert_eq!(default_supervisor_backend(), SupervisorBackend::Pact);
    assert!(default_true());
    assert_eq!(default_shell_listen(), "0.0.0.0:9445");
    assert_eq!(default_whitelist_mode(), "learning");
    assert_eq!(default_gpu_poll_interval(), 30);
}

#[test]
fn commit_window_defaults_in_seconds() {
    assert_eq!(default_base_window(), 900);
    assert_eq!(default_emergency_window(), 14400);
}

#[test]
fn journal_defaults() {
    assert_eq!(default_cert_lifetime(), 259_200);
    assert_eq!(default_enrollment_rate_limit(), 100);
    assert_eq!(default_heartbeat_timeout(), 300);
    assert_eq!(default_journal_listen(), "0.0.0.0:9443");
    assert_eq!(default_snapshot_interval(), 10000);
    assert_eq!(default_max_concurrent(), 15000);
    assert_eq!(default_sync_interval(), 300);
    assert_eq!(default_log_level(), "info");
    assert_eq!(default_log_format(), "text");
}
