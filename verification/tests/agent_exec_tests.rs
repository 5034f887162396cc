use pact::agent::exec::{append_capped, ExecConfig, ExecError};

#[test]
fn exec_config_defaults() {
    let config = ExecConfig::default();
    assert_eq!(config.timeout_seconds, 300);
    assert_eq!(config.max_output_bytes, 10_485_760);
}

#[test]
fn output_capped_at_limit() {
    let mut out = Vec::new();
    assert!(!append_capped(&mut out, b"hello", 8));
    assert_eq!(out, b"hello");
    assert!(append_capped(&mut out, b" world", 8));
    assert_eq!(out, b"hello wo");
    assert!(!append_capped(&mut out, b"", 8));
}

#[test]
fn exec_error_messages() {
    assert_eq!(ExecError::Timeout(5).message(), "command timed out after 5 seconds");
    assert_eq!(ExecError::NotFound("x".into()).message(), "command not found on PATH: x");
    assert_eq!(ExecError::NotWhitelisted("vim".into()).message(), "command not whitelisted: vim");
}
