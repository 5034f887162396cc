use pact::cli::commit::{
    format_commit_result, format_rollback_result, validate_commit_args, validate_rollback_target, CommitResult,
    RollbackResult,
};
use pact::cli::exec::{
    error_to_exit_code, format_exec_result, parse_exec_command, ExecResult, AUTH_FAILURE, CONFLICT, GENERAL_ERROR,
    NOT_WHITELISTED, POLICY_REJECTION, ROLLBACK_FAILED, SUCCESS, TIMEOUT,
};
use pact::common::types::{EntryType, Scope};

#[test]
fn format_exec_stdout_only() {
    let result = ExecResult {
        node_id: "node042".into(),
        command: "hostname".into(),
        stdout: "node042.cluster".into(),
        stderr: String::new(),
        exit_code: 0,
    };
    let output = format_exec_result(&result);
    assert_eq!(output, "node042.cluster");
}

#[test]
fn format_exec_stderr_only() {
    let result = ExecResult {
        node_id: "node042".into(),
        command: "ls /nonexistent".into(),
        stdout: String::new(),
        stderr: "ls: cannot access '/nonexistent': No such file or directory".into(),
        exit_code: 2,
    };
    let output = format_exec_result(&result);
    assert!(output.contains("No such file or directory"));
}

#[test]
fn format_exec_both_streams() {
    let result = ExecResult {
        node_id: "node042".into(),
        command: "nvidia-smi".into(),
        stdout: "GPU 0: A100".into(),
        stderr: "Warning: persistence mode disabled".into(),
        exit_code: 0,
    };
    let output = format_exec_result(&result);
    assert!(output.contains("GPU 0: A100"));
    assert!(output.contains("Warning:"));
}

#[test]
fn format_exec_both_streams_exact() {
    let result = ExecResult {
        node_id: "n".into(),
        command: "c".into(),
        stdout: "out".into(),
        stderr: "err".into(),
        exit_code: 1,
    };
    assert_eq!(format_exec_result(&result), "out\nerr");
}

#[test]
fn error_to_exit_code_mappings() {
    assert_eq!(error_to_exit_code("command not whitelisted"), NOT_WHITELISTED);
    assert_eq!(error_to_exit_code("auth token expired"), AUTH_FAILURE);
    assert_eq!(error_to_exit_code("policy denied"), POLICY_REJECTION);
    assert_eq!(error_to_exit_code("connection timeout"), TIMEOUT);
    assert_eq!(error_to_exit_code("something else"), GENERAL_ERROR);
}

#[test]
fn error_to_exit_code_precedence() {
    // "not allowed" is checked before "denied" and "unreachable" after "policy".
    assert_eq!(error_to_exit_code("not allowed: policy"), NOT_WHITELISTED);
    assert_eq!(error_to_exit_code("host unreachable"), TIMEOUT);
    assert_eq!(error_to_exit_code("unauthorized"), AUTH_FAILURE);
}

#[test]
fn parse_exec_command_simple() {
    let parts = vec!["hostname".to_string()];
    let (cmd, args) = parse_exec_command(&parts).unwrap();
    assert_eq!(cmd, "hostname");
    assert!(args.is_empty());
}

#[test]
fn parse_exec_command_with_args() {
    let parts = vec!["nvidia-smi".to_string(), "-q".to_string(), "-d".to_string(), "ECC".to_string()];
    let (cmd, args) = parse_exec_command(&parts).unwrap();
    assert_eq!(cmd, "nvidia-smi");
    assert_eq!(args, vec!["-q", "-d", "ECC"]);
}

#[test]
fn parse_exec_command_empty_fails() {
    let result = parse_exec_command(&[]);
    assert!(result.is_err());
}

#[test]
fn exit_codes_correct_values() {
    assert_eq!(SUCCESS, 0);
    assert_eq!(AUTH_FAILURE, 2);
    assert_eq!(POLICY_REJECTION, 3);
    assert_eq!(NOT_WHITELISTED, 6);
    assert_eq!(ROLLBACK_FAILED, 10);
    assert_eq!(CONFLICT, 4);
}

#[test]
fn format_commit_success() {
    let result = CommitResult {
        sequence: 4812,
        scope: Scope::Node("node042".into()),
        policy_ref: Some("pol-123".into()),
        approval_required: false,
        approval_id: None,
    };
    let output = format_commit_result(&result);
    assert!(output.contains("seq:4812"));
    assert!(output.contains("node: node042"));
    assert!(output.contains("pol-123"));
}

#[test]
fn format_commit_success_exact() {
    let result = CommitResult {
        sequence: 7,
        scope: Scope::Global,
        policy_ref: None,
        approval_required: false,
        approval_id: None,
    };
    assert_eq!(format_commit_result(&result), "Committed (seq:7) on global");
}

#[test]
fn format_commit_approval_required() {
    let result = CommitResult {
        sequence: 0,
        scope: Scope::VCluster("sensitive-compute".into()),
        policy_ref: None,
        approval_required: true,
        approval_id: Some("ap-7f3a".into()),
    };
    let output = format_commit_result(&result);
    assert!(output.contains("Approval required"));
    assert!(output.contains("sensitive-compute"));
    assert!(output.contains("ap-7f3a"));
}

#[test]
fn format_commit_approval_without_id_says_unknown() {
    let result = CommitResult {
        sequence: 0,
        scope: Scope::Global,
        policy_ref: None,
        approval_required: true,
        approval_id: None,
    };
    assert!(format_commit_result(&result).contains("Pending approval: unknown"));
}

#[test]
fn validate_commit_requires_message() {
    let result = validate_commit_args(None, &EntryType::Commit);
    assert!(result.is_err());
    assert!(result.unwrap_err().contains("message required"));
}

#[test]
fn validate_commit_with_message_ok() {
    let result = validate_commit_args(Some("add hugepages"), &EntryType::Commit);
    assert!(result.is_ok());
}

#[test]
fn validate_rollback_no_message_ok() {
    // Rollbacks don't require a message
    let result = validate_commit_args(None, &EntryType::Rollback);
    assert!(result.is_ok());
}

#[test]
fn format_rollback_success() {
    let result = RollbackResult {
        rollback_sequence: 4815,
        target_sequence: 4810,
        scope: Scope::Node("node042".into()),
        entries_reverted: 5,
    };
    let output = format_rollback_result(&result);
    assert!(output.contains("seq:4810"));
    assert!(output.contains("5 entries reverted"));
    assert!(output.contains("seq:4815"));
}

#[test]
fn validate_target_future_fails() {
    let result = validate_rollback_target(100, 50);
    assert!(result.is_err());
    assert!(result.unwrap_err().contains("must be earlier"));
}

#[test]
fn validate_target_same_fails() {
    let result = validate_rollback_target(50, 50);
    assert!(result.is_err());
}

#[test]
fn validate_target_zero_fails() {
    let result = validate_rollback_target(0, 50);
    assert!(result.is_err());
    assert!(result.unwrap_err().contains("seq:0"));
}

#[test]
fn validate_target_valid() {
    let result = validate_rollback_target(45, 50);
    assert!(result.is_ok());
}

#[test]
fn validate_target_zero_with_current_zero_says_earlier() {
    // The "must be earlier" check comes first.
    let err = validate_rollback_target(0, 0).unwrap_err();
    assert!(err.contains("must be earlier"));
}
