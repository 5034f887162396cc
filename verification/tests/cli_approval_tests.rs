use pact::cli::approve::{
    format_age, format_approval_list, format_approval_list_at, format_approve_result, truncate, validate_approval,
    validate_approval_at,
};
use pact::cli::blacklist::{default_blacklist, format_blacklist_result, BlacklistOp, BlacklistResult};
use pact::cli::emergency::{format_emergency_result, validate_emergency_start, EmergencyAction, EmergencyResult};
use pact::common::types::{ApprovalStatus, Identity, PendingApproval, PrincipalType, Scope};

fn unix_now() -> i64 {
    std::time::SystemTime::now().duration_since(std::time::UNIX_EPOCH).unwrap().as_secs() as i64
}

fn approval_at(status: ApprovalStatus, now: i64, expires_offset_secs: i64) -> PendingApproval {
    PendingApproval {
        approval_id: "ap-7f3a".into(),
        original_request: "commit config".into(),
        action: "commit".into(),
        scope: Scope::VCluster("sensitive-compute".into()),
        requester: Identity {
            principal: "admin-a@org".into(),
            principal_type: PrincipalType::Human,
            role: "pact-regulated-sensitive-compute".into(),
        },
        approver: None,
        status,
        created_at: now - 720,
        expires_at: now + expires_offset_secs,
    }
}

fn test_approval(status: ApprovalStatus, expires_offset_secs: i64) -> PendingApproval {
    approval_at(status, unix_now(), expires_offset_secs)
}

#[test]
fn format_emergency_start() {
    let result = EmergencyResult {
        action: "start".into(),
        node_id: "node042".into(),
        sequence: 5001,
        window_seconds: Some(14400),
    };
    let output = format_emergency_result(&result);
    assert!(output.contains("ACTIVE"));
    assert!(output.contains("node042"));
    assert!(output.contains("240 minutes"));
    assert!(output.contains("logged"));
}

#[test]
fn format_emergency_end() {
    let result = EmergencyResult {
        action: "end".into(),
        node_id: "node042".into(),
        sequence: 5010,
        window_seconds: None,
    };
    let output = format_emergency_result(&result);
    assert!(output.contains("ENDED"));
    assert!(output.contains("restored"));
}

#[test]
fn validate_ai_agent_blocked() {
    let result = validate_emergency_start(&PrincipalType::Agent, "gpu failure");
    assert!(result.is_err());
    assert!(result.unwrap_err().contains("P8"));
}

#[test]
fn validate_service_blocked() {
    let result = validate_emergency_start(&PrincipalType::Service, "gpu failure");
    assert!(result.is_err());
}

#[test]
fn validate_human_allowed() {
    let result = validate_emergency_start(&PrincipalType::Human, "gpu failure on rack3");
    assert!(result.is_ok());
}

#[test]
fn validate_empty_reason_rejected() {
    let result = validate_emergency_start(&PrincipalType::Human, "  ");
    assert!(result.is_err());
    assert!(result.unwrap_err().contains("reason"));
}

#[test]
fn emergency_action_equality() {
    let a = EmergencyAction::Start { reason: "test".into() };
    let b = EmergencyAction::Start { reason: "test".into() };
    assert_eq!(a, b);
    assert_ne!(a, EmergencyAction::End { force: false });
    assert_ne!(a, EmergencyAction::Start { reason: "other".into() });
    assert_eq!(EmergencyAction::End { force: true }, EmergencyAction::End { force: true });
}

#[test]
fn format_approval_list_empty() {
    assert_eq!(format_approval_list(&[]), "(no pending approvals)");
}

#[test]
fn format_approval_list_with_entries() {
    let approvals = vec![test_approval(ApprovalStatus::Pending, 1800)];
    let output = format_approval_list(&approvals);
    assert!(output.contains("ap-7f3a"));
    assert!(output.contains("sensitive-compute"));
    assert!(output.contains("admin-a@org"));
    assert!(output.contains("min ago"));
}

#[test]
fn format_approval_list_shows_status() {
    let approvals = vec![test_approval(ApprovalStatus::Approved, 1800), test_approval(ApprovalStatus::Rejected, 1800)];
    let output = format_approval_list(&approvals);
    assert!(output.contains("[APPROVED]"));
    assert!(output.contains("[REJECTED]"));
}

#[test]
fn format_approval_list_at_fixed_time() {
    let now = 1_000_000;
    let approvals = vec![approval_at(ApprovalStatus::Expired, now, -5)];
    let output = format_approval_list_at(&approvals, now);
    let lines: Vec<&str> = output.lines().collect();
    assert_eq!(lines.len(), 2);
    assert!(lines[0].starts_with("ID "));
    assert!(lines[1].starts_with("ap-7f3a    sensitive-compute    commit"));
    assert!(lines[1].ends_with("12 min ago [EXPIRED]"));
}

#[test]
fn format_approve_result_approve() {
    let output = format_approve_result("ap-7f3a", "approve");
    assert!(output.contains("Approved"));
    assert!(output.contains("proceed"));
}

#[test]
fn format_approve_result_deny() {
    let output = format_approve_result("ap-7f3a", "deny");
    assert!(output.contains("Denied"));
    assert!(output.contains("cancelled"));
}

#[test]
fn format_approve_result_other_action() {
    assert_eq!(format_approve_result("ap-1", "defer"), "defer: ap-1");
}

#[test]
fn validate_pending_approval_ok() {
    let approval = test_approval(ApprovalStatus::Pending, 1800);
    let result = validate_approval(&approval, "admin-b@org");
    assert!(result.is_ok());
}

#[test]
fn validate_already_approved_fails() {
    let approval = test_approval(ApprovalStatus::Approved, 1800);
    let result = validate_approval(&approval, "admin-b@org");
    assert!(result.is_err());
    assert!(result.unwrap_err().contains("already"));
}

#[test]
fn validate_self_approval_fails() {
    let approval = test_approval(ApprovalStatus::Pending, 1800);
    let result = validate_approval(&approval, "admin-a@org");
    assert!(result.is_err());
    assert!(result.unwrap_err().contains("P4"));
}

#[test]
fn validate_expired_approval_fails() {
    let approval = test_approval(ApprovalStatus::Pending, -60);
    let result = validate_approval(&approval, "admin-b@org");
    assert!(result.is_err());
    assert!(result.unwrap_err().contains("P5"));
}

#[test]
fn validate_approval_at_boundary() {
    let now = 5_000;
    let approval = approval_at(ApprovalStatus::Pending, now, 0);
    // Expiry is strict: at exactly the expiry time the approval still stands.
    assert!(validate_approval_at(&approval, "admin-b@org", now).is_ok());
    assert_eq!(validate_approval_at(&approval, "admin-b@org", now + 1).unwrap_err(), "Approval ap-7f3a has expired (P5)");
}

#[test]
fn truncate_short_string() {
    assert_eq!(truncate("abc", 10), "abc");
}

#[test]
fn truncate_long_string() {
    assert_eq!(truncate("abcdefghijk", 5), "abcd…");
}

#[test]
fn truncate_exact_length_keeps_string() {
    assert_eq!(truncate("abcde", 5), "abcde");
}

#[test]
fn format_age_seconds() {
    let now = unix_now();
    let output = format_age(now - 30, now);
    assert!(output.contains("s ago"));
    assert_eq!(output, "30s ago");
}

#[test]
fn format_age_minutes() {
    let now = unix_now();
    let output = format_age(now - 300, now);
    assert!(output.contains("min ago"));
    assert_eq!(output, "5 min ago");
}

#[test]
fn format_age_hours() {
    let now = unix_now();
    let output = format_age(now - 7200, now);
    assert!(output.contains("hr ago"));
    assert_eq!(output, "2 hr ago");
}

#[test]
fn format_list_empty() {
    let result = BlacklistResult { operation: BlacklistOp::List, paths: vec![] };
    assert!(format_blacklist_result(&result).contains("No blacklist"));
}

#[test]
fn format_list_with_entries() {
    let result = BlacklistResult { operation: BlacklistOp::List, paths: default_blacklist() };
    let output = format_blacklist_result(&result);
    assert!(output.contains("/tmp/**"));
    assert!(output.contains("/proc/**"));
}

#[test]
fn format_list_exact_layout() {
    let result = BlacklistResult { operation: BlacklistOp::List, paths: vec!["/a".into(), "/b".into()] };
    assert_eq!(format_blacklist_result(&result), "Blacklisted paths:\n  /a\n  /b\n");
}

#[test]
fn format_add() {
    let result = BlacklistResult { operation: BlacklistOp::Add("/custom/path/**".into()), paths: vec![] };
    assert!(format_blacklist_result(&result).contains("Added"));
}

#[test]
fn format_remove() {
    let result = BlacklistResult { operation: BlacklistOp::Remove("/tmp/**".into()), paths: vec![] };
    assert!(format_blacklist_result(&result).contains("Removed"));
}

#[test]
fn default_blacklist_has_six_entries() {
    assert_eq!(default_blacklist().len(), 6);
}
