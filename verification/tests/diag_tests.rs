use pact::agent::diag::{
    apply_grep, chunk_from_content, journalctl_args, normalize_line_limit, plan_diag,
    read_last_n_lines, service_log_path, service_source_name, validate_grep_pattern,
    validate_service_name, DiagError, DiagSource, DEFAULT_LINE_LIMIT, MAX_LINE_LIMIT,
};

fn invalid_argument(e: DiagError) -> String {
    match e {
        DiagError::InvalidArgument(m) => m,
    }
}

#[test]
fn read_last_n_lines_fewer_than_n() {
    let content = "line1\nline2\nline3";
    let result = read_last_n_lines(content, 10);
    assert_eq!(result, vec!["line1", "line2", "line3"]);
}

#[test]
fn read_last_n_lines_exactly_n() {
    let content = "line1\nline2\nline3";
    let result = read_last_n_lines(content, 3);
    assert_eq!(result, vec!["line1", "line2", "line3"]);
}

#[test]
fn read_last_n_lines_more_than_n() {
    let content = "line1\nline2\nline3\nline4\nline5";
    let result = read_last_n_lines(content, 2);
    assert_eq!(result, vec!["line4", "line5"]);
}

#[test]
fn read_last_n_lines_empty_content() {
    let result = read_last_n_lines("", 10);
    assert!(result.is_empty());
}

#[test]
fn read_last_n_lines_zero_limit() {
    let content = "line1\nline2";
    let result = read_last_n_lines(content, 0);
    assert!(result.is_empty());
}

#[test]
fn read_last_n_lines_single_line() {
    let result = read_last_n_lines("only line", 5);
    assert_eq!(result, vec!["only line"]);
}

#[test]
fn read_last_n_lines_like_str_lines() {
    // A final newline adds no empty line; a carriage return before it goes.
    assert_eq!(read_last_n_lines("a\r\nb\n", 5), vec!["a", "b"]);
    assert_eq!(read_last_n_lines("a\n\nb", 2), vec!["", "b"]);
}

#[test]
fn apply_grep_no_pattern() {
    let lines = vec!["a".to_string(), "b".to_string()];
    let result = apply_grep(lines.clone(), None);
    assert_eq!(result, lines);
}

#[test]
fn apply_grep_matching() {
    let re = validate_grep_pattern("error").unwrap().unwrap();
    let lines = vec![
        "info: starting".to_string(),
        "error: disk full".to_string(),
        "info: retrying".to_string(),
        "error: timeout".to_string(),
    ];
    let result = apply_grep(lines, Some(&re));
    assert_eq!(result, vec!["error: disk full", "error: timeout"]);
}

#[test]
fn apply_grep_no_match() {
    let re = validate_grep_pattern("CRITICAL").unwrap().unwrap();
    let lines = vec!["info: ok".to_string(), "warn: maybe".to_string()];
    let result = apply_grep(lines, Some(&re));
    assert!(result.is_empty());
}

#[test]
fn apply_grep_regex_pattern() {
    let re = validate_grep_pattern(r"ECC\s+error").unwrap().unwrap();
    let lines = vec![
        "GPU 0: ECC error detected".to_string(),
        "GPU 1: temperature normal".to_string(),
        "GPU 2: ECC  error corrected".to_string(),
    ];
    let result = apply_grep(lines, Some(&re));
    assert_eq!(result.len(), 2);
}

#[test]
fn validate_grep_pattern_empty() {
    assert!(validate_grep_pattern("").unwrap().is_none());
}

#[test]
fn validate_grep_pattern_valid() {
    let result = validate_grep_pattern("error|warn");
    assert!(result.is_ok());
    assert!(result.unwrap().is_some());
}

#[test]
fn validate_grep_pattern_invalid_regex() {
    let result = validate_grep_pattern("[invalid");
    assert!(result.is_err());
    let m = invalid_argument(result.err().unwrap());
    assert!(m.contains("invalid grep pattern"));
}

#[test]
fn validate_grep_pattern_too_long() {
    let long_pattern = "a".repeat(256);
    let result = validate_grep_pattern(&long_pattern);
    assert!(result.is_err());
    let m = invalid_argument(result.err().unwrap());
    assert!(m.contains("maximum length"));
}

#[test]
fn validate_grep_pattern_max_length_ok() {
    let pattern = "a".repeat(255);
    let result = validate_grep_pattern(&pattern);
    assert!(result.is_ok());
}

#[test]
fn validate_service_name_empty() {
    let declared = vec!["nginx".to_string()];
    assert!(validate_service_name("", &declared).is_ok());
}

#[test]
fn validate_service_name_valid_known() {
    let declared = vec!["nvidia-persistenced".to_string(), "chronyd".to_string()];
    assert!(validate_service_name("chronyd", &declared).is_ok());
}

#[test]
fn validate_service_name_unknown_service() {
    let declared = vec!["chronyd".to_string()];
    assert!(validate_service_name("nonexistent", &declared).is_ok());
}

#[test]
fn validate_service_name_path_traversal_slash() {
    let declared = vec!["nginx".to_string()];
    let result = validate_service_name("../../etc/passwd", &declared);
    assert!(result.is_err());
    assert!(invalid_argument(result.unwrap_err()).contains("invalid service name"));
}

#[test]
fn validate_service_name_path_traversal_dotdot() {
    let declared = vec!["nginx".to_string()];
    let result = validate_service_name("..secret", &declared);
    assert!(result.is_err());
    assert!(invalid_argument(result.unwrap_err()).contains("invalid service name"));
}

#[test]
fn validate_service_name_with_forward_slash() {
    let declared = vec!["nginx".to_string()];
    let result = validate_service_name("some/service", &declared);
    assert!(result.is_err());
}

#[test]
fn normalize_line_limit_zero_becomes_default() {
    assert_eq!(normalize_line_limit(0), DEFAULT_LINE_LIMIT);
}

#[test]
fn normalize_line_limit_normal() {
    assert_eq!(normalize_line_limit(500), 500);
}

#[test]
fn normalize_line_limit_exceeds_max() {
    assert_eq!(normalize_line_limit(20_000), MAX_LINE_LIMIT);
}

#[test]
fn normalize_line_limit_at_max() {
    assert_eq!(normalize_line_limit(10_000), 10_000);
}

fn names(plan: &[DiagSource]) -> Vec<String> {
    plan.iter()
        .map(|s| match s {
            DiagSource::Dmesg => "dmesg".to_string(),
            DiagSource::Syslog => "syslog".to_string(),
            DiagSource::Service(n) => service_source_name(n),
        })
        .collect()
}

#[test]
fn diag_plan_all_sources() {
    let plan = plan_diag("all", "", &["chronyd".to_string()]);
    assert_eq!(names(&plan), vec!["dmesg", "syslog", "service:chronyd"]);
    let plan = plan_diag("", "", &["a".to_string(), "b".to_string()]);
    assert_eq!(names(&plan), vec!["dmesg", "syslog", "service:a", "service:b"]);
}

#[test]
fn diag_plan_filters() {
    assert_eq!(names(&plan_diag("system", "", &["x".to_string()])), vec!["dmesg", "syslog"]);
    assert_eq!(
        names(&plan_diag("service", "", &["svc-a".to_string(), "svc-b".to_string()])),
        vec!["service:svc-a", "service:svc-b"]
    );
    assert_eq!(names(&plan_diag("service", "nginx", &["nginx".to_string()])), vec!["service:nginx"]);
    assert!(plan_diag("other", "", &["x".to_string()]).is_empty());
}

#[test]
fn chunk_keeps_last_lines_and_flags_truncation() {
    let re = validate_grep_pattern("err").unwrap().unwrap();
    let c = chunk_from_content("dmesg".into(), "err1\nok\nerr2\nerr3", 3, Some(&re));
    assert_eq!(c.source, "dmesg");
    assert_eq!(c.lines, vec!["err2", "err3"]);
    assert!(c.truncated);
    let c = chunk_from_content("syslog".into(), "a\nb", 5, None);
    assert_eq!(c.lines, vec!["a", "b"]);
    assert!(!c.truncated);
}

#[test]
fn service_log_sources() {
    assert_eq!(service_log_path("chronyd"), "/run/pact/logs/chronyd.log");
    assert_eq!(journalctl_args("chronyd", 100), vec!["-u", "chronyd", "--no-pager", "-n", "100"]);
}
