use pact::agent::shell::{shell_setup_step, ShellRefusal, ShellSetupAction, ShellSetupEvent, ShellSetupPhase};
use pact::agent::shell::extension_seconds;
use pact::agent::auth::{AuthError, Jwk, JwksCache};
use pact::agent::diag::{chunk_from_journal, command_failure_message, empty_chunk, CommandFailure};
use pact::agent::exec::{exec_environment, exit_code_of, spawn_error, ExecError, ExecResult};
use pact::agent::session::SessionError;
use pact::agent::shell::{
    authorize_shell, clamp_dim, exec_output_messages, open_terminal, shell_step, ExecOutputMsg, ShellError,
    ShellInputMsg, ShellStep,
};
use pact::agent::supervisor::{
    crash_detail, http_check_failed, http_check_result, tcp_check_address, tcp_check_result,
};
use pact::agent::whitelist::{candidate_paths, first_found, WhitelistManager};
use pact::common::types::{Identity, PrincipalType};

fn ident(role: &str) -> Identity {
    Identity { principal: "alice@example.com".into(), principal_type: PrincipalType::Human, role: role.into() }
}

fn key(kid: &str) -> Jwk {
    Jwk {
        kty: "RSA".into(),
        kid: Some(kid.into()),
        alg: Some("RS256".into()),
        n: Some("n".into()),
        e: Some("e".into()),
        key_use: Some("sig".into()),
    }
}

#[test]
fn shell_requires_ops_role_message() {
    assert!(authorize_shell(&ident("pact-ops-ml-training"), "ml-training").is_ok());
    assert!(authorize_shell(&ident("pact-platform-admin"), "ml-training").is_ok());
    assert_eq!(
        authorize_shell(&ident("pact-viewer-ml-training"), "ml-training").unwrap_err(),
        "shell requires pact-ops-ml-training or pact-platform-admin role"
    );
}

#[test]
fn open_terminal_clamps_and_defaults() {
    let t = open_terminal(Some(ShellInputMsg::Open { rows: 1000, cols: 120, term: String::new() })).unwrap();
    assert_eq!(t.rows, 500);
    assert_eq!(t.cols, 120);
    assert_eq!(t.term, "xterm-256color");
    let t = open_terminal(Some(ShellInputMsg::Open { rows: 24, cols: 80, term: "vt100".into() })).unwrap();
    assert_eq!((t.rows, t.cols, t.term.as_str()), (24, 80, "vt100"));
}

#[test]
fn open_terminal_refuses_other_first_messages() {
    assert_eq!(open_terminal(None).unwrap_err(), "stream closed before ShellOpen");
    assert_eq!(
        open_terminal(Some(ShellInputMsg::Close)).unwrap_err(),
        "first message must be ShellOpen with terminal dimensions"
    );
}

#[test]
fn shell_step_decisions() {
    assert!(matches!(shell_step(Some(ShellInputMsg::Stdin(vec![b'l', b's']))), ShellStep::Write(ref d) if d == b"ls"));
    assert!(matches!(shell_step(Some(ShellInputMsg::Resize { rows: 900, cols: 40 })), ShellStep::Resize(500, 40)));
    assert!(matches!(shell_step(Some(ShellInputMsg::Close)), ShellStep::Stop));
    assert!(matches!(
        shell_step(Some(ShellInputMsg::Open { rows: 1, cols: 1, term: String::new() })),
        ShellStep::Ignore
    ));
    assert!(matches!(shell_step(None), ShellStep::Ignore));
    assert_eq!(clamp_dim(499), 499);
    assert_eq!(clamp_dim(500), 500);
    assert_eq!(clamp_dim(u32::MAX), 500);
}

#[test]
fn exec_output_messages_skip_empty_streams() {
    let msgs = exec_output_messages(Ok(ExecResult { stdout: b"out".to_vec(), stderr: vec![], exit_code: 3 }));
    assert_eq!(msgs.len(), 2);
    assert!(matches!(msgs[0], ExecOutputMsg::Stdout(ref d) if d == b"out"));
    assert!(matches!(msgs[1], ExecOutputMsg::ExitCode(3)));
    let msgs = exec_output_messages(Ok(ExecResult { stdout: vec![], stderr: b"e".to_vec(), exit_code: 0 }));
    assert!(matches!(msgs[0], ExecOutputMsg::Stderr(_)));
    assert!(matches!(msgs[1], ExecOutputMsg::ExitCode(0)));
}

#[test]
fn exec_output_messages_report_errors() {
    let msgs = exec_output_messages(Err(ShellError::Auth(AuthError::TokenExpired)));
    assert_eq!(msgs.len(), 1);
    assert!(matches!(msgs[0], ExecOutputMsg::Error(ref m) if m == "authentication failed: token expired"));
}

#[test]
fn shell_error_messages() {
    assert_eq!(
        ShellError::Exec(ExecError::Timeout(5)).message(),
        "execution failed: command timed out after 5 seconds"
    );
    assert_eq!(
        ShellError::Session(SessionError::NotFound("s1".into())).message(),
        "session error: session not found: s1"
    );
}

#[test]
fn exec_environment_is_fixed() {
    let env = exec_environment();
    let pairs: Vec<(&str, &str)> = env.iter().map(|(k, v)| (k.as_str(), v.as_str())).collect();
    assert_eq!(pairs, vec![("PATH", "/usr/bin:/bin"), ("HOME", "/tmp"), ("LANG", "C.UTF-8")]);
}

#[test]
fn spawn_errors_and_exit_codes() {
    assert_eq!(spawn_error("nope", true, "x".into()).message(), "command not found on PATH: nope");
    assert_eq!(spawn_error("ls", false, "denied".into()).message(), "execution failed: denied");
    assert_eq!(exit_code_of(Some(2)), 2);
    assert_eq!(exit_code_of(None), -1);
}

#[test]
fn crash_detail_text() {
    assert_eq!(crash_detail("chronyd", Some(1), true), "service chronyd crashed with exit code Some(1), restart=true");
    assert_eq!(crash_detail("x", None, false), "service x crashed with exit code None, restart=false");
}

#[test]
fn network_health_checks() {
    let ok = http_check_result(204, "204 No Content");
    assert!(ok.healthy);
    assert_eq!(ok.detail, "HTTP 204 No Content");
    assert!(!http_check_result(503, "503 Service Unavailable").healthy);
    assert!(!http_check_result(302, "302 Found").healthy);
    assert_eq!(http_check_failed("refused").detail, "HTTP check failed: refused");
    assert_eq!(tcp_check_address(8080), "127.0.0.1:8080");
    assert_eq!(tcp_check_result(22, Ok(())).detail, "TCP port 22 open");
    let closed = tcp_check_result(22, Err("refused".into()));
    assert!(!closed.healthy);
    assert_eq!(closed.detail, "TCP port 22 closed: refused");
}

#[test]
fn journal_chunks_keep_all_lines() {
    let c = chunk_from_journal("service:chronyd".into(), "a\nb\nc", None);
    assert_eq!(c.lines, vec!["a", "b", "c"]);
    assert!(!c.truncated);
    let e = empty_chunk("service:x".into(), true);
    assert!(e.lines.is_empty());
    assert!(e.truncated);
}

#[test]
fn command_failure_messages() {
    assert_eq!(command_failure_message("dmesg", &CommandFailure::TimedOut), "dmesg timed out after 5s");
    assert_eq!(command_failure_message("dmesg", &CommandFailure::Spawn("no".into())), "failed to spawn dmesg: no");
    assert_eq!(command_failure_message("journalctl", &CommandFailure::Wait("io".into())), "journalctl failed: io");
}

#[test]
fn jwks_cache_starts_empty() {
    let cache = JwksCache::new();
    assert!(cache.cached_keys().is_empty());
}

#[test]
fn jwks_cache_set_and_get_keys() {
    let mut cache = JwksCache::new();
    cache.set_keys(vec![key("key-1"), key("key-2")], 0);
    let cached = cache.cached_keys();
    assert_eq!(cached.len(), 2);
    assert_eq!(cached[0].kid, Some("key-1".into()));
    assert_eq!(cached[1].kid, Some("key-2".into()));
}

#[test]
fn jwks_cache_with_custom_ttl() {
    let mut cache = JwksCache::with_ttl_ms(60_000);
    assert!(cache.cached_keys().is_empty());
    cache.set_keys(vec![key("test")], 1_000);
    assert_eq!(cache.cached_keys().len(), 1);
    assert!(cache.fresh_keys(60_999).is_some());
    assert!(cache.fresh_keys(61_000).is_none());
}

#[test]
fn jwks_cache_fetch_fails_without_server() {
    let mut cache = JwksCache::new();
    let result = cache.on_fetch(Err(AuthError::JwksFetchError("connection refused".into())), 0);
    assert!(matches!(result, Err(AuthError::JwksFetchError(_))));
}

#[test]
fn jwks_cache_degraded_mode_returns_stale_keys() {
    let mut cache = JwksCache::with_ttl_ms(0);
    cache.set_keys(vec![key("stale-key")], 10);
    assert!(cache.fresh_keys(10).is_none());
    let result = cache.on_fetch(Err(AuthError::JwksFetchError("down".into())), 20);
    let returned = result.unwrap();
    assert_eq!(returned.len(), 1);
    assert_eq!(returned[0].kid, Some("stale-key".into()));
}

#[test]
fn jwks_cache_stores_fetched_keys() {
    let mut cache = JwksCache::new();
    let got = cache.on_fetch(Ok(vec![key("fresh")]), 5).unwrap();
    assert_eq!(got[0].kid, Some("fresh".into()));
    assert_eq!(cache.fresh_keys(6).unwrap()[0].kid, Some("fresh".into()));
}

#[test]
fn jwks_cache_default_trait() {
    let cache = JwksCache::default();
    assert_eq!(cache.ttl_ms(), 3_600_000);
}

#[test]
fn binary_resolution_records_paths() {
    let mut mgr = WhitelistManager::new(false);
    let before = mgr.unresolved_commands();
    assert!(before.iter().any(|c| c == "nvidia-smi"));
    mgr.set_binary_path("nvidia-smi", "/usr/bin/nvidia-smi".into());
    assert!(!mgr.unresolved_commands().iter().any(|c| c == "nvidia-smi"));
    // A second resolution does not replace the first.
    mgr.set_binary_path("nvidia-smi", "/opt/bin/nvidia-smi".into());
    let e = mgr.exec_commands().into_iter().find(|e| e.command == "nvidia-smi").unwrap();
    assert_eq!(e.binary_path.as_deref(), Some("/usr/bin/nvidia-smi"));
}

#[test]
fn candidate_paths_follow_path_order() {
    assert_eq!(candidate_paths("/usr/bin:/bin/", "ls"), vec!["/usr/bin/ls", "/bin/ls"]);
    assert_eq!(candidate_paths("", "ls"), vec!["ls"]);
    assert_eq!(first_found(&[false, true, true]), Some(1));
    assert_eq!(first_found(&[false]), None);
}

#[test]
fn commit_window_extension_in_seconds() {
    assert_eq!(extension_seconds(0), Err("additional_minutes must be > 0".to_string()));
    assert_eq!(extension_seconds(15), Ok(900));
}

#[test]
fn shell_setup_runs_in_order() {
    let ops = Identity { principal: "u".into(), principal_type: PrincipalType::Human, role: "pact-ops-ml".into() };
    let (p, a) = shell_setup_step(ShellSetupPhase::Authenticating, "ml", ShellSetupEvent::Authenticated(Ok(ops)));
    assert!(matches!(p, ShellSetupPhase::AwaitingOpen) && matches!(a, ShellSetupAction::ReadFirstMessage));
    let open = ShellInputMsg::Open { rows: 900, cols: 80, term: String::new() };
    let (p, a) = shell_setup_step(p, "ml", ShellSetupEvent::FirstMessage(Some(open)));
    assert!(matches!(p, ShellSetupPhase::CreatingSession));
    match a {
        ShellSetupAction::CreateSession(t) => {
            assert_eq!((t.rows, t.cols, t.term.as_str()), (500, 80, "xterm-256color"));
        }
        other => panic!("unexpected {other:?}"),
    }
    let (p, a) = shell_setup_step(p, "ml", ShellSetupEvent::SessionCreated(Ok("s1".into())));
    assert!(matches!(a, ShellSetupAction::AllocatePty(ref s) if s == "s1"));
    let (p, a) = shell_setup_step(p, "ml", ShellSetupEvent::PtyAllocated(Ok(())));
    assert!(matches!(p, ShellSetupPhase::Active { ref session_id } if session_id == "s1"));
    assert!(matches!(a, ShellSetupAction::Activate(ref s) if s == "s1"));
    let (_, a) = shell_setup_step(p, "ml", ShellSetupEvent::PtyAllocated(Ok(())));
    assert!(matches!(a, ShellSetupAction::Ignore));

    let viewer = Identity { principal: "v".into(), principal_type: PrincipalType::Human, role: "pact-viewer-ml".into() };
    let (p, a) = shell_setup_step(ShellSetupPhase::Authenticating, "ml", ShellSetupEvent::Authenticated(Ok(viewer)));
    assert!(matches!(p, ShellSetupPhase::Refused));
    assert!(matches!(a, ShellSetupAction::Refuse(ShellRefusal::PermissionDenied, ref m)
        if m == "shell requires pact-ops-ml or pact-platform-admin role"));
    let (_, a) = shell_setup_step(
        ShellSetupPhase::AllocatingPty { session_id: "s2".into() },
        "ml",
        ShellSetupEvent::PtyAllocated(Err("no tty".into())),
    );
    assert!(matches!(a, ShellSetupAction::RemoveAndRefuse(ref s, ShellRefusal::Internal, ref m)
        if s == "s2" && m == "PTY allocation failed: no tty"));
    let (_, a) = shell_setup_step(ShellSetupPhase::AwaitingOpen, "ml", ShellSetupEvent::FirstMessage(None));
    assert!(matches!(a, ShellSetupAction::Refuse(ShellRefusal::InvalidArgument, ref m)
        if m == "stream closed before ShellOpen"));
}
