use std::collections::HashMap;
use std::time::{SystemTime, UNIX_EPOCH};

use pact::agent::session::{SessionError, SessionManager, SessionState, ShellSession};
use pact::common::types::{Identity, PrincipalType};

fn test_user() -> Identity {
    Identity {
        principal: "admin@example.com".into(),
        principal_type: PrincipalType::Human,
        role: "pact-ops-ml".into(),
    }
}

fn now() -> i64 {
    SystemTime::now().duration_since(UNIX_EPOCH).unwrap().as_secs() as i64
}

#[test]
fn session_lifecycle() {
    let mut session = ShellSession::new(
        test_user(),
        "node-001".into(),
        "ml-training".into(),
        24,
        80,
        "xterm-256color".into(),
    );

    assert_eq!(session.state, SessionState::Initializing);
    assert_eq!(session.commands_executed, 0);
    assert!(!session.session_id.is_empty());

    session.activate();
    assert_eq!(session.state, SessionState::Active);

    session.record_command();
    session.record_command();
    assert_eq!(session.commands_executed, 2);

    session.close();
    assert_eq!(session.state, SessionState::Closing);

    session.finalize();
    assert_eq!(session.state, SessionState::Closed);
}

#[test]
fn session_env_vars() {
    let session = ShellSession::new(
        test_user(),
        "node-001".into(),
        "ml-training".into(),
        24,
        80,
        "xterm-256color".into(),
    );

    let env = session.env_vars();
    let env_map: HashMap<_, _> = env.into_iter().collect();

    assert_eq!(env_map["PATH"], format!("/run/pact/shell/{}/bin", session.session_id));
    assert_eq!(env_map["TERM"], "xterm-256color");
    assert_eq!(env_map["SHELL"], "/bin/rbash");
    assert_eq!(env_map["BASH_ENV"], "");
    assert_eq!(env_map["ENV"], "");
    assert!(env_map["PROMPT_COMMAND"].contains(&session.session_id));
    assert!(env_map["PROMPT_COMMAND"].contains("admin@example.com"));
}

#[test]
fn session_bin_dir_includes_session_id() {
    let session = ShellSession::new(
        test_user(),
        "node-001".into(),
        "ml-training".into(),
        24,
        80,
        "xterm-256color".into(),
    );

    let bin_dir = session.bin_dir();
    assert!(bin_dir.starts_with("/run/pact/shell/"));
    assert!(bin_dir.ends_with("/bin"));
    assert!(bin_dir.contains(&session.session_id));
}

#[test]
fn session_duration() {
    let session = ShellSession::new(
        test_user(),
        "node-001".into(),
        "ml-training".into(),
        24,
        80,
        "xterm-256color".into(),
    );
    assert!(session.duration_seconds() >= 0);
    assert!(session.duration_seconds() < 2);
    assert_eq!(session.duration_at(session.started_at + 7), 7);
}

#[test]
fn session_manager_create_and_query() {
    let mut mgr = SessionManager::new(10);
    assert_eq!(mgr.count(), 0);

    let session = mgr
        .create_session(
            test_user(),
            "node-001".into(),
            "ml-training".into(),
            24,
            80,
            "xterm-256color".into(),
        )
        .unwrap();
    let sid = session.session_id.clone();

    assert_eq!(mgr.count(), 1);
    assert!(mgr.get(&sid).is_some());
    assert_eq!(mgr.get(&sid).unwrap().user.principal, "admin@example.com");
}

#[test]
fn session_manager_max_sessions() {
    let mut mgr = SessionManager::new(2);

    mgr.create_session(test_user(), "n1".into(), "vc".into(), 24, 80, "xterm".into()).unwrap();
    mgr.create_session(test_user(), "n1".into(), "vc".into(), 24, 80, "xterm".into()).unwrap();

    let result = mgr.create_session(test_user(), "n1".into(), "vc".into(), 24, 80, "xterm".into());
    assert!(matches!(result, Err(SessionError::MaxSessionsExceeded(2))));
    assert_eq!(mgr.count(), 2);
}

#[test]
fn session_manager_active_sessions() {
    let mut mgr = SessionManager::new(10);

    let s1 = mgr.create_session(test_user(), "n1".into(), "vc".into(), 24, 80, "xterm".into()).unwrap();
    let sid1 = s1.session_id.clone();
    let s2 = mgr.create_session(test_user(), "n1".into(), "vc".into(), 24, 80, "xterm".into()).unwrap();
    let sid2 = s2.session_id.clone();

    assert!(mgr.active_sessions().is_empty());

    mgr.get_mut(&sid1).unwrap().activate();
    assert_eq!(mgr.active_sessions().len(), 1);

    mgr.get_mut(&sid2).unwrap().activate();
    assert_eq!(mgr.active_sessions().len(), 2);

    mgr.get_mut(&sid1).unwrap().close();
    assert_eq!(mgr.active_sessions().len(), 1);
}

#[test]
fn session_manager_remove() {
    let mut mgr = SessionManager::new(10);
    let session = mgr.create_session(test_user(), "n1".into(), "vc".into(), 24, 80, "xterm".into()).unwrap();
    let sid = session.session_id.clone();

    assert_eq!(mgr.count(), 1);
    let removed = mgr.remove(&sid);
    assert!(removed.is_some());
    assert_eq!(mgr.count(), 0);
    assert!(mgr.get(&sid).is_none());
    assert!(mgr.remove(&sid).is_none());
}

#[test]
fn cleanup_stale_removes_old_closing_sessions() {
    let mut mgr = SessionManager::new(10);

    let s1 = mgr.create_session(test_user(), "n1".into(), "vc".into(), 24, 80, "xterm".into()).unwrap();
    let sid1 = s1.session_id.clone();
    mgr.get_mut(&sid1).unwrap().activate();
    mgr.get_mut(&sid1).unwrap().close();

    let s2 = mgr.create_session(test_user(), "n1".into(), "vc".into(), 24, 80, "xterm".into()).unwrap();
    let sid2 = s2.session_id.clone();
    mgr.get_mut(&sid2).unwrap().activate();

    assert_eq!(mgr.count(), 2);

    let stale = mgr.cleanup_stale(999_999);
    assert!(stale.is_empty());
    assert_eq!(mgr.count(), 2);

    mgr.get_mut(&sid1).unwrap().started_at = now() - 120;

    let stale = mgr.cleanup_stale(60);
    assert_eq!(stale.len(), 1);
    assert_eq!(stale[0], sid1);
    assert_eq!(mgr.count(), 1);

    assert!(mgr.get(&sid2).is_some());
    assert_eq!(mgr.get(&sid2).unwrap().state, SessionState::Active);
}

#[test]
fn cleanup_stale_at_fixed_time() {
    let mut mgr = SessionManager::new(10);
    let s = mgr.create_session(test_user(), "n".into(), "vc".into(), 24, 80, "xterm".into()).unwrap();
    let sid = s.session_id.clone();
    let started = s.started_at;
    mgr.get_mut(&sid).unwrap().close();
    assert!(mgr.cleanup_stale_at(60, started + 60).is_empty());
    assert_eq!(mgr.cleanup_stale_at(60, started + 61), vec![sid]);
    assert_eq!(mgr.count(), 0);
}

#[test]
fn env_vars_prevent_bash_escape_vectors() {
    let session = ShellSession::new(
        test_user(),
        "node-001".into(),
        "ml-training".into(),
        24,
        80,
        "xterm-256color".into(),
    );

    let env = session.env_vars();
    let env_map: HashMap<_, _> = env.into_iter().collect();

    assert_eq!(env_map["SHELL"], "/bin/rbash");
    assert!(env_map["BASH_ENV"].is_empty(), "BASH_ENV must be empty to prevent startup injection");
    assert!(env_map["ENV"].is_empty(), "ENV must be empty to prevent startup injection");
    assert!(!env_map["PATH"].contains("/usr/bin"));
    assert!(!env_map["PATH"].contains("/usr/sbin"));
    assert!(env_map["PATH"].starts_with("/run/pact/shell/"));
    assert_eq!(env_map["HOME"], "/tmp");
}

#[test]
fn session_error_messages() {
    assert_eq!(SessionError::MaxSessionsExceeded(4).message(), "maximum concurrent sessions (4) exceeded");
    assert_eq!(SessionError::NotFound("s1".into()).message(), "session not found: s1");
}
