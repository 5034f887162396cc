use pact::agent::whitelist::WhitelistManager;

#[test]
fn default_whitelist_includes_diagnostics() {
    let mgr = WhitelistManager::new(false);
    assert!(mgr.is_exec_allowed("nvidia-smi"));
    assert!(mgr.is_exec_allowed("dmesg"));
    assert!(mgr.is_exec_allowed("ps"));
    assert!(mgr.is_exec_allowed("cat"));
    assert!(mgr.is_exec_allowed("ip"));
}

#[test]
fn default_whitelist_excludes_risky_commands() {
    let mgr = WhitelistManager::new(false);
    assert!(!mgr.is_exec_allowed("vi"));
    assert!(!mgr.is_exec_allowed("vim"));
    assert!(!mgr.is_exec_allowed("python"));
    assert!(!mgr.is_exec_allowed("python3"));
    assert!(!mgr.is_exec_allowed("bash"));
    assert!(!mgr.is_exec_allowed("sh"));
    assert!(!mgr.is_exec_allowed("less"));
    assert!(!mgr.is_exec_allowed("find"));
}

#[test]
fn state_changing_classification() {
    let mgr = WhitelistManager::new(false);
    assert!(!mgr.is_state_changing("nvidia-smi"));
    assert!(!mgr.is_state_changing("ps"));
    assert!(!mgr.is_state_changing("cat"));
    assert!(!mgr.is_state_changing("dmesg"));

    assert!(mgr.is_state_changing("systemctl"));
    assert!(mgr.is_state_changing("modprobe"));
    assert!(mgr.is_state_changing("umount"));
    assert!(mgr.is_state_changing("sysctl"));
    assert!(mgr.is_state_changing("ip"));
    assert!(mgr.is_state_changing("mount"));
}

#[test]
fn state_changing_unknown_command() {
    let mgr = WhitelistManager::new(false);
    assert!(!mgr.is_state_changing("unknown-cmd"));
}

#[test]
fn learning_mode_records_denied() {
    let mut mgr = WhitelistManager::new(true);
    mgr.record_denied("vim");
    mgr.record_denied("python3");
    mgr.record_denied("vim"); // duplicate

    assert_eq!(mgr.denied_commands().len(), 2);
    assert!(mgr.denied_commands().contains(&"vim".to_string()));
    assert!(mgr.denied_commands().contains(&"python3".to_string()));

    mgr.clear_denied();
    assert!(mgr.denied_commands().is_empty());
}

#[test]
fn learning_mode_off_does_not_record() {
    let mut mgr = WhitelistManager::new(false);
    mgr.record_denied("vim");
    assert!(mgr.denied_commands().is_empty());
}

#[test]
fn update_exec_whitelist_from_policy() {
    let mut mgr = WhitelistManager::new(false);
    assert!(!mgr.is_exec_allowed("custom-tool"));

    mgr.update_exec_whitelist(&["custom-tool".into()]);
    assert!(mgr.is_exec_allowed("custom-tool"));
    assert!(!mgr.is_state_changing("custom-tool"));
}

#[test]
fn update_shell_whitelist_from_policy() {
    let mut mgr = WhitelistManager::new(false);
    assert!(!mgr.is_shell_allowed("custom-diag"));

    mgr.update_shell_whitelist(&["custom-diag".into()]);
    assert!(mgr.is_shell_allowed("custom-diag"));
}

#[test]
fn update_whitelist_does_not_replace_existing() {
    let mut mgr = WhitelistManager::new(false);
    let original = mgr
        .exec_commands()
        .iter()
        .find(|e| e.command == "nvidia-smi")
        .unwrap()
        .description
        .clone();
    mgr.update_exec_whitelist(&["nvidia-smi".into()]);
    let after = mgr
        .exec_commands()
        .iter()
        .find(|e| e.command == "nvidia-smi")
        .unwrap()
        .description
        .clone();
    assert_eq!(original, after);
    assert_eq!(after, "NVIDIA GPU status and diagnostics");
}

#[test]
fn policy_entries_have_policy_description_and_appear_once() {
    let mut mgr = WhitelistManager::new(false);
    let before = mgr.exec_commands().len();
    mgr.update_exec_whitelist(&["tool-a".into(), "tool-a".into(), "ps".into()]);
    let cmds = mgr.exec_commands();
    assert_eq!(cmds.len(), before + 1);
    let e = cmds.iter().find(|e| e.command == "tool-a").unwrap();
    assert_eq!(e.description, "Added from vCluster policy");
    assert!(!e.state_changing);
    assert!(e.binary_path.is_none());
}

#[test]
fn exec_commands_sorted() {
    let mgr = WhitelistManager::new(false);
    let commands = mgr.exec_commands();
    let names: Vec<&str> = commands.iter().map(|e| e.command.as_str()).collect();
    let mut sorted = names.clone();
    sorted.sort_unstable();
    assert_eq!(names, sorted);
}

#[test]
fn default_whitelist_has_all_entries_in_both_tables() {
    let mgr = WhitelistManager::new(false);
    assert_eq!(mgr.exec_commands().len(), 38);
    assert_eq!(mgr.shell_commands().len(), 38);
    let shell: Vec<&str> = mgr.shell_commands().iter().map(|e| e.command.as_str()).collect();
    let mut sorted = shell.clone();
    sorted.sort_unstable();
    assert_eq!(shell, sorted);
}

#[test]
fn shell_command_names_returns_set() {
    let mgr = WhitelistManager::new(false);
    let names = mgr.shell_command_names();
    assert!(names.contains(&"nvidia-smi"));
    assert!(names.contains(&"ps"));
    assert!(!names.contains(&"vim"));
    let mut dedup = names.clone();
    dedup.sort_unstable();
    dedup.dedup();
    assert_eq!(dedup.len(), names.len());
}

#[test]
fn audit_escape_vectors_detects_risky() {
    let risky = WhitelistManager::audit_escape_vectors(&["vi", "ps", "python", "cat", "bash"]);
    assert_eq!(risky.len(), 3);

    let risky_names: Vec<&str> = risky.iter().map(|(name, _)| name.as_str()).collect();
    assert!(risky_names.contains(&"vi"));
    assert!(risky_names.contains(&"python"));
    assert!(risky_names.contains(&"bash"));
}

#[test]
fn audit_escape_vectors_keeps_order_and_reasons() {
    let risky = WhitelistManager::audit_escape_vectors(&["find", "awk", "vim"]);
    assert_eq!(
        risky,
        vec![
            ("find".to_string(), "-exec flag enables arbitrary execution".to_string()),
            ("awk".to_string(), "system() function enables execution".to_string()),
            ("vim".to_string(), "Can spawn :!bash \u{2014} use 'view' (read-only) instead".to_string()),
        ]
    );
}

#[test]
fn audit_escape_vectors_safe_commands() {
    let risky = WhitelistManager::audit_escape_vectors(&["ps", "cat", "nvidia-smi", "dmesg"]);
    assert!(risky.is_empty());
}

#[test]
fn validate_args_blocks_shadow() {
    let result = WhitelistManager::validate_args("cat", &["/etc/shadow".into()]);
    assert!(result.is_err());
    assert!(result.unwrap_err().contains("sensitive path"));
}

#[test]
fn validate_args_blocks_root_home() {
    let result = WhitelistManager::validate_args("cat", &["/root/.bashrc".into()]);
    assert!(result.is_err());
}

#[test]
fn validate_args_blocks_ssh_keys() {
    let result = WhitelistManager::validate_args("cat", &["/home/user/.ssh/id_rsa".into()]);
    assert!(result.is_err());
}

#[test]
fn validate_args_blocks_path_traversal() {
    let result = WhitelistManager::validate_args("cat", &["/var/log/../../etc/shadow".into()]);
    assert!(result.is_err());
}

#[test]
fn validate_args_allows_safe_paths() {
    assert!(WhitelistManager::validate_args("cat", &["/var/log/syslog".into()]).is_ok());
    assert!(WhitelistManager::validate_args("cat", &["/proc/cpuinfo".into()]).is_ok());
    assert!(WhitelistManager::validate_args("nvidia-smi", &[]).is_ok());
    assert!(WhitelistManager::validate_args("ps", &["aux".into()]).is_ok());
}

#[test]
fn validate_args_non_reader_allows_sensitive_flag() {
    assert!(WhitelistManager::validate_args("ping", &["-c".into(), "1".into()]).is_ok());
}

#[test]
fn validate_args_blocks_ca_keys() {
    let result = WhitelistManager::validate_args("cat", &["/etc/pact/ca/key.pem".into()]);
    assert!(result.is_err());
}

#[test]
fn validate_args_messages_name_command_and_argument() {
    let e = WhitelistManager::validate_args("ls", &["-l".into(), "/root/x".into()]).unwrap_err();
    assert_eq!(e, "access denied: ls cannot access /root/x (sensitive path)");
    // A trailing slash is dropped by normalization, so `/root/` is no blocked path.
    assert!(WhitelistManager::validate_args("ls", &["/root/".into()]).is_ok());
    // `/root` alone is no blocked path, but a sensitive prefix for readers.
    let e = WhitelistManager::validate_args("head", &["/root".into()]).unwrap_err();
    assert_eq!(e, "access denied: head cannot read /root (sensitive path)");
    assert!(WhitelistManager::validate_args("ls", &["/root".into()]).is_ok());
}

#[test]
fn validate_args_relative_traversal_is_normalized() {
    // A relative argument with `..` is checked as an absolute path.
    let e = WhitelistManager::validate_args("cat", &["a/../../etc/gshadow".into()]);
    assert!(e.is_err());
    assert!(WhitelistManager::validate_args("cat", &["a/../b/./c".into()]).is_ok());
}

#[test]
fn new_manager_lists_all_defaults_without_escape_vectors() {
    let mgr = WhitelistManager::new(false);
    let names: Vec<&str> = mgr.exec_commands().iter().map(|e| e.command.as_str()).collect();
    assert_eq!(names.len(), 38);
    assert!(WhitelistManager::audit_escape_vectors(&names).is_empty());
    for n in &names {
        assert_eq!(mgr.is_exec_allowed(n), mgr.is_shell_allowed(n));
    }
}
