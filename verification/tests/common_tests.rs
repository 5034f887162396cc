use pact::common::config::{
    default_blacklist_patterns, BlacklistConfig, DelegationConfig, ObserverConfig, ShellConfig,
    SupervisorConfig, TelemetryConfig,
};
use pact::common::identity::{GroupEntry, OrgIndex, UidMap};
use pact::common::node_mgmt::{NodeMgmtBackendType, NodeMgmtError};
use pact::common::overlay::{compute_overlay_checksum, BootOverlay};
use pact::common::types::SupervisorBackend;

#[test]
fn uid_map_precursor_computation() {
    let map = UidMap::new();
    assert_eq!(map.uid_precursor(0), 10_000); // local
    assert_eq!(map.uid_precursor(1), 20_000); // partner-a
    assert_eq!(map.uid_precursor(2), 30_000); // partner-b
    assert_eq!(map.gid_precursor(0), 10_000);
    assert_eq!(map.gid_precursor(1), 20_000);
}

#[test]
fn uid_map_assign_and_lookup() {
    let mut map = UidMap::new();
    map.org_indices.push(OrgIndex { org: "local".into(), index: 0 });

    let entry =
        map.assign_uid("user@cscs.ch", "pwitlox", "local", "/users/pwitlox", "/bin/bash").unwrap();
    assert_eq!(entry.uid, 10_000);
    assert_eq!(entry.gid, 10_000);
    assert_eq!(entry.username, "pwitlox");

    let entry2 =
        map.assign_uid("user2@cscs.ch", "jdoe", "local", "/users/jdoe", "/bin/bash").unwrap();
    assert_eq!(entry2.uid, 10_001);

    assert_eq!(map.get_by_uid(10_000).unwrap().username, "pwitlox");
    assert_eq!(map.get_by_username("jdoe").unwrap().uid, 10_001);
}

#[test]
fn uid_map_idempotent_assign() {
    let mut map = UidMap::new();
    map.org_indices.push(OrgIndex { org: "local".into(), index: 0 });

    let e1 =
        map.assign_uid("user@cscs.ch", "pwitlox", "local", "/users/pwitlox", "/bin/bash").unwrap();
    let e2 =
        map.assign_uid("user@cscs.ch", "pwitlox", "local", "/users/pwitlox", "/bin/bash").unwrap();
    assert_eq!(e1.uid, e2.uid);
}

#[test]
fn uid_map_range_exhaustion() {
    let mut map = UidMap { stride: 2, ..UidMap::new() };
    map.org_indices.push(OrgIndex { org: "small".into(), index: 0 });

    map.assign_uid("u1@x", "u1", "small", "/u1", "/bin/bash").unwrap();
    map.assign_uid("u2@x", "u2", "small", "/u2", "/bin/bash").unwrap();
    let err = map.assign_uid("u3@x", "u3", "small", "/u3", "/bin/bash");
    assert!(err.is_err());
    assert!(err.unwrap_err().message().contains("exhausted"));
}

#[test]
fn uid_map_federation_gc() {
    let mut map = UidMap::new();
    map.org_indices.push(OrgIndex { org: "local".into(), index: 0 });
    map.org_indices.push(OrgIndex { org: "partner".into(), index: 1 });

    map.assign_uid("u1@local", "u1", "local", "/u1", "/bin/bash").unwrap();
    map.assign_uid("u2@partner", "u2", "partner", "/u2", "/bin/bash").unwrap();

    assert_eq!(map.users.len(), 2);

    map.gc_org("partner");
    assert_eq!(map.users.len(), 1);
    assert!(map.get_by_username("u1").is_some());
    assert!(map.get_by_username("u2").is_none());
    assert!(map.org_index("partner").is_none());
}

#[test]
fn federation_gc_drops_departed_users_from_groups() {
    let mut map = UidMap::new();
    map.org_indices.push(OrgIndex { org: "local".into(), index: 0 });
    map.org_indices.push(OrgIndex { org: "partner".into(), index: 1 });
    map.assign_uid("u1@local", "u1", "local", "/u1", "/bin/bash").unwrap();
    map.assign_uid("u2@partner", "u2", "partner", "/u2", "/bin/bash").unwrap();
    map.groups.push(GroupEntry {
        name: "research".into(),
        gid: 5000,
        members: vec!["u1".into(), "u2".into(), "guest".into()],
    });

    map.gc_org("partner");
    assert_eq!(map.groups.len(), 1);
    assert_eq!(map.groups[0].name, "research");
    assert_eq!(map.groups[0].gid, 5000);
    assert_eq!(map.groups[0].members, vec!["u1".to_string(), "guest".to_string()]);
}

#[test]
fn uid_map_unregistered_org_fails() {
    let mut map = UidMap::new();
    let r = map.assign_uid("u@x", "u", "nowhere", "/u", "/bin/bash");
    assert!(r.is_err());
    assert!(map.users.is_empty());
}

#[test]
fn uid_map_partner_range_starts_at_its_precursor() {
    let mut map = UidMap::new();
    map.org_indices.push(OrgIndex { org: "local".into(), index: 0 });
    map.org_indices.push(OrgIndex { org: "partner".into(), index: 1 });
    let e = map.assign_uid("p@partner", "p", "partner", "/p", "/bin/sh").unwrap();
    assert_eq!(e.uid, 20_000);
    assert_eq!(e.gid, 20_000);
    assert_eq!(e.org, "partner");
}

#[test]
fn overlay_checksum_is_deterministic_and_sixteen_hex_digits() {
    let a = compute_overlay_checksum(b"overlay-data");
    let b = compute_overlay_checksum(b"overlay-data");
    assert_eq!(a, b);
    assert!(a.chars().all(|c| c.is_ascii_hexdigit()));
    let o = BootOverlay::new("ml".into(), 3, b"overlay-data".to_vec());
    assert_eq!(o.checksum, a);
    assert_eq!(o.version, 3);
    assert_ne!(compute_overlay_checksum(b"x"), compute_overlay_checksum(b"y"));
}

#[test]
fn defaults_are_sensible() {
    let config = TelemetryConfig::default();
    assert_eq!(config.log_level, "info");
    assert_eq!(config.log_format, "text");
    assert!(!config.prometheus_enabled);
}

#[test]
fn delegation_config_defaults() {
    let config = DelegationConfig::default();
    assert!(config.lattice_endpoint.is_none());
    assert!(config.lattice_token.is_none());
    assert!(config.openchami_smd_url.is_none());
    assert!(config.openchami_token.is_none());
    assert_eq!(config.timeout_secs, 30);
}

#[test]
fn blacklist_default_patterns() {
    let config = BlacklistConfig::default();
    assert!(config.patterns.contains(&"/tmp/**".to_string()));
    assert!(config.patterns.contains(&"/proc/**".to_string()));
    assert!(!config.patterns.is_empty());
}

#[test]
fn other_config_defaults() {
    assert_eq!(SupervisorConfig::default().backend, SupervisorBackend::Pact);
    let o = ObserverConfig::default();
    assert!(!o.ebpf_enabled && o.inotify_enabled && o.netlink_enabled);
    let s = ShellConfig::default();
    assert!(s.enabled);
    assert_eq!(s.listen, "0.0.0.0:9445");
    assert_eq!(s.whitelist_mode, "learning");
    assert!(s.auth.is_none());
    assert_eq!(default_blacklist_patterns().len(), 6);
}

#[test]
fn backend_type_display_names() {
    assert_eq!(NodeMgmtBackendType::Csm.display_name(), "CSM");
    assert_eq!(NodeMgmtBackendType::Ochami.display_name(), "OpenCHAMI");
}

#[test]
fn error_messages() {
    let e = NodeMgmtError::NotConfigured;
    assert_eq!(e.message(), "node management backend not configured");

    let e = NodeMgmtError::BackendError { status: 500, body: "internal".into() };
    assert!(e.message().contains("500"));

    let e = NodeMgmtError::NoBootTemplate("x1000c0s0b0n0".into());
    assert!(e.message().contains("x1000c0s0b0n0"));
}
