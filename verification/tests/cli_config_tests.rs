use pact::cli::apply::{
    format_spec_summary, spec_to_delta, ApplySpec, FileSpec, MountSpec, ServiceSpec, VClusterSpec,
};
use pact::cli::config::{CliConfig, OutputFormat};
use pact::text::join_path;
use pact::cli::execute::{
    agent_address, endpoint_uri, identity_from_claims, identity_from_fields, is_local_node, parse_scope_filter,
    resolve_identity_from_token, uses_tls, AuthInterceptor, TlsOptions,
};
use jsonwebtoken::{encode, EncodingKey, Header};
use pact::agent::token::JsonField;
use pact::cli::node::{parse_smd_enrollment_data, SmdComponent, SmdEthernetInterface};
use pact::common::types::{DeltaAction, Scope};

fn empty_vcluster() -> VClusterSpec {
    VClusterSpec { sysctl: vec![], mounts: vec![], files: vec![], services: vec![], network: vec![], packages: vec![] }
}

#[test]
fn default_config_values() {
    let config = CliConfig::default();
    assert_eq!(config.endpoint, "http://localhost:9443");
    assert!(config.token.is_none());
    assert!(config.default_vcluster.is_none());
    assert_eq!(config.output_format, OutputFormat::Text);
    assert_eq!(config.timeout_seconds, 30);
}

#[test]
fn env_overrides_apply() {
    let config = CliConfig::default();
    // No override values: the defaults stay.
    let overridden = config.with_overrides(None, None, None, None);
    assert_eq!(overridden.endpoint, "http://localhost:9443");
}

#[test]
fn overrides_replace_settings() {
    let config = CliConfig::default().with_overrides(
        Some("https://journal.prod:9443".into()),
        Some("tok".into()),
        Some("ml-training".into()),
        Some("json".into()),
    );
    assert_eq!(config.endpoint, "https://journal.prod:9443");
    assert_eq!(config.token.as_deref(), Some("tok"));
    assert_eq!(config.default_vcluster.as_deref(), Some("ml-training"));
    assert_eq!(config.output_format, OutputFormat::Json);
    let text = CliConfig::default().with_overrides(None, None, None, Some("yaml".into()));
    assert_eq!(text.output_format, OutputFormat::Text);
}

#[test]
fn resolve_vcluster_from_arg() {
    let config = CliConfig::default();
    let vc = config.resolve_vcluster(Some("ml-train")).unwrap();
    assert_eq!(vc, "ml-train");
}

#[test]
fn resolve_vcluster_from_default() {
    let config = CliConfig { default_vcluster: Some("ml-train".into()), ..Default::default() };
    let vc = config.resolve_vcluster(None).unwrap();
    assert_eq!(vc, "ml-train");
}

#[test]
fn resolve_vcluster_missing_fails() {
    let config = CliConfig::default();
    let result = config.resolve_vcluster(None);
    assert!(result.is_err());
}

#[test]
fn resolve_token_from_explicit() {
    let config = CliConfig { token: Some("my-token".into()), ..Default::default() };
    let token = config.resolve_token_from(None).unwrap();
    assert_eq!(token, "my-token");
}

#[test]
fn resolve_token_missing_fails() {
    let config = CliConfig { token: None, token_path: "/nonexistent/path/token".into(), ..Default::default() };
    let result = config.resolve_token_from(None);
    assert!(result.is_err());
    assert!(result.unwrap_err().ends_with("/nonexistent/path/token"));
}

#[test]
fn resolve_token_from_file() {
    let config = CliConfig { token: None, token_path: "/tmp/token".into(), ..Default::default() };
    let token = config.resolve_token_from(Some("file-token\n")).unwrap();
    assert_eq!(token, "file-token");
}

#[test]
fn resolve_token_blank_file_fails() {
    let config = CliConfig { token: None, token_path: "/tmp/token".into(), ..Default::default() };
    assert!(config.resolve_token_from(Some(" \n\t")).is_err());
}

#[test]
fn join_path_adds_separator() {
    assert_eq!(join_path("/home/u/.config", "pact/token"), "/home/u/.config/pact/token");
}

#[test]
fn parse_scope_filter_node() {
    let scope = parse_scope_filter("node:node-042");
    assert!(matches!(scope, Scope::Node(ref n) if n == "node-042"));
}

#[test]
fn parse_scope_filter_vcluster() {
    let scope = parse_scope_filter("vc:ml-training");
    assert!(matches!(scope, Scope::VCluster(ref v) if v == "ml-training"));
}

#[test]
fn parse_scope_filter_global() {
    let scope = parse_scope_filter("global");
    assert!(matches!(scope, Scope::Global));
}

#[test]
fn resolve_identity_from_valid_jwt() {
    let mut claims = serde_json::Map::new();
    claims.insert("sub".into(), serde_json::Value::String("alice@example.com".into()));
    claims.insert("pact_role".into(), serde_json::Value::String("pact-ops-ml-training".into()));
    claims.insert("exp".into(), serde_json::Value::from(9_999_999_999u64));
    let token =
        encode(&Header::default(), &serde_json::Value::Object(claims), &EncodingKey::from_secret(b"test-secret"))
            .unwrap();

    let (principal, role) = resolve_identity_from_token(&token);
    assert_eq!(principal, "alice@example.com");
    assert_eq!(role, "pact-ops-ml-training");
}

#[test]
fn resolve_identity_from_invalid_token_returns_defaults() {
    let (principal, role) = resolve_identity_from_token("not-a-jwt");
    assert_eq!(principal, "cli-user");
    assert_eq!(role, "pact-platform-admin");
}

#[test]
fn resolve_identity_from_empty_token_returns_defaults() {
    let (principal, role) = resolve_identity_from_token("");
    assert_eq!(principal, "cli-user");
    assert_eq!(role, "pact-platform-admin");
}

#[test]
fn identity_from_fields_reads_like_a_typed_decode() {
    let (p, r) = identity_from_fields(Some(vec![
        ("sub".to_string(), JsonField::Text("bob".into())),
        ("pact_role".to_string(), JsonField::Null),
    ]));
    assert_eq!((p.as_str(), r.as_str()), ("bob", "pact-platform-admin"));
    let (p, r) = identity_from_fields(Some(vec![
        ("sub".to_string(), JsonField::Number(Some(7))),
        ("pact_role".to_string(), JsonField::Text("ops".into())),
    ]));
    assert_eq!((p.as_str(), r.as_str()), ("cli-user", "pact-platform-admin"));
    let (p, r) = identity_from_fields(None);
    assert_eq!((p.as_str(), r.as_str()), ("cli-user", "pact-platform-admin"));
    let (principal, role) = identity_from_claims(false, Some("x".into()), Some("y".into()));
    assert_eq!(principal, "cli-user");
    assert_eq!(role, "pact-platform-admin");
}

#[test]
fn resolve_identity_from_claims_uses_subject_and_role() {
    let (principal, role) =
        identity_from_claims(true, Some("alice@example.com".into()), Some("pact-ops-ml-training".into()));
    assert_eq!(principal, "alice@example.com");
    assert_eq!(role, "pact-ops-ml-training");
    let (p2, r2) = identity_from_claims(true, None, None);
    assert_eq!(p2, "cli-user");
    assert_eq!(r2, "pact-platform-admin");
}

#[test]
fn tls_options_default_is_empty() {
    let opts = TlsOptions::default();
    assert!(opts.ca_cert.is_none());
    assert!(opts.client_cert.is_none());
    assert!(opts.client_key.is_none());
    assert!(!opts.has_client_identity());
}

#[test]
fn resolve_agent_address_local_returns_localhost() {
    assert_eq!(agent_address("local"), "http://127.0.0.1:9445");
}

#[test]
fn resolve_agent_address_localhost_returns_localhost() {
    assert_eq!(agent_address("localhost"), "http://127.0.0.1:9445");
    assert!(is_local_node("localhost"));
}

#[test]
fn agent_address_remote_node() {
    assert_eq!(agent_address("node042"), "http://node042:9445");
    assert!(!is_local_node("node042"));
}

#[test]
fn endpoint_uri_and_tls() {
    assert_eq!(endpoint_uri("journal:9443"), "http://journal:9443");
    assert_eq!(endpoint_uri("https://journal:9443"), "https://journal:9443");
    assert!(uses_tls("https://journal:9443", false));
    assert!(uses_tls("http://journal:9443", true));
    assert!(!uses_tls("http://journal:9443", false));
}

#[test]
fn auth_interceptor_bearer_value() {
    assert_eq!(AuthInterceptor::new("abc".into()).authorization_value().as_deref(), Some("Bearer abc"));
    assert!(AuthInterceptor::new(String::new()).authorization_value().is_none());
}

#[test]
fn parse_smd_enrollment_data_matches_components_to_interfaces() {
    let components = vec![
        SmdComponent {
            id: "x1000c0s0b0n0".to_string(),
            state: "Ready".to_string(),
            component_type: "Node".to_string(),
            role: "Compute".to_string(),
        },
        SmdComponent {
            id: "x1000c0s0b0n1".to_string(),
            state: "Ready".to_string(),
            component_type: "Node".to_string(),
            role: "Compute".to_string(),
        },
    ];
    let interfaces = vec![SmdEthernetInterface {
        id: "x1000c0s0b0n0:eth0".to_string(),
        mac_address: "aa:bb:cc:dd:ee:ff".to_string(),
        component_id: "x1000c0s0b0n0".to_string(),
    }];

    let result = parse_smd_enrollment_data(&components, &interfaces);
    assert_eq!(result.len(), 2);
    assert_eq!(result[0], ("x1000c0s0b0n0".to_string(), "aa:bb:cc:dd:ee:ff".to_string()));
    // Second component has no interface, so MAC is empty
    assert_eq!(result[1], ("x1000c0s0b0n1".to_string(), String::new()));
}

#[test]
fn parse_smd_enrollment_data_empty_inputs() {
    let result = parse_smd_enrollment_data(&[], &[]);
    assert!(result.is_empty());
}

#[test]
fn parse_smd_enrollment_first_interface_wins() {
    let components =
        vec![SmdComponent { id: "n0".into(), state: "Ready".into(), component_type: "Node".into(), role: "Compute".into() }];
    let interfaces = vec![
        SmdEthernetInterface { id: "n0:eth0".into(), mac_address: "11".into(), component_id: "n0".into() },
        SmdEthernetInterface { id: "n0:eth1".into(), mac_address: "22".into(), component_id: "n0".into() },
    ];
    assert_eq!(parse_smd_enrollment_data(&components, &interfaces)[0].1, "11");
}

#[test]
fn spec_to_delta_converts_all_categories() {
    let mut vc = empty_vcluster();
    vc.sysctl.push(("vm.nr_hugepages".into(), "1024".into()));
    vc.mounts.push((
        "/scratch".into(),
        MountSpec { fs_type: "nfs".into(), source: "storage:/scratch".into(), options: String::new() },
    ));
    vc.services.push(("chronyd".into(), ServiceSpec { state: "running".into() }));
    vc.packages.push(("cuda".into(), "12.4".into()));
    let delta = spec_to_delta(&vc);
    assert_eq!(delta.kernel.len(), 1);
    assert_eq!(delta.mounts.len(), 1);
    assert_eq!(delta.services.len(), 1);
    assert_eq!(delta.packages.len(), 1);
}

#[test]
fn spec_to_delta_item_values() {
    let mut vc = empty_vcluster();
    vc.sysctl.push(("vm.swappiness".into(), "10".into()));
    vc.files.push((
        "/etc/motd".into(),
        FileSpec { content_hash: Some("sha256:ab".into()), mode: None, owner: None },
    ));
    let delta = spec_to_delta(&vc);
    assert_eq!(delta.kernel[0].action, DeltaAction::Modify);
    assert_eq!(delta.kernel[0].key, "vm.swappiness");
    assert_eq!(delta.kernel[0].value.as_deref(), Some("10"));
    assert!(delta.kernel[0].previous.is_none());
    assert_eq!(delta.files.len(), 1);
    assert_eq!(delta.files[0].key, "/etc/motd");
}

#[test]
fn format_summary_shows_changes() {
    let mut vc = empty_vcluster();
    vc.sysctl.push(("vm.nr_hugepages".into(), "1024".into()));
    vc.services.push(("chronyd".into(), ServiceSpec { state: "running".into() }));
    let spec = ApplySpec { vcluster: vec![("ml-training".into(), vc)] };
    let summary = format_spec_summary(&spec);
    assert!(summary.contains("ml-training: 2 changes"));
    assert!(summary.contains("sysctl: vm.nr_hugepages"));
    assert!(summary.contains("service: chronyd"));
}

#[test]
fn format_summary_exact_lines() {
    let mut vc = empty_vcluster();
    vc.mounts.push((
        "/scratch".into(),
        MountSpec { fs_type: "nfs".into(), source: "s:/x".into(), options: String::new() },
    ));
    let spec = ApplySpec { vcluster: vec![("dev".into(), vc)] };
    assert_eq!(format_spec_summary(&spec), "vCluster dev: 1 changes\n  mount: /scratch (nfs:s:/x)");
}

#[test]
fn empty_spec_summary_is_empty() {
    let spec = ApplySpec { vcluster: vec![] };
    assert_eq!(format_spec_summary(&spec), "");
}
