use pact::agent::auth::{
    claims_to_identity, extract_bearer_token, has_ops_role, has_viewer_role, is_platform_admin,
    jwks_url_for, map_jwt_error, select_keys, AuthConfig, AuthError, JwtErrorKind, Jwk,
    StringOrVec, TokenClaims,
};
use pact::agent::shell::authorize_exec;
use pact::agent::whitelist::WhitelistManager;
use pact::common::types::{Identity, PrincipalType};

fn ident(principal: &str, role: &str) -> Identity {
    Identity { principal: principal.into(), principal_type: PrincipalType::Human, role: role.into() }
}

#[test]
fn extract_bearer_token_valid() {
    assert_eq!(extract_bearer_token("Bearer abc123"), Some("abc123"));
    assert_eq!(extract_bearer_token("bearer abc123"), Some("abc123"));
}

#[test]
fn extract_bearer_token_invalid() {
    assert_eq!(extract_bearer_token("Basic abc123"), None);
    assert_eq!(extract_bearer_token("abc123"), None);
    assert_eq!(extract_bearer_token(""), None);
}

#[test]
fn is_platform_admin_check() {
    let admin = ident("admin@example.com", "pact-platform-admin");
    assert!(is_platform_admin(&admin));
    let ops = ident("ops@example.com", "pact-ops-ml");
    assert!(!is_platform_admin(&ops));
}

#[test]
fn has_ops_role_check() {
    let admin = ident("admin@example.com", "pact-platform-admin");
    assert!(has_ops_role(&admin, "ml-training"));
    assert!(has_ops_role(&admin, "anything"));

    let ops = ident("ops@example.com", "pact-ops-ml-training");
    assert!(has_ops_role(&ops, "ml-training"));
    assert!(!has_ops_role(&ops, "other-vcluster"));
}

#[test]
fn has_viewer_role_includes_ops_and_admin() {
    let viewer = ident("viewer@example.com", "pact-viewer-ml");
    assert!(has_viewer_role(&viewer, "ml"));
    assert!(!has_viewer_role(&viewer, "other"));
    let ops = ident("ops@example.com", "pact-ops-ml");
    assert!(has_viewer_role(&ops, "ml"));
}

#[test]
fn string_or_vec_contains() {
    assert!(!StringOrVec::Empty.contains("test"));

    let single = StringOrVec::Single("pact-agent".into());
    assert!(single.contains("pact-agent"));
    assert!(!single.contains("other"));

    let multi = StringOrVec::Multiple(vec!["pact-agent".into(), "pact-cli".into()]);
    assert!(multi.contains("pact-agent"));
    assert!(multi.contains("pact-cli"));
    assert!(!multi.contains("other"));
}

#[test]
fn jwks_url_derivation_from_issuer() {
    let config = AuthConfig {
        issuer: "https://auth.example.com".into(),
        audience: "pact".into(),
        hmac_secret: None,
        jwks_url: None,
    };
    let expected = "https://auth.example.com/.well-known/jwks.json";
    assert_eq!(jwks_url_for(&config), expected);

    let config2 = AuthConfig {
        issuer: "https://auth.example.com/".into(),
        audience: "pact".into(),
        hmac_secret: None,
        jwks_url: None,
    };
    assert_eq!(jwks_url_for(&config2), expected);

    let config3 = AuthConfig { jwks_url: Some("https://keys.example.com/jwks".into()), ..config2 };
    assert_eq!(jwks_url_for(&config3), "https://keys.example.com/jwks");
}

fn claims(role: Option<&str>, ptype: Option<&str>) -> TokenClaims {
    TokenClaims {
        sub: "admin@example.com".into(),
        aud: StringOrVec::Single("pact-agent".into()),
        iss: "https://auth.test.example.com".into(),
        exp: 0,
        iat: 0,
        pact_role: role.map(String::from),
        pact_principal_type: ptype.map(String::from),
    }
}

#[test]
fn claims_to_identity_human() {
    let identity = claims_to_identity(&claims(Some("pact-platform-admin"), None));
    assert_eq!(identity.principal, "admin@example.com");
    assert_eq!(identity.principal_type, PrincipalType::Human);
    assert_eq!(identity.role, "pact-platform-admin");
}

#[test]
fn claims_to_identity_service_agent() {
    let identity = claims_to_identity(&claims(Some("pact-service-agent"), Some("service")));
    assert_eq!(identity.principal_type, PrincipalType::Service);
    assert_eq!(identity.role, "pact-service-agent");
    let agent = claims_to_identity(&claims(None, Some("agent")));
    assert_eq!(agent.principal_type, PrincipalType::Agent);
    assert_eq!(agent.role, "");
}

#[test]
fn jwt_errors_map_to_auth_errors() {
    let config = AuthConfig {
        issuer: "https://iss".into(),
        audience: "aud".into(),
        hmac_secret: Some(b"k".to_vec()),
        jwks_url: None,
    };
    assert!(matches!(map_jwt_error(JwtErrorKind::ExpiredSignature, "x", &config), AuthError::TokenExpired));
    assert_eq!(
        map_jwt_error(JwtErrorKind::InvalidAudience, "x", &config).message(),
        "invalid audience: expected aud"
    );
    assert_eq!(
        map_jwt_error(JwtErrorKind::InvalidIssuer, "x", &config).message(),
        "invalid issuer: expected https://iss"
    );
    assert_eq!(map_jwt_error(JwtErrorKind::Other, "bad sig", &config).message(), "invalid token: bad sig");
    assert_eq!(AuthError::NoSigningKey.message(), "no signing key configured");
}

fn jwk(kty: &str, kid: Option<&str>, complete: bool) -> Jwk {
    Jwk {
        kty: kty.into(),
        kid: kid.map(String::from),
        alg: Some("RS256".into()),
        n: if complete { Some("n".into()) } else { None },
        e: Some("AQAB".into()),
        key_use: Some("sig".into()),
    }
}

#[test]
fn jwks_keys_selected_by_kid() {
    let keys = vec![
        jwk("RSA", Some("key-1"), true),
        jwk("RSA", Some("key-2"), true),
        jwk("EC", Some("key-2"), true),
        jwk("RSA", None, true),
        jwk("RSA", Some("key-2"), false),
    ];
    let m = select_keys(&keys, Some("key-2"));
    assert_eq!(m.len(), 1);
    assert_eq!(m[0].kid.as_deref(), Some("key-2"));
    let all = select_keys(&keys, None);
    assert_eq!(all.len(), 3);
    assert!(select_keys(&keys, Some("missing")).is_empty());
}

#[test]
fn shell_requires_ops_role() {
    let ops = ident("ops@example.com", "pact-ops-ml-training");
    assert!(has_ops_role(&ops, "ml-training"));

    let viewer = ident("viewer@example.com", "pact-viewer-ml-training");
    assert!(!has_ops_role(&viewer, "ml-training"));

    let admin = ident("admin@example.com", "pact-platform-admin");
    assert!(has_ops_role(&admin, "ml-training"));
}

#[test]
fn authorize_read_only_command_for_ops() {
    let mut wl = WhitelistManager::new(true);
    let ops = ident("ops@example.com", "pact-ops-ml-training");
    assert_eq!(authorize_exec(&mut wl, &ops, "ml-training", "ps").unwrap(), false);
    assert_eq!(authorize_exec(&mut wl, &ops, "ml-training", "systemctl").unwrap(), true);
}

#[test]
fn authorize_non_whitelisted_denied_and_recorded() {
    let mut wl = WhitelistManager::new(true);
    let ops = ident("ops@example.com", "pact-ops-ml-training");
    let err = authorize_exec(&mut wl, &ops, "ml-training", "vim").unwrap_err();
    assert_eq!(err.message(), "insufficient privileges: command not whitelisted: vim");
    assert_eq!(wl.denied_commands().to_vec(), vec!["vim".to_string()]);
}

#[test]
fn authorize_admin_bypasses_whitelist() {
    let mut wl = WhitelistManager::new(true);
    let admin = ident("admin@example.com", "pact-platform-admin");
    assert_eq!(authorize_exec(&mut wl, &admin, "ml-training", "vim").unwrap(), true);
    assert!(wl.denied_commands().is_empty());
}

#[test]
fn authorize_viewer_read_only_only() {
    let mut wl = WhitelistManager::new(false);
    let viewer = ident("viewer@example.com", "pact-viewer-ml-training");
    assert_eq!(authorize_exec(&mut wl, &viewer, "ml-training", "cat").unwrap(), false);
    let err = authorize_exec(&mut wl, &viewer, "ml-training", "systemctl").unwrap_err();
    assert_eq!(
        err.message(),
        "insufficient privileges: requires pact-ops-ml-training or pact-platform-admin role"
    );
    let stranger = ident("x@example.com", "pact-viewer-other");
    assert!(authorize_exec(&mut wl, &stranger, "ml-training", "cat").is_err());
}
