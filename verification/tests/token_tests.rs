use jsonwebtoken::{encode, EncodingKey, Header};
use pact::agent::auth::{AuthConfig, AuthError, Jwk, StringOrVec};
use pact::agent::token::{
    attempts_verdict, claims_from_fields, validate_token, validate_token_with_jwks, validate_with_keys, JsonField,
    TokenCheck,
};
use serde_json::Value;

const TEST_SECRET: &[u8] = b"test-secret-key-for-pact-development";
const TEST_ISSUER: &str = "https://auth.test.example.com";
const TEST_AUDIENCE: &str = "pact-agent";

fn test_config() -> AuthConfig {
    AuthConfig {
        issuer: TEST_ISSUER.into(),
        audience: TEST_AUDIENCE.into(),
        hmac_secret: Some(TEST_SECRET.to_vec()),
        jwks_url: None,
    }
}

fn now() -> i64 {
    chrono::Utc::now().timestamp()
}

fn valid_claims() -> serde_json::Map<String, Value> {
    let mut m = serde_json::Map::new();
    m.insert("sub".into(), Value::String("admin@example.com".into()));
    m.insert("aud".into(), Value::String(TEST_AUDIENCE.into()));
    m.insert("iss".into(), Value::String(TEST_ISSUER.into()));
    m.insert("exp".into(), Value::from(now() + 3600));
    m.insert("iat".into(), Value::from(now()));
    m.insert("pact_role".into(), Value::String("pact-platform-admin".into()));
    m.insert("pact_principal_type".into(), Value::Null);
    m
}

fn make_token(claims: &serde_json::Map<String, Value>) -> String {
    encode(&Header::default(), &Value::Object(claims.clone()), &EncodingKey::from_secret(TEST_SECRET)).unwrap()
}

#[test]
fn validate_valid_token() {
    let token = make_token(&valid_claims());
    let result = validate_token(&token, &test_config()).unwrap();
    assert_eq!(result.sub, "admin@example.com");
    assert_eq!(result.pact_role, Some("pact-platform-admin".into()));
    assert_eq!(result.iss, TEST_ISSUER);
    assert!(matches!(result.aud, StringOrVec::Single(ref a) if a == TEST_AUDIENCE));
    assert_eq!(result.pact_principal_type, None);
}

#[test]
fn validate_expired_token() {
    let mut claims = valid_claims();
    claims.insert("exp".into(), Value::from(now() - 3600));
    let result = validate_token(&make_token(&claims), &test_config());
    assert!(matches!(result, Err(AuthError::TokenExpired)));
}

#[test]
fn validate_wrong_audience() {
    let mut claims = valid_claims();
    claims.insert("aud".into(), Value::String("wrong-audience".into()));
    let result = validate_token(&make_token(&claims), &test_config());
    assert!(matches!(result, Err(AuthError::InvalidAudience(_))));
}

#[test]
fn validate_wrong_issuer() {
    let mut claims = valid_claims();
    claims.insert("iss".into(), Value::String("https://wrong-issuer.com".into()));
    let result = validate_token(&make_token(&claims), &test_config());
    assert!(matches!(result, Err(AuthError::InvalidIssuer(_))));
}

#[test]
fn validate_no_signing_key() {
    let token = make_token(&valid_claims());
    let config = AuthConfig {
        issuer: TEST_ISSUER.into(),
        audience: TEST_AUDIENCE.into(),
        hmac_secret: None,
        jwks_url: None,
    };
    let result = validate_token(&token, &config);
    assert!(matches!(result, Err(AuthError::NoSigningKey)));
}

#[test]
fn validate_garbage_token() {
    let result = validate_token("not.a.jwt", &test_config());
    assert!(matches!(result, Err(AuthError::InvalidToken(_))));
}

#[test]
fn wrong_secret_is_an_invalid_token() {
    let token = make_token(&valid_claims());
    let mut config = test_config();
    config.hmac_secret = Some(b"another-secret".to_vec());
    assert!(matches!(validate_token(&token, &config), Err(AuthError::InvalidToken(_))));
}

#[test]
fn missing_subject_is_reported() {
    let mut claims = valid_claims();
    claims.remove("sub");
    let result = validate_token(&make_token(&claims), &test_config());
    match result {
        Err(AuthError::InvalidToken(m)) => {
            assert_eq!(m, "invalid claims: member `sub` missing or of the wrong type")
        }
        other => panic!("unexpected {other:?}"),
    }
}

fn rsa_key(kid: Option<&str>) -> Jwk {
    Jwk {
        kty: "RSA".into(),
        kid: kid.map(String::from),
        alg: Some("RS256".into()),
        n: Some("AQAB".into()),
        e: Some("AQAB".into()),
        key_use: Some("sig".into()),
    }
}

#[test]
fn key_set_refusals() {
    let config = test_config();
    let token = make_token(&valid_claims());
    assert!(matches!(validate_with_keys(&token, &config, &[]), Err(AuthError::NoSigningKey)));
    match validate_with_keys("garbage", &config, &[rsa_key(None)]) {
        Err(AuthError::InvalidToken(_)) => {}
        other => panic!("unexpected {other:?}"),
    }
    let mut header = Header::default();
    header.kid = Some("k\"1".into());
    let with_kid = encode(&header, &Value::Object(valid_claims()), &EncodingKey::from_secret(TEST_SECRET)).unwrap();
    match validate_with_keys(&with_kid, &config, &[rsa_key(Some("other"))]) {
        Err(AuthError::InvalidToken(m)) => assert_eq!(m, "no matching JWKS key for kid Some(\"k\\\"1\")"),
        other => panic!("unexpected {other:?}"),
    }
    match validate_with_keys(&token, &config, &[Jwk { kty: "EC".into(), ..rsa_key(None) }]) {
        Err(AuthError::InvalidToken(m)) => assert_eq!(m, "no matching JWKS key for kid None"),
        other => panic!("unexpected {other:?}"),
    }
}

#[test]
fn hmac_first_then_key_set() {
    let token = make_token(&valid_claims());
    match validate_token_with_jwks(&token, &test_config(), None) {
        TokenCheck::Decided(Ok(c)) => assert_eq!(c.sub, "admin@example.com"),
        other => panic!("unexpected {other:?}"),
    }
    let mut no_secret = test_config();
    no_secret.hmac_secret = None;
    assert!(matches!(validate_token_with_jwks(&token, &no_secret, None), TokenCheck::NeedKeys));
    let mut wrong_secret = test_config();
    wrong_secret.hmac_secret = Some(b"another-secret".to_vec());
    assert!(matches!(validate_token_with_jwks(&token, &wrong_secret, None), TokenCheck::NeedKeys));
    let down = validate_token_with_jwks(&token, &no_secret, Some(Err(AuthError::JwksFetchError("down".into()))));
    assert!(matches!(down, TokenCheck::Decided(Err(AuthError::JwksFetchError(ref m))) if m == "down"));
    assert!(matches!(
        validate_token_with_jwks(&token, &wrong_secret, Some(Ok(vec![]))),
        TokenCheck::Decided(Err(AuthError::NoSigningKey))
    ));
}

#[test]
fn key_attempts_give_first_success_else_last_failure() {
    assert!(matches!(attempts_verdict(vec![]), Err(AuthError::NoSigningKey)));
    let fails = vec![Err(AuthError::TokenExpired), Err(AuthError::InvalidToken("bad".into()))];
    assert!(matches!(attempts_verdict(fails), Err(AuthError::InvalidToken(ref m)) if m == "bad"));
    let claims = claims_from_fields(&vec![("sub".to_string(), JsonField::Text("svc".into()))]).unwrap();
    let mixed = vec![Err(AuthError::TokenExpired), Ok(claims), Err(AuthError::InvalidToken("later".into()))];
    match attempts_verdict(mixed) {
        Ok(c) => assert_eq!(c.sub, "svc"),
        other => panic!("unexpected {other:?}"),
    }
}

#[test]
fn rs256_key_with_bad_components_is_an_invalid_token() {
    let config = test_config();
    let token = make_token(&valid_claims());
    let bad = Jwk { n: Some("!!".into()), ..rsa_key(None) };
    assert!(matches!(validate_with_keys(&token, &config, &[bad]), Err(AuthError::InvalidToken(_))));
}

#[test]
fn claims_defaults_and_audience_list() {
    let fs = vec![
        ("sub".to_string(), JsonField::Text("svc".into())),
        ("aud".to_string(), JsonField::List(vec![Some("a".into()), Some("b".into())])),
    ];
    let c = claims_from_fields(&fs).unwrap();
    assert_eq!(c.sub, "svc");
    assert_eq!(c.iss, "");
    assert_eq!(c.exp, 0);
    assert_eq!(c.iat, 0);
    assert!(matches!(c.aud, StringOrVec::Multiple(ref v) if v == &vec!["a".to_string(), "b".to_string()]));
    let bad = vec![
        ("sub".to_string(), JsonField::Text("svc".into())),
        ("exp".to_string(), JsonField::Number(None)),
    ];
    assert_eq!(
        claims_from_fields(&bad).unwrap_err(),
        "invalid claims: member `exp` missing or of the wrong type"
    );
    let mixed = vec![
        ("sub".to_string(), JsonField::Text("svc".into())),
        ("aud".to_string(), JsonField::List(vec![Some("a".into()), None])),
    ];
    assert_eq!(
        claims_from_fields(&mixed).unwrap_err(),
        "invalid claims: member `aud` missing or of the wrong type"
    );
}
