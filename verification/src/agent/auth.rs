//! OIDC bearer tokens: extraction from request metadata, the claims they
//! carry, role checks, and the choice of verification keys.
//!
//! Tokens arrive as `authorization: Bearer <token>`.  The signature, expiry,
//! audience and issuer checks are made by the JWT library; this module
//! decides which keys are tried, maps the library's failures to
//! [`AuthError`] and turns claims into an [`Identity`].

use vstd::prelude::*;

use crate::common::types::{clone_opt_string, Identity, PrincipalType};
use crate::text::{
    chars_of, push_chars, push_str, starts_with, starts_with_exec, str_eq, string_eq_str,
    string_from, string_of, views,
};
use vstd::string::StrSliceExecFns;

verus! {

broadcast use vstd::string::group_string_axioms;

/// JWT `aud` can be a string or an array of strings.
#[derive(Debug)]
pub enum StringOrVec {
    /// No audience claim.
    Empty,
    Single(String),
    Multiple(Vec<String>),
}

impl Default for StringOrVec {
    fn default() -> (r: Self)
        ensures
            r is Empty,
    {
        StringOrVec::Empty
    }
}

impl StringOrVec {
    /// Whether the audience names `value`.
    pub fn contains(&self, value: &str) -> (r: bool)
        ensures
            r == match self {
                StringOrVec::Empty => false,
                StringOrVec::Single(s) => s@ == value@,
                StringOrVec::Multiple(v) => views(v@).contains(value@),
            },
    {
        match self {
            StringOrVec::Empty => false,
            StringOrVec::Single(s) => string_eq_str(s, value),
            StringOrVec::Multiple(v) => {
                let mut i: usize = 0;
                while i < v.len()
                    invariant
                        i <= v@.len(),
                        *self == StringOrVec::Multiple(*v),
                        forall|k: int| 0 <= k < i ==> v@[k]@ != value@,
                    decreases v.len() - i,
                {
                    if string_eq_str(&v[i], value) {
                        assert(views(v@)[i as int] == value@);
                        assert(views(v@).contains(value@));
                        return true;
                    }
                    i = i + 1;
                }
                proof {
                    if views(v@).contains(value@) {
                        let k = choose|k: int| 0 <= k < views(v@).len() && views(v@)[k] == value@;
                        assert(v@[k]@ != value@);
                    }
                }
                false
            },
        }
    }
}

/// Claims extracted from a validated OIDC token.
#[derive(Debug)]
pub struct TokenClaims {
    /// Subject (user email or service principal).
    pub sub: String,
    /// Audience.
    pub aud: StringOrVec,
    /// Issuer.
    pub iss: String,
    /// Expiry (unix timestamp).
    pub exp: u64,
    /// Issued at (unix timestamp).
    pub iat: u64,
    /// Pact role claim (custom claim).
    pub pact_role: Option<String>,
    /// Principal type claim.
    pub pact_principal_type: Option<String>,
}

/// Configuration for OIDC token validation.
#[derive(Debug)]
pub struct AuthConfig {
    /// Expected issuer (e.g., "https://auth.example.com").
    pub issuer: String,
    /// Expected audience (e.g., "pact-agent").
    pub audience: String,
    /// HMAC secret for development and testing (production uses JWKS keys).
    pub hmac_secret: Option<Vec<u8>>,
    /// JWKS endpoint; when absent, `{issuer}/.well-known/jwks.json`.
    pub jwks_url: Option<String>,
}

/// A single JSON Web Key from a JWKS endpoint.
#[derive(Debug)]
pub struct Jwk {
    /// Key type (e.g., "RSA").
    pub kty: String,
    /// Key ID.
    pub kid: Option<String>,
    /// Algorithm (e.g., "RS256").
    pub alg: Option<String>,
    /// RSA modulus (Base64url-encoded).
    pub n: Option<String>,
    /// RSA exponent (Base64url-encoded).
    pub e: Option<String>,
    /// Key use (e.g., "sig").
    pub key_use: Option<String>,
}

/// JWKS response from the OIDC provider.
#[derive(Debug)]
pub struct JwksResponse {
    pub keys: Vec<Jwk>,
}

/// Authentication errors.
#[derive(Debug)]
pub enum AuthError {
    MissingToken,
    InvalidFormat,
    TokenExpired,
    InvalidAudience(String),
    InvalidIssuer(String),
    InvalidToken(String),
    NoSigningKey,
    JwksFetchError(String),
    InsufficientPrivileges(String),
}

/// The text of an authentication error.
pub open spec fn auth_error_text(e: AuthError) -> Seq<char> {
    match e {
        AuthError::MissingToken => "missing authorization metadata"@,
        AuthError::InvalidFormat => "invalid Bearer token format"@,
        AuthError::TokenExpired => "token expired"@,
        AuthError::InvalidAudience(a) => "invalid audience: expected "@ + a@,
        AuthError::InvalidIssuer(i) => "invalid issuer: expected "@ + i@,
        AuthError::InvalidToken(d) => "invalid token: "@ + d@,
        AuthError::NoSigningKey => "no signing key configured"@,
        AuthError::JwksFetchError(d) => "JWKS fetch error: "@ + d@,
        AuthError::InsufficientPrivileges(d) => "insufficient privileges: "@ + d@,
    }
}

/// Prefixes `prefix` to a copy of `s`.
fn prefixed(prefix: &str, s: &String) -> (r: String)
    ensures
        r@ == prefix@ + s@,
{
    let mut out: Vec<char> = Vec::new();
    push_str(&mut out, prefix);
    push_chars(&mut out, &chars_of(s.as_str()));
    string_of(&out)
}

impl AuthError {
    /// The error's message.
    pub fn message(&self) -> (m: String)
        ensures
            m@ == auth_error_text(*self),
    {
        match self {
            AuthError::MissingToken => string_from("missing authorization metadata"),
            AuthError::InvalidFormat => string_from("invalid Bearer token format"),
            AuthError::TokenExpired => string_from("token expired"),
            AuthError::InvalidAudience(a) => prefixed("invalid audience: expected ", a),
            AuthError::InvalidIssuer(i) => prefixed("invalid issuer: expected ", i),
            AuthError::InvalidToken(d) => prefixed("invalid token: ", d),
            AuthError::NoSigningKey => string_from("no signing key configured"),
            AuthError::JwksFetchError(d) => prefixed("JWKS fetch error: ", d),
            AuthError::InsufficientPrivileges(d) => prefixed("insufficient privileges: ", d),
        }
    }
}

/// The token of an `authorization` value: what follows `Bearer ` or
/// `bearer `.
pub open spec fn bearer_token(v: Seq<char>) -> Option<Seq<char>> {
    if starts_with(v, "Bearer "@) {
        Some(v.skip("Bearer "@.len() as int))
    } else if starts_with(v, "bearer "@) {
        Some(v.skip("bearer "@.len() as int))
    } else {
        None
    }
}

/// Extracts the bearer token from a metadata value.
pub fn extract_bearer_token(metadata_value: &str) -> (r: Option<&str>)
    ensures
        match r {
            Some(t) => bearer_token(metadata_value@) == Some(t@),
            None => bearer_token(metadata_value@) is None,
        },
{
    let v = chars_of(metadata_value);
    let upper = chars_of("Bearer ");
    if starts_with_exec(&v, &upper) {
        let t = metadata_value.substring_char(upper.len(), v.len());
        proof {
            assert(t@ =~= metadata_value@.skip("Bearer "@.len() as int));
        }
        return Some(t);
    }
    let lower = chars_of("bearer ");
    if starts_with_exec(&v, &lower) {
        let t = metadata_value.substring_char(lower.len(), v.len());
        proof {
            assert(t@ =~= metadata_value@.skip("bearer "@.len() as int));
        }
        return Some(t);
    }
    None
}

/// The principal type named by a claim: `agent`, `service`, or a human
/// otherwise.
pub open spec fn principal_type_of(claim: Option<Seq<char>>) -> PrincipalType {
    match claim {
        Some(c) => if c == "agent"@ {
            PrincipalType::Agent
        } else if c == "service"@ {
            PrincipalType::Service
        } else {
            PrincipalType::Human
        },
        None => PrincipalType::Human,
    }
}

/// The view of an optional string.
pub open spec fn opt_view(o: Option<String>) -> Option<Seq<char>> {
    match o {
        Some(s) => Some(s@),
        None => None,
    }
}

/// Converts validated claims to a pact identity: the subject, the principal
/// type claim, and the role claim (empty when absent).
pub fn claims_to_identity(claims: &TokenClaims) -> (r: Identity)
    ensures
        r.principal@ == claims.sub@,
        r.principal_type == principal_type_of(opt_view(claims.pact_principal_type)),
        r.role@ == match claims.pact_role {
            Some(role) => role@,
            None => Seq::<char>::empty(),
        },
{
    let principal_type = match &claims.pact_principal_type {
        Some(p) => if string_eq_str(p, "agent") {
            PrincipalType::Agent
        } else if string_eq_str(p, "service") {
            PrincipalType::Service
        } else {
            PrincipalType::Human
        },
        None => PrincipalType::Human,
    };
    let role = match &claims.pact_role {
        Some(role) => role.clone(),
        None => String::new(),
    };
    Identity { principal: claims.sub.clone(), principal_type, role }
}

/// Whether a role is the platform administrator role.
pub open spec fn is_admin_role(role: Seq<char>) -> bool {
    role == "pact-platform-admin"@
}

/// Whether a role grants operations on `vcluster`: platform admin or
/// `pact-ops-{vcluster}`.
pub open spec fn is_ops_role(role: Seq<char>, vcluster: Seq<char>) -> bool {
    is_admin_role(role) || role == "pact-ops-"@ + vcluster
}

/// Whether a role grants viewing `vcluster`: any ops role for it or
/// `pact-viewer-{vcluster}`.
pub open spec fn is_viewer_role(role: Seq<char>, vcluster: Seq<char>) -> bool {
    is_ops_role(role, vcluster) || role == "pact-viewer-"@ + vcluster
}

/// Whether `role` equals `prefix` followed by `suffix`.
fn role_is(role: &String, prefix: &str, suffix: &str) -> (r: bool)
    ensures
        r == (role@ == prefix@ + suffix@),
{
    let mut want: Vec<char> = Vec::new();
    push_str(&mut want, prefix);
    push_str(&mut want, suffix);
    let w = string_of(&want);
    string_eq_str(role, w.as_str())
}

/// Whether an identity has platform admin privileges.
pub fn is_platform_admin(identity: &Identity) -> (r: bool)
    ensures
        r == is_admin_role(identity.role@),
{
    string_eq_str(&identity.role, "pact-platform-admin")
}

/// Whether an identity has ops privileges for a vCluster.
pub fn has_ops_role(identity: &Identity, vcluster: &str) -> (r: bool)
    ensures
        r == is_ops_role(identity.role@, vcluster@),
{
    is_platform_admin(identity) || role_is(&identity.role, "pact-ops-", vcluster)
}

/// Whether an identity has viewer privileges for a vCluster.
pub fn has_viewer_role(identity: &Identity, vcluster: &str) -> (r: bool)
    ensures
        r == is_viewer_role(identity.role@, vcluster@),
{
    has_ops_role(identity, vcluster) || role_is(&identity.role, "pact-viewer-", vcluster)
}

/// Ops privileges include viewer privileges, and the platform admin has ops
/// privileges on every vCluster.
pub proof fn law_role_hierarchy(role: Seq<char>, vcluster: Seq<char>)
    ensures
        is_ops_role(role, vcluster) ==> is_viewer_role(role, vcluster),
        is_admin_role(role) ==> is_ops_role(role, vcluster),
{
}

/// `s` without its trailing `/` characters.
pub open spec fn trim_end_slashes(s: Seq<char>) -> Seq<char>
    decreases s.len(),
{
    if s.len() > 0 && s.last() == '/' {
        trim_end_slashes(s.drop_last())
    } else {
        s
    }
}

/// The JWKS endpoint of a configuration: the configured URL, or the
/// issuer (trailing slashes removed) followed by `/.well-known/jwks.json`.
pub open spec fn jwks_url_of(jwks_url: Option<Seq<char>>, issuer: Seq<char>) -> Seq<char> {
    match jwks_url {
        Some(u) => u,
        None => trim_end_slashes(issuer) + "/.well-known/jwks.json"@,
    }
}

/// The JWKS endpoint to fetch keys from.
pub fn jwks_url_for(config: &AuthConfig) -> (r: String)
    ensures
        r@ == jwks_url_of(opt_view(config.jwks_url), config.issuer@),
{
    match &config.jwks_url {
        Some(u) => u.clone(),
        None => {
            let v = chars_of(config.issuer.as_str());
            let mut end = v.len();
            proof {
                assert(v@.take(v@.len() as int) =~= v@);
            }
            while end > 0 && v[end - 1] == '/'
                invariant
                    end <= v@.len(),
                    trim_end_slashes(v@) == trim_end_slashes(v@.take(end as int)),
                decreases end,
            {
                proof {
                    assert(v@.take(end as int).drop_last() =~= v@.take(end - 1));
                }
                end = end - 1;
            }
            let mut out: Vec<char> = Vec::new();
            let mut i: usize = 0;
            while i < end
                invariant
                    end <= v@.len(),
                    i <= end,
                    out@ == v@.take(i as int),
                decreases end - i,
            {
                out.push(v[i]);
                proof {
                    assert(v@.take(i + 1) =~= v@.take(i as int).push(v@[i as int]));
                }
                i = i + 1;
            }
            proof {
                assert(v@.take(v@.len() as int) =~= v@);
                let t = v@.take(end as int);
                assert(!(t.len() > 0 && t.last() == '/'));
            }
            push_str(&mut out, "/.well-known/jwks.json");
            string_of(&out)
        },
    }
}

/// Whether a key may verify a token with key ID `token_kid`: an RSA key
/// with both components, whose key ID matches when the token names one.
pub open spec fn key_matches(
    kty: Seq<char>,
    has_n: bool,
    has_e: bool,
    kid: Option<Seq<char>>,
    token_kid: Option<Seq<char>>,
) -> bool {
    &&& kty == "RSA"@
    &&& has_n && has_e
    &&& match (token_kid, kid) {
        (Some(tk), Some(kk)) => tk == kk,
        (Some(_), None) => false,
        (None, _) => true,
    }
}

/// Whether a key may verify a token with key ID `token_kid`.
pub open spec fn jwk_matches(k: Jwk, token_kid: Option<Seq<char>>) -> bool {
    key_matches(k.kty@, k.n is Some, k.e is Some, opt_view(k.kid), token_kid)
}

/// The keys of `keys` that may verify the token, in order.
pub open spec fn matching_keys(keys: Seq<Jwk>, token_kid: Option<Seq<char>>) -> Seq<Jwk>
    decreases keys.len(),
{
    if keys.len() == 0 {
        Seq::empty()
    } else {
        let prev = matching_keys(keys.drop_last(), token_kid);
        if jwk_matches(keys.last(), token_kid) {
            prev.push(keys.last())
        } else {
            prev
        }
    }
}

/// The view of an optional string slice.
pub open spec fn opt_str_view(o: Option<&str>) -> Option<Seq<char>> {
    match o {
        Some(s) => Some(s@),
        None => None,
    }
}

/// The keys that may verify a token whose header names `token_kid`, in
/// their order in the key set.
pub fn select_keys<'a>(keys: &'a [Jwk], token_kid: Option<&str>) -> (r: Vec<&'a Jwk>)
    ensures
        r@.map_values(|k: &Jwk| *k) == matching_keys(keys@, opt_str_view(token_kid)),
{
    let mut r: Vec<&Jwk> = Vec::new();
    let mut i: usize = 0;
    while i < keys.len()
        invariant
            i <= keys@.len(),
            r@.map_values(|k: &Jwk| *k) == matching_keys(keys@.take(i as int), opt_str_view(token_kid)),
        decreases keys.len() - i,
    {
        let k = &keys[i];
        proof {
            let t = keys@.take(i + 1);
            assert(t.drop_last() =~= keys@.take(i as int));
            assert(t.last() == *k);
        }
        let kid_ok = match (token_kid, &k.kid) {
            (Some(tk), Some(kk)) => string_eq_str(kk, tk),
            (Some(_), None) => false,
            (None, _) => true,
        };
        if string_eq_str(&k.kty, "RSA") && k.n.is_some() && k.e.is_some() && kid_ok {
            let ghost before = r@;
            r.push(k);
            proof {
                assert(r@.map_values(|k: &Jwk| *k) =~= before.map_values(|k: &Jwk| *k).push(*k));
            }
        }
        i = i + 1;
    }
    proof {
        assert(keys@.take(keys@.len() as int) =~= keys@);
    }
    r
}

/// The kinds of token verification failure that are told apart.
#[derive(Debug, Clone, Copy, PartialEq, Eq, Structural)]
pub enum JwtErrorKind {
    ExpiredSignature,
    InvalidAudience,
    InvalidIssuer,
    Other,
}

/// Maps a verification failure to an [`AuthError`]: expiry, audience and
/// issuer failures name the expected value; others carry the library's
/// message.
pub fn map_jwt_error(kind: JwtErrorKind, detail: &str, config: &AuthConfig) -> (r: AuthError)
    ensures
        r == match kind {
            JwtErrorKind::ExpiredSignature => AuthError::TokenExpired,
            JwtErrorKind::InvalidAudience => AuthError::InvalidAudience(config.audience),
            JwtErrorKind::InvalidIssuer => AuthError::InvalidIssuer(config.issuer),
            JwtErrorKind::Other => r,
        },
        kind == JwtErrorKind::Other ==> (r matches AuthError::InvalidToken(d) && d@ == detail@),
{
    match kind {
        JwtErrorKind::ExpiredSignature => AuthError::TokenExpired,
        JwtErrorKind::InvalidAudience => AuthError::InvalidAudience(config.audience.clone()),
        JwtErrorKind::InvalidIssuer => AuthError::InvalidIssuer(config.issuer.clone()),
        JwtErrorKind::Other => AuthError::InvalidToken(string_from(detail)),
    }
}

/// The HMAC secret to verify development tokens with, or
/// [`AuthError::NoSigningKey`] when none is configured.
pub fn hmac_secret_of(config: &AuthConfig) -> (r: Result<&Vec<u8>, AuthError>)
    ensures
        match config.hmac_secret {
            Some(s) => r == Ok::<&Vec<u8>, AuthError>(&s),
            None => r matches Err(AuthError::NoSigningKey),
        },
{
    match &config.hmac_secret {
        Some(s) => Ok(s),
        None => Err(AuthError::NoSigningKey),
    }
}

/// A copy of a key.
pub fn copy_jwk(k: &Jwk) -> (r: Jwk)
    ensures
        r == *k,
{
    Jwk {
        kty: k.kty.clone(),
        kid: clone_opt_string(&k.kid),
        alg: clone_opt_string(&k.alg),
        n: clone_opt_string(&k.n),
        e: clone_opt_string(&k.e),
        key_use: clone_opt_string(&k.key_use),
    }
}

/// A copy of a list of keys.
pub fn copy_keys(keys: &Vec<Jwk>) -> (r: Vec<Jwk>)
    ensures
        r@ == keys@,
{
    let mut r: Vec<Jwk> = Vec::new();
    let mut i: usize = 0;
    while i < keys.len()
        invariant
            i <= keys@.len(),
            r@ == keys@.take(i as int),
        decreases keys.len() - i,
    {
        r.push(copy_jwk(&keys[i]));
        proof {
            assert(keys@.take(i + 1) =~= keys@.take(i as int).push(keys@[i as int]));
        }
        i = i + 1;
    }
    proof {
        assert(keys@.take(keys@.len() as int) =~= keys@);
    }
    r
}

/// Default lifetime of fetched keys: one hour, in milliseconds.
pub const JWKS_DEFAULT_TTL_MS: u64 = 3_600_000;

/// Keys fetched from an OIDC provider, kept for a while so that not every
/// request goes to the provider; when a refresh fails, the keys held are
/// used (degraded mode).  Times are milliseconds of a monotonic clock.
#[derive(Debug)]
pub struct JwksCache {
    keys: Vec<Jwk>,
    fetched_at: Option<u64>,
    ttl_ms: u64,
}

/// Time elapsed since `t`, never negative.
pub open spec fn elapsed_ms(t: u64, now: u64) -> nat {
    if now >= t { (now - t) as nat } else { 0 }
}

impl JwksCache {
    /// The keys held.
    pub closed spec fn keys(&self) -> Seq<Jwk> {
        self.keys@
    }

    /// When the keys were last stored.
    pub closed spec fn fetched_at(&self) -> Option<u64> {
        self.fetched_at
    }

    /// How long keys stay fresh.
    pub closed spec fn ttl(&self) -> u64 {
        self.ttl_ms
    }

    /// Whether the keys held may be used without asking the provider.
    pub open spec fn fresh_at(&self, now: u64) -> bool {
        &&& self.fetched_at() is Some
        &&& elapsed_ms(self.fetched_at()->0, now) < self.ttl()
        &&& self.keys().len() > 0
    }

    /// An empty cache with the default lifetime.
    pub fn new() -> (r: Self)
        ensures
            r.keys().len() == 0,
            r.fetched_at() is None,
            r.ttl() == JWKS_DEFAULT_TTL_MS,
    {
        JwksCache { keys: Vec::new(), fetched_at: None, ttl_ms: JWKS_DEFAULT_TTL_MS }
    }

    /// An empty cache with a given lifetime.
    pub fn with_ttl_ms(ttl_ms: u64) -> (r: Self)
        ensures
            r.keys().len() == 0,
            r.fetched_at() is None,
            r.ttl() == ttl_ms,
    {
        JwksCache { keys: Vec::new(), fetched_at: None, ttl_ms }
    }

    /// The lifetime of fetched keys.
    pub fn ttl_ms(&self) -> (r: u64)
        ensures
            r == self.ttl(),
    {
        self.ttl_ms
    }

    /// The keys held, without asking the provider.
    pub fn cached_keys(&self) -> (r: Vec<Jwk>)
        ensures
            r@ == self.keys(),
    {
        copy_keys(&self.keys)
    }

    /// Stores keys (fetched, or loaded ahead) at time `now`.
    pub fn set_keys(&mut self, keys: Vec<Jwk>, now: u64)
        ensures
            final(self).keys() == keys@,
            final(self).fetched_at() == Some(now),
            final(self).ttl() == old(self).ttl(),
    {
        self.keys = keys;
        self.fetched_at = Some(now);
    }

    /// The keys to use without a fetch: those held, while fresh.
    pub fn fresh_keys(&self, now: u64) -> (r: Option<Vec<Jwk>>)
        ensures
            self.fresh_at(now) ==> (r matches Some(k) && k@ == self.keys()),
            !self.fresh_at(now) ==> r is None,
    {
        match self.fetched_at {
            Some(t) => {
                let elapsed = if now >= t { now - t } else { 0 };
                if elapsed < self.ttl_ms && self.keys.len() > 0 {
                    Some(copy_keys(&self.keys))
                } else {
                    None
                }
            },
            None => None,
        }
    }

    /// Takes in the outcome of a fetch made at `now`: fetched keys are
    /// stored and returned; on failure the keys held are returned when
    /// there are any (degraded mode), else the failure.
    pub fn on_fetch(&mut self, fetched: Result<Vec<Jwk>, AuthError>, now: u64) -> (r: Result<Vec<Jwk>, AuthError>)
        ensures
            final(self).ttl() == old(self).ttl(),
            match fetched {
                Ok(k) => (r matches Ok(v) && v@ == k@) && final(self).keys() == k@ && final(self).fetched_at()
                    == Some(now),
                Err(e) => final(self).keys() == old(self).keys() && final(self).fetched_at() == old(self).fetched_at()
                    && if old(self).keys().len() == 0 {
                    r == Err::<Vec<Jwk>, AuthError>(e)
                } else {
                    r matches Ok(k) && k@ == old(self).keys()
                },
            },
    {
        match fetched {
            Ok(k) => {
                let out = copy_keys(&k);
                self.keys = k;
                self.fetched_at = Some(now);
                Ok(out)
            },
            Err(e) => {
                if self.keys.len() == 0 {
                    Err(e)
                } else {
                    Ok(copy_keys(&self.keys))
                }
            },
        }
    }
}

/// Keys stored at `now` are served without asking the provider again until
/// the cache lifetime has passed.
pub proof fn law_jwks_fresh_until_ttl(c: JwksCache, now: u64, later: u64)
    requires
        c.fetched_at() == Some(now),
        c.keys().len() > 0,
        now <= later,
        later - now < c.ttl(),
    ensures
        c.fresh_at(later),
{
}

impl Default for JwksCache {
    /// An empty cache with the default lifetime.
    fn default() -> (r: Self)
        ensures
            r.keys().len() == 0,
            r.fetched_at() is None,
            r.ttl() == JWKS_DEFAULT_TTL_MS,
    {
        JwksCache::new()
    }
}

} // verus!
