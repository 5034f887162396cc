//! Connecting the client to the journal and agents: endpoint URIs, TLS
//! options, the bearer header, agent addresses and scope filters.

use vstd::prelude::*;

use crate::agent::token::{
    find_field, lemma_field_view, opt_fields_view, read_opt_text, unverified_claim_fields,
    unverified_claims, view_field_in, view_opt_text, JsonField, JsonFieldView,
};
use crate::common::types::Scope;
use crate::text::{chars_of, dec, push_chars, push_str, push_u64, starts_with, starts_with_exec, str_eq, string_from, string_of};
use vstd::string::StrSliceExecFns;

verus! {

broadcast use vstd::string::group_string_axioms;

/// Port of the agent's shell service.
pub const AGENT_DEFAULT_PORT: u16 = 9445;

/// TLS configuration for client connections (paths of PEM files).
#[derive(Debug, Clone)]
pub struct TlsOptions {
    /// CA certificate.
    pub ca_cert: Option<String>,
    /// Client certificate.
    pub client_cert: Option<String>,
    /// Client key.
    pub client_key: Option<String>,
}

impl Default for TlsOptions {
    /// No files: server verification with system roots, no client identity.
    fn default() -> (r: Self)
        ensures
            r.ca_cert is None,
            r.client_cert is None,
            r.client_key is None,
    {
        TlsOptions { ca_cert: None, client_cert: None, client_key: None }
    }
}

impl TlsOptions {
    /// Whether a client identity is presented: both certificate and key
    /// are needed.
    pub fn has_client_identity(&self) -> (r: bool)
        ensures
            r == (self.client_cert is Some && self.client_key is Some),
    {
        self.client_cert.is_some() && self.client_key.is_some()
    }
}

/// The URI of an endpoint: as given when it starts with `http`, else with
/// `http://` in front.
pub open spec fn endpoint_uri_of(endpoint: Seq<char>) -> Seq<char> {
    if starts_with(endpoint, "http"@) {
        endpoint
    } else {
        "http://"@ + endpoint
    }
}

/// The URI to connect to for an endpoint.
pub fn endpoint_uri(endpoint: &str) -> (r: String)
    ensures
        r@ == endpoint_uri_of(endpoint@),
{
    let v = chars_of(endpoint);
    if starts_with_exec(&v, &chars_of("http")) {
        return string_from(endpoint);
    }
    let mut out: Vec<char> = Vec::new();
    push_str(&mut out, "http://");
    push_chars(&mut out, &v);
    string_of(&out)
}

/// Whether a connection uses TLS: for `https` URIs or explicit options.
pub fn uses_tls(uri: &str, has_options: bool) -> (r: bool)
    ensures
        r == (starts_with(uri@, "https"@) || has_options),
{
    starts_with_exec(&chars_of(uri), &chars_of("https")) || has_options
}

/// Adds the bearer token to outgoing requests.
#[derive(Debug, Clone)]
pub struct AuthInterceptor {
    pub token: String,
}

impl AuthInterceptor {
    /// An interceptor sending `token`.
    pub fn new(token: String) -> (r: Self)
        ensures
            r.token == token,
    {
        AuthInterceptor { token }
    }

    /// The `authorization` header value: `Bearer {token}`, or none when the
    /// token is empty.
    pub fn authorization_value(&self) -> (r: Option<String>)
        ensures
            match r {
                Some(v) => self.token@.len() > 0 && v@ == "Bearer "@ + self.token@,
                None => self.token@.len() == 0,
            },
    {
        let t = chars_of(self.token.as_str());
        if t.len() == 0 {
            return None;
        }
        let mut out: Vec<char> = Vec::new();
        push_str(&mut out, "Bearer ");
        push_chars(&mut out, &t);
        Some(string_of(&out))
    }
}

/// The address of a node's agent: loopback for `local` and `localhost`,
/// else the node name, on the agent port.
pub open spec fn agent_address_of(node_id: Seq<char>) -> Seq<char> {
    if node_id == "local"@ || node_id == "localhost"@ {
        "http://127.0.0.1:"@ + dec(AGENT_DEFAULT_PORT as nat)
    } else {
        "http://"@ + node_id + ":"@ + dec(AGENT_DEFAULT_PORT as nat)
    }
}

/// Whether a node name refers to this machine (no journal lookup needed).
pub fn is_local_node(node_id: &str) -> (r: bool)
    ensures
        r == (node_id@ == "local"@ || node_id@ == "localhost"@),
{
    str_eq(node_id, "local") || str_eq(node_id, "localhost")
}

/// The address of a node's agent.
pub fn agent_address(node_id: &str) -> (r: String)
    ensures
        r@ == agent_address_of(node_id@),
{
    let mut out: Vec<char> = Vec::new();
    if is_local_node(node_id) {
        push_str(&mut out, "http://127.0.0.1:");
    } else {
        push_str(&mut out, "http://");
        push_str(&mut out, node_id);
        push_str(&mut out, ":");
    }
    push_u64(&mut out, AGENT_DEFAULT_PORT as u64);
    string_of(&out)
}

/// The identity sent with requests, from the unverified claims of the
/// token: subject and role when the claims could be read, each with its
/// default when absent; both defaults when they could not.
pub fn identity_from_claims(decoded: bool, sub: Option<String>, pact_role: Option<String>) -> (r: (String, String))
    ensures
        r.0@ == if decoded && sub is Some { sub->0@ } else { "cli-user"@ },
        r.1@ == if decoded && pact_role is Some { pact_role->0@ } else { "pact-platform-admin"@ },
{
    if !decoded {
        return (string_from("cli-user"), string_from("pact-platform-admin"));
    }
    let principal = match sub {
        Some(s) => s,
        None => string_from("cli-user"),
    };
    let role = match pact_role {
        Some(r) => r,
        None => string_from("pact-platform-admin"),
    };
    (principal, role)
}

/// The identity that unverified claims give, read as a typed decode of the
/// optional string members `sub` and `pact_role` reads them: each member
/// absent or null gives its default (`cli-user`, `pact-platform-admin`);
/// claims that cannot be decoded, or a member of another type, give both
/// defaults.
pub open spec fn identity_of(claims: Option<Seq<(Seq<char>, JsonFieldView)>>) -> (Seq<char>, Seq<char>) {
    match claims {
        Some(fs) => match (view_opt_text(view_field_in(fs, "sub"@)), view_opt_text(view_field_in(fs, "pact_role"@))) {
            (Some(sub), Some(role)) => (
                match sub {
                    Some(x) => x,
                    None => "cli-user"@,
                },
                match role {
                    Some(x) => x,
                    None => "pact-platform-admin"@,
                },
            ),
            _ => ("cli-user"@, "pact-platform-admin"@),
        },
        None => ("cli-user"@, "pact-platform-admin"@),
    }
}

/// The identity that the members of a token's claims give (none when the
/// token could not be decoded): see [`identity_of`].
pub fn identity_from_fields(fields: Option<Vec<(String, JsonField)>>) -> (r: (String, String))
    ensures
        (r.0@, r.1@) == identity_of(opt_fields_view(fields)),
{
    match fields {
        None => identity_from_claims(false, None, None),
        Some(fs) => {
            proof {
                lemma_field_view(fs@, "sub"@);
                lemma_field_view(fs@, "pact_role"@);
            }
            let sub = read_opt_text(find_field(&fs, "sub"));
            let role = read_opt_text(find_field(&fs, "pact_role"));
            match (sub, role) {
                (Some(s), Some(p)) => identity_from_claims(true, s, p),
                _ => identity_from_claims(false, None, None),
            }
        },
    }
}

/// The identity sent with requests: the subject and role of the token's
/// claims read without verification (the journal verifies the token).
pub fn resolve_identity_from_token(token: &str) -> (r: (String, String))
    ensures
        (r.0@, r.1@) == identity_of(unverified_claims(token@)),
{
    identity_from_fields(unverified_claim_fields(token))
}

/// The scope a filter names: `node:{id}`, `vc:{id}`, or global otherwise.
pub open spec fn scope_filter_of(s: Seq<char>) -> (Option<Seq<char>>, Option<Seq<char>>) {
    if starts_with(s, "node:"@) {
        (Some(s.skip("node:"@.len() as int)), None)
    } else if starts_with(s, "vc:"@) {
        (None, Some(s.skip("vc:"@.len() as int)))
    } else {
        (None, None)
    }
}

/// Parses a scope filter: `node:{id}`, `vc:{id}`, anything else global.
pub fn parse_scope_filter(s: &str) -> (r: Scope)
    ensures
        match r {
            Scope::Node(n) => scope_filter_of(s@) == (Some(n@), None::<Seq<char>>),
            Scope::VCluster(v) => scope_filter_of(s@) == (None::<Seq<char>>, Some(v@)),
            Scope::Global => scope_filter_of(s@) == (None::<Seq<char>>, None::<Seq<char>>),
        },
{
    let v = chars_of(s);
    let node = chars_of("node:");
    if starts_with_exec(&v, &node) {
        let rest = s.substring_char(node.len(), v.len());
        proof {
            assert(rest@ =~= s@.skip("node:"@.len() as int));
        }
        return Scope::Node(string_from(rest));
    }
    let vc = chars_of("vc:");
    if starts_with_exec(&v, &vc) {
        let rest = s.substring_char(vc.len(), v.len());
        proof {
            assert(rest@ =~= s@.skip("vc:"@.len() as int));
        }
        return Scope::VCluster(string_from(rest));
    }
    Scope::Global
}

} // verus!
