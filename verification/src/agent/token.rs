//! Token verification: HS256 with the configured secret, or RS256 with the
//! keys of the provider's key set.
//!
//! `jsonwebtoken` checks the signature, the expiry, the audience and the
//! issuer; which keys are tried, in which order, how the claims are read
//! and which failure is reported are decided here.

use vstd::prelude::*;

use crate::agent::auth::{
    jwk_matches, map_jwt_error, matching_keys, opt_str_view, opt_view, select_keys, AuthConfig, AuthError, Jwk, JwtErrorKind,
    StringOrVec, TokenClaims,
};
use crate::text::{push_str, string_of};
use jsonwebtoken::errors::ErrorKind;
use jsonwebtoken::{Algorithm, DecodingKey, Validation};
use serde_json::Value;

verus! {

broadcast use vstd::string::group_string_axioms;

/// A JSON value as `serde_json` parses it (declared for verified code).
#[verifier::external_type_specification]
#[verifier::external_body]
pub struct ExJsonValue(serde_json::Value);

/// A failure reported by `jsonwebtoken` (declared for verified code).
#[verifier::external_type_specification]
#[verifier::external_body]
pub struct ExJwtError(jsonwebtoken::errors::Error);

/// The `kid` of a token's header as `jsonwebtoken::decode_header` reads
/// it, or the library's message when the header cannot be read.
pub uninterp spec fn jwt_header_kid(token: Seq<char>) -> Result<Option<Seq<char>>, Seq<char>>;

/// `jsonwebtoken::decode_header`: the header's `kid`, or the error's text.
#[verifier::external_body]
fn decode_header_kid(token: &str) -> (r: Result<Option<String>, String>)
    ensures
        match r {
            Ok(k) => jwt_header_kid(token@) == Ok::<Option<Seq<char>>, Seq<char>>(opt_view(k)),
            Err(m) => jwt_header_kid(token@) == Err::<Option<Seq<char>>, Seq<char>>(m@),
        },
{
    match jsonwebtoken::decode_header(token) {
        Ok(h) => Ok(h.kid),
        Err(e) => Err(e.to_string()),
    }
}

/// `jsonwebtoken::errors::Error::kind`, told apart for the failures that
/// are reported on their own (expiry, audience, issuer; every other kind is
/// `Other`), with the error's text.
#[verifier::external_body]
fn jwt_failure(e: &jsonwebtoken::errors::Error) -> (r: (JwtErrorKind, String)) {
    let kind = match e.kind() {
        ErrorKind::ExpiredSignature => JwtErrorKind::ExpiredSignature,
        ErrorKind::InvalidAudience => JwtErrorKind::InvalidAudience,
        ErrorKind::InvalidIssuer => JwtErrorKind::InvalidIssuer,
        _ => JwtErrorKind::Other,
    };
    (kind, e.to_string())
}

/// `jsonwebtoken::decode` of an HS256 token with the key
/// `DecodingKey::from_secret(secret)`, the configured audience and issuer,
/// and the expiry checked against the clock: the claims as JSON, or the
/// library's error.  The outcome depends on the time, so nothing is stated
/// of it.
#[verifier::external_body]
fn verify_hs256(token: &str, secret: &[u8], config: &AuthConfig) -> (r: Result<Value, jsonwebtoken::errors::Error>) {
    let mut v = Validation::new(Algorithm::HS256);
    v.set_audience(&[&config.audience]);
    v.set_issuer(&[&config.issuer]);
    jsonwebtoken::decode::<Value>(token, &DecodingKey::from_secret(secret), &v).map(|d| d.claims)
}

/// `jsonwebtoken::decode` of an RS256 token with the key
/// `DecodingKey::from_rsa_components(n, e)`, the configured audience and
/// issuer, and the expiry checked against the clock: the claims as JSON, or
/// the library's error (components that are not Base64url give the error
/// of `from_rsa_components`, of kind `Base64`).  The outcome depends on the
/// time, so nothing is stated of it.
#[verifier::external_body]
fn verify_rs256(token: &str, n: &str, e: &str, config: &AuthConfig) -> (r: Result<Value, jsonwebtoken::errors::Error>) {
    let key = DecodingKey::from_rsa_components(n, e)?;
    let mut v = Validation::new(Algorithm::RS256);
    v.set_audience(&[&config.audience]);
    v.set_issuer(&[&config.issuer]);
    jsonwebtoken::decode::<Value>(token, &key, &v).map(|d| d.claims)
}

/// A JSON value as the claims reader sees it.
#[derive(Debug)]
pub enum JsonField {
    Null,
    Bool(bool),
    /// A number, with its value when it is an unsigned 64-bit integer.
    Number(Option<u64>),
    Text(String),
    /// An array: each element's text when it is a string.
    List(Vec<Option<String>>),
    Object,
}

/// Converts a JSON array element: its text when it is a string.
#[verifier::external_body]
fn json_text(v: Value) -> (r: Option<String>) {
    match v {
        Value::String(s) => Some(s),
        _ => None,
    }
}

/// Converts a JSON value, variant by variant.
#[verifier::external_body]
fn json_field(v: Value) -> (r: JsonField) {
    match v {
        Value::Null => JsonField::Null,
        Value::Bool(b) => JsonField::Bool(b),
        Value::Number(n) => JsonField::Number(n.as_u64()),
        Value::String(s) => JsonField::Text(s),
        Value::Array(a) => JsonField::List(a.into_iter().map(json_text).collect()),
        Value::Object(_) => JsonField::Object,
    }
}

/// Converts the claims: an object's members in `serde_json`'s order, or
/// none when the claims are not an object.
#[verifier::external_body]
fn claims_fields(v: Value) -> (r: Option<Vec<(String, JsonField)>>) {
    match v {
        Value::Object(m) => Some(m.into_iter().map(|(k, x)| (k, json_field(x))).collect()),
        _ => None,
    }
}

/// A JSON value of the claims as plain values.
pub enum JsonFieldView {
    Null,
    Bool(bool),
    Number(Option<u64>),
    Text(Seq<char>),
    List(Seq<Option<Seq<char>>>),
    Object,
}

/// The plain contents of a JSON value of the claims.
pub open spec fn field_view(f: JsonField) -> JsonFieldView {
    match f {
        JsonField::Null => JsonFieldView::Null,
        JsonField::Bool(b) => JsonFieldView::Bool(b),
        JsonField::Number(n) => JsonFieldView::Number(n),
        JsonField::Text(s) => JsonFieldView::Text(s@),
        JsonField::List(items) => JsonFieldView::List(items@.map_values(|o: Option<String>| opt_view(o))),
        JsonField::Object => JsonFieldView::Object,
    }
}

/// The plain contents of the members of a claims object.
pub open spec fn fields_view(fs: Seq<(String, JsonField)>) -> Seq<(Seq<char>, JsonFieldView)> {
    fs.map_values(|p: (String, JsonField)| (p.0@, field_view(p.1)))
}

/// The plain contents of optional claims members.
pub open spec fn opt_fields_view(o: Option<Vec<(String, JsonField)>>) -> Option<Seq<(Seq<char>, JsonFieldView)>> {
    match o {
        Some(fs) => Some(fields_view(fs@)),
        None => None,
    }
}

/// The members of a token's claims as `jsonwebtoken::dangerous::insecure_decode`
/// reads them into a `serde_json::Value`, without checking the signature:
/// none when the token cannot be decoded or its claims are not an object.
pub uninterp spec fn unverified_claims(token: Seq<char>) -> Option<Seq<(Seq<char>, JsonFieldView)>>;

/// `jsonwebtoken::dangerous::insecure_decode::<Value>`: the members of the
/// claims object, converted as [`claims_fields`] does.
#[verifier::external_body]
pub(crate) fn unverified_claim_fields(token: &str) -> (r: Option<Vec<(String, JsonField)>>)
    ensures
        unverified_claims(token@) == opt_fields_view(r),
{
    match jsonwebtoken::dangerous::insecure_decode::<Value>(token) {
        Ok(d) => claims_fields(d.claims),
        Err(_) => None,
    }
}

/// The value of member `name` among plain members: the first with that name.
pub open spec fn view_field_in(fs: Seq<(Seq<char>, JsonFieldView)>, name: Seq<char>) -> Option<JsonFieldView>
    decreases fs.len(),
{
    if fs.len() == 0 {
        None
    } else if fs[0].0 == name {
        Some(fs[0].1)
    } else {
        view_field_in(fs.drop_first(), name)
    }
}

/// An optional string member read from plain members: absent or null gives
/// none, a string gives it, any other value cannot be read.
pub open spec fn view_opt_text(f: Option<JsonFieldView>) -> Option<Option<Seq<char>>> {
    match f {
        None => Some(None),
        Some(JsonFieldView::Null) => Some(None),
        Some(JsonFieldView::Text(s)) => Some(Some(s)),
        _ => None,
    }
}

/// The value of member `name`: the first with that name.
pub open spec fn field_in(fs: Seq<(String, JsonField)>, name: Seq<char>) -> Option<JsonField>
    decreases fs.len(),
{
    if fs.len() == 0 {
        None
    } else if fs[0].0@ == name {
        Some(fs[0].1)
    } else {
        field_in(fs.drop_first(), name)
    }
}

/// A required string member.
pub open spec fn req_text(f: Option<JsonField>) -> Option<Seq<char>> {
    match f {
        Some(JsonField::Text(s)) => Some(s@),
        _ => None,
    }
}

/// A string member that defaults to empty when absent.
pub open spec fn default_text(f: Option<JsonField>) -> Option<Seq<char>> {
    match f {
        None => Some(Seq::empty()),
        Some(JsonField::Text(s)) => Some(s@),
        _ => None,
    }
}

/// An unsigned member that defaults to 0 when absent.
pub open spec fn default_u64(f: Option<JsonField>) -> Option<u64> {
    match f {
        None => Some(0),
        Some(JsonField::Number(Some(n))) => Some(n),
        _ => None,
    }
}

/// An optional string member: absent or null gives none.
pub open spec fn opt_text(f: Option<JsonField>) -> Option<Option<Seq<char>>> {
    match f {
        None => Some(None),
        Some(JsonField::Null) => Some(None),
        Some(JsonField::Text(s)) => Some(Some(s@)),
        _ => None,
    }
}

/// Looking a member up among plain members finds the plain contents of
/// what the lookup among the members finds.
pub proof fn lemma_field_view(fs: Seq<(String, JsonField)>, name: Seq<char>)
    ensures
        view_field_in(fields_view(fs), name) == match field_in(fs, name) {
            Some(f) => Some(field_view(f)),
            None => None::<JsonFieldView>,
        },
        view_opt_text(view_field_in(fields_view(fs), name)) == opt_text(field_in(fs, name)),
    decreases fs.len(),
{
    if fs.len() > 0 {
        assert(fields_view(fs).drop_first() =~= fields_view(fs.drop_first()));
        lemma_field_view(fs.drop_first(), name);
    }
}

/// Whether every element of an array is a string.
pub open spec fn all_texts(items: Seq<Option<String>>) -> bool {
    forall|i: int| 0 <= i < items.len() ==> (#[trigger] items[i]) is Some
}

/// Whether the audience member can be read: absent, null, a string or an
/// array of strings.
pub open spec fn aud_ok(f: Option<JsonField>) -> bool {
    match f {
        None => true,
        Some(JsonField::Null) => true,
        Some(JsonField::Text(_)) => true,
        Some(JsonField::List(items)) => all_texts(items@),
        _ => false,
    }
}

/// Whether `a` is the audience the member gives.
pub open spec fn aud_from(a: StringOrVec, f: Option<JsonField>) -> bool {
    match f {
        Some(JsonField::Text(s)) => a matches StringOrVec::Single(x) && x@ == s@,
        Some(JsonField::List(items)) => a matches StringOrVec::Multiple(v) && v@.len() == items@.len() && forall|i: int|
            0 <= i < v@.len() ==> items@[i] == Some(#[trigger] v@[i]),
        _ => a is Empty,
    }
}

/// The first claim that cannot be read, in the order sub, aud, iss, exp,
/// iat, pact_role, pact_principal_type; none when all can.
pub open spec fn bad_claim(fs: Seq<(String, JsonField)>) -> Option<Seq<char>> {
    if req_text(field_in(fs, "sub"@)) is None {
        Some("sub"@)
    } else if !aud_ok(field_in(fs, "aud"@)) {
        Some("aud"@)
    } else if default_text(field_in(fs, "iss"@)) is None {
        Some("iss"@)
    } else if default_u64(field_in(fs, "exp"@)) is None {
        Some("exp"@)
    } else if default_u64(field_in(fs, "iat"@)) is None {
        Some("iat"@)
    } else if opt_text(field_in(fs, "pact_role"@)) is None {
        Some("pact_role"@)
    } else if opt_text(field_in(fs, "pact_principal_type"@)) is None {
        Some("pact_principal_type"@)
    } else {
        None
    }
}

/// The refusal of claims whose member `name` cannot be read.
pub open spec fn bad_claim_message(name: Seq<char>) -> Seq<char> {
    "invalid claims: member `"@ + name + "` missing or of the wrong type"@
}

pub(crate) fn find_field<'a>(fs: &'a Vec<(String, JsonField)>, name: &str) -> (r: Option<&'a JsonField>)
    ensures
        match r {
            Some(f) => field_in(fs@, name@) == Some(*f),
            None => field_in(fs@, name@) is None,
        },
{
    let mut i: usize = 0;
    proof {
        assert(fs@.skip(0) =~= fs@);
    }
    while i < fs.len()
        invariant
            i <= fs@.len(),
            field_in(fs@, name@) == field_in(fs@.skip(i as int), name@),
        decreases fs.len() - i,
    {
        proof {
            assert(fs@.skip(i as int)[0] == fs@[i as int]);
            assert(fs@.skip(i as int).drop_first() =~= fs@.skip(i + 1));
        }
        if crate::text::string_eq_str(&fs[i].0, name) {
            return Some(&fs[i].1);
        }
        i = i + 1;
    }
    proof {
        assert(fs@.skip(i as int).len() == 0);
    }
    None
}

fn text_clone(s: &String) -> (r: String)
    ensures
        r@ == s@,
{
    string_of(&crate::text::chars_of(s.as_str()))
}

fn read_req_text(f: Option<&JsonField>) -> (r: Option<String>)
    ensures
        opt_view(r) == req_text(match f {
            Some(x) => Some(*x),
            None => None,
        }),
{
    match f {
        Some(JsonField::Text(s)) => Some(text_clone(s)),
        _ => None,
    }
}

fn read_default_text(f: Option<&JsonField>) -> (r: Option<String>)
    ensures
        opt_view(r) == default_text(match f {
            Some(x) => Some(*x),
            None => None,
        }),
{
    match f {
        None => Some(String::new()),
        Some(JsonField::Text(s)) => Some(text_clone(s)),
        _ => None,
    }
}

fn read_default_u64(f: Option<&JsonField>) -> (r: Option<u64>)
    ensures
        r == default_u64(match f {
            Some(x) => Some(*x),
            None => None,
        }),
{
    match f {
        None => Some(0),
        Some(JsonField::Number(Some(n))) => Some(*n),
        _ => None,
    }
}

pub(crate) fn read_opt_text(f: Option<&JsonField>) -> (r: Option<Option<String>>)
    ensures
        match r {
            Some(o) => opt_text(match f {
                Some(x) => Some(*x),
                None => None,
            }) == Some(opt_view(o)),
            None => opt_text(match f {
                Some(x) => Some(*x),
                None => None,
            }) is None,
        },
{
    match f {
        None => Some(None),
        Some(JsonField::Null) => Some(None),
        Some(JsonField::Text(s)) => Some(Some(text_clone(s))),
        _ => None,
    }
}

fn read_aud(f: Option<&JsonField>) -> (r: Option<StringOrVec>)
    ensures
        r is Some <==> aud_ok(match f {
            Some(x) => Some(*x),
            None => None,
        }),
        r matches Some(a) ==> aud_from(a, match f {
            Some(x) => Some(*x),
            None => None,
        }),
{
    match f {
        None => Some(StringOrVec::Empty),
        Some(JsonField::Null) => Some(StringOrVec::Empty),
        Some(JsonField::Text(s)) => Some(StringOrVec::Single(text_clone(s))),
        Some(JsonField::List(items)) => {
            let mut v: Vec<String> = Vec::new();
            let mut i: usize = 0;
            while i < items.len()
                invariant
                    i <= items@.len(),
                    f matches Some(x) && *x == JsonField::List(*items),
                    v@.len() == i,
                    forall|k: int| 0 <= k < i ==> items@[k] == Some(#[trigger] v@[k]),
                decreases items.len() - i,
            {
                match &items[i] {
                    Some(s) => {
                        v.push(s.clone());
                        proof {
                            assert(items@[i as int] == Some(v@[i as int]));
                        }
                    },
                    None => {
                        proof {
                            assert(items@[i as int] is None);
                            assert(!all_texts(items@));
                        }
                        return None;
                    },
                }
                i = i + 1;
            }
            proof {
                assert forall|k: int| 0 <= k < items@.len() implies (#[trigger] items@[k]) is Some by {
                    assert(items@[k] == Some(v@[k]));
                }
            }
            Some(StringOrVec::Multiple(v))
        },
        _ => None,
    }
}

fn bad_claim_text(name: &str) -> (r: String)
    ensures
        r@ == bad_claim_message(name@),
{
    let mut out: Vec<char> = Vec::new();
    push_str(&mut out, "invalid claims: member `");
    push_str(&mut out, name);
    push_str(&mut out, "` missing or of the wrong type");
    string_of(&out)
}

/// Whether `c` holds the claims that the members `fs` give.
pub open spec fn claims_match(c: TokenClaims, fs: Seq<(String, JsonField)>) -> bool {
    &&& Some(c.sub@) == req_text(field_in(fs, "sub"@))
    &&& aud_from(c.aud, field_in(fs, "aud"@))
    &&& Some(c.iss@) == default_text(field_in(fs, "iss"@))
    &&& Some(c.exp) == default_u64(field_in(fs, "exp"@))
    &&& Some(c.iat) == default_u64(field_in(fs, "iat"@))
    &&& Some(opt_view(c.pact_role)) == opt_text(field_in(fs, "pact_role"@))
    &&& Some(opt_view(c.pact_principal_type)) == opt_text(field_in(fs, "pact_principal_type"@))
}

/// Whether `c` was read from the members of some claims object.
pub open spec fn claims_read(c: TokenClaims) -> bool {
    exists|fs: Seq<(String, JsonField)>| bad_claim(fs) is None && #[trigger] claims_match(c, fs)
}

/// Reads the claims from the members of the claims object: `sub` is
/// required; `aud` may be absent, null, a string or an array of strings;
/// `iss` defaults to empty, `exp` and `iat` to 0; the pact claims are
/// optional.  The first member that cannot be read is reported.
pub fn claims_from_fields(fs: &Vec<(String, JsonField)>) -> (r: Result<TokenClaims, String>)
    ensures
        r is Ok <==> bad_claim(fs@) is None,
        r matches Err(m) ==> bad_claim(fs@) matches Some(n) && m@ == bad_claim_message(n),
        r matches Ok(c) ==> claims_match(c, fs@),
{
    let sub = match read_req_text(find_field(fs, "sub")) {
        Some(s) => s,
        None => return Err(bad_claim_text("sub")),
    };
    let aud = match read_aud(find_field(fs, "aud")) {
        Some(a) => a,
        None => return Err(bad_claim_text("aud")),
    };
    let iss = match read_default_text(find_field(fs, "iss")) {
        Some(s) => s,
        None => return Err(bad_claim_text("iss")),
    };
    let exp = match read_default_u64(find_field(fs, "exp")) {
        Some(n) => n,
        None => return Err(bad_claim_text("exp")),
    };
    let iat = match read_default_u64(find_field(fs, "iat")) {
        Some(n) => n,
        None => return Err(bad_claim_text("iat")),
    };
    let pact_role = match read_opt_text(find_field(fs, "pact_role")) {
        Some(o) => o,
        None => return Err(bad_claim_text("pact_role")),
    };
    let pact_principal_type = match read_opt_text(find_field(fs, "pact_principal_type")) {
        Some(o) => o,
        None => return Err(bad_claim_text("pact_principal_type")),
    };
    Ok(TokenClaims { sub, aud, iss, exp, iat, pact_role, pact_principal_type })
}

/// Reads verified claims: claims of some object when they can be read, an
/// invalid token otherwise.
fn read_claims(v: Value) -> (r: Result<TokenClaims, AuthError>)
    ensures
        match r {
            Ok(c) => claims_read(c),
            Err(e) => e is InvalidToken,
        },
{
    match claims_fields(v) {
        None => Err(AuthError::InvalidToken(crate::text::string_from("invalid claims: not a JSON object"))),
        Some(fs) => match claims_from_fields(&fs) {
            Ok(c) => {
                proof {
                    assert(bad_claim(fs@) is None && claims_match(c, fs@));
                }
                Ok(c)
            },
            Err(m) => Err(AuthError::InvalidToken(m)),
        },
    }
}

/// The failures a verification can be reported with: an expired token, a
/// wrong audience or issuer (naming the expected one), or an invalid token.
pub open spec fn verification_failure(e: AuthError, config: AuthConfig) -> bool {
    ||| e is TokenExpired
    ||| e == AuthError::InvalidAudience(config.audience)
    ||| e == AuthError::InvalidIssuer(config.issuer)
    ||| e is InvalidToken
}

/// What trying one key may give: claims read from some object, or a
/// verification failure.
pub open spec fn attempt_outcome(o: Result<TokenClaims, AuthError>, config: AuthConfig) -> bool {
    match o {
        Ok(c) => claims_read(c),
        Err(e) => verification_failure(e, config),
    }
}

/// The outcome of a verification as `jsonwebtoken` reported it.
fn decoded_claims(d: Result<Value, jsonwebtoken::errors::Error>, config: &AuthConfig) -> (r: Result<TokenClaims, AuthError>)
    ensures
        attempt_outcome(r, *config),
{
    match d {
        Ok(v) => read_claims(v),
        Err(err) => {
            let (kind, detail) = jwt_failure(&err);
            Err(map_jwt_error(kind, detail.as_str(), config))
        },
    }
}

/// Verifies an HS256 token with the configured secret: no secret is
/// [`AuthError::NoSigningKey`]; a verification failure is mapped by
/// [`map_jwt_error`]; claims that cannot be read are an invalid token.
pub fn validate_token(token: &str, config: &AuthConfig) -> (r: Result<TokenClaims, AuthError>)
    ensures
        config.hmac_secret is None ==> r matches Err(AuthError::NoSigningKey),
        config.hmac_secret is Some ==> attempt_outcome(r, *config),
{
    let secret = match &config.hmac_secret {
        Some(s) => s,
        None => return Err(AuthError::NoSigningKey),
    };
    decoded_claims(verify_hs256(token, secret.as_slice(), config), config)
}

/// How std's `Debug` writes an optional key id: `None`, or `Some(…)` around
/// the id quoted and escaped as `str`'s `Debug` does.
pub uninterp spec fn kid_debug(kid: Option<Seq<char>>) -> Seq<char>;

/// `<Option<&str> as Debug>::fmt`, through `format!("{:?}")`.
#[verifier::external_body]
fn kid_debug_text(kid: &Option<String>) -> (r: String)
    ensures
        r@ == kid_debug(opt_view(*kid)),
{
    format!("{:?}", kid.as_deref())
}

/// The refusal when no key of the set may have signed the token.
pub open spec fn no_matching_key_message(kid: Option<Seq<char>>) -> Seq<char> {
    "no matching JWKS key for kid "@ + kid_debug(kid)
}

fn no_matching_key_text(kid: &Option<String>) -> (r: String)
    ensures
        r@ == no_matching_key_message(opt_view(*kid)),
{
    let mut out: Vec<char> = Vec::new();
    push_str(&mut out, "no matching JWKS key for kid ");
    push_str(&mut out, kid_debug_text(kid).as_str());
    string_of(&out)
}

/// Whether some outcome is a success.
pub open spec fn has_success(outcomes: Seq<Result<TokenClaims, AuthError>>) -> bool {
    exists|k: int| 0 <= k < outcomes.len() && (#[trigger] outcomes[k]) is Ok
}

/// The verdict over the outcomes of keys tried in order: the first
/// success, else the last failure; [`AuthError::NoSigningKey`] when no key
/// was tried.
pub open spec fn verdict(outcomes: Seq<Result<TokenClaims, AuthError>>) -> Result<TokenClaims, AuthError>
    decreases outcomes.len(),
{
    if outcomes.len() == 0 {
        Err(AuthError::NoSigningKey)
    } else if has_success(outcomes.drop_last()) {
        verdict(outcomes.drop_last())
    } else {
        outcomes.last()
    }
}

/// The verdict over the outcomes of keys tried in order: the first
/// success, else the last failure; [`AuthError::NoSigningKey`] when there
/// is no outcome.
pub fn attempts_verdict(outcomes: Vec<Result<TokenClaims, AuthError>>) -> (r: Result<TokenClaims, AuthError>)
    ensures
        r == verdict(outcomes@),
{
    let ghost all = outcomes@;
    proof {
        assert(all.len() == outcomes.len());
    }
    let mut rest = outcomes;
    let mut res: Result<TokenClaims, AuthError> = Err(AuthError::NoSigningKey);
    let mut found = false;
    let mut k: usize = 0;
    proof {
        assert(all.take(0) =~= Seq::<Result<TokenClaims, AuthError>>::empty());
        assert(all.skip(0) =~= all);
    }
    while rest.len() > 0
        invariant
            k <= all.len(),
            all.len() <= usize::MAX,
            rest@ == all.skip(k as int),
            res == verdict(all.take(k as int)),
            found == has_success(all.take(k as int)),
        decreases rest.len(),
    {
        proof {
            assert(all.skip(k as int).len() == all.len() - k);
        }
        let o = rest.remove(0);
        proof {
            assert(o == all[k as int]);
            assert(all.take(k + 1).drop_last() =~= all.take(k as int));
            assert(all.take(k + 1).last() == all[k as int]);
            assert(rest@ =~= all.skip(k + 1));
            let t = all.take(k + 1);
            if has_success(all.take(k as int)) {
                let j = choose|j: int| 0 <= j < k && (#[trigger] all.take(k as int)[j]) is Ok;
                assert(t[j] == all.take(k as int)[j]);
            }
            if o is Ok {
                assert(t[k as int] is Ok);
            }
            if has_success(t) {
                let j = choose|j: int| 0 <= j < t.len() && (#[trigger] t[j]) is Ok;
                if j < k {
                    assert(all.take(k as int)[j] == t[j]);
                }
            }
        }
        if !found {
            found = o.is_ok();
            res = o;
        }
        k = k + 1;
    }
    proof {
        assert(all.take(k as int) =~= all);
    }
    res
}

/// Whether `outcomes` may be what trying `n` keys in order gave: at least
/// one key tried and at most `n`, every one but the last failed, trying
/// stopped early only at a success, and each outcome is a possible one.
pub open spec fn tried_in_order(outcomes: Seq<Result<TokenClaims, AuthError>>, n: nat, config: AuthConfig) -> bool {
    &&& 1 <= outcomes.len() <= n
    &&& forall|k: int| 0 <= k < outcomes.len() - 1 ==> (#[trigger] outcomes[k]) is Err
    &&& outcomes.len() < n ==> outcomes.last() is Ok
    &&& forall|k: int| 0 <= k < outcomes.len() ==> attempt_outcome(#[trigger] outcomes[k], config)
}

/// What verifying an RS256 token with the keys `keys` gives: no keys is
/// [`AuthError::NoSigningKey`]; an unreadable header is an invalid token
/// with the library's message; with no key that may have signed it (see
/// [`matching_keys`]) an invalid token naming the `kid`; otherwise the
/// [`verdict`] over trying the keys that may have signed it, in order.
pub open spec fn keys_verdict(
    token: Seq<char>,
    config: AuthConfig,
    keys: Seq<Jwk>,
    r: Result<TokenClaims, AuthError>,
) -> bool {
    if keys.len() == 0 {
        r matches Err(AuthError::NoSigningKey)
    } else {
        match jwt_header_kid(token) {
            Err(m) => r matches Err(AuthError::InvalidToken(d)) && d@ == m,
            Ok(kid) => if matching_keys(keys, kid).len() == 0 {
                r matches Err(AuthError::InvalidToken(d)) && d@ == no_matching_key_message(kid)
            } else {
                exists|outcomes: Seq<Result<TokenClaims, AuthError>>|
                    #[trigger] tried_in_order(outcomes, matching_keys(keys, kid).len(), config) && r == verdict(
                        outcomes,
                    )
            },
        }
    }
}

/// Every key that may verify the token has both RSA components.
proof fn lemma_matching_keys_match(keys: Seq<Jwk>, kid: Option<Seq<char>>)
    ensures
        forall|k: int|
            0 <= k < matching_keys(keys, kid).len() ==> jwk_matches(#[trigger] matching_keys(keys, kid)[k], kid),
    decreases keys.len(),
{
    if keys.len() > 0 {
        lemma_matching_keys_match(keys.drop_last(), kid);
        let prev = matching_keys(keys.drop_last(), kid);
        let m = matching_keys(keys, kid);
        assert forall|k: int| 0 <= k < m.len() implies jwk_matches(#[trigger] m[k], kid) by {
            if k < prev.len() {
                assert(m[k] == prev[k]);
            }
        }
    }
}

/// The verdict after a failure that follows failures only is that failure.
proof fn lemma_verdict_push(outcomes: Seq<Result<TokenClaims, AuthError>>, o: Result<TokenClaims, AuthError>)
    requires
        forall|k: int| 0 <= k < outcomes.len() ==> (#[trigger] outcomes[k]) is Err,
    ensures
        verdict(outcomes.push(o)) == o,
{
    assert(outcomes.push(o).drop_last() =~= outcomes);
    assert(!has_success(outcomes));
}

/// Verifies an RS256 token with the keys of a key set: no keys is
/// [`AuthError::NoSigningKey`]; an unreadable header is an invalid token
/// with the library's message; with no key that may have signed it (by
/// `kid`, see [`matching_keys`]) it is an invalid token naming the `kid`.
/// Otherwise each such key is tried in order; the first that verifies
/// gives the claims, else the last failure is reported.
pub fn validate_with_keys(token: &str, config: &AuthConfig, keys: &[Jwk]) -> (r: Result<TokenClaims, AuthError>)
    ensures
        keys_verdict(token@, *config, keys@, r),
{
    if keys.len() == 0 {
        return Err(AuthError::NoSigningKey);
    }
    let kid = match decode_header_kid(token) {
        Ok(k) => k,
        Err(m) => return Err(AuthError::InvalidToken(m)),
    };
    let kid_ref: Option<&str> = match &kid {
        Some(k) => Some(k.as_str()),
        None => None,
    };
    let matching = select_keys(keys, kid_ref);
    let ghost mk = matching_keys(keys@, opt_view(kid));
    proof {
        assert(opt_str_view(kid_ref) == opt_view(kid));
        assert(matching@.len() == mk.len()) by {
            assert(matching@.map_values(|k: &Jwk| *k).len() == matching@.len());
        }
        lemma_matching_keys_match(keys@, opt_view(kid));
    }
    if matching.len() == 0 {
        return Err(AuthError::InvalidToken(no_matching_key_text(&kid)));
    }
    let ghost mut outcomes: Seq<Result<TokenClaims, AuthError>> = Seq::empty();
    let mut last_err = AuthError::NoSigningKey;
    let mut i: usize = 0;
    while i < matching.len()
        invariant
            i <= matching@.len(),
            matching@.len() == mk.len(),
            matching@.map_values(|k: &Jwk| *k) == mk,
            keys@.len() > 0,
            mk.len() > 0,
            mk == matching_keys(keys@, opt_view(kid)),
            jwt_header_kid(token@) == Ok::<Option<Seq<char>>, Seq<char>>(opt_view(kid)),
            forall|k: int| 0 <= k < mk.len() ==> jwk_matches(#[trigger] mk[k], opt_view(kid)),
            outcomes.len() == i,
            forall|k: int| 0 <= k < outcomes.len() ==> (#[trigger] outcomes[k]) is Err,
            forall|k: int| 0 <= k < outcomes.len() ==> attempt_outcome(#[trigger] outcomes[k], *config),
            i > 0 ==> outcomes.last() == Err::<TokenClaims, AuthError>(last_err),
        decreases matching.len() - i,
    {
        let jwk = matching[i];
        proof {
            assert(mk[i as int] == *jwk);
        }
        let o = match (&jwk.n, &jwk.e) {
            (Some(n), Some(e)) => decoded_claims(verify_rs256(token, n.as_str(), e.as_str(), config), config),
            _ => {
                proof {
                    assert(jwk_matches(mk[i as int], opt_view(kid)));
                }
                Err(AuthError::NoSigningKey)
            },
        };
        proof {
            lemma_verdict_push(outcomes, o);
            outcomes = outcomes.push(o);
        }
        match o {
            Ok(c) => {
                proof {
                    assert(tried_in_order(outcomes, mk.len(), *config));
                }
                return Ok(c);
            },
            Err(err) => last_err = err,
        }
        i = i + 1;
    }
    proof {
        assert(outcomes.drop_last().push(outcomes.last()) =~= outcomes);
        lemma_verdict_push(outcomes.drop_last(), outcomes.last());
        assert(tried_in_order(outcomes, mk.len(), *config));
    }
    Err(last_err)
}

/// Where verifying a token for the shell server stands.
#[derive(Debug)]
pub enum TokenCheck {
    /// The outcome.
    Decided(Result<TokenClaims, AuthError>),
    /// HS256 is not configured or did not verify the token: the provider's
    /// keys are needed.
    NeedKeys,
}

/// Verifies a token as the shell server does: HS256 with the configured
/// secret first; when that is not configured or fails, RS256 with the
/// provider's keys.  Called with no keys, it decides only an HS256 success
/// and otherwise asks for the keys; called with the keys as the key cache
/// gave them (a failed download with no keys held is reported as it is),
/// it decides with them.
pub fn validate_token_with_jwks(
    token: &str,
    config: &AuthConfig,
    keys: Option<Result<Vec<Jwk>, AuthError>>,
) -> (r: TokenCheck)
    ensures
        keys is None && config.hmac_secret is None ==> r is NeedKeys,
        keys is None ==> match r {
            TokenCheck::NeedKeys => true,
            TokenCheck::Decided(res) => config.hmac_secret is Some && (res matches Ok(c) && claims_read(c)),
        },
        keys matches Some(k) ==> r matches TokenCheck::Decided(res) && match k {
            Err(e) => res == Err::<TokenClaims, AuthError>(e),
            Ok(ks) => keys_verdict(token@, *config, ks@, res),
        },
{
    match keys {
        None => {
            if config.hmac_secret.is_some() {
                match validate_token(token, config) {
                    Ok(c) => TokenCheck::Decided(Ok(c)),
                    Err(_) => TokenCheck::NeedKeys,
                }
            } else {
                TokenCheck::NeedKeys
            }
        },
        Some(Err(e)) => TokenCheck::Decided(Err(e)),
        Some(Ok(ks)) => TokenCheck::Decided(validate_with_keys(token, config, ks.as_slice())),
    }
}

} // verus!
