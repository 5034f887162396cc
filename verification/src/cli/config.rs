//! CLI configuration: journal endpoint, authentication, output format,
//! and how defaults, environment overrides and arguments combine.
//!
//! Reading the configuration file, the environment and the token file is
//! the client runtime's work; it hands the values to these functions.

use vstd::prelude::*;

use crate::agent::auth::opt_view;
use crate::text::{all_white_space, chars_of, join_path, path_join, is_white_space, is_white_space_exec, push_chars, push_str, string_eq_str, string_from, string_of, trim};

verus! {

broadcast use vstd::string::group_string_axioms;

/// Output format for CLI commands.
#[derive(Debug, Clone, Copy, PartialEq, Eq, Structural)]
pub enum OutputFormat {
    Text,
    Json,
}

/// CLI configuration.
#[derive(Debug, Clone)]
pub struct CliConfig {
    /// Journal gRPC endpoint (e.g. "https://journal.example.com:9443").
    pub endpoint: String,
    /// OIDC token for authentication; if not set, read from the token file.
    pub token: Option<String>,
    /// Path to the token file.
    pub token_path: String,
    /// Default vCluster scope for commands.
    pub default_vcluster: Option<String>,
    /// Output format.
    pub output_format: OutputFormat,
    /// Connection timeout in seconds.
    pub timeout_seconds: u32,
}

/// The user's configuration directory (`dirs::config_dir`), as a string.
/// It depends on the environment; nothing is promised of it.
#[verifier::external_body]
fn user_config_dir() -> (r: Option<String>) {
    dirs::config_dir().map(|p| p.to_string_lossy().into_owned())
}


/// The token file under a configuration directory (the current directory
/// when there is none).
pub open spec fn token_path_in(dir: Option<Seq<char>>) -> Seq<char> {
    let base = match dir {
        Some(d) => d,
        None => "."@,
    };
    path_join(path_join(base, "pact"@), "token"@)
}

/// Default path of the token file.
pub fn default_token_path() -> (r: String)
    ensures
        exists|dir: Option<Seq<char>>| #[trigger] token_path_in(dir) == r@,
{
    let dir = user_config_dir();
    let base = match &dir {
        Some(d) => d.clone(),
        None => string_from("."),
    };
    let p = join_path(base.as_str(), "pact");
    let r = join_path(p.as_str(), "token");
    assert(token_path_in(opt_view(dir)) == r@);
    r
}

/// Default journal endpoint.
pub fn default_endpoint() -> (r: String)
    ensures
        r@ == "http://localhost:9443"@,
{
    string_from("http://localhost:9443")
}

/// Default output format.
pub fn default_output_format() -> (r: OutputFormat)
    ensures
        r == OutputFormat::Text,
{
    OutputFormat::Text
}

/// Default connection timeout in seconds.
pub fn default_timeout() -> (r: u32)
    ensures
        r == 30,
{
    30
}

impl Default for CliConfig {
    /// Local endpoint, no token, text output, 30 seconds.
    fn default() -> (r: Self)
        ensures
            r.endpoint@ == "http://localhost:9443"@,
            r.token is None,
            r.default_vcluster is None,
            r.output_format == OutputFormat::Text,
            r.timeout_seconds == 30,
            exists|dir: Option<Seq<char>>| #[trigger] token_path_in(dir) == r.token_path@,
    {
        CliConfig {
            endpoint: default_endpoint(),
            token: None,
            token_path: default_token_path(),
            default_vcluster: None,
            output_format: default_output_format(),
            timeout_seconds: default_timeout(),
        }
    }
}

impl CliConfig {
    /// Applies environment overrides (`PACT_ENDPOINT`, `PACT_TOKEN`,
    /// `PACT_VCLUSTER`, `PACT_OUTPUT`), given their values: each present
    /// value replaces the setting; only `json` changes the output format.
    pub fn with_overrides(
        self,
        endpoint: Option<String>,
        token: Option<String>,
        vcluster: Option<String>,
        output: Option<String>,
    ) -> (r: Self)
        ensures
            r.endpoint == match endpoint {
                Some(e) => e,
                None => self.endpoint,
            },
            r.token == match token {
                Some(t) => Some(t),
                None => self.token,
            },
            r.default_vcluster == match vcluster {
                Some(v) => Some(v),
                None => self.default_vcluster,
            },
            r.output_format == match output {
                Some(o) => if o@ == "json"@ { OutputFormat::Json } else { self.output_format },
                None => self.output_format,
            },
            r.token_path == self.token_path,
            r.timeout_seconds == self.timeout_seconds,
    {
        let mut c = self;
        match endpoint {
            Some(e) => c.endpoint = e,
            None => {},
        }
        match token {
            Some(t) => c.token = Some(t),
            None => {},
        }
        match vcluster {
            Some(v) => c.default_vcluster = Some(v),
            None => {},
        }
        match output {
            Some(o) => if string_eq_str(&o, "json") {
                c.output_format = OutputFormat::Json;
            },
            None => {},
        }
        c
    }

    /// Resolves the vCluster: the argument, else the configured default.
    pub fn resolve_vcluster(&self, arg: Option<&str>) -> (r: Result<String, String>)
        ensures
            match arg {
                Some(a) => r matches Ok(v) && v@ == a@,
                None => match self.default_vcluster {
                    Some(d) => r matches Ok(v) && v@ == d@,
                    None => r matches Err(m) && m@ == "No vCluster specified. Use --vcluster or set PACT_VCLUSTER"@,
                },
            },
    {
        match arg {
            Some(a) => Ok(string_from(a)),
            None => match &self.default_vcluster {
                Some(d) => Ok(d.clone()),
                None => Err(string_from("No vCluster specified. Use --vcluster or set PACT_VCLUSTER")),
            },
        }
    }

    /// Resolves the bearer token: the configured token, else the contents
    /// of the token file (white space trimmed) when not blank.
    pub fn resolve_token_from(&self, token_file: Option<&str>) -> (r: Result<String, String>)
        ensures
            match self.token {
                Some(t) => r matches Ok(v) && v@ == t@,
                None => match token_file {
                    Some(c) => if !all_white_space(c@) {
                        r matches Ok(v) && v@ == trim_ws(c@)
                    } else {
                        r matches Err(m) && m@ == no_token_message(self.token_path@)
                    },
                    None => r matches Err(m) && m@ == no_token_message(self.token_path@),
                },
            },
    {
        match &self.token {
            Some(t) => Ok(t.clone()),
            None => {
                match token_file {
                    Some(c) => {
                        let t = trimmed(c);
                        if t.len() > 0 {
                            return Ok(string_of(&t));
                        }
                        proof {
                            lemma_trim_empty(c@);
                        }
                    },
                    None => {},
                }
                let mut m: Vec<char> = Vec::new();
                push_str(&mut m, "No auth token found. Set PACT_TOKEN, pass --token, or write to ");
                push_chars(&mut m, &chars_of(self.token_path.as_str()));
                Err(string_of(&m))
            },
        }
    }
}

/// The refusal when no token can be found.
pub open spec fn no_token_message(path: Seq<char>) -> Seq<char> {
    "No auth token found. Set PACT_TOKEN, pass --token, or write to "@ + path
}

/// Index of the first character of `s` that is not white space (or the
/// length).
pub open spec fn first_non_ws(s: Seq<char>) -> int
    decreases s.len(),
{
    if s.len() == 0 || !is_white_space(s[0]) {
        0
    } else {
        1 + first_non_ws(s.drop_first())
    }
}

/// `s` without leading and trailing white space (as `str::trim`).
pub open spec fn trim_ws(s: Seq<char>) -> Seq<char>
    decreases s.len(),
{
    if s.len() > 0 && is_white_space(s[0]) {
        trim_ws(s.drop_first())
    } else if s.len() > 0 && is_white_space(s.last()) {
        trim_ws(s.drop_last())
    } else {
        s
    }
}

proof fn lemma_trim_empty(s: Seq<char>)
    requires
        trim_ws(s).len() == 0,
    ensures
        all_white_space(s),
    decreases s.len(),
{
    if s.len() > 0 && is_white_space(s[0]) {
        lemma_trim_empty(s.drop_first());
        assert forall|i: int| 0 <= i < s.len() implies is_white_space(#[trigger] s[i]) by {
            if i > 0 {
                assert(s[i] == s.drop_first()[i - 1]);
            }
        }
    } else if s.len() > 0 && is_white_space(s.last()) {
        lemma_trim_empty(s.drop_last());
        assert forall|i: int| 0 <= i < s.len() implies is_white_space(#[trigger] s[i]) by {
            if i < s.len() - 1 {
                assert(s[i] == s.drop_last()[i]);
            }
        }
    }
}

proof fn lemma_trim_blank(s: Seq<char>)
    requires
        all_white_space(s),
    ensures
        trim_ws(s).len() == 0,
    decreases s.len(),
{
    if s.len() > 0 {
        assert(is_white_space(s[0]));
        assert forall|i: int| 0 <= i < s.drop_first().len() implies is_white_space(#[trigger] s.drop_first()[i]) by {
            assert(s.drop_first()[i] == s[i + 1]);
        }
        lemma_trim_blank(s.drop_first());
    }
}

/// `s` without leading and trailing white space (as `str::trim`).
pub fn trim_text(s: &str) -> (r: String)
    ensures
        r@ == trim_ws(s@),
{
    string_of(&trimmed(s))
}

/// `s` trimmed of white space at both ends.
fn trimmed(s: &str) -> (r: Vec<char>)
    ensures
        r@ == trim_ws(s@),
        r@.len() == 0 <==> all_white_space(s@),
{
    let v = chars_of(s);
    let mut lo: usize = 0;
    let mut hi: usize = v.len();
    proof {
        assert(v@.subrange(0, v@.len() as int) =~= v@);
    }
    while lo < hi && (is_white_space_exec(v[lo]) || is_white_space_exec(v[hi - 1]))
        invariant
            lo <= hi <= v@.len(),
            trim_ws(v@) == trim_ws(v@.subrange(lo as int, hi as int)),
        decreases hi - lo,
    {
        let ghost cur = v@.subrange(lo as int, hi as int);
        if is_white_space_exec(v[lo]) {
            proof {
                assert(cur.drop_first() =~= v@.subrange(lo + 1, hi as int));
            }
            lo = lo + 1;
        } else {
            proof {
                assert(cur.drop_last() =~= v@.subrange(lo as int, hi - 1));
            }
            hi = hi - 1;
        }
    }
    let r = crate::text::copy_range(&v, lo, hi);
    proof {
        let cur = v@.subrange(lo as int, hi as int);
        assert(r@ == cur);
        if r@.len() == 0 {
            lemma_trim_empty(s@);
        }
        if all_white_space(s@) {
            lemma_trim_blank(s@);
        }
    }
    r
}

} // verus!
