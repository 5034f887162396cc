//! Diagnostic log collection for `pact diag`: input validation, the line
//! window kept of each source, grep filtering, and which sources a request
//! asks for.
//!
//! Reading the logs (files, `dmesg`, `journalctl`) is the agent runtime's
//! work; it hands the text to these functions.

use vstd::prelude::*;

use crate::common::types::SupervisorBackend;
use crate::text::{
    chars_of, contains_char, contains_exec, has_sub, last_n, lines, push_chars, push_str,
    push_u64, split_lines, str_eq, string_eq_str, string_from, string_of, views,
};

verus! {

broadcast use vstd::string::group_string_axioms;

/// Maximum allowed grep pattern length, in bytes.
pub const MAX_GREP_PATTERN_LEN: usize = 255;

/// Default line limit per source.
pub const DEFAULT_LINE_LIMIT: u32 = 100;

/// Maximum line limit per source.
pub const MAX_LINE_LIMIT: u32 = 10_000;

/// A compiled regular expression (declared for verified code).
#[verifier::external_type_specification]
#[verifier::external_body]
pub struct ExRegex(regex::Regex);

/// Whether the regular expression `pattern` matches somewhere in `line`
/// (the result of `regex::Regex::is_match` on the compiled pattern).
pub uninterp spec fn regex_matches(pattern: Seq<char>, line: Seq<char>) -> bool;

/// The message of `regex::Regex::new` when it refuses `pattern`, or `None`
/// when the pattern compiles.
pub uninterp spec fn regex_compile_error(pattern: Seq<char>) -> Option<Seq<char>>;

/// A grep filter: the pattern text and its compiled form.
///
/// It is made only by `compile_grep` (through [`validate_grep_pattern`]),
/// which compiles `pattern` into `re`.
pub struct GrepPattern {
    pattern: String,
    re: regex::Regex,
}

impl GrepPattern {
    /// The pattern text.
    pub closed spec fn pattern_text(self) -> Seq<char> {
        self.pattern@
    }
}

/// `regex::Regex::new`: compiles `pattern` into a filter holding that
/// pattern's text and its compiled form; a refusal is returned as its
/// message.  The outcome is the named result for the pattern.  This is the
/// only place a [`GrepPattern`] is made.
#[verifier::external_body]
fn compile_grep(pattern: &str) -> (r: Result<GrepPattern, String>)
    ensures
        r is Ok <==> regex_compile_error(pattern@) is None,
        r matches Ok(g) ==> g.pattern_text() == pattern@,
        r matches Err(m) ==> regex_compile_error(pattern@) == Some(m@),
{
    match regex::Regex::new(pattern) {
        Ok(re) => Ok(GrepPattern { pattern: pattern.to_string(), re }),
        Err(e) => Err(e.to_string()),
    }
}

/// `regex::Regex::is_match` on a filter's compiled pattern: the named
/// result for the pattern text and the line.
#[verifier::external_body]
fn grep_is_match(p: &GrepPattern, line: &str) -> (r: bool)
    ensures
        r == regex_matches(p.pattern_text(), line@),
{
    p.re.is_match(line)
}

/// Errors of request validation (sent back as invalid arguments).
#[derive(Debug)]
pub enum DiagError {
    InvalidArgument(String),
}

/// The verdict on a grep pattern: empty means no filter; longer than the
/// maximum (in UTF-8 bytes) or refused by the regex compiler is invalid.
pub open spec fn grep_verdict(pattern: &str) -> Result<Option<Seq<char>>, Seq<char>> {
    if pattern@.len() == 0 {
        Ok(None)
    } else if pattern.len() > MAX_GREP_PATTERN_LEN {
        Err("invalid grep pattern: exceeds maximum length of 255 chars"@)
    } else {
        match regex_compile_error(pattern@) {
            None => Ok(Some(pattern@)),
            Some(e) => Err("invalid grep pattern: "@ + e),
        }
    }
}

/// Validates a grep pattern and compiles it.
pub fn validate_grep_pattern(pattern: &str) -> (r: Result<Option<GrepPattern>, DiagError>)
    ensures
        match grep_verdict(pattern) {
            Ok(None) => r matches Ok(None),
            Ok(Some(p)) => r matches Ok(Some(g)) && g.pattern_text() == p,
            Err(m) => r matches Err(DiagError::InvalidArgument(e)) && e@ == m,
        },
{
    if pattern.is_empty() {
        return Ok(None);
    }
    if pattern.len() > MAX_GREP_PATTERN_LEN {
        let m = string_from("invalid grep pattern: exceeds maximum length of 255 chars");
        return Err(DiagError::InvalidArgument(m));
    }
    match compile_grep(pattern) {
        Ok(g) => Ok(Some(g)),
        Err(e) => {
            let mut out: Vec<char> = Vec::new();
            push_str(&mut out, "invalid grep pattern: ");
            push_chars(&mut out, &chars_of(e.as_str()));
            Err(DiagError::InvalidArgument(string_of(&out)))
        },
    }
}

/// The verdict on a service name: names containing `/` or `..` are
/// refused; others (known or not) are accepted.
pub open spec fn service_name_ok(name: Seq<char>) -> bool {
    !(name.contains('/') || has_sub(name, seq!['.', '.']))
}

/// Validates a service name against path traversal.  Unknown services are
/// accepted: their log is simply empty.
pub fn validate_service_name(name: &str, declared: &[String]) -> (r: Result<(), DiagError>)
    ensures
        r is Ok <==> (name@.len() == 0 || service_name_ok(name@)),
        r matches Err(DiagError::InvalidArgument(m)) ==> m@
            == "invalid service name: must not contain path separators: "@ + name@,
{
    if name.is_empty() {
        return Ok(());
    }
    let v = chars_of(name);
    let mut dots: Vec<char> = Vec::new();
    dots.push('.');
    dots.push('.');
    proof {
        assert(dots@ =~= seq!['.', '.']);
    }
    if contains_char(&v, '/') || contains_exec(&v, &dots) {
        let mut out: Vec<char> = Vec::new();
        push_str(&mut out, "invalid service name: must not contain path separators: ");
        push_chars(&mut out, &v);
        return Err(DiagError::InvalidArgument(string_of(&out)));
    }
    Ok(())
}

/// The line limit used for a request: 0 means the default, larger values
/// are capped at the maximum.
pub open spec fn line_limit(limit: u32) -> u32 {
    if limit == 0 {
        DEFAULT_LINE_LIMIT
    } else if limit < MAX_LINE_LIMIT {
        limit
    } else {
        MAX_LINE_LIMIT
    }
}

/// Normalizes a requested line limit.
pub fn normalize_line_limit(limit: u32) -> (r: u32)
    ensures
        r == line_limit(limit),
        1 <= r <= MAX_LINE_LIMIT,
{
    if limit == 0 {
        DEFAULT_LINE_LIMIT
    } else if limit < MAX_LINE_LIMIT {
        limit
    } else {
        MAX_LINE_LIMIT
    }
}

/// The last `n` lines of `content` (lines as `str::lines` yields them).
pub fn read_last_n_lines(content: &str, n: u32) -> (r: Vec<String>)
    ensures
        views(r@) == last_n(lines(content@), n as nat),
{
    let all = split_lines(content);
    let n = n as usize;
    if all.len() <= n {
        return all;
    }
    let start = all.len() - n;
    let mut r: Vec<String> = Vec::new();
    let mut i = start;
    while i < all.len()
        invariant
            start <= i <= all@.len(),
            start == all@.len() - n,
            views(r@) == views(all@).subrange(start as int, i as int),
        decreases all.len() - i,
    {
        let ghost before = r@;
        r.push(all[i].clone());
        proof {
            assert(views(r@) =~= views(before).push(all@[i as int]@));
            assert(views(r@) =~= views(all@).subrange(start as int, i + 1));
        }
        i = i + 1;
    }
    proof {
        assert(views(all@).subrange(start as int, all@.len() as int) =~= views(all@).skip(start as int));
    }
    r
}

/// The lines of `lines` that `pattern` matches, in order (all of them
/// without a pattern).
pub open spec fn grep_filter(lines: Seq<Seq<char>>, pattern: Option<Seq<char>>) -> Seq<Seq<char>>
    decreases lines.len(),
{
    match pattern {
        None => lines,
        Some(p) => if lines.len() == 0 {
            lines
        } else {
            let prev = grep_filter(lines.drop_last(), pattern);
            if regex_matches(p, lines.last()) {
                prev.push(lines.last())
            } else {
                prev
            }
        },
    }
}

/// The pattern text of an optional filter.
pub open spec fn grep_text(pattern: Option<&GrepPattern>) -> Option<Seq<char>> {
    match pattern {
        Some(g) => Some(g.pattern_text()),
        None => None,
    }
}

/// Keeps the lines the filter matches; without a filter, all lines.
pub fn apply_grep(lines: Vec<String>, pattern: Option<&GrepPattern>) -> (r: Vec<String>)
    ensures
        views(r@) == grep_filter(views(lines@), grep_text(pattern)),
{
    match pattern {
        None => lines,
        Some(g) => {
            let mut r: Vec<String> = Vec::new();
            let mut i: usize = 0;
            while i < lines.len()
                invariant
                    i <= lines@.len(),
                    views(r@) == grep_filter(views(lines@).take(i as int), Some(g.pattern_text())),
                decreases lines.len() - i,
            {
                proof {
                    let t = views(lines@).take(i + 1);
                    assert(t.drop_last() =~= views(lines@).take(i as int));
                    assert(t.last() == lines@[i as int]@);
                }
                if grep_is_match(g, lines[i].as_str()) {
                    let ghost before = r@;
                    r.push(lines[i].clone());
                    proof {
                        assert(views(r@) =~= views(before).push(lines@[i as int]@));
                    }
                }
                i = i + 1;
            }
            proof {
                assert(views(lines@).take(lines@.len() as int) =~= views(lines@));
            }
            r
        },
    }
}

/// A log source of a diagnostic request.
#[derive(Debug)]
pub enum DiagSource {
    /// The kernel ring buffer.
    Dmesg,
    /// The system log.
    Syslog,
    /// The log of one supervised service.
    Service(String),
}

/// The view of a diagnostic source.
pub enum DiagSourceView {
    Dmesg,
    Syslog,
    Service(Seq<char>),
}

/// The view of a diagnostic source.
pub open spec fn source_view(s: DiagSource) -> DiagSourceView {
    match s {
        DiagSource::Dmesg => DiagSourceView::Dmesg,
        DiagSource::Syslog => DiagSourceView::Syslog,
        DiagSource::Service(n) => DiagSourceView::Service(n@),
    }
}

/// The sources a request asks for: system logs for `system`, `all` or no
/// filter; service logs for `service`, `all` or no filter, either the named
/// service or every declared one.
pub open spec fn diag_plan(filter: Seq<char>, service: Seq<char>, declared: Seq<Seq<char>>) -> Seq<DiagSourceView> {
    let system = filter == "system"@ || filter == "all"@ || filter.len() == 0;
    let services = filter == "service"@ || filter == "all"@ || filter.len() == 0;
    let sys_part = if system {
        seq![DiagSourceView::Dmesg, DiagSourceView::Syslog]
    } else {
        Seq::empty()
    };
    let svc_part = if !services {
        Seq::empty()
    } else if service.len() == 0 {
        declared.map_values(|d: Seq<char>| DiagSourceView::Service(d))
    } else {
        seq![DiagSourceView::Service(service)]
    };
    sys_part + svc_part
}

/// Which logs a request collects: with the filter `all` or no filter, the
/// kernel log and then syslog come first, whatever the service, followed
/// by the named service's log or, when none is named, every declared
/// service's log in order; `system` collects those two logs only;
/// `service` collects service logs only; any other filter collects nothing.
pub proof fn law_diag_sources(filter: Seq<char>, service: Seq<char>, declared: Seq<Seq<char>>)
    ensures
        ({
            let p = diag_plan(filter, service, declared);
            &&& (filter == "all"@ || filter.len() == 0) ==> {
                &&& p.len() >= 2
                &&& p[0] == DiagSourceView::Dmesg
                &&& p[1] == DiagSourceView::Syslog
                &&& service.len() > 0 ==> p.len() == 3 && p[2] == DiagSourceView::Service(service)
                &&& service.len() == 0 ==> p.len() == 2 + declared.len() && forall|i: int|
                    0 <= i < declared.len() ==> p[2 + i] == DiagSourceView::Service(#[trigger] declared[i])
            }
            &&& filter == "system"@ ==> p == seq![DiagSourceView::Dmesg, DiagSourceView::Syslog]
            &&& filter == "service"@ ==> {
                &&& service.len() > 0 ==> p == seq![DiagSourceView::Service(service)]
                &&& service.len() == 0 ==> p.len() == declared.len() && forall|i: int|
                    0 <= i < declared.len() ==> p[i] == DiagSourceView::Service(#[trigger] declared[i])
            }
            &&& (filter != "all"@ && filter.len() > 0 && filter != "system"@ && filter != "service"@) ==> p.len() == 0
        }),
{
    reveal_strlit("all");
    reveal_strlit("system");
    reveal_strlit("service");
    let p = diag_plan(filter, service, declared);
    if filter == "system"@ {
        assert(filter != "all"@ && filter != "service"@ && filter.len() > 0) by {
            assert(filter[1] == 'y');
        }
        assert(p =~= seq![DiagSourceView::Dmesg, DiagSourceView::Syslog]);
    }
    if filter == "service"@ {
        assert(filter != "all"@ && filter != "system"@ && filter.len() > 0) by {
            assert(filter[1] == 'e');
        }
        if service.len() > 0 {
            assert(p =~= seq![DiagSourceView::Service(service)]);
        }
    }
}

/// The sources to collect for a request, in order.
pub fn plan_diag(source_filter: &str, service_name: &str, declared: &[String]) -> (r: Vec<DiagSource>)
    ensures
        r@.map_values(|s: DiagSource| source_view(s)) == diag_plan(source_filter@, service_name@, views(declared@)),
{
    let system = str_eq(source_filter, "system") || str_eq(source_filter, "all") || source_filter.is_empty();
    let services = str_eq(source_filter, "service") || str_eq(source_filter, "all") || source_filter.is_empty();
    let mut r: Vec<DiagSource> = Vec::new();
    if system {
        r.push(DiagSource::Dmesg);
        r.push(DiagSource::Syslog);
    }
    let ghost sys_len = r@.len();
    let ghost sys_part = r@.map_values(|s: DiagSource| source_view(s));
    proof {
        if system {
            assert(sys_part =~= seq![DiagSourceView::Dmesg, DiagSourceView::Syslog]);
        } else {
            assert(sys_part =~= Seq::<DiagSourceView>::empty());
        }
    }
    if services {
        if service_name.is_empty() {
            let mut i: usize = 0;
            while i < declared.len()
                invariant
                    i <= declared@.len(),
                    r@.len() == sys_len + i,
                    r@.map_values(|s: DiagSource| source_view(s)) == sys_part
                        + views(declared@).take(i as int).map_values(|d: Seq<char>| DiagSourceView::Service(d)),
                decreases declared.len() - i,
            {
                let ghost before = r@;
                r.push(DiagSource::Service(declared[i].clone()));
                proof {
                    assert(views(declared@).take(i + 1).map_values(|d: Seq<char>| DiagSourceView::Service(d))
                        =~= views(declared@).take(i as int).map_values(|d: Seq<char>| DiagSourceView::Service(d))
                            .push(DiagSourceView::Service(declared@[i as int]@)));
                    assert(r@.map_values(|s: DiagSource| source_view(s))
                        =~= before.map_values(|s: DiagSource| source_view(s)).push(DiagSourceView::Service(declared@[i as int]@)));
                }
                i = i + 1;
            }
            proof {
                assert(views(declared@).take(declared@.len() as int) =~= views(declared@));
            }
        } else {
            let ghost before = r@;
            r.push(DiagSource::Service(string_from(service_name)));
            proof {
                assert(r@.map_values(|s: DiagSource| source_view(s))
                    =~= sys_part + seq![DiagSourceView::Service(service_name@)]);
            }
        }
    } else {
        proof {
            assert(r@.map_values(|s: DiagSource| source_view(s)) =~= sys_part + Seq::<DiagSourceView>::empty());
        }
    }
    r
}

/// A chunk of collected log lines for one source.
#[derive(Debug)]
pub struct DiagChunk {
    /// Source name (`dmesg`, `syslog` or `service:{name}`).
    pub source: String,
    /// The lines kept.
    pub lines: Vec<String>,
    /// Whether older lines were left out by the line limit.
    pub truncated: bool,
}

/// Builds the chunk of a file-backed source from its content: the last
/// `limit` lines, filtered, and whether there were more lines than kept.
pub fn chunk_from_content(source: String, content: &str, limit: u32, grep: Option<&GrepPattern>) -> (r: DiagChunk)
    ensures
        r.source@ == source@,
        views(r.lines@) == grep_filter(last_n(lines(content@), limit as nat), grep_text(grep)),
        r.truncated == (lines(content@).len() > limit),
{
    let total = split_lines(content).len();
    let kept = read_last_n_lines(content, limit);
    let filtered = apply_grep(kept, grep);
    DiagChunk { source, lines: filtered, truncated: total > limit as usize }
}

/// The chunk name of a service source.
pub fn service_source_name(service: &str) -> (r: String)
    ensures
        r@ == "service:"@ + service@,
{
    let mut out: Vec<char> = Vec::new();
    push_str(&mut out, "service:");
    push_str(&mut out, service);
    string_of(&out)
}

/// The `journalctl` arguments for a service's last `limit` lines.
pub fn journalctl_args(service: &str, limit: u32) -> (r: Vec<String>)
    ensures
        views(r@) == seq!["-u"@, service@, "--no-pager"@, "-n"@, crate::text::dec(limit as nat)],
{
    let mut r: Vec<String> = Vec::new();
    r.push(string_from("-u"));
    r.push(string_from(service));
    r.push(string_from("--no-pager"));
    r.push(string_from("-n"));
    let mut n: Vec<char> = Vec::new();
    push_u64(&mut n, limit as u64);
    r.push(string_of(&n));
    proof {
        assert(views(r@) =~= seq!["-u"@, service@, "--no-pager"@, "-n"@, crate::text::dec(limit as nat)]);
    }
    r
}

/// Which backend's service log a source reads: supervised services log to
/// `/run/pact/logs/{service}.log`; under systemd, `journalctl` is asked.
pub fn service_log_path(service: &str) -> (r: String)
    ensures
        r@ == "/run/pact/logs/"@ + service@ + ".log"@,
{
    let mut out: Vec<char> = Vec::new();
    push_str(&mut out, "/run/pact/logs/");
    push_str(&mut out, service);
    push_str(&mut out, ".log");
    string_of(&out)
}

/// Builds the chunk of a service from what `journalctl` printed: every
/// line it gave (it already kept only the last ones), filtered; never
/// marked as truncated.
pub fn chunk_from_journal(source: String, content: &str, grep: Option<&GrepPattern>) -> (r: DiagChunk)
    ensures
        r.source@ == source@,
        views(r.lines@) == grep_filter(lines(content@), grep_text(grep)),
        !r.truncated,
{
    let all = split_lines(content);
    let filtered = apply_grep(all, grep);
    DiagChunk { source, lines: filtered, truncated: false }
}

/// The chunk of a source that could not be read: no lines; a timed-out
/// `journalctl` is reported as truncated.
pub fn empty_chunk(source: String, truncated: bool) -> (r: DiagChunk)
    ensures
        r.source == source,
        r.lines@.len() == 0,
        r.truncated == truncated,
{
    DiagChunk { source, lines: Vec::new(), truncated }
}

/// How long a log command may run, in seconds.
pub const SUBPROCESS_TIMEOUT_SECS: u64 = 5;

/// Why a log command produced no output.
#[derive(Debug)]
pub enum CommandFailure {
    /// It could not be started; the system's description.
    Spawn(String),
    /// Waiting for it failed; the system's description.
    Wait(String),
    /// It ran longer than allowed.
    TimedOut,
}

/// The message of a failed log command.
pub fn command_failure_message(cmd: &str, f: &CommandFailure) -> (r: String)
    ensures
        r@ == match *f {
            CommandFailure::Spawn(e) => "failed to spawn "@ + cmd@ + ": "@ + e@,
            CommandFailure::Wait(e) => cmd@ + " failed: "@ + e@,
            CommandFailure::TimedOut => cmd@ + " timed out after "@ + crate::text::dec(SUBPROCESS_TIMEOUT_SECS as nat)
                + "s"@,
        },
{
    let mut out: Vec<char> = Vec::new();
    match f {
        CommandFailure::Spawn(e) => {
            push_str(&mut out, "failed to spawn ");
            push_str(&mut out, cmd);
            push_str(&mut out, ": ");
            push_str(&mut out, e.as_str());
        },
        CommandFailure::Wait(e) => {
            push_str(&mut out, cmd);
            push_str(&mut out, " failed: ");
            push_str(&mut out, e.as_str());
        },
        CommandFailure::TimedOut => {
            push_str(&mut out, cmd);
            push_str(&mut out, " timed out after ");
            push_u64(&mut out, SUBPROCESS_TIMEOUT_SECS);
            push_str(&mut out, "s");
        },
    }
    string_of(&out)
}

} // verus!
