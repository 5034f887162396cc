//! `pact blacklist`: paths excluded from drift detection.

use vstd::prelude::*;

use crate::text::{chars_of, push_chars, push_str, string_from, string_of, views};

verus! {

broadcast use vstd::string::group_string_axioms;

/// Blacklist operation type.
#[derive(Debug, Clone)]
pub enum BlacklistOp {
    List,
    Add(String),
    Remove(String),
}

/// Blacklist operation result.
#[derive(Debug, Clone)]
pub struct BlacklistResult {
    pub operation: BlacklistOp,
    pub paths: Vec<String>,
}

/// The listing of blacklisted paths: a heading, then each path indented
/// on its own line.
pub open spec fn path_listing(paths: Seq<Seq<char>>) -> Seq<char>
    decreases paths.len(),
{
    if paths.len() == 0 {
        "Blacklisted paths:\n"@
    } else {
        path_listing(paths.drop_last()) + "  "@ + paths.last() + "\n"@
    }
}

/// The text of a blacklist result.
pub open spec fn blacklist_text(r: BlacklistResult) -> Seq<char> {
    match r.operation {
        BlacklistOp::List => if r.paths@.len() == 0 {
            "No blacklist entries."@
        } else {
            path_listing(views(r.paths@))
        },
        BlacklistOp::Add(p) => "Added to blacklist: "@ + p@,
        BlacklistOp::Remove(p) => "Removed from blacklist: "@ + p@,
    }
}

/// Formats a blacklist result for display.
pub fn format_blacklist_result(result: &BlacklistResult) -> (r: String)
    ensures
        r@ == blacklist_text(*result),
{
    let mut out: Vec<char> = Vec::new();
    match &result.operation {
        BlacklistOp::List => {
            if result.paths.len() == 0 {
                push_str(&mut out, "No blacklist entries.");
            } else {
                push_str(&mut out, "Blacklisted paths:\n");
                let mut i: usize = 0;
                while i < result.paths.len()
                    invariant
                        i <= result.paths@.len(),
                        out@ == path_listing(views(result.paths@).take(i as int)),
                    decreases result.paths.len() - i,
                {
                    proof {
                        let t = views(result.paths@).take(i + 1);
                        assert(t.drop_last() =~= views(result.paths@).take(i as int));
                        assert(t.last() == result.paths@[i as int]@);
                    }
                    push_str(&mut out, "  ");
                    push_chars(&mut out, &chars_of(result.paths[i].as_str()));
                    push_str(&mut out, "\n");
                    i = i + 1;
                }
                proof {
                    assert(views(result.paths@).take(result.paths@.len() as int) =~= views(result.paths@));
                }
            }
        },
        BlacklistOp::Add(p) => {
            push_str(&mut out, "Added to blacklist: ");
            push_chars(&mut out, &chars_of(p.as_str()));
        },
        BlacklistOp::Remove(p) => {
            push_str(&mut out, "Removed from blacklist: ");
            push_chars(&mut out, &chars_of(p.as_str()));
        },
    }
    string_of(&out)
}

/// The default blacklist patterns: temporary files, logs and the virtual
/// file systems.
pub open spec fn default_blacklist_paths() -> Seq<Seq<char>> {
    seq!["/tmp/**"@, "/var/log/**"@, "/proc/**"@, "/sys/**"@, "/dev/**"@, "/run/user/**"@]
}

/// The default blacklist patterns.
pub fn default_blacklist() -> (r: Vec<String>)
    ensures
        views(r@) == default_blacklist_paths(),
{
    let mut r: Vec<String> = Vec::new();
    r.push(string_from("/tmp/**"));
    r.push(string_from("/var/log/**"));
    r.push(string_from("/proc/**"));
    r.push(string_from("/sys/**"));
    r.push(string_from("/dev/**"));
    r.push(string_from("/run/user/**"));
    proof {
        assert(views(r@) =~= default_blacklist_paths());
    }
    r
}

} // verus!
