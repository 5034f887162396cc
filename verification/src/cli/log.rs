//! `pact log`: configuration history from the journal.

use vstd::prelude::*;

use crate::common::types::{ConfigEntry, EntryType, Scope};
use crate::text::{chars_of, dec, join, join_chars, pad_right, push_chars, push_padded_right, push_str, push_u64, string_from, string_of, vviews};

verus! {

broadcast use vstd::string::group_string_axioms;

/// Bound on the magnitude of the timestamps that are rendered (within the
/// years a `chrono::DateTime<Utc>` can hold).
pub const RENDERABLE_TIMESTAMP_BOUND: i64 = 8_000_000_000_000;

/// The rendering in UTC of a Unix timestamp under a `strftime`-style
/// format, as `chrono` formats it; none for a timestamp outside the years
/// `chrono` can represent.
pub uninterp spec fn utc_rendering(ts: i64, fmt: Seq<char>) -> Option<Seq<char>>;

/// The formats the CLI renders times with: date and time, or time of day.
pub open spec fn known_format(fmt: Seq<char>) -> bool {
    fmt == "%Y-%m-%d %H:%M:%S"@ || fmt == "%H:%M:%S"@
}

/// `chrono::DateTime::from_timestamp` then `format(fmt)`: the named
/// rendering of the timestamp.  Within the bound (far inside the years
/// `chrono` represents) the conversion succeeds.
#[verifier::external_body]
fn format_utc(ts: i64, fmt: &str) -> (r: Option<String>)
    requires
        known_format(fmt@),
    ensures
        crate::agent::auth::opt_view(r) == utc_rendering(ts, fmt@),
        -RENDERABLE_TIMESTAMP_BOUND < ts < RENDERABLE_TIMESTAMP_BOUND ==> r is Some,
{
    match chrono::DateTime::from_timestamp(ts, 0) {
        Some(d) => Some(d.format(fmt).to_string()),
        None => None,
    }
}

/// A timestamp as shown: its UTC date and time, or `---` when it has none.
pub open spec fn timestamp_text(ts: i64) -> Seq<char> {
    match utc_rendering(ts, "%Y-%m-%d %H:%M:%S"@) {
        Some(t) => t,
        None => "---"@,
    }
}

/// A timestamp as a time of day in UTC, or `---` when it has none.
pub open spec fn clock_text(ts: i64) -> Seq<char> {
    match utc_rendering(ts, "%H:%M:%S"@) {
        Some(t) => t,
        None => "---"@,
    }
}

/// Renders a time of day (`---` when it cannot be represented).
pub fn format_clock(ts: i64) -> (r: String)
    ensures
        r@ == clock_text(ts),
{
    let fmt = "%H:%M:%S";
    proof {
        reveal_strlit("%H:%M:%S");
    }
    match format_utc(ts, fmt) {
        Some(t) => t,
        None => string_from("---"),
    }
}

/// Renders a timestamp (`---` when it cannot be represented).
pub fn format_timestamp(ts: i64) -> (r: String)
    ensures
        r@ == timestamp_text(ts),
        -RENDERABLE_TIMESTAMP_BOUND < ts < RENDERABLE_TIMESTAMP_BOUND ==> utc_rendering(
            ts,
            "%Y-%m-%d %H:%M:%S"@,
        ) is Some,
{
    let fmt = "%Y-%m-%d %H:%M:%S";
    match format_utc(ts, fmt) {
        Some(t) => t,
        None => string_from("---"),
    }
}

/// A scope as shown in the log.
pub open spec fn log_scope(scope: Scope) -> Seq<char> {
    match scope {
        Scope::Global => "global"@,
        Scope::VCluster(vc) => "vc:"@ + vc@,
        Scope::Node(n) => "node:"@ + n@,
    }
}

/// Formats a scope for the log.
pub fn format_scope(scope: &Scope) -> (r: String)
    ensures
        r@ == log_scope(*scope),
{
    let mut out: Vec<char> = Vec::new();
    match scope {
        Scope::Global => push_str(&mut out, "global"),
        Scope::VCluster(vc) => {
            push_str(&mut out, "vc:");
            push_chars(&mut out, &chars_of(vc.as_str()));
        },
        Scope::Node(n) => {
            push_str(&mut out, "node:");
            push_chars(&mut out, &chars_of(n.as_str()));
        },
    }
    string_of(&out)
}

/// The log name of an entry type.
pub open spec fn entry_type_name(et: EntryType) -> Seq<char> {
    match et {
        EntryType::Commit => "COMMIT"@,
        EntryType::Rollback => "ROLLBACK"@,
        EntryType::AutoConverge => "AUTO_CONVERGE"@,
        EntryType::DriftDetected => "DRIFT_DETECTED"@,
        EntryType::CapabilityChange => "CAP_CHANGE"@,
        EntryType::PolicyUpdate => "POLICY_UPDATE"@,
        EntryType::BootConfig => "BOOT_CONFIG"@,
        EntryType::EmergencyStart => "EMERGENCY_ON"@,
        EntryType::EmergencyEnd => "EMERGENCY_OFF"@,
        EntryType::ExecLog => "EXEC"@,
        EntryType::ShellSession => "SHELL"@,
        EntryType::ServiceLifecycle => "SERVICE"@,
        EntryType::PendingApproval => "APPROVAL"@,
        EntryType::NodeEnrolled => "NODE_ENROLLED"@,
        EntryType::NodeActivated => "NODE_ACTIVATED"@,
        EntryType::NodeDeactivated => "NODE_DEACTIVATED"@,
        EntryType::NodeDecommissioned => "NODE_DECOMMISSIONED"@,
        EntryType::NodeAssigned => "NODE_ASSIGNED"@,
        EntryType::NodeUnassigned => "NODE_UNASSIGNED"@,
        EntryType::CertSigned => "CERT_SIGNED"@,
        EntryType::CertRevoked => "CERT_REVOKED"@,
    }
}

/// Formats an entry type for the log.
pub fn format_entry_type(et: &EntryType) -> (r: &'static str)
    ensures
        r@ == entry_type_name(*et),
{
    match et {
        EntryType::Commit => "COMMIT",
        EntryType::Rollback => "ROLLBACK",
        EntryType::AutoConverge => "AUTO_CONVERGE",
        EntryType::DriftDetected => "DRIFT_DETECTED",
        EntryType::CapabilityChange => "CAP_CHANGE",
        EntryType::PolicyUpdate => "POLICY_UPDATE",
        EntryType::BootConfig => "BOOT_CONFIG",
        EntryType::EmergencyStart => "EMERGENCY_ON",
        EntryType::EmergencyEnd => "EMERGENCY_OFF",
        EntryType::ExecLog => "EXEC",
        EntryType::ShellSession => "SHELL",
        EntryType::ServiceLifecycle => "SERVICE",
        EntryType::PendingApproval => "APPROVAL",
        EntryType::NodeEnrolled => "NODE_ENROLLED",
        EntryType::NodeActivated => "NODE_ACTIVATED",
        EntryType::NodeDeactivated => "NODE_DEACTIVATED",
        EntryType::NodeDecommissioned => "NODE_DECOMMISSIONED",
        EntryType::NodeAssigned => "NODE_ASSIGNED",
        EntryType::NodeUnassigned => "NODE_UNASSIGNED",
        EntryType::CertSigned => "CERT_SIGNED",
        EntryType::CertRevoked => "CERT_REVOKED",
    }
}

/// Whether an entry's timestamp can be rendered.
pub open spec fn renderable(e: ConfigEntry) -> bool {
    -RENDERABLE_TIMESTAMP_BOUND < e.timestamp < RENDERABLE_TIMESTAMP_BOUND
}

/// The log line of an entry.
pub open spec fn log_line(e: ConfigEntry) -> Seq<char> {
    let line = "#"@ + pad_right(dec(e.sequence as nat), 6) + " "@ + timestamp_text(e.timestamp) + " "@
        + pad_right(entry_type_name(e.entry_type), 16) + " "@ + pad_right(log_scope(e.scope), 12)
        + " by "@ + e.author.principal@;
    let with_reason = match e.emergency_reason {
        Some(r) => line + "  reason: "@ + r@,
        None => line,
    };
    match e.policy_ref {
        Some(p) => with_reason + "  policy: "@ + p@,
        None => with_reason,
    }
}

/// Formats one log entry.
pub fn format_log_entry(entry: &ConfigEntry) -> (r: String)
    requires
        renderable(*entry),
    ensures
        r@ == log_line(*entry),
{
    let mut out: Vec<char> = Vec::new();
    push_str(&mut out, "#");
    let mut n: Vec<char> = Vec::new();
    push_u64(&mut n, entry.sequence);
    push_padded_right(&mut out, &n, 6);
    push_str(&mut out, " ");
    push_chars(&mut out, &chars_of(format_timestamp(entry.timestamp).as_str()));
    push_str(&mut out, " ");
    push_padded_right(&mut out, &chars_of(format_entry_type(&entry.entry_type)), 16);
    push_str(&mut out, " ");
    push_padded_right(&mut out, &chars_of(format_scope(&entry.scope).as_str()), 12);
    push_str(&mut out, " by ");
    push_chars(&mut out, &chars_of(entry.author.principal.as_str()));
    match &entry.emergency_reason {
        Some(reason) => {
            push_str(&mut out, "  reason: ");
            push_chars(&mut out, &chars_of(reason.as_str()));
        },
        None => {},
    }
    match &entry.policy_ref {
        Some(p) => {
            push_str(&mut out, "  policy: ");
            push_chars(&mut out, &chars_of(p.as_str()));
        },
        None => {},
    }
    string_of(&out)
}

/// The log: one line per entry, or `(no log entries)`.
pub open spec fn log_text(entries: Seq<ConfigEntry>) -> Seq<char> {
    if entries.len() == 0 {
        "(no log entries)"@
    } else {
        join(entries.map_values(|e: ConfigEntry| log_line(e)), "\n"@)
    }
}

/// Formats a list of log entries.
pub fn format_log(entries: &[ConfigEntry]) -> (r: String)
    requires
        forall|i: int| 0 <= i < entries@.len() ==> renderable(#[trigger] entries@[i]),
    ensures
        r@ == log_text(entries@),
{
    if entries.len() == 0 {
        return string_from("(no log entries)");
    }
    let mut rows: Vec<Vec<char>> = Vec::new();
    let mut i: usize = 0;
    while i < entries.len()
        invariant
            i <= entries@.len(),
            forall|i: int| 0 <= i < entries@.len() ==> renderable(#[trigger] entries@[i]),
            vviews(rows@) == entries@.take(i as int).map_values(|e: ConfigEntry| log_line(e)),
        decreases entries.len() - i,
    {
        let line = format_log_entry(&entries[i]);
        let ghost before = rows@;
        rows.push(chars_of(line.as_str()));
        proof {
            assert(entries@.take(i + 1).map_values(|e: ConfigEntry| log_line(e))
                =~= entries@.take(i as int).map_values(|e: ConfigEntry| log_line(e)).push(log_line(entries@[i as int])));
            assert(vviews(rows@) =~= vviews(before).push(log_line(entries@[i as int])));
        }
        i = i + 1;
    }
    proof {
        assert(entries@.take(entries@.len() as int) =~= entries@);
    }
    let mut nl: Vec<char> = Vec::new();
    nl.push('\n');
    proof {
        assert(nl@ =~= "\n"@) by {
            reveal_strlit("\n");
        }
    }
    string_of(&join_chars(&rows, &nl))
}

} // verus!
