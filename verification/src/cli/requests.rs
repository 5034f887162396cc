//! What the CLI records in the journal for each state-changing command,
//! and how it reports the answer.  Sending the entry is the client
//! runtime's work; the journal assigns the sequence number.

use vstd::prelude::*;

use crate::common::types::Scope;
use crate::text::{dec, push_str, push_u64, string_from, string_of};

verus! {

broadcast use vstd::string::group_string_axioms;

/// An entry to append: type code, scope, author (always a human principal
/// with a role), parent sequence, policy reference and emergency reason.
#[derive(Debug)]
pub struct EntryRequest {
    pub entry_type: i32,
    pub scope: Scope,
    pub principal: String,
    pub principal_type: String,
    pub role: String,
    pub parent: Option<u64>,
    pub policy_ref: String,
    pub emergency_reason: Option<String>,
}

/// Journal type codes of the entries the CLI appends.
pub const ENTRY_COMMIT: i32 = 1;
pub const ENTRY_ROLLBACK: i32 = 2;
pub const ENTRY_EMERGENCY_START: i32 = 8;
pub const ENTRY_EMERGENCY_END: i32 = 9;
pub const ENTRY_SERVICE_LIFECYCLE: i32 = 12;

/// Whether a request is authored by `principal` with `role`, as a human.
pub open spec fn authored(r: EntryRequest, principal: Seq<char>, role: Seq<char>) -> bool {
    r.principal@ == principal && r.role@ == role && r.principal_type@ == "Human"@
}

/// Whether a request is scoped to a vCluster.
pub open spec fn on_vcluster(r: EntryRequest, vcluster: Seq<char>) -> bool {
    r.scope matches Scope::VCluster(v) && v@ == vcluster
}

fn request(
    entry_type: i32,
    scope: Scope,
    principal: &str,
    role: &str,
    parent: Option<u64>,
    policy_ref: String,
    emergency_reason: Option<String>,
) -> (r: EntryRequest)
    ensures
        r.entry_type == entry_type,
        r.scope == scope,
        authored(r, principal@, role@),
        r.parent == parent,
        r.policy_ref == policy_ref,
        r.emergency_reason == emergency_reason,
{
    EntryRequest {
        entry_type,
        scope,
        principal: string_from(principal),
        principal_type: string_from("Human"),
        role: string_from(role),
        parent,
        policy_ref,
        emergency_reason,
    }
}

/// A commit on a vCluster; the message is kept as the policy reference.
pub fn commit_request(message: &str, vcluster: &str, principal: &str, role: &str) -> (r: EntryRequest)
    ensures
        r.entry_type == ENTRY_COMMIT,
        on_vcluster(r, vcluster@),
        authored(r, principal@, role@),
        r.parent is None,
        r.policy_ref@ == message@,
        r.emergency_reason is None,
{
    request(
        ENTRY_COMMIT,
        Scope::VCluster(string_from(vcluster)),
        principal,
        role,
        None,
        string_from(message),
        None,
    )
}

/// A rollback of a vCluster to an earlier sequence, recorded as the
/// entry's parent.
pub fn rollback_request(target_seq: u64, vcluster: &str, principal: &str, role: &str) -> (r: EntryRequest)
    ensures
        r.entry_type == ENTRY_ROLLBACK,
        on_vcluster(r, vcluster@),
        authored(r, principal@, role@),
        r.parent == Some(target_seq),
        r.policy_ref@.len() == 0,
        r.emergency_reason is None,
{
    request(ENTRY_ROLLBACK, Scope::VCluster(string_from(vcluster)), principal, role, Some(target_seq), String::new(), None)
}

/// The start of emergency mode on a vCluster, with its reason.
pub fn emergency_start_request(reason: &str, vcluster: &str, principal: &str, role: &str) -> (r: EntryRequest)
    ensures
        r.entry_type == ENTRY_EMERGENCY_START,
        on_vcluster(r, vcluster@),
        authored(r, principal@, role@),
        r.parent is None,
        r.policy_ref@.len() == 0,
        r.emergency_reason matches Some(x) && x@ == reason@,
{
    request(
        ENTRY_EMERGENCY_START,
        Scope::VCluster(string_from(vcluster)),
        principal,
        role,
        None,
        String::new(),
        Some(string_from(reason)),
    )
}

/// The end of emergency mode on a vCluster.
pub fn emergency_end_request(vcluster: &str, principal: &str, role: &str) -> (r: EntryRequest)
    ensures
        r.entry_type == ENTRY_EMERGENCY_END,
        on_vcluster(r, vcluster@),
        authored(r, principal@, role@),
        r.parent is None,
        r.policy_ref@.len() == 0,
        r.emergency_reason is None,
{
    request(ENTRY_EMERGENCY_END, Scope::VCluster(string_from(vcluster)), principal, role, None, String::new(), None)
}

/// A blacklist change on a vCluster, recorded as a commit whose policy
/// reference names the change: `blacklist:add:{pattern}` or
/// `blacklist:remove:{pattern}`.
pub fn blacklist_request(add: bool, pattern: &str, vcluster: &str, principal: &str, role: &str) -> (r: EntryRequest)
    ensures
        r.entry_type == ENTRY_COMMIT,
        on_vcluster(r, vcluster@),
        authored(r, principal@, role@),
        r.parent is None,
        r.policy_ref@ == (if add { "blacklist:add:"@ } else { "blacklist:remove:"@ }) + pattern@,
        r.emergency_reason is None,
{
    let mut p: Vec<char> = Vec::new();
    if add {
        push_str(&mut p, "blacklist:add:");
    } else {
        push_str(&mut p, "blacklist:remove:");
    }
    push_str(&mut p, pattern);
    request(ENTRY_COMMIT, Scope::VCluster(string_from(vcluster)), principal, role, None, string_of(&p), None)
}

/// The audit entry of a delegated operation on a node: a service
/// lifecycle entry whose policy reference names the system, the command
/// and the node.
pub fn delegation_audit_request(
    command: &str,
    node_id: &str,
    target_system: &str,
    principal: &str,
    role: &str,
) -> (r: EntryRequest)
    ensures
        r.entry_type == ENTRY_SERVICE_LIFECYCLE,
        r.scope matches Scope::Node(n) && n@ == node_id@,
        authored(r, principal@, role@),
        r.parent is None,
        r.policy_ref@ == "delegate:"@ + target_system@ + ":"@ + command@ + ":"@ + node_id@,
        r.emergency_reason is None,
{
    request(
        ENTRY_SERVICE_LIFECYCLE,
        Scope::Node(string_from(node_id)),
        principal,
        role,
        None,
        crate::cli::delegate::delegation_policy_ref(target_system, command, node_id),
        None,
    )
}

/// The commit of an applied spec on a vCluster; the policy reference names
/// the spec file.
pub fn apply_request(spec_path: &str, vcluster: &str, principal: &str, role: &str) -> (r: EntryRequest)
    ensures
        r.entry_type == ENTRY_COMMIT,
        on_vcluster(r, vcluster@),
        authored(r, principal@, role@),
        r.parent is None,
        r.policy_ref@ == "apply:"@ + spec_path@,
        r.emergency_reason is None,
{
    let mut p: Vec<char> = Vec::new();
    push_str(&mut p, "apply:");
    push_str(&mut p, spec_path);
    request(ENTRY_COMMIT, Scope::VCluster(string_from(vcluster)), principal, role, None, string_of(&p), None)
}

/// The report of a commit.
pub fn commit_reply(seq: u64, vcluster: &str) -> (r: String)
    ensures
        r@ == "Committed (seq:"@ + dec(seq as nat) + ") on vCluster: "@ + vcluster@,
{
    let mut out: Vec<char> = Vec::new();
    push_str(&mut out, "Committed (seq:");
    push_u64(&mut out, seq);
    push_str(&mut out, ") on vCluster: ");
    push_str(&mut out, vcluster);
    string_of(&out)
}

/// The report of a rollback.
pub fn rollback_reply(target_seq: u64, seq: u64) -> (r: String)
    ensures
        r@ == "Rolled back to seq:"@ + dec(target_seq as nat) + " (new seq:"@ + dec(seq as nat) + ")"@,
{
    let mut out: Vec<char> = Vec::new();
    push_str(&mut out, "Rolled back to seq:");
    push_u64(&mut out, target_seq);
    push_str(&mut out, " (new seq:");
    push_u64(&mut out, seq);
    push_str(&mut out, ")");
    string_of(&out)
}

/// The report of the start of emergency mode.
pub fn emergency_start_reply(seq: u64, vcluster: &str, reason: &str) -> (r: String)
    ensures
        r@ == "Emergency mode ACTIVE (seq:"@ + dec(seq as nat) + ") on vCluster: "@ + vcluster@ + "\nReason: "@
            + reason@,
{
    let mut out: Vec<char> = Vec::new();
    push_str(&mut out, "Emergency mode ACTIVE (seq:");
    push_u64(&mut out, seq);
    push_str(&mut out, ") on vCluster: ");
    push_str(&mut out, vcluster);
    push_str(&mut out, "\nReason: ");
    push_str(&mut out, reason);
    string_of(&out)
}

/// The report of the end of emergency mode.
pub fn emergency_end_reply(seq: u64, vcluster: &str) -> (r: String)
    ensures
        r@ == "Emergency mode ENDED (seq:"@ + dec(seq as nat) + ") on vCluster: "@ + vcluster@,
{
    let mut out: Vec<char> = Vec::new();
    push_str(&mut out, "Emergency mode ENDED (seq:");
    push_u64(&mut out, seq);
    push_str(&mut out, ") on vCluster: ");
    push_str(&mut out, vcluster);
    string_of(&out)
}

/// The report of a blacklist change: the change as `pact blacklist`
/// shows it, then where it was recorded.
pub fn blacklist_reply(add: bool, pattern: &str, seq: u64, vcluster: &str) -> (r: String)
    ensures
        r@ == (if add { "Added to blacklist: "@ } else { "Removed from blacklist: "@ }) + pattern@ + " (seq:"@ + dec(
            seq as nat,
        ) + ") on vCluster: "@ + vcluster@,
{
    let mut out: Vec<char> = Vec::new();
    if add {
        push_str(&mut out, "Added to blacklist: ");
    } else {
        push_str(&mut out, "Removed from blacklist: ");
    }
    push_str(&mut out, pattern);
    push_str(&mut out, " (seq:");
    push_u64(&mut out, seq);
    push_str(&mut out, ") on vCluster: ");
    push_str(&mut out, vcluster);
    string_of(&out)
}

/// An error reported by a service, or `unknown error` when it gave none.
pub open spec fn error_or_unknown(error: Option<String>) -> Seq<char> {
    match error {
        Some(e) => e@,
        None => "unknown error"@,
    }
}

fn push_error_or_unknown(out: &mut Vec<char>, error: &Option<String>)
    ensures
        final(out)@ == old(out)@ + error_or_unknown(*error),
{
    match error {
        Some(e) => push_str(out, e.as_str()),
        None => push_str(out, "unknown error"),
    }
}

/// The answer to an approval decision.
pub fn approval_decision_reply(approval_id: &str, decision: &str, success: bool, error: Option<String>) -> (r: Result<
    String,
    String,
>)
    ensures
        success ==> (r matches Ok(m) && m@ == "Approval "@ + approval_id@ + ": "@ + decision@),
        !success ==> (r matches Err(m) && m@ == "approval decision failed: "@ + error_or_unknown(error)),
{
    let mut out: Vec<char> = Vec::new();
    if success {
        push_str(&mut out, "Approval ");
        push_str(&mut out, approval_id);
        push_str(&mut out, ": ");
        push_str(&mut out, decision);
        return Ok(string_of(&out));
    }
    push_str(&mut out, "approval decision failed: ");
    push_error_or_unknown(&mut out, &error);
    Err(string_of(&out))
}

/// The answer to a commit window extension: the minutes added and the
/// whole minutes now remaining.
pub fn extend_reply(mins: u32, success: bool, deadline_seconds: u32, error: Option<String>) -> (r: Result<String, String>)
    ensures
        success ==> (r matches Ok(m) && m@ == "Commit window extended by "@ + dec(mins as nat) + " minutes ("@ + dec(
            (deadline_seconds / 60) as nat,
        ) + " minutes remaining)"@),
        !success ==> (r matches Err(m) && m@ == "extend failed: "@ + error_or_unknown(error)),
{
    let mut out: Vec<char> = Vec::new();
    if success {
        push_str(&mut out, "Commit window extended by ");
        push_u64(&mut out, mins as u64);
        push_str(&mut out, " minutes (");
        push_u64(&mut out, (deadline_seconds / 60) as u64);
        push_str(&mut out, " minutes remaining)");
        return Ok(string_of(&out));
    }
    push_str(&mut out, "extend failed: ");
    push_error_or_unknown(&mut out, &error);
    Err(string_of(&out))
}

/// The report of an apply: a notice when the spec changes nothing, else
/// its summary, a blank line, and one line per vCluster with the sequence
/// of its entry.
pub open spec fn apply_report_text(summary: Seq<char>, applied: Seq<(Seq<char>, u64)>) -> Seq<char> {
    summary + "\n\n"@ + crate::text::join(
        applied.map_values(|a: (Seq<char>, u64)| "Applied to "@ + a.0 + " (seq:"@ + dec(a.1 as nat) + ")"@),
        "\n"@,
    )
}

/// Reports an applied spec.
pub fn apply_report(summary: &str, applied: &[(String, u64)]) -> (r: String)
    ensures
        r@ == apply_report_text(summary@, applied@.map_values(|a: (String, u64)| (a.0@, a.1))),
{
    let mut lines: Vec<Vec<char>> = Vec::new();
    let mut i: usize = 0;
    let ghost f = |a: (Seq<char>, u64)| "Applied to "@ + a.0 + " (seq:"@ + dec(a.1 as nat) + ")"@;
    let ghost av = applied@.map_values(|a: (String, u64)| (a.0@, a.1));
    while i < applied.len()
        invariant
            i <= applied@.len(),
            av == applied@.map_values(|a: (String, u64)| (a.0@, a.1)),
            f == (|a: (Seq<char>, u64)| "Applied to "@ + a.0 + " (seq:"@ + dec(a.1 as nat) + ")"@),
            crate::text::vviews(lines@) == av.take(i as int).map_values(f),
        decreases applied.len() - i,
    {
        let ghost before = lines@;
        let mut l: Vec<char> = Vec::new();
        push_str(&mut l, "Applied to ");
        push_str(&mut l, applied[i].0.as_str());
        push_str(&mut l, " (seq:");
        push_u64(&mut l, applied[i].1);
        push_str(&mut l, ")");
        lines.push(l);
        proof {
            assert(av[i as int] == (applied@[i as int].0@, applied@[i as int].1));
            assert(crate::text::vviews(lines@) =~= crate::text::vviews(before).push(f(av[i as int])));
            assert(av.take(i + 1).map_values(f) =~= av.take(i as int).map_values(f).push(f(av[i as int])));
        }
        i = i + 1;
    }
    proof {
        assert(av.take(av.len() as int) =~= av);
    }
    let mut out: Vec<char> = Vec::new();
    push_str(&mut out, summary);
    push_str(&mut out, "\n\n");
    let nl = crate::text::chars_of("\n");
    crate::text::push_chars(&mut out, &crate::text::join_chars(&lines, &nl));
    string_of(&out)
}

/// A policy update for a vCluster, except the policy's own settings (read
/// from the policy file by the client runtime).
#[derive(Debug, Clone)]
pub struct PolicyUpdateRequest {
    /// The vCluster whose policy is replaced.
    pub vcluster_id: String,
    /// The vCluster id written into the policy: the name given, whatever
    /// the file says.
    pub policy_vcluster_id: String,
    pub principal: String,
    pub principal_type: String,
    pub role: String,
    pub message: String,
}

/// The update of vCluster `name`'s policy from the file at `policy_path`,
/// authored by a human.
pub fn policy_update_request(name: &str, policy_path: &str, principal: &str, role: &str) -> (r: PolicyUpdateRequest)
    ensures
        r.vcluster_id@ == name@,
        r.policy_vcluster_id@ == name@,
        r.principal@ == principal@,
        r.principal_type@ == "Human"@,
        r.role@ == role@,
        r.message@ == "Policy update from "@ + policy_path@,
{
    let mut m: Vec<char> = Vec::new();
    push_str(&mut m, "Policy update from ");
    push_str(&mut m, policy_path);
    PolicyUpdateRequest {
        vcluster_id: string_from(name),
        policy_vcluster_id: string_from(name),
        principal: string_from(principal),
        principal_type: string_from("Human"),
        role: string_from(role),
        message: string_of(&m),
    }
}

} // verus!
