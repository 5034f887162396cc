//! `pact commit` and `pact rollback`: rendering of results and argument
//! checks.

use vstd::prelude::*;

use crate::common::types::{EntryType, Scope};
use crate::text::{chars_of, dec, push_chars, push_str, push_u64, string_from, string_of};

verus! {

broadcast use vstd::string::group_string_axioms;

/// A scope as shown in commit and rollback output.
pub open spec fn scope_label(scope: Scope) -> Seq<char> {
    match scope {
        Scope::Global => "global"@,
        Scope::VCluster(vc) => "vcluster: "@ + vc@,
        Scope::Node(n) => "node: "@ + n@,
    }
}

/// Appends a scope as shown in commit and rollback output.
pub fn push_scope_label(out: &mut Vec<char>, scope: &Scope)
    ensures
        final(out)@ == old(out)@ + scope_label(*scope),
{
    match scope {
        Scope::Global => push_str(out, "global"),
        Scope::VCluster(vc) => {
            push_str(out, "vcluster: ");
            push_chars(out, &chars_of(vc.as_str()));
        },
        Scope::Node(n) => {
            push_str(out, "node: ");
            push_chars(out, &chars_of(n.as_str()));
        },
    }
}

/// Result of a commit operation.
#[derive(Debug, Clone)]
pub struct CommitResult {
    pub sequence: u64,
    pub scope: Scope,
    pub policy_ref: Option<String>,
    pub approval_required: bool,
    pub approval_id: Option<String>,
}

/// The text of a commit result.
pub open spec fn commit_text(r: CommitResult) -> Seq<char> {
    if r.approval_required {
        let id = match r.approval_id {
            Some(a) => a@,
            None => "unknown"@,
        };
        "Approval required (two-person policy on "@ + scope_label(r.scope) + ")\nPending approval: "@ + id
            + " (expires in 30 min)\nWaiting for approval... (Ctrl-C to background)"@
    } else {
        let line = "Committed (seq:"@ + dec(r.sequence as nat) + ") on "@ + scope_label(r.scope);
        match r.policy_ref {
            Some(p) => line + "  policy: "@ + p@,
            None => line,
        }
    }
}

/// Formats a commit result for display.
pub fn format_commit_result(result: &CommitResult) -> (r: String)
    ensures
        r@ == commit_text(*result),
{
    let mut out: Vec<char> = Vec::new();
    if result.approval_required {
        push_str(&mut out, "Approval required (two-person policy on ");
        push_scope_label(&mut out, &result.scope);
        push_str(&mut out, ")\nPending approval: ");
        match &result.approval_id {
            Some(a) => push_chars(&mut out, &chars_of(a.as_str())),
            None => push_str(&mut out, "unknown"),
        }
        push_str(&mut out, " (expires in 30 min)\nWaiting for approval... (Ctrl-C to background)");
    } else {
        push_str(&mut out, "Committed (seq:");
        push_u64(&mut out, result.sequence);
        push_str(&mut out, ") on ");
        push_scope_label(&mut out, &result.scope);
        match &result.policy_ref {
            Some(p) => {
                push_str(&mut out, "  policy: ");
                push_chars(&mut out, &chars_of(p.as_str()));
            },
            None => {},
        }
    }
    string_of(&out)
}

/// Checks commit arguments: a commit needs a message; other entry types
/// do not.
pub fn validate_commit_args(message: Option<&str>, entry_type: &EntryType) -> (r: Result<(), String>)
    ensures
        r is Err <==> (*entry_type == EntryType::Commit && message is None),
        r matches Err(m) ==> m@ == "Commit message required (-m \"message\")"@,
{
    if *entry_type == EntryType::Commit && message.is_none() {
        return Err(string_from("Commit message required (-m \"message\")"));
    }
    Ok(())
}

/// Result of a rollback operation.
#[derive(Debug, Clone)]
pub struct RollbackResult {
    pub rollback_sequence: u64,
    pub target_sequence: u64,
    pub scope: Scope,
    pub entries_reverted: u32,
}

/// The text of a rollback result.
pub open spec fn rollback_text(r: RollbackResult) -> Seq<char> {
    "Rolled back to seq:"@ + dec(r.target_sequence as nat) + " ("@ + dec(r.entries_reverted as nat)
        + " entries reverted). New entry: seq:"@ + dec(r.rollback_sequence as nat) + " on "@ + scope_label(r.scope)
}

/// Formats a rollback result for display.
pub fn format_rollback_result(result: &RollbackResult) -> (r: String)
    ensures
        r@ == rollback_text(*result),
{
    let mut out: Vec<char> = Vec::new();
    push_str(&mut out, "Rolled back to seq:");
    push_u64(&mut out, result.target_sequence);
    push_str(&mut out, " (");
    push_u64(&mut out, result.entries_reverted as u64);
    push_str(&mut out, " entries reverted). New entry: seq:");
    push_u64(&mut out, result.rollback_sequence);
    push_str(&mut out, " on ");
    push_scope_label(&mut out, &result.scope);
    string_of(&out)
}

/// Checks a rollback target: it must be earlier than the current sequence
/// and not zero.
pub fn validate_rollback_target(target_seq: u64, current_seq: u64) -> (r: Result<(), String>)
    ensures
        r is Ok <==> (target_seq < current_seq && target_seq != 0),
        r matches Err(m) ==> m@ == if target_seq >= current_seq {
            "Cannot rollback to seq:"@ + dec(target_seq as nat) + " \u{2014} current is seq:"@
                + dec(current_seq as nat) + ". Target must be earlier."@
        } else {
            "Cannot rollback to seq:0 (no entries)"@
        },
{
    if target_seq >= current_seq {
        let mut out: Vec<char> = Vec::new();
        push_str(&mut out, "Cannot rollback to seq:");
        push_u64(&mut out, target_seq);
        push_str(&mut out, " \u{2014} current is seq:");
        push_u64(&mut out, current_seq);
        push_str(&mut out, ". Target must be earlier.");
        return Err(string_of(&out));
    }
    if target_seq == 0 {
        return Err(string_from("Cannot rollback to seq:0 (no entries)"));
    }
    Ok(())
}

} // verus!
