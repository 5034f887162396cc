//! `pact approve`: the two-person approval workflow.
//!
//! For regulated vClusters, state-changing operations wait for a second
//! admin; an approval can be decided once, not by its requester, and not
//! after it expired.

use vstd::prelude::*;

use crate::common::types::{ApprovalStatus, PendingApproval, Scope};
use crate::text::{
    chars_of, idec, join, join_chars, pad_right, push_chars, push_i64, push_padded_right,
    push_str, str_eq, string_eq_str, string_from, string_of, vviews,
};
use vstd::utf8::{decode_utf8, encode_utf8, is_char_boundary};

verus! {

broadcast use vstd::string::group_string_axioms, vstd::utf8::group_utf8_lib;

/// Bound on the magnitude of a timestamp that `chrono::DateTime<Utc>` can
/// hold (its years span about ±262 000).
pub const TIMESTAMP_BOUND: i64 = 10_000_000_000_000;

/// The current time in seconds since the Unix epoch (`chrono::Utc::now`
/// then `timestamp`).  Only its range is promised: a `DateTime` lies within
/// chrono's supported years.
#[verifier::external_body]
fn now_unix_seconds() -> (t: i64)
    ensures
        -TIMESTAMP_BOUND < t < TIMESTAMP_BOUND,
{
    chrono::Utc::now().timestamp()
}

/// The text of an approve or deny decision.
pub open spec fn approve_text(id: Seq<char>, action: Seq<char>) -> Seq<char> {
    if action == "approve"@ {
        "Approved "@ + id + ". Original operation will proceed."@
    } else if action == "deny"@ {
        "Denied "@ + id + ". Original operation cancelled."@
    } else {
        action + ": "@ + id
    }
}

/// Formats the result of an approval decision.
pub fn format_approve_result(approval_id: &str, action: &str) -> (r: String)
    ensures
        r@ == approve_text(approval_id@, action@),
{
    let mut out: Vec<char> = Vec::new();
    if str_eq(action, "approve") {
        push_str(&mut out, "Approved ");
        push_str(&mut out, approval_id);
        push_str(&mut out, ". Original operation will proceed.");
    } else if str_eq(action, "deny") {
        push_str(&mut out, "Denied ");
        push_str(&mut out, approval_id);
        push_str(&mut out, ". Original operation cancelled.");
    } else {
        push_str(&mut out, action);
        push_str(&mut out, ": ");
        push_str(&mut out, approval_id);
    }
    string_of(&out)
}

/// The name of a status, as `{:?}` writes it.
pub open spec fn status_name(s: ApprovalStatus) -> Seq<char> {
    match s {
        ApprovalStatus::Pending => "Pending"@,
        ApprovalStatus::Approved => "Approved"@,
        ApprovalStatus::Rejected => "Rejected"@,
        ApprovalStatus::Expired => "Expired"@,
    }
}

fn status_name_exec(s: ApprovalStatus) -> (r: &'static str)
    ensures
        r@ == status_name(s),
{
    match s {
        ApprovalStatus::Pending => "Pending",
        ApprovalStatus::Approved => "Approved",
        ApprovalStatus::Rejected => "Rejected",
        ApprovalStatus::Expired => "Expired",
    }
}

/// The verdict on deciding `a` by `approver` at time `now`: it must still
/// be pending, not be the approver's own request, and not have expired.
pub open spec fn approval_verdict(a: PendingApproval, approver: Seq<char>, now: i64) -> Option<Seq<char>> {
    if a.status != ApprovalStatus::Pending {
        Some("Approval "@ + a.approval_id@ + " is already "@ + status_name(a.status))
    } else if a.requester.principal@ == approver {
        Some("Cannot approve your own request (P4: self-approval denied)"@)
    } else if now > a.expires_at {
        Some("Approval "@ + a.approval_id@ + " has expired (P5)"@)
    } else {
        None
    }
}

/// Checks that an approval can be decided at time `now`.
pub fn validate_approval_at(approval: &PendingApproval, approver: &str, now: i64) -> (r: Result<(), String>)
    ensures
        r is Ok <==> approval_verdict(*approval, approver@, now) is None,
        r matches Err(m) ==> approval_verdict(*approval, approver@, now) == Some(m@),
{
    if approval.status != ApprovalStatus::Pending {
        let mut out: Vec<char> = Vec::new();
        push_str(&mut out, "Approval ");
        push_chars(&mut out, &chars_of(approval.approval_id.as_str()));
        push_str(&mut out, " is already ");
        push_str(&mut out, status_name_exec(approval.status));
        return Err(string_of(&out));
    }
    if string_eq_str(&approval.requester.principal, approver) {
        return Err(string_from("Cannot approve your own request (P4: self-approval denied)"));
    }
    if now > approval.expires_at {
        let mut out: Vec<char> = Vec::new();
        push_str(&mut out, "Approval ");
        push_chars(&mut out, &chars_of(approval.approval_id.as_str()));
        push_str(&mut out, " has expired (P5)");
        return Err(string_of(&out));
    }
    Ok(())
}

/// Checks that an approval can be decided now.  The status and
/// self-approval checks do not depend on the time; the expiry check uses
/// the clock.
pub fn validate_approval(approval: &PendingApproval, approver: &str) -> (r: Result<(), String>)
    ensures
        exists|now: i64| #![trigger approval_verdict(*approval, approver@, now)]
            (r is Ok <==> approval_verdict(*approval, approver@, now) is None)
            && (r matches Err(m) ==> approval_verdict(*approval, approver@, now) == Some(m@)),
{
    let now = now_unix_seconds();
    let r = validate_approval_at(approval, approver, now);
    assert(approval_verdict(*approval, approver@, now) == approval_verdict(*approval, approver@, now));
    r
}

/// Whether `truncate(s, max_len)` is defined: a string longer than the
/// limit (in bytes) is cut at byte `max_len - 1`, which must be a character
/// boundary.
pub open spec fn truncate_ok(s: Seq<char>, max_len: usize) -> bool {
    encode_utf8(s).len() > max_len ==> max_len >= 1 && is_char_boundary(encode_utf8(s), max_len - 1)
}

/// `s` if it fits in `max_len` bytes, else its first `max_len - 1` bytes
/// followed by an ellipsis.
pub open spec fn truncated(s: Seq<char>, max_len: usize) -> Seq<char> {
    if encode_utf8(s).len() <= max_len {
        s
    } else {
        decode_utf8(encode_utf8(s).subrange(0, max_len - 1)) + "\u{2026}"@
    }
}

/// Shortens a string to a column width, marking the cut with an ellipsis.
pub fn truncate(s: &str, max_len: usize) -> (r: String)
    requires
        truncate_ok(s@, max_len),
    ensures
        r@ == truncated(s@, max_len),
{
    let bytes = s.as_bytes();
    if bytes.len() <= max_len {
        return string_from(s);
    }
    let (head, _tail) = s.split_at(max_len - 1);
    let mut out: Vec<char> = Vec::new();
    push_str(&mut out, head);
    push_str(&mut out, "\u{2026}");
    proof {
        assert(head@ == decode_utf8(encode_utf8(head@)));
    }
    string_of(&out)
}

/// A scope as shown in the approval list: just its name.
pub open spec fn scope_name(scope: Scope) -> Seq<char> {
    match scope {
        Scope::Global => "global"@,
        Scope::VCluster(vc) => vc@,
        Scope::Node(n) => n@,
    }
}

fn scope_name_exec(scope: &Scope) -> (r: String)
    ensures
        r@ == scope_name(*scope),
{
    match scope {
        Scope::Global => string_from("global"),
        Scope::VCluster(vc) => vc.clone(),
        Scope::Node(n) => n.clone(),
    }
}

/// How long ago `created` was at time `now`: seconds below a minute,
/// minutes below an hour, hours otherwise.
pub open spec fn age_text(created: i64, now: i64) -> Seq<char> {
    let elapsed = now - created;
    if elapsed < 60 {
        idec(elapsed) + "s ago"@
    } else if elapsed < 3600 {
        idec(elapsed / 60) + " min ago"@
    } else {
        idec(elapsed / 3600) + " hr ago"@
    }
}

/// Formats the age of a request.
pub fn format_age(created: i64, now: i64) -> (r: String)
    requires
        i64::MIN <= now - created <= i64::MAX,
    ensures
        r@ == age_text(created, now),
{
    let elapsed = now - created;
    let mut out: Vec<char> = Vec::new();
    if elapsed < 60 {
        push_i64(&mut out, elapsed);
        push_str(&mut out, "s ago");
    } else if elapsed < 3600 {
        push_i64(&mut out, elapsed / 60);
        push_str(&mut out, " min ago");
    } else {
        push_i64(&mut out, elapsed / 3600);
        push_str(&mut out, " hr ago");
    }
    string_of(&out)
}

/// The marker shown after a request that is no longer pending.
pub open spec fn status_marker(s: ApprovalStatus) -> Seq<char> {
    match s {
        ApprovalStatus::Pending => ""@,
        ApprovalStatus::Approved => " [APPROVED]"@,
        ApprovalStatus::Rejected => " [REJECTED]"@,
        ApprovalStatus::Expired => " [EXPIRED]"@,
    }
}

/// Whether every column of an approval can be shortened (see
/// [`truncate_ok`]) and its age computed at `now`.
pub open spec fn approval_row_ok(a: PendingApproval, now: i64) -> bool {
    &&& truncate_ok(a.approval_id@, 10)
    &&& truncate_ok(a.action@, 30)
    &&& truncate_ok(a.requester.principal@, 25)
    &&& truncate_ok(scope_name(a.scope), 20)
    &&& i64::MIN <= now - a.created_at <= i64::MAX
}

/// The header of the approval list.
pub open spec fn approval_header() -> Seq<char> {
    pad_right("ID"@, 10) + " "@ + pad_right("SCOPE"@, 20) + " "@ + pad_right("ACTION"@, 30) + " "@
        + pad_right("REQUESTER"@, 25) + " "@ + "AGE"@
}

/// One row of the approval list.
pub open spec fn approval_row(a: PendingApproval, now: i64) -> Seq<char> {
    pad_right(truncated(a.approval_id@, 10), 10) + " "@
        + pad_right(truncated(scope_name(a.scope), 20), 20) + " "@
        + pad_right(truncated(a.action@, 30), 30) + " "@
        + pad_right(truncated(a.requester.principal@, 25), 25) + " "@
        + age_text(a.created_at, now) + status_marker(a.status)
}

/// The approval list: a placeholder when empty, else a header and a row
/// per approval, one per line.
pub open spec fn approval_list(approvals: Seq<PendingApproval>, now: i64) -> Seq<char> {
    if approvals.len() == 0 {
        "(no pending approvals)"@
    } else {
        join(seq![approval_header()] + approvals.map_values(|a: PendingApproval| approval_row(a, now)), "\n"@)
    }
}

fn approval_header_line() -> (r: Vec<char>)
    ensures
        r@ == approval_header(),
{
    let mut out: Vec<char> = Vec::new();
    push_padded_right(&mut out, &chars_of("ID"), 10);
    push_str(&mut out, " ");
    push_padded_right(&mut out, &chars_of("SCOPE"), 20);
    push_str(&mut out, " ");
    push_padded_right(&mut out, &chars_of("ACTION"), 30);
    push_str(&mut out, " ");
    push_padded_right(&mut out, &chars_of("REQUESTER"), 25);
    push_str(&mut out, " ");
    push_str(&mut out, "AGE");
    out
}

fn approval_row_line(a: &PendingApproval, now: i64) -> (r: Vec<char>)
    requires
        approval_row_ok(*a, now),
    ensures
        r@ == approval_row(*a, now),
{
    let scope = scope_name_exec(&a.scope);
    let mut out: Vec<char> = Vec::new();
    push_padded_right(&mut out, &chars_of(truncate(a.approval_id.as_str(), 10).as_str()), 10);
    push_str(&mut out, " ");
    let ts = truncate(scope.as_str(), 20);
    push_padded_right(&mut out, &chars_of(ts.as_str()), 20);
    push_str(&mut out, " ");
    push_padded_right(&mut out, &chars_of(truncate(a.action.as_str(), 30).as_str()), 30);
    push_str(&mut out, " ");
    push_padded_right(&mut out, &chars_of(truncate(a.requester.principal.as_str(), 25).as_str()), 25);
    push_str(&mut out, " ");
    push_chars(&mut out, &chars_of(format_age(a.created_at, now).as_str()));
    let marker = match a.status {
        ApprovalStatus::Pending => "",
        ApprovalStatus::Approved => " [APPROVED]",
        ApprovalStatus::Rejected => " [REJECTED]",
        ApprovalStatus::Expired => " [EXPIRED]",
    };
    push_str(&mut out, marker);
    out
}

/// Formats the pending approvals as of time `now`.
#[verifier::spinoff_prover]
#[verifier::rlimit(50)]
pub fn format_approval_list_at(approvals: &[PendingApproval], now: i64) -> (r: String)
    requires
        forall|i: int| 0 <= i < approvals@.len() ==> approval_row_ok(#[trigger] approvals@[i], now),
    ensures
        r@ == approval_list(approvals@, now),
{
    if approvals.len() == 0 {
        return string_from("(no pending approvals)");
    }
    let mut lines: Vec<Vec<char>> = Vec::new();
    lines.push(approval_header_line());
    let mut i: usize = 0;
    while i < approvals.len()
        invariant
            i <= approvals@.len(),
            forall|i: int| 0 <= i < approvals@.len() ==> approval_row_ok(#[trigger] approvals@[i], now),
            vviews(lines@) == seq![approval_header()]
                + approvals@.take(i as int).map_values(|a: PendingApproval| approval_row(a, now)),
        decreases approvals.len() - i,
    {
        let ghost before = lines@;
        lines.push(approval_row_line(&approvals[i], now));
        proof {
            assert(approvals@.take(i + 1).map_values(|a: PendingApproval| approval_row(a, now))
                =~= approvals@.take(i as int).map_values(|a: PendingApproval| approval_row(a, now))
                    .push(approval_row(approvals@[i as int], now)));
            assert(vviews(lines@) =~= vviews(before).push(approval_row(approvals@[i as int], now)));
        }
        i = i + 1;
    }
    proof {
        assert(approvals@.take(approvals@.len() as int) =~= approvals@);
    }
    let mut nl: Vec<char> = Vec::new();
    nl.push('\n');
    proof {
        assert(nl@ =~= "\n"@) by {
            reveal_strlit("\n");
        }
    }
    string_of(&join_chars(&lines, &nl))
}

/// Formats the pending approvals as of now.
pub fn format_approval_list(approvals: &[PendingApproval]) -> (r: String)
    requires
        forall|i: int| 0 <= i < approvals@.len() ==> {
            let a = #[trigger] approvals@[i];
            &&& truncate_ok(a.approval_id@, 10)
            &&& truncate_ok(a.action@, 30)
            &&& truncate_ok(a.requester.principal@, 25)
            &&& truncate_ok(scope_name(a.scope), 20)
            &&& -TIMESTAMP_BOUND < a.created_at < TIMESTAMP_BOUND
        },
    ensures
        exists|now: i64| #![trigger approval_list(approvals@, now)] r@ == approval_list(approvals@, now),
{
    let now = now_unix_seconds();
    let r = format_approval_list_at(approvals, now);
    assert(r@ == approval_list(approvals@, now));
    r
}

/// A pending approval as the policy service lists it.
#[derive(Debug, Clone)]
pub struct ApprovalSummary {
    pub approval_id: String,
    pub scope: String,
    pub action: String,
    pub requester: String,
    pub status: String,
}

/// Whether an identifier longer than ten bytes can be cut after its
/// tenth byte.
pub open spec fn id_prefix_ok(s: Seq<char>) -> bool {
    encode_utf8(s).len() > 10 ==> is_char_boundary(encode_utf8(s), 10)
}

/// The identifier shown: its first ten bytes.
pub open spec fn id_prefix(s: Seq<char>) -> Seq<char> {
    if encode_utf8(s).len() > 10 {
        decode_utf8(encode_utf8(s).subrange(0, 10))
    } else {
        s
    }
}

fn id_prefix_exec(s: &str) -> (r: Vec<char>)
    requires
        id_prefix_ok(s@),
    ensures
        r@ == id_prefix(s@),
{
    let bytes = s.as_bytes();
    if bytes.len() <= 10 {
        return chars_of(s);
    }
    let (head, _tail) = s.split_at(10);
    proof {
        assert(head@ == decode_utf8(encode_utf8(head@)));
    }
    chars_of(head)
}

/// The header of the pending approval listing.
pub open spec fn pending_header() -> Seq<char> {
    pad_right("ID"@, 12) + " "@ + pad_right("SCOPE"@, 20) + " "@ + pad_right("ACTION"@, 10) + " "@ + pad_right(
        "REQUESTER"@,
        24,
    ) + " "@ + "STATUS"@ + "\n"@
}

/// One row of the pending approval listing.
pub open spec fn pending_row(a: ApprovalSummary) -> Seq<char> {
    pad_right(id_prefix(a.approval_id@), 12) + " "@ + pad_right(a.scope@, 20) + " "@ + pad_right(a.action@, 10)
        + " "@ + pad_right(a.requester@, 24) + " "@ + a.status@ + "\n"@
}

/// The rows of the listing, in order.
pub open spec fn pending_rows(s: Seq<ApprovalSummary>) -> Seq<char>
    decreases s.len(),
{
    if s.len() == 0 {
        Seq::empty()
    } else {
        pending_rows(s.drop_last()) + pending_row(s.last())
    }
}

/// The pending approval listing: a notice when there is none.
pub open spec fn pending_text(s: Seq<ApprovalSummary>) -> Seq<char> {
    if s.len() == 0 {
        "No pending approvals."@
    } else {
        pending_header() + pending_rows(s)
    }
}

fn push_pending_fields(out: &mut Vec<char>, id: &Vec<char>, a: &ApprovalSummary)
    ensures
        final(out)@ == old(out)@ + pad_right(id@, 12) + " "@ + pad_right(a.scope@, 20) + " "@ + pad_right(a.action@, 10)
            + " "@ + pad_right(a.requester@, 24) + " "@ + a.status@ + "\n"@,
{
    push_padded_right(out, id, 12);
    push_str(out, " ");
    push_padded_right(out, &chars_of(a.scope.as_str()), 20);
    push_str(out, " ");
    push_padded_right(out, &chars_of(a.action.as_str()), 10);
    push_str(out, " ");
    push_padded_right(out, &chars_of(a.requester.as_str()), 24);
    push_str(out, " ");
    push_chars(out, &chars_of(a.status.as_str()));
    push_str(out, "\n");
    proof {
        assert(final(out)@ =~= old(out)@ + pad_right(id@, 12) + " "@ + pad_right(a.scope@, 20) + " "@ + pad_right(
            a.action@,
            10,
        ) + " "@ + pad_right(a.requester@, 24) + " "@ + a.status@ + "\n"@);
    }
}

fn push_pending_row(out: &mut Vec<char>, a: &ApprovalSummary)
    requires
        id_prefix_ok(a.approval_id@),
    ensures
        final(out)@ == old(out)@ + pending_row(*a),
{
    let id = id_prefix_exec(a.approval_id.as_str());
    push_pending_fields(out, &id, a);
}

/// Lists the approvals pending at the policy service.
pub fn format_pending_approvals(approvals: &[ApprovalSummary]) -> (r: String)
    requires
        forall|i: int| 0 <= i < approvals@.len() ==> id_prefix_ok(#[trigger] approvals@[i].approval_id@),
    ensures
        r@ == pending_text(approvals@),
{
    if approvals.len() == 0 {
        return string_from("No pending approvals.");
    }
    let mut out: Vec<char> = Vec::new();
    push_padded_right(&mut out, &chars_of("ID"), 12);
    push_str(&mut out, " ");
    push_padded_right(&mut out, &chars_of("SCOPE"), 20);
    push_str(&mut out, " ");
    push_padded_right(&mut out, &chars_of("ACTION"), 10);
    push_str(&mut out, " ");
    push_padded_right(&mut out, &chars_of("REQUESTER"), 24);
    push_str(&mut out, " ");
    push_str(&mut out, "STATUS");
    push_str(&mut out, "\n");
    let ghost head = out@;
    let mut i: usize = 0;
    while i < approvals.len()
        invariant
            i <= approvals@.len(),
            forall|i: int| 0 <= i < approvals@.len() ==> id_prefix_ok(#[trigger] approvals@[i].approval_id@),
            head == pending_header(),
            out@ == head + pending_rows(approvals@.take(i as int)),
        decreases approvals.len() - i,
    {
        let a = &approvals[i];
        proof {
            assert(approvals@.take(i + 1).drop_last() =~= approvals@.take(i as int));
        }
        push_pending_row(&mut out, a);
        i = i + 1;
    }
    proof {
        assert(approvals@.take(approvals@.len() as int) =~= approvals@);
    }
    string_of(&out)
}

} // verus!
