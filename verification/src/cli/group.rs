//! `pact group`: the vCluster list, a vCluster's detail, and policy
//! updates.

use vstd::prelude::*;

use crate::cli::status::{decimal1_text, push_decimal1, Decimal1};
use crate::cli::wire::WireEntry;
use crate::common::types::Scope;
use crate::text::{
    chars_of, dec, lemma_lex_asym, lemma_lex_total, lemma_lex_trans, lex_less, lex_lt, pad_right, push_chars,
    push_padded_right, push_str, push_u64, str_eq, string_from, string_of, views,
};

verus! {

broadcast use vstd::string::group_string_axioms;

/// Summary of a vCluster for list display.
#[derive(Debug, Clone)]
pub struct GroupSummary {
    pub name: String,
    pub node_count: u32,
    pub enforcement_mode: String,
    pub two_person_approval: bool,
}

/// The header and rule of the vCluster table.
pub open spec fn group_header() -> Seq<char> {
    pad_right("VCLUSTER"@, 20) + " "@ + pad_right("NODES"@, 8) + " "@ + pad_right("MODE"@, 12) + " "@
        + "2PA"@ + "\n"@ + Seq::new(52, |i: int| '-') + "\n"@
}

/// One row of the vCluster table.
pub open spec fn group_row(g: GroupSummary) -> Seq<char> {
    pad_right(g.name@, 20) + " "@ + pad_right(dec(g.node_count as nat), 8) + " "@
        + pad_right(g.enforcement_mode@, 12) + " "@ + (if g.two_person_approval { "yes"@ } else { "no"@ })
        + "\n"@
}

/// The rows of a list of vClusters, in order.
pub open spec fn group_rows(gs: Seq<GroupSummary>) -> Seq<char>
    decreases gs.len(),
{
    if gs.len() == 0 {
        Seq::empty()
    } else {
        group_rows(gs.drop_last()) + group_row(gs.last())
    }
}

/// The vCluster table, or a notice when there is none.
pub open spec fn group_list_text(gs: Seq<GroupSummary>) -> Seq<char> {
    if gs.len() == 0 {
        "No vClusters configured."@
    } else {
        group_header() + group_rows(gs)
    }
}

fn push_group_row(out: &mut Vec<char>, g: &GroupSummary)
    ensures
        final(out)@ == old(out)@ + group_row(*g),
{
    push_padded_right(out, &chars_of(g.name.as_str()), 20);
    push_str(out, " ");
    let mut n: Vec<char> = Vec::new();
    push_u64(&mut n, g.node_count as u64);
    push_padded_right(out, &n, 8);
    push_str(out, " ");
    push_padded_right(out, &chars_of(g.enforcement_mode.as_str()), 12);
    push_str(out, " ");
    if g.two_person_approval {
        push_str(out, "yes");
    } else {
        push_str(out, "no");
    }
    push_str(out, "\n");
}

/// Formats the vCluster list for display.
pub fn format_group_list(groups: &[GroupSummary]) -> (r: String)
    ensures
        r@ == group_list_text(groups@),
{
    if groups.len() == 0 {
        return string_from("No vClusters configured.");
    }
    let mut out: Vec<char> = Vec::new();
    push_padded_right(&mut out, &chars_of("VCLUSTER"), 20);
    push_str(&mut out, " ");
    push_padded_right(&mut out, &chars_of("NODES"), 8);
    push_str(&mut out, " ");
    push_padded_right(&mut out, &chars_of("MODE"), 12);
    push_str(&mut out, " ");
    push_str(&mut out, "2PA");
    push_str(&mut out, "\n");
    let ghost pre = out@;
    let mut k: usize = 0;
    while k < 52
        invariant
            k <= 52,
            out@ == pre + Seq::new(k as nat, |i: int| '-'),
        decreases 52 - k,
    {
        out.push('-');
        proof {
            assert(Seq::new((k + 1) as nat, |i: int| '-') =~= Seq::new(k as nat, |i: int| '-').push('-'));
        }
        k = k + 1;
    }
    push_str(&mut out, "\n");
    proof {
        assert(out@ =~= group_header());
    }
    let ghost head = out@;
    let mut i: usize = 0;
    while i < groups.len()
        invariant
            i <= groups@.len(),
            out@ == head + group_rows(groups@.take(i as int)),
        decreases groups.len() - i,
    {
        let g = &groups[i];
        proof {
            let t = groups@.take(i + 1);
            assert(t.drop_last() =~= groups@.take(i as int));
            assert(t.last() == *g);
        }
        push_group_row(&mut out, g);
        i = i + 1;
    }
    proof {
        assert(groups@.take(groups@.len() as int) =~= groups@);
    }
    string_of(&out)
}

/// The vCluster an entry's scope names, if any.
pub open spec fn scope_vcluster(s: Option<Scope>) -> Option<Seq<char>> {
    match s {
        Some(Scope::VCluster(v)) => Some(v@),
        _ => None,
    }
}

/// Whether names are in strictly increasing order (so each occurs once).
pub open spec fn strictly_sorted(v: Seq<Seq<char>>) -> bool {
    forall|i: int, j: int| 0 <= i < j < v.len() ==> lex_lt(#[trigger] v[i], #[trigger] v[j])
}

/// Whether some entry is scoped to vCluster `x`.
pub open spec fn names_vcluster(entries: Seq<WireEntry>, x: Seq<char>) -> bool {
    exists|i: int| 0 <= i < entries.len() && scope_vcluster(#[trigger] entries[i].scope) == Some(x)
}

/// Adds a name to a strictly sorted list, unless it is there already.
fn insert_sorted(v: &mut Vec<String>, s: &String)
    requires
        strictly_sorted(views(old(v)@)),
    ensures
        strictly_sorted(views(final(v)@)),
        forall|x: Seq<char>| views(final(v)@).contains(x) <==> (views(old(v)@).contains(x) || x == s@),
{
    let ghost old_v = views(v@);
    let sc = chars_of(s.as_str());
    let mut p: usize = 0;
    loop
        invariant
            p <= v@.len(),
            views(v@) == old_v,
            sc@ == s@,
            forall|k: int| 0 <= k < p ==> lex_lt(#[trigger] old_v[k], s@),
        ensures
            p <= v@.len(),
            views(v@) == old_v,
            forall|k: int| 0 <= k < p ==> lex_lt(#[trigger] old_v[k], s@),
            p < v@.len() ==> !lex_lt(old_v[p as int], s@),
        decreases v.len() - p,
    {
        if p >= v.len() {
            break;
        }
        let cur = chars_of(v[p].as_str());
        proof {
            assert(old_v[p as int] == v@[p as int]@);
        }
        if !lex_less(&cur, &sc) {
            break;
        }
        p = p + 1;
    }
    if p < v.len() && str_eq(v[p].as_str(), s.as_str()) {
        proof {
            assert forall|x: Seq<char>| views(v@).contains(x) <==> (old_v.contains(x) || x == s@) by {
                if x == s@ {
                    assert(views(v@)[p as int] == x);
                }
            }
        }
        return;
    }
    proof {
        if p < old_v.len() {
            lemma_lex_total(s@, old_v[p as int]);
            assert(!lex_lt(old_v[p as int], s@));
            assert(lex_lt(s@, old_v[p as int]));
        }
    }
    v.insert(p, s.clone());
    proof {
        let nv = views(v@);
        assert(nv =~= old_v.insert(p as int, s@));
        assert forall|i: int, j: int| 0 <= i < j < nv.len() implies lex_lt(#[trigger] nv[i], #[trigger] nv[j]) by {
            if j < p {
                assert(nv[i] == old_v[i] && nv[j] == old_v[j]);
            } else if j == p {
                assert(nv[i] == old_v[i]);
            } else if i < p {
                assert(nv[i] == old_v[i] && nv[j] == old_v[j - 1]);
                assert(lex_lt(old_v[i], s@));
                if j - 1 > p {
                    lemma_lex_trans(s@, old_v[p as int], old_v[j - 1]);
                }
                lemma_lex_trans(old_v[i], s@, old_v[j - 1]);
            } else if i == p {
                assert(nv[j] == old_v[j - 1]);
                if j - 1 > p {
                    lemma_lex_trans(s@, old_v[p as int], old_v[j - 1]);
                }
            } else {
                assert(nv[i] == old_v[i - 1] && nv[j] == old_v[j - 1]);
            }
        }
        assert forall|x: Seq<char>| nv.contains(x) <==> (old_v.contains(x) || x == s@) by {
            if nv.contains(x) {
                let k = choose|k: int| 0 <= k < nv.len() && nv[k] == x;
                if k < p {
                    assert(old_v[k] == x);
                } else if k > p {
                    assert(old_v[k - 1] == x);
                }
            }
            if old_v.contains(x) {
                let k = choose|k: int| 0 <= k < old_v.len() && old_v[k] == x;
                if k < p {
                    assert(nv[k] == x);
                } else {
                    assert(nv[k + 1] == x);
                }
            }
            if x == s@ {
                assert(nv[p as int] == x);
            }
        }
    }
}

/// The vClusters that journal entries are scoped to, each once, in
/// increasing order.
pub fn vcluster_ids(entries: &[WireEntry]) -> (r: Vec<String>)
    ensures
        strictly_sorted(views(r@)),
        forall|x: Seq<char>| views(r@).contains(x) <==> names_vcluster(entries@, x),
{
    let mut r: Vec<String> = Vec::new();
    let mut i: usize = 0;
    while i < entries.len()
        invariant
            i <= entries@.len(),
            strictly_sorted(views(r@)),
            forall|x: Seq<char>| views(r@).contains(x) <==> names_vcluster(entries@.take(i as int), x),
        decreases entries.len() - i,
    {
        let ghost before = views(r@);
        match &entries[i].scope {
            Some(Scope::VCluster(vc)) => {
                insert_sorted(&mut r, vc);
            },
            _ => {},
        }
        proof {
            let t = entries@.take(i + 1);
            assert forall|x: Seq<char>| views(r@).contains(x) <==> names_vcluster(t, x) by {
                if names_vcluster(t, x) {
                    let k = choose|k: int| 0 <= k < t.len() && scope_vcluster(#[trigger] t[k].scope) == Some(x);
                    if k < i {
                        assert(entries@.take(i as int)[k] == t[k]);
                        assert(names_vcluster(entries@.take(i as int), x));
                    }
                }
                if names_vcluster(entries@.take(i as int), x) {
                    let k = choose|k: int| 0 <= k < i && scope_vcluster(#[trigger] entries@.take(i as int)[k].scope) == Some(x);
                    assert(t[k] == entries@.take(i as int)[k]);
                }
                if scope_vcluster(entries@[i as int].scope) == Some(x) {
                    assert(t[i as int] == entries@[i as int]);
                }
            }
        }
        i = i + 1;
    }
    proof {
        assert(entries@.take(entries@.len() as int) =~= entries@);
    }
    r
}

/// The enforcement mode shown for a policy: as set, or `observe` when
/// unset.
pub open spec fn mode_or_observe(mode: Seq<char>) -> Seq<char> {
    if mode.len() == 0 { "observe"@ } else { mode }
}

/// The summary of a vCluster from its effective policy (enforcement mode
/// and two-person approval), or the defaults when it has none yet.  The
/// node count is not known to the journal.
pub fn summary_from_policy(name: String, policy: Option<(String, bool)>) -> (r: GroupSummary)
    ensures
        r.name == name,
        r.node_count == 0,
        match policy {
            Some((mode, tpa)) => r.enforcement_mode@ == mode_or_observe(mode@) && r.two_person_approval == tpa,
            None => r.enforcement_mode@ == "observe"@ && !r.two_person_approval,
        },
{
    match policy {
        Some((mode, tpa)) => {
            let m = if chars_of(mode.as_str()).len() == 0 {
                string_from("observe")
            } else {
                mode
            };
            GroupSummary { name, node_count: 0, enforcement_mode: m, two_person_approval: tpa }
        },
        None => GroupSummary {
            name,
            node_count: 0,
            enforcement_mode: string_from("observe"),
            two_person_approval: false,
        },
    }
}

/// The answer to a policy update: the policy reference on success, else
/// the error given (or `unknown error`).
pub fn policy_update_outcome(name: &str, success: bool, policy_ref: &str, error: Option<String>) -> (r: Result<String, String>)
    ensures
        success ==> (r matches Ok(m) && m@ == "Policy updated for vCluster '"@ + name@ + "' (ref: "@ + policy_ref@ + ")"@),
        !success ==> (r matches Err(m) && m@ == "policy update failed: "@ + match error {
            Some(e) => e@,
            None => "unknown error"@,
        }),
{
    let mut out: Vec<char> = Vec::new();
    if success {
        push_str(&mut out, "Policy updated for vCluster '");
        push_str(&mut out, name);
        push_str(&mut out, "' (ref: ");
        push_str(&mut out, policy_ref);
        push_str(&mut out, ")");
        return Ok(string_of(&out));
    }
    push_str(&mut out, "policy update failed: ");
    match &error {
        Some(e) => push_str(&mut out, e.as_str()),
        None => push_str(&mut out, "unknown error"),
    }
    Err(string_of(&out))
}

/// Detailed info for a vCluster: the policy values shown and the member
/// nodes.
#[derive(Debug, Clone)]
pub struct GroupDetail {
    pub name: String,
    pub enforcement_mode: String,
    pub two_person_approval: bool,
    pub base_commit_window_seconds: u32,
    /// The drift sensitivity, rounded to one decimal.
    pub drift_sensitivity: Decimal1,
    pub node_ids: Vec<String>,
}

/// The member lines, in order.
pub open spec fn member_node_lines(ids: Seq<Seq<char>>) -> Seq<char>
    decreases ids.len(),
{
    if ids.len() == 0 {
        Seq::empty()
    } else {
        member_node_lines(ids.drop_last()) + "    - "@ + ids.last() + "\n"@
    }
}

/// The policy lines of a vCluster's detail.
pub open spec fn group_policy_text(d: GroupDetail) -> Seq<char> {
    "vCluster: "@ + d.name@ + "\n"@ + "  enforcement: "@ + d.enforcement_mode@ + "\n"@ + "  two-person approval: "@
        + (if d.two_person_approval { "true"@ } else { "false"@ }) + "\n"@ + "  base commit window: "@ + dec(
        d.base_commit_window_seconds as nat,
    ) + "s\n"@ + "  drift sensitivity: "@ + decimal1_text(d.drift_sensitivity) + "\n"@
}

/// A vCluster's detail: its policy, then its nodes counted and listed.
pub open spec fn group_detail_text(d: GroupDetail) -> Seq<char> {
    group_policy_text(d) + "  nodes: "@ + dec(d.node_ids@.len()) + "\n"@ + member_node_lines(views(d.node_ids@))
}

fn push_group_policy(out: &mut Vec<char>, d: &GroupDetail)
    ensures
        final(out)@ == old(out)@ + group_policy_text(*d),
{
    push_str(out, "vCluster: ");
    push_str(out, d.name.as_str());
    push_str(out, "\n");
    push_str(out, "  enforcement: ");
    push_str(out, d.enforcement_mode.as_str());
    push_str(out, "\n");
    push_str(out, "  two-person approval: ");
    if d.two_person_approval {
        push_str(out, "true");
    } else {
        push_str(out, "false");
    }
    push_str(out, "\n");
    push_str(out, "  base commit window: ");
    push_u64(out, d.base_commit_window_seconds as u64);
    push_str(out, "s\n");
    push_str(out, "  drift sensitivity: ");
    push_decimal1(out, d.drift_sensitivity);
    push_str(out, "\n");
    proof {
        assert(final(out)@ =~= old(out)@ + group_policy_text(*d));
    }
}

/// Formats a vCluster's detail for display.
pub fn format_group_detail(detail: &GroupDetail) -> (r: String)
    ensures
        r@ == group_detail_text(*detail),
{
    let mut out: Vec<char> = Vec::new();
    push_group_policy(&mut out, detail);
    push_str(&mut out, "  nodes: ");
    push_u64(&mut out, detail.node_ids.len() as u64);
    push_str(&mut out, "\n");
    let ghost head = out@;
    let mut i: usize = 0;
    while i < detail.node_ids.len()
        invariant
            i <= detail.node_ids@.len(),
            out@ == head + member_node_lines(views(detail.node_ids@).take(i as int)),
        decreases detail.node_ids.len() - i,
    {
        proof {
            assert(views(detail.node_ids@).take(i + 1).drop_last() =~= views(detail.node_ids@).take(i as int));
        }
        push_str(&mut out, "    - ");
        push_str(&mut out, detail.node_ids[i].as_str());
        push_str(&mut out, "\n");
        i = i + 1;
    }
    proof {
        assert(views(detail.node_ids@).take(detail.node_ids@.len() as int) =~= views(detail.node_ids@));
        assert(out@ =~= group_detail_text(*detail));
    }
    string_of(&out)
}

} // verus!
