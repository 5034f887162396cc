//! `pact diff`: rendering of declared-versus-actual differences.

use vstd::prelude::*;

use crate::common::types::{DeltaAction, DeltaItem, StateDelta};
use crate::text::{
    chars_of, dec, join, join_chars, lines, push_chars, push_str, push_u64, split_lines,
    string_from, string_of, views, vviews,
};

verus! {

broadcast use vstd::string::group_string_axioms;

/// The marker of a change: `+` added, `-` removed, `~` modified.
pub open spec fn action_marker(a: DeltaAction) -> Seq<char> {
    match a {
        DeltaAction::Add => "+"@,
        DeltaAction::Remove => "-"@,
        DeltaAction::Modify => "~"@,
    }
}

/// The detail of a change: key with old and new value as far as known.
pub open spec fn item_detail(item: DeltaItem) -> Seq<char> {
    match (item.value, item.previous) {
        (Some(val), Some(prev)) => item.key@ + ": "@ + prev@ + " \u{2192} "@ + val@,
        (Some(val), None) => item.key@ + ": "@ + val@,
        (None, Some(prev)) => item.key@ + ": "@ + prev@ + " (removed)"@,
        (None, None) => item.key@,
    }
}

/// The line of one change in a category.
pub open spec fn item_line(category: Seq<char>, item: DeltaItem) -> Seq<char> {
    "  "@ + action_marker(item.action) + " "@ + category + ": "@ + item_detail(item)
}

/// The lines of the changes of one category, in order.
pub open spec fn section_lines(category: Seq<char>, items: Seq<DeltaItem>) -> Seq<Seq<char>> {
    items.map_values(|i: DeltaItem| item_line(category, i))
}

/// The lines of a delta: kernel, mounts, files, network, services,
/// packages, then GPU changes.
pub open spec fn diff_lines(d: StateDelta) -> Seq<Seq<char>> {
    section_lines("kernel"@, d.kernel@) + section_lines("mounts"@, d.mounts@)
        + section_lines("files"@, d.files@) + section_lines("network"@, d.network@)
        + section_lines("services"@, d.services@) + section_lines("packages"@, d.packages@)
        + section_lines("gpu"@, d.gpu@)
}

/// The text of a delta: its lines, or `(no differences)`.
pub open spec fn diff_text(d: StateDelta) -> Seq<char> {
    if diff_lines(d).len() == 0 {
        "(no differences)"@
    } else {
        join(diff_lines(d), "\n"@)
    }
}

fn push_item_line(out: &mut Vec<char>, category: &str, item: &DeltaItem)
    ensures
        final(out)@ == old(out)@ + item_line(category@, *item),
{
    push_str(out, "  ");
    match item.action {
        DeltaAction::Add => push_str(out, "+"),
        DeltaAction::Remove => push_str(out, "-"),
        DeltaAction::Modify => push_str(out, "~"),
    }
    push_str(out, " ");
    push_str(out, category);
    push_str(out, ": ");
    push_chars(out, &chars_of(item.key.as_str()));
    match (&item.value, &item.previous) {
        (Some(val), Some(prev)) => {
            push_str(out, ": ");
            push_chars(out, &chars_of(prev.as_str()));
            push_str(out, " \u{2192} ");
            push_chars(out, &chars_of(val.as_str()));
        },
        (Some(val), None) => {
            push_str(out, ": ");
            push_chars(out, &chars_of(val.as_str()));
        },
        (None, Some(prev)) => {
            push_str(out, ": ");
            push_chars(out, &chars_of(prev.as_str()));
            push_str(out, " (removed)");
        },
        (None, None) => {},
    }
}

/// Appends the lines of one category.
fn format_delta_section(lines: &mut Vec<Vec<char>>, category: &str, items: &Vec<DeltaItem>)
    ensures
        vviews(final(lines)@) == vviews(old(lines)@) + section_lines(category@, items@),
{
    let ghost start = vviews(lines@);
    let mut i: usize = 0;
    while i < items.len()
        invariant
            i <= items@.len(),
            vviews(lines@) == start + section_lines(category@, items@.take(i as int)),
        decreases items.len() - i,
    {
        let mut line: Vec<char> = Vec::new();
        push_item_line(&mut line, category, &items[i]);
        let ghost before = lines@;
        lines.push(line);
        proof {
            assert(section_lines(category@, items@.take(i + 1))
                =~= section_lines(category@, items@.take(i as int)).push(item_line(category@, items@[i as int])));
            assert(vviews(lines@) =~= vviews(before).push(item_line(category@, items@[i as int])));
        }
        i = i + 1;
    }
    proof {
        assert(items@.take(items@.len() as int) =~= items@);
    }
}

fn newline() -> (r: Vec<char>)
    ensures
        r@ == "\n"@,
{
    let mut nl: Vec<char> = Vec::new();
    nl.push('\n');
    proof {
        assert(nl@ =~= "\n"@) by {
            reveal_strlit("\n");
        }
    }
    nl
}

/// Formats a state delta for display, one change per line.
pub fn format_diff(delta: &StateDelta) -> (r: String)
    ensures
        r@ == diff_text(*delta),
{
    let mut lines: Vec<Vec<char>> = Vec::new();
    proof {
        assert(vviews(lines@) =~= Seq::<Seq<char>>::empty());
    }
    format_delta_section(&mut lines, "kernel", &delta.kernel);
    format_delta_section(&mut lines, "mounts", &delta.mounts);
    format_delta_section(&mut lines, "files", &delta.files);
    format_delta_section(&mut lines, "network", &delta.network);
    format_delta_section(&mut lines, "services", &delta.services);
    format_delta_section(&mut lines, "packages", &delta.packages);
    format_delta_section(&mut lines, "gpu", &delta.gpu);
    proof {
        assert(vviews(lines@) =~= diff_lines(*delta));
    }
    if lines.len() == 0 {
        return string_from("(no differences)");
    }
    string_of(&join_chars(&lines, &newline()))
}

/// The lines shown for one committed delta: its sequence and time, then
/// the lines of its diff indented.
pub open spec fn committed_block(seq: u64, ts: Seq<char>, d: StateDelta) -> Seq<Seq<char>> {
    seq!["  seq:"@ + dec(seq as nat) + " ("@ + ts + ")"@]
        + lines(diff_text(d)).map_values(|l: Seq<char>| "    "@ + l)
}

/// The blocks of a list of committed deltas, in order.
pub open spec fn committed_blocks(ds: Seq<(u64, String, StateDelta)>) -> Seq<Seq<char>>
    decreases ds.len(),
{
    if ds.len() == 0 {
        Seq::empty()
    } else {
        committed_blocks(ds.drop_last()) + committed_block(ds.last().0, ds.last().1@, ds.last().2)
    }
}

/// The text of the committed deltas of a node.
pub open spec fn committed_text(node: Seq<char>, ds: Seq<(u64, String, StateDelta)>) -> Seq<char> {
    if ds.len() == 0 {
        "(no committed node deltas on "@ + node + ")"@
    } else {
        join(seq!["Committed node deltas on "@ + node + " ("@ + dec(ds.len()) + " total):"@]
            + committed_blocks(ds), "\n"@)
    }
}

/// Formats the committed (not yet promoted) deltas of a node.
pub fn format_committed_diff(node_id: &str, deltas: &[(u64, String, StateDelta)]) -> (r: String)
    ensures
        r@ == committed_text(node_id@, deltas@),
{
    let mut out: Vec<char> = Vec::new();
    if deltas.len() == 0 {
        push_str(&mut out, "(no committed node deltas on ");
        push_str(&mut out, node_id);
        push_str(&mut out, ")");
        return string_of(&out);
    }
    let mut rows: Vec<Vec<char>> = Vec::new();
    let mut head: Vec<char> = Vec::new();
    push_str(&mut head, "Committed node deltas on ");
    push_str(&mut head, node_id);
    push_str(&mut head, " (");
    push_u64(&mut head, deltas.len() as u64);
    push_str(&mut head, " total):");
    rows.push(head);
    let ghost first = seq!["Committed node deltas on "@ + node_id@ + " ("@ + dec(deltas@.len()) + " total):"@];
    proof {
        assert(vviews(rows@) =~= first);
    }
    let mut i: usize = 0;
    while i < deltas.len()
        invariant
            i <= deltas@.len(),
            vviews(rows@) == first + committed_blocks(deltas@.take(i as int)),
        decreases deltas.len() - i,
    {
        let (seq, ts, delta) = &deltas[i];
        let ghost before = vviews(rows@);
        let mut l: Vec<char> = Vec::new();
        push_str(&mut l, "  seq:");
        push_u64(&mut l, *seq);
        push_str(&mut l, " (");
        push_chars(&mut l, &chars_of(ts.as_str()));
        push_str(&mut l, ")");
        rows.push(l);
        let diff = format_diff(delta);
        let dl = split_lines(diff.as_str());
        let ghost mid = vviews(rows@);
        let mut j: usize = 0;
        while j < dl.len()
            invariant
                j <= dl@.len(),
                views(dl@) == lines(diff@),
                vviews(rows@) == mid + views(dl@).take(j as int).map_values(|l: Seq<char>| "    "@ + l),
            decreases dl.len() - j,
        {
            let mut l2: Vec<char> = Vec::new();
            push_str(&mut l2, "    ");
            push_chars(&mut l2, &chars_of(dl[j].as_str()));
            let ghost b2 = vviews(rows@);
            rows.push(l2);
            proof {
                assert(views(dl@).take(j + 1).map_values(|l: Seq<char>| "    "@ + l)
                    =~= views(dl@).take(j as int).map_values(|l: Seq<char>| "    "@ + l).push("    "@ + dl@[j as int]@));
                assert(vviews(rows@) =~= b2.push("    "@ + dl@[j as int]@));
            }
            j = j + 1;
        }
        proof {
            assert(views(dl@).take(dl@.len() as int) =~= views(dl@));
            let t = deltas@.take(i + 1);
            assert(t.drop_last() =~= deltas@.take(i as int));
            assert(t.last() == deltas@[i as int]);
            assert(vviews(rows@) =~= before + committed_block(*seq, ts@, *delta));
        }
        i = i + 1;
    }
    proof {
        assert(deltas@.take(deltas@.len() as int) =~= deltas@);
    }
    string_of(&join_chars(&rows, &newline()))
}

} // verus!
