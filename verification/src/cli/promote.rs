//! `pact promote`: exporting committed node deltas as overlay TOML.

use vstd::prelude::*;

use crate::common::types::{DeltaAction, DeltaItem, StateDelta};
use crate::cli::wire::{decoded_from, delta_from_wire, WireEntry, WireStateDelta, COMMIT_ENTRY_TYPE};
use crate::text::{occurs_at, chars_of, dec, join, join_chars, push_chars, push_str, push_u64, string_from, string_of, vviews};

verus! {

broadcast use vstd::string::group_string_axioms;

/// Result of a promote operation.
#[derive(Debug, Clone)]
pub struct PromoteResult {
    pub node_id: String,
    pub vcluster_id: String,
    pub deltas_exported: u32,
    pub overlay_toml: String,
    pub conflicts: Vec<PromoteConflict>,
    pub dry_run: bool,
}

/// Conflict between a promoted delta and existing node state.
#[derive(Debug, Clone)]
pub struct PromoteConflict {
    pub key: String,
    pub promoted_value: String,
    pub existing_value: String,
    pub node_id: String,
}

/// The name of a change action, as `{:?}` writes it.
pub open spec fn action_name(a: DeltaAction) -> Seq<char> {
    match a {
        DeltaAction::Add => "Add"@,
        DeltaAction::Remove => "Remove"@,
        DeltaAction::Modify => "Modify"@,
    }
}

/// The TOML line of a kept change: `key = "value"`, or a comment when it
/// has no value.
pub open spec fn toml_item(item: DeltaItem) -> Seq<char> {
    match item.value {
        Some(v) => item.key@ + " = \""@ + v@ + "\"\n"@,
        None => "# "@ + item.key@ + " (action: "@ + action_name(item.action) + ")\n"@,
    }
}

/// The TOML lines of the changes that are not removals, in order.
pub open spec fn toml_items(items: Seq<DeltaItem>) -> Seq<char>
    decreases items.len(),
{
    if items.len() == 0 {
        Seq::empty()
    } else if items.last().action == DeltaAction::Remove {
        toml_items(items.drop_last())
    } else {
        toml_items(items.drop_last()) + toml_item(items.last())
    }
}

/// Whether some change is not a removal.
pub open spec fn has_active(items: Seq<DeltaItem>) -> bool {
    exists|i: int| 0 <= i < items.len() && items[i].action != DeltaAction::Remove
}

/// The TOML section of a category: nothing when only removals (or
/// nothing) remain, else the header, the lines and a blank line.
pub open spec fn toml_section(name: Seq<char>, items: Seq<DeltaItem>) -> Seq<char> {
    if !has_active(items) {
        Seq::empty()
    } else {
        "["@ + name + "]\n"@ + toml_items(items) + "\n"@
    }
}

/// The sections of one delta, in overlay order.
pub open spec fn delta_toml(d: StateDelta) -> Seq<char> {
    toml_section("kernel"@, d.kernel@) + toml_section("services"@, d.services@)
        + toml_section("mounts"@, d.mounts@) + toml_section("files"@, d.files@)
        + toml_section("network"@, d.network@) + toml_section("packages"@, d.packages@)
        + toml_section("gpu"@, d.gpu@)
}

/// The sections of a list of deltas, in order.
pub open spec fn deltas_toml(ds: Seq<StateDelta>) -> Seq<char>
    decreases ds.len(),
{
    if ds.len() == 0 {
        Seq::empty()
    } else {
        deltas_toml(ds.drop_last()) + delta_toml(ds.last())
    }
}

/// The overlay document: a two-line comment header and a blank line, then
/// the sections.
pub open spec fn overlay_toml(ds: Seq<StateDelta>) -> Seq<char> {
    "# Promoted from node deltas\n"@ + "# Review and apply with: pact apply <this-file.toml>\n\n"@ + deltas_toml(ds)
}

fn push_item(out: &mut Vec<char>, item: &DeltaItem)
    ensures
        final(out)@ == old(out)@ + toml_item(*item),
{
    match &item.value {
        Some(v) => {
            push_chars(out, &chars_of(item.key.as_str()));
            push_str(out, " = \"");
            push_chars(out, &chars_of(v.as_str()));
            push_str(out, "\"\n");
        },
        None => {
            push_str(out, "# ");
            push_chars(out, &chars_of(item.key.as_str()));
            push_str(out, " (action: ");
            match item.action {
                DeltaAction::Add => push_str(out, "Add"),
                DeltaAction::Remove => push_str(out, "Remove"),
                DeltaAction::Modify => push_str(out, "Modify"),
            }
            push_str(out, ")\n");
        },
    }
}

/// Appends the TOML section of a category.
pub fn write_section(toml: &mut Vec<char>, name: &str, items: &Vec<DeltaItem>)
    ensures
        final(toml)@ == old(toml)@ + toml_section(name@, items@),
{
    let mut any = false;
    let mut k: usize = 0;
    while k < items.len()
        invariant
            k <= items@.len(),
            any == exists|i: int| 0 <= i < k && items@[i].action != DeltaAction::Remove,
        decreases items.len() - k,
    {
        if items[k].action != DeltaAction::Remove {
            any = true;
        }
        k = k + 1;
    }
    if !any {
        proof {
            assert(toml_section(name@, items@) =~= Seq::<char>::empty());
        }
        return;
    }
    let ghost start = toml@;
    push_str(toml, "[");
    push_str(toml, name);
    push_str(toml, "]\n");
    let ghost head = toml@;
    let mut i: usize = 0;
    while i < items.len()
        invariant
            i <= items@.len(),
            toml@ == head + toml_items(items@.take(i as int)),
        decreases items.len() - i,
    {
        proof {
            let t = items@.take(i + 1);
            assert(t.drop_last() =~= items@.take(i as int));
            assert(t.last() == items@[i as int]);
        }
        if items[i].action != DeltaAction::Remove {
            push_item(toml, &items[i]);
        }
        i = i + 1;
    }
    proof {
        assert(items@.take(items@.len() as int) =~= items@);
    }
    push_str(toml, "\n");
}

#[verifier::rlimit(40)]
fn write_delta(toml: &mut Vec<char>, d: &StateDelta)
    ensures
        final(toml)@ == old(toml)@ + delta_toml(*d),
{
    write_section(toml, "kernel", &d.kernel);
    write_section(toml, "services", &d.services);
    write_section(toml, "mounts", &d.mounts);
    write_section(toml, "files", &d.files);
    write_section(toml, "network", &d.network);
    write_section(toml, "packages", &d.packages);
    write_section(toml, "gpu", &d.gpu);
}

/// Exports committed node deltas as overlay TOML; removals are left out.
pub fn export_deltas_as_toml(deltas: &[StateDelta]) -> (r: String)
    ensures
        r@ == overlay_toml(deltas@),
{
    let mut toml: Vec<char> = Vec::new();
    push_str(&mut toml, "# Promoted from node deltas\n");
    push_str(&mut toml, "# Review and apply with: pact apply <this-file.toml>\n\n");
    let ghost head = toml@;
    let mut i: usize = 0;
    while i < deltas.len()
        invariant
            i <= deltas@.len(),
            toml@ == head + deltas_toml(deltas@.take(i as int)),
        decreases deltas.len() - i,
    {
        let d = &deltas[i];
        proof {
            let t = deltas@.take(i + 1);
            assert(t.drop_last() =~= deltas@.take(i as int));
            assert(t.last() == *d);
        }
        write_delta(&mut toml, d);
        i = i + 1;
    }
    proof {
        assert(deltas@.take(deltas@.len() as int) =~= deltas@);
    }
    string_of(&toml)
}

/// The conflict lines, in order.
pub open spec fn conflict_lines(cs: Seq<PromoteConflict>) -> Seq<char>
    decreases cs.len(),
{
    if cs.len() == 0 {
        Seq::empty()
    } else {
        let c = cs.last();
        conflict_lines(cs.drop_last()) + "  "@ + c.key@ + " on "@ + c.node_id@ + ": promoted=\""@
            + c.promoted_value@ + "\" vs existing=\""@ + c.existing_value@ + "\"\n"@
    }
}

/// The text of a promote result.
pub open spec fn promote_text(r: PromoteResult) -> Seq<char> {
    (if r.dry_run { "DRY RUN \u{2014} no changes applied\n\n"@ } else { Seq::empty() })
        + "Promoted "@ + dec(r.deltas_exported as nat) + " delta(s) from node "@ + r.node_id@
        + " to vCluster "@ + r.vcluster_id@ + "\n"@
        + (if r.conflicts@.len() > 0 {
            "\n"@ + dec(r.conflicts@.len()) + " conflict(s) detected:\n"@ + conflict_lines(r.conflicts@)
        } else {
            Seq::empty()
        })
        + (if !r.dry_run && r.conflicts@.len() == 0 {
            "\nOverlay updated. Subscribed agents will receive the update.\n"@
        } else {
            Seq::empty()
        })
}

/// Formats a promote result for display.
pub fn format_promote_result(result: &PromoteResult) -> (r: String)
    ensures
        r@ == promote_text(*result),
{
    let mut out: Vec<char> = Vec::new();
    if result.dry_run {
        push_str(&mut out, "DRY RUN \u{2014} no changes applied\n\n");
    }
    push_str(&mut out, "Promoted ");
    push_u64(&mut out, result.deltas_exported as u64);
    push_str(&mut out, " delta(s) from node ");
    push_chars(&mut out, &chars_of(result.node_id.as_str()));
    push_str(&mut out, " to vCluster ");
    push_chars(&mut out, &chars_of(result.vcluster_id.as_str()));
    push_str(&mut out, "\n");
    let ghost mid = out@;
    if result.conflicts.len() > 0 {
        push_str(&mut out, "\n");
        push_u64(&mut out, result.conflicts.len() as u64);
        push_str(&mut out, " conflict(s) detected:\n");
        let ghost head = out@;
        let mut i: usize = 0;
        while i < result.conflicts.len()
            invariant
                i <= result.conflicts@.len(),
                out@ == head + conflict_lines(result.conflicts@.take(i as int)),
            decreases result.conflicts.len() - i,
        {
            let c = &result.conflicts[i];
            proof {
                let t = result.conflicts@.take(i + 1);
                assert(t.drop_last() =~= result.conflicts@.take(i as int));
                assert(t.last() == *c);
            }
            push_str(&mut out, "  ");
            push_chars(&mut out, &chars_of(c.key.as_str()));
            push_str(&mut out, " on ");
            push_chars(&mut out, &chars_of(c.node_id.as_str()));
            push_str(&mut out, ": promoted=\"");
            push_chars(&mut out, &chars_of(c.promoted_value.as_str()));
            push_str(&mut out, "\" vs existing=\"");
            push_chars(&mut out, &chars_of(c.existing_value.as_str()));
            push_str(&mut out, "\"\n");
            i = i + 1;
        }
        proof {
            assert(result.conflicts@.take(result.conflicts@.len() as int) =~= result.conflicts@);
        }
    }
    if !result.dry_run && result.conflicts.len() == 0 {
        push_str(&mut out, "\nOverlay updated. Subscribed agents will receive the update.\n");
    }
    string_of(&out)
}

/// The number of changes a delta holds in a category, the categories
/// numbered in alphabetical order of their names.
pub open spec fn category_len(d: StateDelta, c: int) -> nat {
    if c == 0 {
        d.files@.len()
    } else if c == 1 {
        d.gpu@.len()
    } else if c == 2 {
        d.kernel@.len()
    } else if c == 3 {
        d.mounts@.len()
    } else if c == 4 {
        d.network@.len()
    } else if c == 5 {
        d.packages@.len()
    } else {
        d.services@.len()
    }
}

/// The name of a category.
pub open spec fn category_name(c: int) -> Seq<char> {
    if c == 0 {
        "files"@
    } else if c == 1 {
        "gpu"@
    } else if c == 2 {
        "kernel"@
    } else if c == 3 {
        "mounts"@
    } else if c == 4 {
        "network"@
    } else if c == 5 {
        "packages"@
    } else {
        "services"@
    }
}

/// The changes a delta holds in a category, numbered as in
/// [`category_name`].
pub open spec fn category_items(d: StateDelta, c: int) -> Seq<DeltaItem> {
    if c == 0 {
        d.files@
    } else if c == 1 {
        d.gpu@
    } else if c == 2 {
        d.kernel@
    } else if c == 3 {
        d.mounts@
    } else if c == 4 {
        d.network@
    } else if c == 5 {
        d.packages@
    } else {
        d.services@
    }
}

/// `h` occurs in `s`, and `l` occurs after it.
pub open spec fn followed_by(s: Seq<char>, h: Seq<char>, l: Seq<char>) -> bool {
    exists|p: int, q: int| #![trigger occurs_at(s, h, p), occurs_at(s, l, q)]
        p + h.len() <= q && occurs_at(s, h, p) && occurs_at(s, l, q)
}

proof fn lemma_occurs_concat(a: Seq<char>, b: Seq<char>, t: Seq<char>, p: int)
    ensures
        occurs_at(a, t, p) ==> occurs_at(a + b, t, p),
        occurs_at(b, t, p) ==> occurs_at(a + b, t, a.len() + p),
{
    if occurs_at(a, t, p) {
        assert((a + b).subrange(p, p + t.len()) =~= a.subrange(p, p + t.len()));
    }
    if occurs_at(b, t, p) {
        assert((a + b).subrange(a.len() + p, a.len() + p + t.len()) =~= b.subrange(p, p + t.len()));
    }
}

proof fn lemma_followed_concat(a: Seq<char>, b: Seq<char>, h: Seq<char>, l: Seq<char>)
    ensures
        followed_by(a, h, l) ==> followed_by(a + b, h, l),
        followed_by(b, h, l) ==> followed_by(a + b, h, l),
{
    if followed_by(a, h, l) {
        let (p, q) = choose|p: int, q: int| p + h.len() <= q && occurs_at(a, h, p) && occurs_at(a, l, q);
        lemma_occurs_concat(a, b, h, p);
        lemma_occurs_concat(a, b, l, q);
        assert(occurs_at(a + b, h, p) && occurs_at(a + b, l, q));
    }
    if followed_by(b, h, l) {
        let (p, q) = choose|p: int, q: int| p + h.len() <= q && occurs_at(b, h, p) && occurs_at(b, l, q);
        lemma_occurs_concat(a, b, h, p);
        lemma_occurs_concat(a, b, l, q);
        assert(occurs_at(a + b, h, a.len() + p) && occurs_at(a + b, l, a.len() + q));
    }
}

/// The line of every change that is not a removal occurs in the lines of
/// its category.
proof fn lemma_items_hold_line(items: Seq<DeltaItem>, k: int)
    requires
        0 <= k < items.len(),
        items[k].action != DeltaAction::Remove,
    ensures
        exists|r: int| occurs_at(toml_items(items), toml_item(items[k]), r),
    decreases items.len(),
{
    let pre = items.drop_last();
    if k == items.len() - 1 {
        lemma_occurs_concat(toml_items(pre), toml_item(items[k]), toml_item(items[k]), 0);
        assert(toml_item(items[k]).subrange(0, toml_item(items[k]).len() as int) =~= toml_item(items[k]));
        assert(occurs_at(toml_items(items), toml_item(items[k]), toml_items(pre).len() as int));
    } else {
        lemma_items_hold_line(pre, k);
        assert(pre[k] == items[k]);
        let r = choose|r: int| occurs_at(toml_items(pre), toml_item(items[k]), r);
        if items.last().action == DeltaAction::Remove {
            assert(occurs_at(toml_items(items), toml_item(items[k]), r));
        } else {
            lemma_occurs_concat(toml_items(pre), toml_item(items.last()), toml_item(items[k]), r);
            assert(occurs_at(toml_items(items), toml_item(items[k]), r));
        }
    }
}

proof fn lemma_section_holds_line(name: Seq<char>, items: Seq<DeltaItem>, k: int)
    requires
        0 <= k < items.len(),
        items[k].action != DeltaAction::Remove,
    ensures
        followed_by(toml_section(name, items), "["@ + name + "]\n"@, toml_item(items[k])),
{
    let h = "["@ + name + "]\n"@;
    assert(has_active(items));
    lemma_items_hold_line(items, k);
    let r = choose|r: int| occurs_at(toml_items(items), toml_item(items[k]), r);
    let s = toml_section(name, items);
    assert(s == h + toml_items(items) + "\n"@);
    lemma_occurs_concat(h, toml_items(items), toml_item(items[k]), r);
    lemma_occurs_concat(h + toml_items(items), "\n"@, toml_item(items[k]), h.len() + r);
    lemma_occurs_concat(h, toml_items(items), h, 0);
    assert(h.subrange(0, h.len() as int) =~= h);
    lemma_occurs_concat(h + toml_items(items), "\n"@, h, 0);
    assert(occurs_at(s, h, 0) && occurs_at(s, toml_item(items[k]), h.len() + r));
}

proof fn lemma_delta_holds_line(d: StateDelta, c: int, k: int)
    requires
        0 <= c < 7,
        0 <= k < category_items(d, c).len(),
        category_items(d, c)[k].action != DeltaAction::Remove,
    ensures
        followed_by(delta_toml(d), "["@ + category_name(c) + "]\n"@, toml_item(category_items(d, c)[k])),
{
    let h = "["@ + category_name(c) + "]\n"@;
    let l = toml_item(category_items(d, c)[k]);
    let s1 = toml_section("kernel"@, d.kernel@);
    let s2 = toml_section("services"@, d.services@);
    let s3 = toml_section("mounts"@, d.mounts@);
    let s4 = toml_section("files"@, d.files@);
    let s5 = toml_section("network"@, d.network@);
    let s6 = toml_section("packages"@, d.packages@);
    let s7 = toml_section("gpu"@, d.gpu@);
    lemma_section_holds_line(category_name(c), category_items(d, c), k);
    lemma_followed_concat(s1, s2, h, l);
    lemma_followed_concat(s1 + s2, s3, h, l);
    lemma_followed_concat(s1 + s2 + s3, s4, h, l);
    lemma_followed_concat(s1 + s2 + s3 + s4, s5, h, l);
    lemma_followed_concat(s1 + s2 + s3 + s4 + s5, s6, h, l);
    lemma_followed_concat(s1 + s2 + s3 + s4 + s5 + s6, s7, h, l);
}

proof fn lemma_deltas_hold_line(ds: Seq<StateDelta>, j: int, c: int, k: int)
    requires
        0 <= j < ds.len(),
        0 <= c < 7,
        0 <= k < category_items(ds[j], c).len(),
        category_items(ds[j], c)[k].action != DeltaAction::Remove,
    ensures
        followed_by(deltas_toml(ds), "["@ + category_name(c) + "]\n"@, toml_item(category_items(ds[j], c)[k])),
    decreases ds.len(),
{
    let h = "["@ + category_name(c) + "]\n"@;
    let l = toml_item(category_items(ds[j], c)[k]);
    let pre = ds.drop_last();
    if j == ds.len() - 1 {
        lemma_delta_holds_line(ds[j], c, k);
        lemma_followed_concat(deltas_toml(pre), delta_toml(ds.last()), h, l);
    } else {
        assert(pre[j] == ds[j]);
        lemma_deltas_hold_line(pre, j, c, k);
        lemma_followed_concat(deltas_toml(pre), delta_toml(ds.last()), h, l);
    }
}

/// No change is lost in the export: for every delta and every category,
/// each change that is not a removal appears under that category's
/// `[name]` header, as `key = "value"` when it has a value and as a
/// `# key (action: ...)` comment when it has none.
pub proof fn law_export_keeps_changes(ds: Seq<StateDelta>, j: int, c: int, k: int)
    requires
        0 <= j < ds.len(),
        0 <= c < 7,
        0 <= k < category_items(ds[j], c).len(),
        category_items(ds[j], c)[k].action != DeltaAction::Remove,
    ensures
        ({
            let it = category_items(ds[j], c)[k];
            let h = "["@ + category_name(c) + "]\n"@;
            &&& it.value matches Some(v) ==> followed_by(
                overlay_toml(ds),
                h,
                it.key@ + " = \""@ + v@ + "\"\n"@,
            )
            &&& it.value is None && it.action == DeltaAction::Add ==> followed_by(
                overlay_toml(ds),
                h,
                "# "@ + it.key@ + " (action: Add)\n"@,
            )
            &&& it.value is None && it.action == DeltaAction::Modify ==> followed_by(
                overlay_toml(ds),
                h,
                "# "@ + it.key@ + " (action: Modify)\n"@,
            )
        }),
{
    let it = category_items(ds[j], c)[k];
    let h = "["@ + category_name(c) + "]\n"@;
    lemma_deltas_hold_line(ds, j, c, k);
    let head = "# Promoted from node deltas\n"@ + "# Review and apply with: pact apply <this-file.toml>\n\n"@;
    lemma_followed_concat(head, deltas_toml(ds), h, toml_item(it));
    reveal_strlit("Add");
    reveal_strlit("Modify");
    reveal_strlit(" (action: ");
    reveal_strlit("# ");
    reveal_strlit(")\n");
    reveal_strlit(" (action: Add)\n");
    reveal_strlit(" (action: Modify)\n");
    if it.value is None {
        if it.action == DeltaAction::Add {
            assert(toml_item(it) =~= "# "@ + it.key@ + " (action: Add)\n"@);
        } else {
            assert(toml_item(it) =~= "# "@ + it.key@ + " (action: Modify)\n"@);
        }
    }
}

/// Number of change categories.
pub const CATEGORY_COUNT: usize = 7;

/// Whether some delta changes a category.
pub open spec fn touched(ds: Seq<StateDelta>, c: int) -> bool {
    exists|i: int| 0 <= i < ds.len() && category_len(#[trigger] ds[i], c) > 0
}

/// The names of the categories from `c` on that some delta changes, in
/// alphabetical order, each once.
pub open spec fn sections_from(ds: Seq<StateDelta>, c: int) -> Seq<Seq<char>>
    decreases 7 - c,
{
    if c >= 7 || c < 0 {
        Seq::empty()
    } else {
        (if touched(ds, c) { seq![category_name(c)] } else { Seq::empty() }) + sections_from(ds, c + 1)
    }
}

/// The report of a promotion: a notice when nothing was committed, the
/// sections that would be exported on a dry run, else the overlay.
pub open spec fn node_promotion_text(node_id: Seq<char>, ds: Seq<StateDelta>, dry_run: bool) -> Seq<char> {
    if ds.len() == 0 {
        "No committed deltas found for node "@ + node_id + "."@
    } else if dry_run {
        "DRY RUN \u{2014} would export "@ + dec(ds.len()) + " delta(s) from node "@ + node_id + "\nSections: "@
            + (if sections_from(ds, 0).len() == 0 { "(none)"@ } else { join(sections_from(ds, 0), ", "@) })
    } else {
        "Exported "@ + dec(ds.len()) + " delta(s) from node "@ + node_id + "\n\n"@ + overlay_toml(ds)
    }
}

fn category_len_exec(d: &StateDelta, c: usize) -> (r: usize)
    ensures
        r == category_len(*d, c as int),
{
    if c == 0 {
        d.files.len()
    } else if c == 1 {
        d.gpu.len()
    } else if c == 2 {
        d.kernel.len()
    } else if c == 3 {
        d.mounts.len()
    } else if c == 4 {
        d.network.len()
    } else if c == 5 {
        d.packages.len()
    } else {
        d.services.len()
    }
}

fn category_name_exec(c: usize) -> (r: Vec<char>)
    requires
        c < 7,
    ensures
        r@ == category_name(c as int),
{
    let name = if c == 0 {
        "files"
    } else if c == 1 {
        "gpu"
    } else if c == 2 {
        "kernel"
    } else if c == 3 {
        "mounts"
    } else if c == 4 {
        "network"
    } else if c == 5 {
        "packages"
    } else {
        "services"
    };
    chars_of(name)
}

fn touched_exec(ds: &[StateDelta], c: usize) -> (r: bool)
    ensures
        r == touched(ds@, c as int),
{
    let mut i: usize = 0;
    while i < ds.len()
        invariant
            i <= ds@.len(),
            forall|j: int| 0 <= j < i ==> category_len(#[trigger] ds@[j], c as int) == 0,
        decreases ds.len() - i,
    {
        if category_len_exec(&ds[i], c) > 0 {
            return true;
        }
        i = i + 1;
    }
    false
}

fn sections_line(ds: &[StateDelta]) -> (r: Vec<char>)
    ensures
        r@ == (if sections_from(ds@, 0).len() == 0 { "(none)"@ } else { join(sections_from(ds@, 0), ", "@) }),
{
    let mut names: Vec<Vec<char>> = Vec::new();
    let mut c: usize = CATEGORY_COUNT;
    // Built from the last category backwards, so that each step prepends.
    while c > 0
        invariant
            c <= 7,
            vviews(names@) == sections_from(ds@, c as int),
        decreases c,
    {
        c = c - 1;
        if touched_exec(ds, c) {
            let mut next: Vec<Vec<char>> = Vec::new();
            next.push(category_name_exec(c));
            let mut k: usize = 0;
            while k < names.len()
                invariant
                    k <= names@.len(),
                    vviews(next@) == seq![category_name(c as int)] + vviews(names@).take(k as int),
                decreases names.len() - k,
            {
                let ghost before = next@;
                next.push(names[k].clone());
                proof {
                    assert(vviews(next@) =~= vviews(before).push(names@[k as int]@));
                    assert(vviews(names@).take(k + 1) =~= vviews(names@).take(k as int).push(names@[k as int]@));
                }
                k = k + 1;
            }
            proof {
                assert(vviews(names@).take(names@.len() as int) =~= vviews(names@));
            }
            names = next;
        }
        proof {
            assert(vviews(names@) =~= sections_from(ds@, c as int));
        }
    }
    if names.len() == 0 {
        return chars_of("(none)");
    }
    join_chars(&names, &chars_of(", "))
}

/// Reports the promotion of a node's committed deltas.
pub fn promotion_summary(node_id: &str, deltas: &[StateDelta], dry_run: bool) -> (r: String)
    ensures
        r@ == node_promotion_text(node_id@, deltas@, dry_run),
{
    let mut out: Vec<char> = Vec::new();
    if deltas.len() == 0 {
        push_str(&mut out, "No committed deltas found for node ");
        push_str(&mut out, node_id);
        push_str(&mut out, ".");
        return string_of(&out);
    }
    if dry_run {
        push_str(&mut out, "DRY RUN \u{2014} would export ");
        push_u64(&mut out, deltas.len() as u64);
        push_str(&mut out, " delta(s) from node ");
        push_str(&mut out, node_id);
        push_str(&mut out, "\nSections: ");
        push_chars(&mut out, &sections_line(deltas));
    } else {
        push_str(&mut out, "Exported ");
        push_u64(&mut out, deltas.len() as u64);
        push_str(&mut out, " delta(s) from node ");
        push_str(&mut out, node_id);
        push_str(&mut out, "\n\n");
        push_chars(&mut out, &chars_of(export_deltas_as_toml(deltas).as_str()));
    }
    string_of(&out)
}

/// The deltas of the commit entries that carry one, in journal order.
pub open spec fn committed_wire(entries: Seq<WireEntry>) -> Seq<WireStateDelta>
    decreases entries.len(),
{
    if entries.len() == 0 {
        Seq::empty()
    } else {
        let e = entries.last();
        committed_wire(entries.drop_last()) + if e.entry_type == COMMIT_ENTRY_TYPE && e.state_delta is Some {
            seq![e.state_delta->0]
        } else {
            Seq::empty()
        }
    }
}

/// Whether each delta is the decoding of the matching journal record.
pub open spec fn decodes(ds: Seq<StateDelta>, ws: Seq<WireStateDelta>) -> bool {
    ds.len() == ws.len() && forall|i: int| 0 <= i < ds.len() ==> decoded_from(#[trigger] ds[i], ws[i])
}

/// Decodes the deltas of a node's commit entries.
pub fn committed_deltas(entries: &[WireEntry]) -> (r: Vec<StateDelta>)
    ensures
        decodes(r@, committed_wire(entries@)),
{
    let mut r: Vec<StateDelta> = Vec::new();
    let mut i: usize = 0;
    while i < entries.len()
        invariant
            i <= entries@.len(),
            decodes(r@, committed_wire(entries@.take(i as int))),
        decreases entries.len() - i,
    {
        let e = &entries[i];
        proof {
            assert(entries@.take(i + 1).drop_last() =~= entries@.take(i as int));
        }
        if e.entry_type == COMMIT_ENTRY_TYPE {
            match &e.state_delta {
                Some(w) => {
                    r.push(delta_from_wire(w));
                },
                None => {},
            }
        }
        i = i + 1;
    }
    proof {
        assert(entries@.take(entries@.len() as int) =~= entries@);
    }
    r
}

/// The report of `pact promote` for the entries listed for a node.
pub fn promote_report(node_id: &str, entries: &[WireEntry], dry_run: bool) -> (r: String)
    ensures
        exists|ds: Seq<StateDelta>| decodes(ds, committed_wire(entries@)) && r@ == node_promotion_text(node_id@, ds, dry_run),
{
    let deltas = committed_deltas(entries);
    promotion_summary(node_id, deltas.as_slice(), dry_run)
}

} // verus!
