//! `pact apply`: declarative vCluster specs, their conversion to a state
//! delta, and a summary of the changes.
//!
//! A spec file is TOML; its tables are kept here as lists of (key, value)
//! pairs in increasing key order, the order in which the file's tables are
//! walked.

use vstd::prelude::*;

use crate::common::types::{DeltaAction, DeltaItem, StateDelta};
use crate::text::{chars_of, dec, join, join_chars, lex_lt, push_chars, push_str, push_u64, string_from, string_of, vviews};

verus! {

broadcast use vstd::string::group_string_axioms;

/// A mount declaration.
#[derive(Debug, Clone)]
pub struct MountSpec {
    pub fs_type: String,
    pub source: String,
    pub options: String,
}

/// A file declaration.
#[derive(Debug, Clone)]
pub struct FileSpec {
    pub content_hash: Option<String>,
    pub mode: Option<String>,
    pub owner: Option<String>,
}

/// A service declaration.
#[derive(Debug, Clone)]
pub struct ServiceSpec {
    pub state: String,
}

/// Per-vCluster spec sections, each in increasing key order.
#[derive(Debug, Clone)]
pub struct VClusterSpec {
    pub sysctl: Vec<(String, String)>,
    pub mounts: Vec<(String, MountSpec)>,
    pub files: Vec<(String, FileSpec)>,
    pub services: Vec<(String, ServiceSpec)>,
    pub network: Vec<(String, String)>,
    pub packages: Vec<(String, String)>,
}

/// Top-level spec: the vClusters, in increasing name order.
#[derive(Debug, Clone)]
pub struct ApplySpec {
    pub vcluster: Vec<(String, VClusterSpec)>,
}

/// Whether the keys of a table are strictly increasing (a map walked in
/// order).
pub open spec fn keys_sorted<V>(t: Seq<(String, V)>) -> bool {
    forall|i: int, j: int| 0 <= i < j < t.len() ==> lex_lt(t[i].0@, t[j].0@)
}

impl VClusterSpec {
    /// Every section is a map walked in key order.
    pub open spec fn wf(self) -> bool {
        &&& keys_sorted(self.sysctl@)
        &&& keys_sorted(self.mounts@)
        &&& keys_sorted(self.files@)
        &&& keys_sorted(self.services@)
        &&& keys_sorted(self.network@)
        &&& keys_sorted(self.packages@)
    }
}

impl ApplySpec {
    /// The vClusters form a map walked in name order, and each spec is
    /// well formed.
    pub open spec fn wf(self) -> bool {
        &&& keys_sorted(self.vcluster@)
        &&& forall|i: int| 0 <= i < self.vcluster@.len() ==> (#[trigger] self.vcluster@[i]).1.wf()
    }
}

/// Whether the keys of delta items are strictly increasing.
pub open spec fn items_in_key_order(items: Seq<DeltaItem>) -> bool {
    forall|i: int, j: int| 0 <= i < j < items.len() ==> lex_lt(items[i].key@, items[j].key@)
}

/// The plain contents of a delta item.
pub open spec fn item_view(i: DeltaItem) -> (DeltaAction, Seq<char>, Option<Seq<char>>, Option<Seq<char>>) {
    (
        i.action,
        i.key@,
        match i.value {
            Some(v) => Some(v@),
            None => None,
        },
        match i.previous {
            Some(p) => Some(p@),
            None => None,
        },
    )
}

/// The value recorded for a mount: `{type}:{source} ({options})`.
pub open spec fn mount_value(m: MountSpec) -> Seq<char> {
    m.fs_type@ + ":"@ + m.source@ + " ("@ + m.options@ + ")"@
}

/// Whether `items` are the changes of a section of `(key, value)` pairs,
/// one per entry in order, with the given action and value.
pub open spec fn converted<V>(
    items: Seq<DeltaItem>,
    t: Seq<(String, V)>,
    action: DeltaAction,
    value: spec_fn(V) -> Option<Seq<char>>,
    previous: spec_fn(V) -> Option<Seq<char>>,
) -> bool {
    &&& items.len() == t.len()
    &&& forall|i: int| 0 <= i < t.len() ==> #[trigger] item_view(items[i]) == (action, t[i].0@, value(t[i].1), previous(t[i].1))
}

/// The changes of a section walked in key order are in key order.
pub proof fn lemma_converted_in_order<V>(
    items: Seq<DeltaItem>,
    t: Seq<(String, V)>,
    action: DeltaAction,
    value: spec_fn(V) -> Option<Seq<char>>,
    previous: spec_fn(V) -> Option<Seq<char>>,
)
    requires
        converted(items, t, action, value, previous),
        keys_sorted(t),
    ensures
        items_in_key_order(items),
{
    assert forall|i: int, j: int| 0 <= i < j < items.len() implies lex_lt(items[i].key@, items[j].key@) by {
        assert(item_view(items[i]).1 == t[i].0@);
        assert(item_view(items[j]).1 == t[j].0@);
    }
}

fn some_string(s: &String) -> (r: Option<String>)
    ensures
        r matches Some(v) && v@ == s@,
{
    Some(s.clone())
}

fn clone_opt(o: &Option<String>) -> (r: Option<String>)
    ensures
        match (r, *o) {
            (Some(a), Some(b)) => a@ == b@,
            (None, None) => true,
            _ => false,
        },
{
    match o {
        Some(s) => Some(s.clone()),
        None => None,
    }
}

/// Converts a vCluster spec into a state delta: sysctls, files, services
/// and network settings as modifications; mounts and packages as
/// additions; one change per entry in key order.
pub fn spec_to_delta(spec: &VClusterSpec) -> (d: StateDelta)
    requires
        spec.wf(),
    ensures
        items_in_key_order(d.kernel@),
        items_in_key_order(d.mounts@),
        items_in_key_order(d.files@),
        items_in_key_order(d.services@),
        items_in_key_order(d.network@),
        items_in_key_order(d.packages@),
        converted(d.kernel@, spec.sysctl@, DeltaAction::Modify, |v: String| Some(v@), |v: String| None),
        converted(d.mounts@, spec.mounts@, DeltaAction::Add, |m: MountSpec| Some(mount_value(m)), |m: MountSpec| None),
        converted(d.files@, spec.files@, DeltaAction::Modify,
            |f: FileSpec| match f.content_hash { Some(h) => Some(h@), None => None },
            |f: FileSpec| match f.owner { Some(o) => Some(o@), None => None }),
        converted(d.services@, spec.services@, DeltaAction::Modify, |s: ServiceSpec| Some(s.state@), |s: ServiceSpec| None),
        converted(d.network@, spec.network@, DeltaAction::Modify, |v: String| Some(v@), |v: String| None),
        converted(d.packages@, spec.packages@, DeltaAction::Add, |v: String| Some(v@), |v: String| None),
        d.gpu@.len() == 0,
{
    let mut d = StateDelta::empty();
    let mut i: usize = 0;
    while i < spec.sysctl.len()
        invariant
            i <= spec.sysctl@.len(),
            d.kernel@.len() == i,
            forall|k: int| 0 <= k < i ==> #[trigger] item_view(d.kernel@[k]) == (DeltaAction::Modify, spec.sysctl@[k].0@, Some(spec.sysctl@[k].1@), None::<Seq<char>>),
            d.mounts@.len() == 0, d.files@.len() == 0, d.services@.len() == 0, d.network@.len() == 0, d.packages@.len() == 0, d.gpu@.len() == 0,
        decreases spec.sysctl.len() - i,
    {
        let (k, v) = &spec.sysctl[i];
        d.kernel.push(DeltaItem { action: DeltaAction::Modify, key: k.clone(), value: some_string(v), previous: None });
        i = i + 1;
    }
    let mut i: usize = 0;
    while i < spec.mounts.len()
        invariant
            i <= spec.mounts@.len(),
            d.mounts@.len() == i,
            forall|k: int| 0 <= k < i ==> #[trigger] item_view(d.mounts@[k]) == (DeltaAction::Add, spec.mounts@[k].0@, Some(mount_value(spec.mounts@[k].1)), None::<Seq<char>>),
            converted(d.kernel@, spec.sysctl@, DeltaAction::Modify, |v: String| Some(v@), |v: String| None),
            d.files@.len() == 0, d.services@.len() == 0, d.network@.len() == 0, d.packages@.len() == 0, d.gpu@.len() == 0,
        decreases spec.mounts.len() - i,
    {
        let (p, m) = &spec.mounts[i];
        let mut v: Vec<char> = Vec::new();
        push_chars(&mut v, &chars_of(m.fs_type.as_str()));
        push_str(&mut v, ":");
        push_chars(&mut v, &chars_of(m.source.as_str()));
        push_str(&mut v, " (");
        push_chars(&mut v, &chars_of(m.options.as_str()));
        push_str(&mut v, ")");
        d.mounts.push(DeltaItem { action: DeltaAction::Add, key: p.clone(), value: Some(string_of(&v)), previous: None });
        i = i + 1;
    }
    let mut i: usize = 0;
    while i < spec.files.len()
        invariant
            i <= spec.files@.len(),
            d.files@.len() == i,
            forall|k: int| 0 <= k < i ==> #[trigger] item_view(d.files@[k]) == (DeltaAction::Modify, spec.files@[k].0@,
                match spec.files@[k].1.content_hash { Some(h) => Some(h@), None => None },
                match spec.files@[k].1.owner { Some(o) => Some(o@), None => None }),
            converted(d.kernel@, spec.sysctl@, DeltaAction::Modify, |v: String| Some(v@), |v: String| None),
            converted(d.mounts@, spec.mounts@, DeltaAction::Add, |m: MountSpec| Some(mount_value(m)), |m: MountSpec| None),
            d.services@.len() == 0, d.network@.len() == 0, d.packages@.len() == 0, d.gpu@.len() == 0,
        decreases spec.files.len() - i,
    {
        let (p, f) = &spec.files[i];
        d.files.push(DeltaItem { action: DeltaAction::Modify, key: p.clone(), value: clone_opt(&f.content_hash), previous: clone_opt(&f.owner) });
        i = i + 1;
    }
    let mut i: usize = 0;
    while i < spec.services.len()
        invariant
            i <= spec.services@.len(),
            d.services@.len() == i,
            forall|k: int| 0 <= k < i ==> #[trigger] item_view(d.services@[k]) == (DeltaAction::Modify, spec.services@[k].0@, Some(spec.services@[k].1.state@), None::<Seq<char>>),
            converted(d.kernel@, spec.sysctl@, DeltaAction::Modify, |v: String| Some(v@), |v: String| None),
            converted(d.mounts@, spec.mounts@, DeltaAction::Add, |m: MountSpec| Some(mount_value(m)), |m: MountSpec| None),
            converted(d.files@, spec.files@, DeltaAction::Modify,
                |f: FileSpec| match f.content_hash { Some(h) => Some(h@), None => None },
                |f: FileSpec| match f.owner { Some(o) => Some(o@), None => None }),
            d.network@.len() == 0, d.packages@.len() == 0, d.gpu@.len() == 0,
        decreases spec.services.len() - i,
    {
        let (n, s) = &spec.services[i];
        d.services.push(DeltaItem { action: DeltaAction::Modify, key: n.clone(), value: some_string(&s.state), previous: None });
        i = i + 1;
    }
    let mut i: usize = 0;
    while i < spec.network.len()
        invariant
            i <= spec.network@.len(),
            d.network@.len() == i,
            forall|k: int| 0 <= k < i ==> #[trigger] item_view(d.network@[k]) == (DeltaAction::Modify, spec.network@[k].0@, Some(spec.network@[k].1@), None::<Seq<char>>),
            converted(d.kernel@, spec.sysctl@, DeltaAction::Modify, |v: String| Some(v@), |v: String| None),
            converted(d.mounts@, spec.mounts@, DeltaAction::Add, |m: MountSpec| Some(mount_value(m)), |m: MountSpec| None),
            converted(d.files@, spec.files@, DeltaAction::Modify,
                |f: FileSpec| match f.content_hash { Some(h) => Some(h@), None => None },
                |f: FileSpec| match f.owner { Some(o) => Some(o@), None => None }),
            converted(d.services@, spec.services@, DeltaAction::Modify, |s: ServiceSpec| Some(s.state@), |s: ServiceSpec| None),
            d.packages@.len() == 0, d.gpu@.len() == 0,
        decreases spec.network.len() - i,
    {
        let (n, v) = &spec.network[i];
        d.network.push(DeltaItem { action: DeltaAction::Modify, key: n.clone(), value: some_string(v), previous: None });
        i = i + 1;
    }
    let mut i: usize = 0;
    while i < spec.packages.len()
        invariant
            i <= spec.packages@.len(),
            d.packages@.len() == i,
            forall|k: int| 0 <= k < i ==> #[trigger] item_view(d.packages@[k]) == (DeltaAction::Add, spec.packages@[k].0@, Some(spec.packages@[k].1@), None::<Seq<char>>),
            converted(d.kernel@, spec.sysctl@, DeltaAction::Modify, |v: String| Some(v@), |v: String| None),
            converted(d.mounts@, spec.mounts@, DeltaAction::Add, |m: MountSpec| Some(mount_value(m)), |m: MountSpec| None),
            converted(d.files@, spec.files@, DeltaAction::Modify,
                |f: FileSpec| match f.content_hash { Some(h) => Some(h@), None => None },
                |f: FileSpec| match f.owner { Some(o) => Some(o@), None => None }),
            converted(d.services@, spec.services@, DeltaAction::Modify, |s: ServiceSpec| Some(s.state@), |s: ServiceSpec| None),
            converted(d.network@, spec.network@, DeltaAction::Modify, |v: String| Some(v@), |v: String| None),
            d.gpu@.len() == 0,
        decreases spec.packages.len() - i,
    {
        let (n, v) = &spec.packages[i];
        d.packages.push(DeltaItem { action: DeltaAction::Add, key: n.clone(), value: some_string(v), previous: None });
        i = i + 1;
    }
    proof {
        assert(converted(d.packages@, spec.packages@, DeltaAction::Add, |v: String| Some(v@), |v: String| None));
        lemma_converted_in_order(d.kernel@, spec.sysctl@, DeltaAction::Modify, |v: String| Some(v@), |v: String| None);
        lemma_converted_in_order(d.mounts@, spec.mounts@, DeltaAction::Add, |m: MountSpec| Some(mount_value(m)), |m: MountSpec| None);
        lemma_converted_in_order(d.files@, spec.files@, DeltaAction::Modify,
            |f: FileSpec| match f.content_hash { Some(h) => Some(h@), None => None },
            |f: FileSpec| match f.owner { Some(o) => Some(o@), None => None });
        lemma_converted_in_order(d.services@, spec.services@, DeltaAction::Modify, |s: ServiceSpec| Some(s.state@), |s: ServiceSpec| None);
        lemma_converted_in_order(d.network@, spec.network@, DeltaAction::Modify, |v: String| Some(v@), |v: String| None);
        lemma_converted_in_order(d.packages@, spec.packages@, DeltaAction::Add, |v: String| Some(v@), |v: String| None);
    }
    d
}

/// The number of changes a vCluster spec makes.
pub open spec fn change_count(s: VClusterSpec) -> nat {
    s.sysctl@.len() + s.mounts@.len() + s.files@.len() + s.services@.len() + s.network@.len()
        + s.packages@.len()
}

/// The summary lines of one vCluster: the change count, then its sysctls,
/// mounts and services.
pub open spec fn vcluster_summary(name: Seq<char>, s: VClusterSpec) -> Seq<Seq<char>> {
    seq!["vCluster "@ + name + ": "@ + dec(change_count(s)) + " changes"@]
        + s.sysctl@.map_values(|e: (String, String)| "  sysctl: "@ + e.0@ + " = "@ + e.1@)
        + s.mounts@.map_values(|e: (String, MountSpec)| "  mount: "@ + e.0@ + " ("@ + e.1.fs_type@ + ":"@ + e.1.source@ + ")"@)
        + s.services@.map_values(|e: (String, ServiceSpec)| "  service: "@ + e.0@ + " \u{2192} "@ + e.1.state@)
}

/// The summary lines of all vClusters, in order.
pub open spec fn summary_lines(vs: Seq<(String, VClusterSpec)>) -> Seq<Seq<char>>
    decreases vs.len(),
{
    if vs.len() == 0 {
        Seq::empty()
    } else {
        summary_lines(vs.drop_last()) + vcluster_summary(vs.last().0@, vs.last().1)
    }
}

/// Whether every change count fits in a machine word.
pub open spec fn counts_fit(vs: Seq<(String, VClusterSpec)>) -> bool {
    forall|i: int| 0 <= i < vs.len() ==> change_count(#[trigger] vs[i].1) <= usize::MAX
}

fn vcluster_lines(lines: &mut Vec<Vec<char>>, name: &String, s: &VClusterSpec)
    requires
        change_count(*s) <= usize::MAX,
    ensures
        vviews(final(lines)@) == vviews(old(lines)@) + vcluster_summary(name@, *s),
{
    let ghost start = vviews(lines@);
    let changes = s.sysctl.len() + s.mounts.len() + s.files.len() + s.services.len() + s.network.len()
        + s.packages.len();
    let mut head: Vec<char> = Vec::new();
    push_str(&mut head, "vCluster ");
    push_chars(&mut head, &chars_of(name.as_str()));
    push_str(&mut head, ": ");
    push_u64(&mut head, changes as u64);
    push_str(&mut head, " changes");
    lines.push(head);
    let ghost after_head = vviews(lines@);
    proof {
        assert(after_head =~= start + seq!["vCluster "@ + name@ + ": "@ + dec(change_count(*s)) + " changes"@]);
    }
    let mut i: usize = 0;
    while i < s.sysctl.len()
        invariant
            i <= s.sysctl@.len(),
            vviews(lines@) == after_head + s.sysctl@.take(i as int).map_values(|e: (String, String)| "  sysctl: "@ + e.0@ + " = "@ + e.1@),
        decreases s.sysctl.len() - i,
    {
        let (k, v) = &s.sysctl[i];
        let mut l: Vec<char> = Vec::new();
        push_str(&mut l, "  sysctl: ");
        push_chars(&mut l, &chars_of(k.as_str()));
        push_str(&mut l, " = ");
        push_chars(&mut l, &chars_of(v.as_str()));
        let ghost before = vviews(lines@);
        lines.push(l);
        proof {
            assert(s.sysctl@.take(i + 1).map_values(|e: (String, String)| "  sysctl: "@ + e.0@ + " = "@ + e.1@)
                =~= s.sysctl@.take(i as int).map_values(|e: (String, String)| "  sysctl: "@ + e.0@ + " = "@ + e.1@).push("  sysctl: "@ + k@ + " = "@ + v@));
            assert(vviews(lines@) =~= before.push("  sysctl: "@ + k@ + " = "@ + v@));
        }
        i = i + 1;
    }
    proof {
        assert(s.sysctl@.take(s.sysctl@.len() as int) =~= s.sysctl@);
    }
    let ghost after_sysctl = vviews(lines@);
    let mut i: usize = 0;
    while i < s.mounts.len()
        invariant
            i <= s.mounts@.len(),
            vviews(lines@) == after_sysctl + s.mounts@.take(i as int).map_values(|e: (String, MountSpec)| "  mount: "@ + e.0@ + " ("@ + e.1.fs_type@ + ":"@ + e.1.source@ + ")"@),
        decreases s.mounts.len() - i,
    {
        let (p, m) = &s.mounts[i];
        let mut l: Vec<char> = Vec::new();
        push_str(&mut l, "  mount: ");
        push_chars(&mut l, &chars_of(p.as_str()));
        push_str(&mut l, " (");
        push_chars(&mut l, &chars_of(m.fs_type.as_str()));
        push_str(&mut l, ":");
        push_chars(&mut l, &chars_of(m.source.as_str()));
        push_str(&mut l, ")");
        let ghost before = vviews(lines@);
        lines.push(l);
        proof {
            assert(s.mounts@.take(i + 1).map_values(|e: (String, MountSpec)| "  mount: "@ + e.0@ + " ("@ + e.1.fs_type@ + ":"@ + e.1.source@ + ")"@)
                =~= s.mounts@.take(i as int).map_values(|e: (String, MountSpec)| "  mount: "@ + e.0@ + " ("@ + e.1.fs_type@ + ":"@ + e.1.source@ + ")"@)
                    .push("  mount: "@ + p@ + " ("@ + m.fs_type@ + ":"@ + m.source@ + ")"@));
            assert(vviews(lines@) =~= before.push("  mount: "@ + p@ + " ("@ + m.fs_type@ + ":"@ + m.source@ + ")"@));
        }
        i = i + 1;
    }
    proof {
        assert(s.mounts@.take(s.mounts@.len() as int) =~= s.mounts@);
    }
    let ghost after_mounts = vviews(lines@);
    let mut i: usize = 0;
    while i < s.services.len()
        invariant
            i <= s.services@.len(),
            vviews(lines@) == after_mounts + s.services@.take(i as int).map_values(|e: (String, ServiceSpec)| "  service: "@ + e.0@ + " \u{2192} "@ + e.1.state@),
        decreases s.services.len() - i,
    {
        let (n, sv) = &s.services[i];
        let mut l: Vec<char> = Vec::new();
        push_str(&mut l, "  service: ");
        push_chars(&mut l, &chars_of(n.as_str()));
        push_str(&mut l, " \u{2192} ");
        push_chars(&mut l, &chars_of(sv.state.as_str()));
        let ghost before = vviews(lines@);
        lines.push(l);
        proof {
            assert(s.services@.take(i + 1).map_values(|e: (String, ServiceSpec)| "  service: "@ + e.0@ + " \u{2192} "@ + e.1.state@)
                =~= s.services@.take(i as int).map_values(|e: (String, ServiceSpec)| "  service: "@ + e.0@ + " \u{2192} "@ + e.1.state@)
                    .push("  service: "@ + n@ + " \u{2192} "@ + sv.state@));
            assert(vviews(lines@) =~= before.push("  service: "@ + n@ + " \u{2192} "@ + sv.state@));
        }
        i = i + 1;
    }
    proof {
        assert(s.services@.take(s.services@.len() as int) =~= s.services@);
        assert(vviews(lines@) =~= start + vcluster_summary(name@, *s));
    }
}

/// Formats a summary of the changes of a spec, one line each.
pub fn format_spec_summary(spec: &ApplySpec) -> (r: String)
    requires
        spec.wf(),
        counts_fit(spec.vcluster@),
    ensures
        r@ == join(summary_lines(spec.vcluster@), "\n"@),
{
    let mut lines: Vec<Vec<char>> = Vec::new();
    let mut i: usize = 0;
    proof {
        assert(vviews(lines@) =~= Seq::<Seq<char>>::empty());
    }
    while i < spec.vcluster.len()
        invariant
            i <= spec.vcluster@.len(),
            counts_fit(spec.vcluster@),
            vviews(lines@) == summary_lines(spec.vcluster@.take(i as int)),
        decreases spec.vcluster.len() - i,
    {
        let (name, s) = &spec.vcluster[i];
        proof {
            let t = spec.vcluster@.take(i + 1);
            assert(t.drop_last() =~= spec.vcluster@.take(i as int));
            assert(t.last() == spec.vcluster@[i as int]);
            assert(change_count(spec.vcluster@[i as int].1) <= usize::MAX);
        }
        vcluster_lines(&mut lines, name, s);
        i = i + 1;
    }
    proof {
        assert(spec.vcluster@.take(spec.vcluster@.len() as int) =~= spec.vcluster@);
    }
    let mut nl: Vec<char> = Vec::new();
    nl.push('\n');
    proof {
        assert(nl@ =~= "\n"@) by {
            reveal_strlit("\n");
        }
    }
    string_of(&join_chars(&lines, &nl))
}

} // verus!
