//! Journal records as they travel between the CLI and the journal: a
//! state delta with its per-category change records, and the entries that
//! carry them.  The conversion to the domain's delta is the CLI's own.

use vstd::prelude::*;

use crate::agent::auth::opt_view;
use crate::cli::apply::item_view;
use crate::common::types::{clone_opt_string, DeltaAction, DeltaItem, Scope, StateDelta};
use crate::agent::subscription::UpdatePayload;
use crate::cli::log::{clock_text, format_clock, format_timestamp, timestamp_text};
use crate::text::{
    chars_of, dec, join, join_chars, pad_right, push_chars, push_padded_right, push_str, push_u64, string_from,
    string_of, u64_to_string, vviews,
};

verus! {

/// A kernel parameter change.
#[derive(Debug, Clone)]
pub struct KernelChange {
    pub action: i32,
    pub key: String,
    pub declared_value: Option<String>,
    pub actual_value: Option<String>,
}

/// A service change.
#[derive(Debug, Clone)]
pub struct ServiceChange {
    pub action: i32,
    pub name: String,
    pub declared_state: Option<String>,
    pub actual_state: Option<String>,
}

/// A mount change.
#[derive(Debug, Clone)]
pub struct MountChange {
    pub action: i32,
    pub path: String,
}

/// A file change.
#[derive(Debug, Clone)]
pub struct FileChange {
    pub action: i32,
    pub path: String,
    pub content_hash: Option<String>,
    pub owner: Option<String>,
}

/// A network interface change.
#[derive(Debug, Clone)]
pub struct NetworkChange {
    pub action: i32,
    pub interface: String,
    pub detail: Option<String>,
}

/// A package change.
#[derive(Debug, Clone)]
pub struct PackageChange {
    pub action: i32,
    pub name: String,
    pub version: Option<String>,
}

/// A GPU change.
#[derive(Debug, Clone)]
pub struct GpuChange {
    pub action: i32,
    pub gpu_index: u32,
    pub detail: Option<String>,
}

/// A state delta as recorded in the journal.
#[derive(Debug, Clone)]
pub struct WireStateDelta {
    pub kernel: Vec<KernelChange>,
    pub services: Vec<ServiceChange>,
    pub mounts: Vec<MountChange>,
    pub files: Vec<FileChange>,
    pub network: Vec<NetworkChange>,
    pub packages: Vec<PackageChange>,
    pub gpu: Vec<GpuChange>,
}

/// A journal entry: sequence, time (seconds since the epoch), type code,
/// scope, author's principal and delta.
#[derive(Debug, Clone)]
pub struct WireEntry {
    pub sequence: u64,
    pub timestamp: Option<i64>,
    pub entry_type: i32,
    pub scope: Option<Scope>,
    pub author: Option<String>,
    pub state_delta: Option<WireStateDelta>,
}

/// The journal's code for commit entries.
pub const COMMIT_ENTRY_TYPE: i32 = 1;

/// The action a change code stands for: 1 adds, 2 removes, anything else
/// modifies.
pub open spec fn action_of(code: i32) -> DeltaAction {
    if code == 1 {
        DeltaAction::Add
    } else if code == 2 {
        DeltaAction::Remove
    } else {
        DeltaAction::Modify
    }
}

/// Decodes a change code.
pub fn decode_action(code: i32) -> (r: DeltaAction)
    ensures
        r == action_of(code),
{
    if code == 1 {
        DeltaAction::Add
    } else if code == 2 {
        DeltaAction::Remove
    } else {
        DeltaAction::Modify
    }
}

/// The change made of each kind of record: key, recorded value and
/// previous value.
pub open spec fn kernel_item(c: KernelChange) -> (DeltaAction, Seq<char>, Option<Seq<char>>, Option<Seq<char>>) {
    (action_of(c.action), c.key@, opt_view(c.declared_value), opt_view(c.actual_value))
}

pub open spec fn service_item(c: ServiceChange) -> (DeltaAction, Seq<char>, Option<Seq<char>>, Option<Seq<char>>) {
    (action_of(c.action), c.name@, opt_view(c.declared_state), opt_view(c.actual_state))
}

pub open spec fn mount_item(c: MountChange) -> (DeltaAction, Seq<char>, Option<Seq<char>>, Option<Seq<char>>) {
    (action_of(c.action), c.path@, None, None)
}

pub open spec fn file_item(c: FileChange) -> (DeltaAction, Seq<char>, Option<Seq<char>>, Option<Seq<char>>) {
    (action_of(c.action), c.path@, opt_view(c.content_hash), opt_view(c.owner))
}

pub open spec fn network_item(c: NetworkChange) -> (DeltaAction, Seq<char>, Option<Seq<char>>, Option<Seq<char>>) {
    (action_of(c.action), c.interface@, opt_view(c.detail), None)
}

pub open spec fn package_item(c: PackageChange) -> (DeltaAction, Seq<char>, Option<Seq<char>>, Option<Seq<char>>) {
    (action_of(c.action), c.name@, opt_view(c.version), None)
}

pub open spec fn gpu_item(c: GpuChange) -> (DeltaAction, Seq<char>, Option<Seq<char>>, Option<Seq<char>>) {
    (action_of(c.action), dec(c.gpu_index as nat), opt_view(c.detail), None)
}

/// Whether a delta holds, one for one and in order, the changes of a
/// journal record.
pub open spec fn decoded_from(d: StateDelta, w: WireStateDelta) -> bool {
    &&& d.kernel@.map_values(|i: DeltaItem| item_view(i)) == w.kernel@.map_values(|c: KernelChange| kernel_item(c))
    &&& d.services@.map_values(|i: DeltaItem| item_view(i)) == w.services@.map_values(|c: ServiceChange| service_item(c))
    &&& d.mounts@.map_values(|i: DeltaItem| item_view(i)) == w.mounts@.map_values(|c: MountChange| mount_item(c))
    &&& d.files@.map_values(|i: DeltaItem| item_view(i)) == w.files@.map_values(|c: FileChange| file_item(c))
    &&& d.network@.map_values(|i: DeltaItem| item_view(i)) == w.network@.map_values(|c: NetworkChange| network_item(c))
    &&& d.packages@.map_values(|i: DeltaItem| item_view(i)) == w.packages@.map_values(|c: PackageChange| package_item(c))
    &&& d.gpu@.map_values(|i: DeltaItem| item_view(i)) == w.gpu@.map_values(|c: GpuChange| gpu_item(c))
}

fn kernel_items(v: &Vec<KernelChange>) -> (r: Vec<DeltaItem>)
    ensures
        r@.map_values(|i: DeltaItem| item_view(i)) == v@.map_values(|c: KernelChange| kernel_item(c)),
{
    let mut r: Vec<DeltaItem> = Vec::new();
    let mut i: usize = 0;
    while i < v.len()
        invariant
            i <= v@.len(),
            r@.len() == i,
            r@.map_values(|i: DeltaItem| item_view(i)) == v@.take(i as int).map_values(|c: KernelChange| kernel_item(c)),
        decreases v.len() - i,
    {
        let c = &v[i];
        let ghost before = r@;
        r.push(DeltaItem {
            action: decode_action(c.action),
            key: c.key.clone(),
            value: clone_opt_string(&c.declared_value),
            previous: clone_opt_string(&c.actual_value),
        });
        proof {
            assert(v@.take(i + 1) =~= v@.take(i as int).push(v@[i as int]));
            assert(r@ =~= before.push(r@[i as int]));
            assert(item_view(r@[i as int]) == kernel_item(v@[i as int]));
            assert(r@.map_values(|i: DeltaItem| item_view(i)) =~= before.map_values(|i: DeltaItem| item_view(i)).push(item_view(r@[i as int])));
            assert(v@.take(i + 1).map_values(|c: KernelChange| kernel_item(c)) =~= v@.take(i as int).map_values(|c: KernelChange| kernel_item(c)).push(kernel_item(v@[i as int])));
        }
        i = i + 1;
    }
    proof {
        assert(v@.take(v@.len() as int) =~= v@);
    }
    r
}

fn service_items(v: &Vec<ServiceChange>) -> (r: Vec<DeltaItem>)
    ensures
        r@.map_values(|i: DeltaItem| item_view(i)) == v@.map_values(|c: ServiceChange| service_item(c)),
{
    let mut r: Vec<DeltaItem> = Vec::new();
    let mut i: usize = 0;
    while i < v.len()
        invariant
            i <= v@.len(),
            r@.len() == i,
            r@.map_values(|i: DeltaItem| item_view(i)) == v@.take(i as int).map_values(|c: ServiceChange| service_item(c)),
        decreases v.len() - i,
    {
        let c = &v[i];
        let ghost before = r@;
        r.push(DeltaItem {
            action: decode_action(c.action),
            key: c.name.clone(),
            value: clone_opt_string(&c.declared_state),
            previous: clone_opt_string(&c.actual_state),
        });
        proof {
            assert(v@.take(i + 1) =~= v@.take(i as int).push(v@[i as int]));
            assert(r@ =~= before.push(r@[i as int]));
            assert(item_view(r@[i as int]) == service_item(v@[i as int]));
            assert(r@.map_values(|i: DeltaItem| item_view(i)) =~= before.map_values(|i: DeltaItem| item_view(i)).push(item_view(r@[i as int])));
            assert(v@.take(i + 1).map_values(|c: ServiceChange| service_item(c)) =~= v@.take(i as int).map_values(|c: ServiceChange| service_item(c)).push(service_item(v@[i as int])));
        }
        i = i + 1;
    }
    proof {
        assert(v@.take(v@.len() as int) =~= v@);
    }
    r
}

fn mount_items(v: &Vec<MountChange>) -> (r: Vec<DeltaItem>)
    ensures
        r@.map_values(|i: DeltaItem| item_view(i)) == v@.map_values(|c: MountChange| mount_item(c)),
{
    let mut r: Vec<DeltaItem> = Vec::new();
    let mut i: usize = 0;
    while i < v.len()
        invariant
            i <= v@.len(),
            r@.len() == i,
            r@.map_values(|i: DeltaItem| item_view(i)) == v@.take(i as int).map_values(|c: MountChange| mount_item(c)),
        decreases v.len() - i,
    {
        let c = &v[i];
        let ghost before = r@;
        r.push(DeltaItem { action: decode_action(c.action), key: c.path.clone(), value: None, previous: None });
        proof {
            assert(v@.take(i + 1) =~= v@.take(i as int).push(v@[i as int]));
            assert(r@ =~= before.push(r@[i as int]));
            assert(item_view(r@[i as int]) == mount_item(v@[i as int]));
            assert(r@.map_values(|i: DeltaItem| item_view(i)) =~= before.map_values(|i: DeltaItem| item_view(i)).push(item_view(r@[i as int])));
            assert(v@.take(i + 1).map_values(|c: MountChange| mount_item(c)) =~= v@.take(i as int).map_values(|c: MountChange| mount_item(c)).push(mount_item(v@[i as int])));
        }
        i = i + 1;
    }
    proof {
        assert(v@.take(v@.len() as int) =~= v@);
    }
    r
}

fn file_items(v: &Vec<FileChange>) -> (r: Vec<DeltaItem>)
    ensures
        r@.map_values(|i: DeltaItem| item_view(i)) == v@.map_values(|c: FileChange| file_item(c)),
{
    let mut r: Vec<DeltaItem> = Vec::new();
    let mut i: usize = 0;
    while i < v.len()
        invariant
            i <= v@.len(),
            r@.len() == i,
            r@.map_values(|i: DeltaItem| item_view(i)) == v@.take(i as int).map_values(|c: FileChange| file_item(c)),
        decreases v.len() - i,
    {
        let c = &v[i];
        let ghost before = r@;
        r.push(DeltaItem {
            action: decode_action(c.action),
            key: c.path.clone(),
            value: clone_opt_string(&c.content_hash),
            previous: clone_opt_string(&c.owner),
        });
        proof {
            assert(v@.take(i + 1) =~= v@.take(i as int).push(v@[i as int]));
            assert(r@ =~= before.push(r@[i as int]));
            assert(item_view(r@[i as int]) == file_item(v@[i as int]));
            assert(r@.map_values(|i: DeltaItem| item_view(i)) =~= before.map_values(|i: DeltaItem| item_view(i)).push(item_view(r@[i as int])));
            assert(v@.take(i + 1).map_values(|c: FileChange| file_item(c)) =~= v@.take(i as int).map_values(|c: FileChange| file_item(c)).push(file_item(v@[i as int])));
        }
        i = i + 1;
    }
    proof {
        assert(v@.take(v@.len() as int) =~= v@);
    }
    r
}

fn network_items(v: &Vec<NetworkChange>) -> (r: Vec<DeltaItem>)
    ensures
        r@.map_values(|i: DeltaItem| item_view(i)) == v@.map_values(|c: NetworkChange| network_item(c)),
{
    let mut r: Vec<DeltaItem> = Vec::new();
    let mut i: usize = 0;
    while i < v.len()
        invariant
            i <= v@.len(),
            r@.len() == i,
            r@.map_values(|i: DeltaItem| item_view(i)) == v@.take(i as int).map_values(|c: NetworkChange| network_item(c)),
        decreases v.len() - i,
    {
        let c = &v[i];
        let ghost before = r@;
        r.push(DeltaItem {
            action: decode_action(c.action),
            key: c.interface.clone(),
            value: clone_opt_string(&c.detail),
            previous: None,
        });
        proof {
            assert(v@.take(i + 1) =~= v@.take(i as int).push(v@[i as int]));
            assert(r@ =~= before.push(r@[i as int]));
            assert(item_view(r@[i as int]) == network_item(v@[i as int]));
            assert(r@.map_values(|i: DeltaItem| item_view(i)) =~= before.map_values(|i: DeltaItem| item_view(i)).push(item_view(r@[i as int])));
            assert(v@.take(i + 1).map_values(|c: NetworkChange| network_item(c)) =~= v@.take(i as int).map_values(|c: NetworkChange| network_item(c)).push(network_item(v@[i as int])));
        }
        i = i + 1;
    }
    proof {
        assert(v@.take(v@.len() as int) =~= v@);
    }
    r
}

fn package_items(v: &Vec<PackageChange>) -> (r: Vec<DeltaItem>)
    ensures
        r@.map_values(|i: DeltaItem| item_view(i)) == v@.map_values(|c: PackageChange| package_item(c)),
{
    let mut r: Vec<DeltaItem> = Vec::new();
    let mut i: usize = 0;
    while i < v.len()
        invariant
            i <= v@.len(),
            r@.len() == i,
            r@.map_values(|i: DeltaItem| item_view(i)) == v@.take(i as int).map_values(|c: PackageChange| package_item(c)),
        decreases v.len() - i,
    {
        let c = &v[i];
        let ghost before = r@;
        r.push(DeltaItem {
            action: decode_action(c.action),
            key: c.name.clone(),
            value: clone_opt_string(&c.version),
            previous: None,
        });
        proof {
            assert(v@.take(i + 1) =~= v@.take(i as int).push(v@[i as int]));
            assert(r@ =~= before.push(r@[i as int]));
            assert(item_view(r@[i as int]) == package_item(v@[i as int]));
            assert(r@.map_values(|i: DeltaItem| item_view(i)) =~= before.map_values(|i: DeltaItem| item_view(i)).push(item_view(r@[i as int])));
            assert(v@.take(i + 1).map_values(|c: PackageChange| package_item(c)) =~= v@.take(i as int).map_values(|c: PackageChange| package_item(c)).push(package_item(v@[i as int])));
        }
        i = i + 1;
    }
    proof {
        assert(v@.take(v@.len() as int) =~= v@);
    }
    r
}

fn gpu_items(v: &Vec<GpuChange>) -> (r: Vec<DeltaItem>)
    ensures
        r@.map_values(|i: DeltaItem| item_view(i)) == v@.map_values(|c: GpuChange| gpu_item(c)),
{
    let mut r: Vec<DeltaItem> = Vec::new();
    let mut i: usize = 0;
    while i < v.len()
        invariant
            i <= v@.len(),
            r@.len() == i,
            r@.map_values(|i: DeltaItem| item_view(i)) == v@.take(i as int).map_values(|c: GpuChange| gpu_item(c)),
        decreases v.len() - i,
    {
        let c = &v[i];
        let ghost before = r@;
        r.push(DeltaItem {
            action: decode_action(c.action),
            key: u64_to_string(c.gpu_index as u64),
            value: clone_opt_string(&c.detail),
            previous: None,
        });
        proof {
            assert(v@.take(i + 1) =~= v@.take(i as int).push(v@[i as int]));
            assert(r@ =~= before.push(r@[i as int]));
            assert(item_view(r@[i as int]) == gpu_item(v@[i as int]));
            assert(r@.map_values(|i: DeltaItem| item_view(i)) =~= before.map_values(|i: DeltaItem| item_view(i)).push(item_view(r@[i as int])));
            assert(v@.take(i + 1).map_values(|c: GpuChange| gpu_item(c)) =~= v@.take(i as int).map_values(|c: GpuChange| gpu_item(c)).push(gpu_item(v@[i as int])));
        }
        i = i + 1;
    }
    proof {
        assert(v@.take(v@.len() as int) =~= v@);
    }
    r
}

/// Converts a journal delta into the domain's delta, record for record.
pub fn delta_from_wire(w: &WireStateDelta) -> (d: StateDelta)
    ensures
        decoded_from(d, *w),
{
    StateDelta {
        mounts: mount_items(&w.mounts),
        files: file_items(&w.files),
        network: network_items(&w.network),
        services: service_items(&w.services),
        kernel: kernel_items(&w.kernel),
        packages: package_items(&w.packages),
        gpu: gpu_items(&w.gpu),
    }
}

/// The name of an entry type code.
pub open spec fn entry_type_label(code: i32) -> Seq<char> {
    if code == 1 {
        "COMMIT"@
    } else if code == 2 {
        "ROLLBACK"@
    } else if code == 3 {
        "AUTO_CONVERGE"@
    } else if code == 4 {
        "DRIFT_DETECTED"@
    } else if code == 5 {
        "CAPABILITY_CHANGE"@
    } else if code == 6 {
        "POLICY_UPDATE"@
    } else if code == 7 {
        "BOOT_CONFIG"@
    } else if code == 8 {
        "EMERGENCY_ON"@
    } else if code == 9 {
        "EMERGENCY_OFF"@
    } else if code == 10 {
        "EXEC_LOG"@
    } else if code == 11 {
        "SHELL_SESSION"@
    } else if code == 12 {
        "SERVICE_LIFECYCLE"@
    } else if code == 13 {
        "PENDING_APPROVAL"@
    } else {
        "UNKNOWN"@
    }
}

/// Every known entry type code (1 to 13) has a name of its own: distinct
/// codes get distinct names, none of them `UNKNOWN`; an emergency's end
/// (code 9) is `EMERGENCY_OFF`, unlike its start (code 8, `EMERGENCY_ON`).
pub proof fn law_entry_type_names_distinct(a: i32, b: i32)
    requires
        1 <= a <= 13,
        1 <= b <= 13,
        a != b,
    ensures
        entry_type_label(a) != entry_type_label(b),
        entry_type_label(a) != "UNKNOWN"@,
        entry_type_label(8) == "EMERGENCY_ON"@,
        entry_type_label(9) == "EMERGENCY_OFF"@,
{
    reveal_strlit("COMMIT");
    reveal_strlit("ROLLBACK");
    reveal_strlit("AUTO_CONVERGE");
    reveal_strlit("DRIFT_DETECTED");
    reveal_strlit("CAPABILITY_CHANGE");
    reveal_strlit("POLICY_UPDATE");
    reveal_strlit("BOOT_CONFIG");
    reveal_strlit("EMERGENCY_ON");
    reveal_strlit("EMERGENCY_OFF");
    reveal_strlit("EXEC_LOG");
    reveal_strlit("SHELL_SESSION");
    reveal_strlit("SERVICE_LIFECYCLE");
    reveal_strlit("PENDING_APPROVAL");
    reveal_strlit("UNKNOWN");
    let la = entry_type_label(a);
    let lb = entry_type_label(b);
    if la.len() == lb.len() {
        assert(la[0] != lb[0] || la[1] != lb[1]);
    }
}

/// The names of the journal's entry types by code, as the journal's
/// entry type enumeration numbers them; any other code is `UNKNOWN`.
pub proof fn law_entry_type_names(code: i32)
    ensures
        entry_type_label(1) == "COMMIT"@,
        entry_type_label(2) == "ROLLBACK"@,
        entry_type_label(3) == "AUTO_CONVERGE"@,
        entry_type_label(4) == "DRIFT_DETECTED"@,
        entry_type_label(5) == "CAPABILITY_CHANGE"@,
        entry_type_label(6) == "POLICY_UPDATE"@,
        entry_type_label(7) == "BOOT_CONFIG"@,
        entry_type_label(8) == "EMERGENCY_ON"@,
        entry_type_label(9) == "EMERGENCY_OFF"@,
        entry_type_label(10) == "EXEC_LOG"@,
        entry_type_label(11) == "SHELL_SESSION"@,
        entry_type_label(12) == "SERVICE_LIFECYCLE"@,
        entry_type_label(13) == "PENDING_APPROVAL"@,
        (code < 1 || code > 13) ==> entry_type_label(code) == "UNKNOWN"@,
{
}

/// Names an entry type code.
pub fn entry_type_name(code: i32) -> (r: &'static str)
    ensures
        r@ == entry_type_label(code),
{
    if code == 1 {
        "COMMIT"
    } else if code == 2 {
        "ROLLBACK"
    } else if code == 3 {
        "AUTO_CONVERGE"
    } else if code == 4 {
        "DRIFT_DETECTED"
    } else if code == 5 {
        "CAPABILITY_CHANGE"
    } else if code == 6 {
        "POLICY_UPDATE"
    } else if code == 7 {
        "BOOT_CONFIG"
    } else if code == 8 {
        "EMERGENCY_ON"
    } else if code == 9 {
        "EMERGENCY_OFF"
    } else if code == 10 {
        "EXEC_LOG"
    } else if code == 11 {
        "SHELL_SESSION"
    } else if code == 12 {
        "SERVICE_LIFECYCLE"
    } else if code == 13 {
        "PENDING_APPROVAL"
    } else {
        "UNKNOWN"
    }
}

/// The scope of an entry as listed: `node:{id}`, `vc:{id}`, else global.
pub open spec fn entry_scope_text(s: Option<Scope>) -> Seq<char> {
    match s {
        Some(Scope::Node(n)) => "node:"@ + n@,
        Some(Scope::VCluster(v)) => "vc:"@ + v@,
        _ => "global"@,
    }
}

/// The listing line of a journal entry.
pub open spec fn entry_line(e: WireEntry) -> Seq<char> {
    "#"@ + pad_right(dec(e.sequence as nat), 6) + " "@ + match e.timestamp {
        Some(t) => timestamp_text(t),
        None => "---"@,
    } + " "@ + pad_right(entry_type_label(e.entry_type), 18) + " "@ + pad_right(entry_scope_text(e.scope), 20)
        + " by "@ + match e.author {
        Some(a) => a@,
        None => "unknown"@,
    }
}

fn entry_line_chars(e: &WireEntry) -> (r: Vec<char>)
    ensures
        r@ == entry_line(*e),
{
    let mut out: Vec<char> = Vec::new();
    push_str(&mut out, "#");
    let mut n: Vec<char> = Vec::new();
    push_u64(&mut n, e.sequence);
    push_padded_right(&mut out, &n, 6);
    push_str(&mut out, " ");
    match e.timestamp {
        Some(t) => push_chars(&mut out, &chars_of(format_timestamp(t).as_str())),
        None => push_str(&mut out, "---"),
    }
    push_str(&mut out, " ");
    push_padded_right(&mut out, &chars_of(entry_type_name(e.entry_type)), 18);
    push_str(&mut out, " ");
    let scope = match &e.scope {
        Some(Scope::Node(n)) => {
            let mut v = chars_of("node:");
            push_chars(&mut v, &chars_of(n.as_str()));
            v
        },
        Some(Scope::VCluster(vc)) => {
            let mut v = chars_of("vc:");
            push_chars(&mut v, &chars_of(vc.as_str()));
            v
        },
        _ => chars_of("global"),
    };
    push_padded_right(&mut out, &scope, 20);
    push_str(&mut out, " by ");
    match &e.author {
        Some(a) => push_chars(&mut out, &chars_of(a.as_str())),
        None => push_str(&mut out, "unknown"),
    }
    proof {
        assert(out@ =~= entry_line(*e));
    }
    out
}

/// Formats a journal entry for listing.
pub fn format_entry_line(e: &WireEntry) -> (r: String)
    ensures
        r@ == entry_line(*e),
{
    string_of(&entry_line_chars(e))
}

/// The listing of journal entries: one line each, or a notice when there
/// are none.
pub open spec fn entries_text(es: Seq<WireEntry>) -> Seq<char> {
    if es.len() == 0 {
        "No entries found."@
    } else {
        join(es.map_values(|e: WireEntry| entry_line(e)), "\n"@)
    }
}

/// Lists journal entries (`pact log`).
pub fn format_entries(entries: &[WireEntry]) -> (r: String)
    ensures
        r@ == entries_text(entries@),
{
    if entries.len() == 0 {
        return string_from("No entries found.");
    }
    let mut lines: Vec<Vec<char>> = Vec::new();
    let mut i: usize = 0;
    while i < entries.len()
        invariant
            i <= entries@.len(),
            vviews(lines@) == entries@.take(i as int).map_values(|e: WireEntry| entry_line(e)),
        decreases entries.len() - i,
    {
        let ghost before = lines@;
        lines.push(entry_line_chars(&entries[i]));
        proof {
            assert(vviews(lines@) =~= vviews(before).push(entry_line(entries@[i as int])));
            assert(entries@.take(i + 1).map_values(|e: WireEntry| entry_line(e)) =~= entries@.take(i as int).map_values(
                |e: WireEntry| entry_line(e),
            ).push(entry_line(entries@[i as int])));
        }
        i = i + 1;
    }
    proof {
        assert(entries@.take(entries@.len() as int) =~= entries@);
    }
    string_of(&join_chars(&lines, &chars_of("\n")))
}

/// The kind of a configuration update, as `pact watch` shows it.
pub open spec fn update_kind(u: Option<UpdatePayload>) -> Seq<char> {
    match u {
        Some(UpdatePayload::VClusterChange(_)) => "OVERLAY"@,
        Some(UpdatePayload::NodeChange(_)) => "NODE_DELTA"@,
        Some(UpdatePayload::PolicyChange(_)) => "POLICY"@,
        Some(UpdatePayload::BlacklistChange(_)) => "BLACKLIST"@,
        None => "UNKNOWN"@,
    }
}

/// The line `pact watch` prints for an update: time of day, sequence and
/// kind.
pub open spec fn watch_text(timestamp: Option<i64>, sequence: u64, u: Option<UpdatePayload>) -> Seq<char> {
    "["@ + match timestamp {
        Some(t) => clock_text(t),
        None => "---"@,
    } + "] seq:"@ + pad_right(dec(sequence as nat), 6) + " "@ + update_kind(u)
}

/// Formats the line shown for a configuration update.
pub fn watch_line(timestamp: Option<i64>, sequence: u64, update: &Option<UpdatePayload>) -> (r: String)
    ensures
        r@ == watch_text(timestamp, sequence, *update),
{
    let mut out: Vec<char> = Vec::new();
    push_str(&mut out, "[");
    match timestamp {
        Some(t) => push_chars(&mut out, &chars_of(format_clock(t).as_str())),
        None => push_str(&mut out, "---"),
    }
    push_str(&mut out, "] seq:");
    let mut n: Vec<char> = Vec::new();
    push_u64(&mut n, sequence);
    push_padded_right(&mut out, &n, 6);
    push_str(&mut out, " ");
    let kind = match update {
        Some(UpdatePayload::VClusterChange(_)) => "OVERLAY",
        Some(UpdatePayload::NodeChange(_)) => "NODE_DELTA",
        Some(UpdatePayload::PolicyChange(_)) => "POLICY",
        Some(UpdatePayload::BlacklistChange(_)) => "BLACKLIST",
        None => "UNKNOWN",
    };
    push_str(&mut out, kind);
    proof {
        assert(out@ =~= watch_text(timestamp, sequence, *update));
    }
    string_of(&out)
}

} // verus!
