//! Process supervision decisions: restart policy, poll intervals, start
//! order, memory limits, systemd unit files, and the table of supervised
//! processes.
//!
//! Spawning, signalling and waiting for processes is the agent runtime's
//! work; it reports what happened to these functions and acts on what
//! they decide.

use vstd::prelude::*;

use crate::common::types::{HealthCheckType, RestartPolicy, ServiceDecl, ServiceState};
use crate::keyed::{has_key, index_map, keys_unique, lemma_index_map_at, lemma_index_map_push, lemma_index_map_update};
use crate::text::{
    chars_of, dec, idec, join, push_chars, push_i64, push_str, push_u64, str_eq, string_eq_str, string_from, string_of,
    views,
};

verus! {

broadcast use vstd::string::group_string_axioms;

/// Status of a managed service.
#[derive(Debug, Clone)]
pub struct ServiceStatus {
    pub name: String,
    pub state: ServiceState,
    pub pid: Option<u32>,
    pub restarts: u32,
    pub last_exit_code: Option<i32>,
}

/// Result of a health check.
#[derive(Debug, Clone)]
pub struct HealthCheckResult {
    pub healthy: bool,
    pub detail: String,
}

/// Workload state: decides the supervision loop's poll interval.
#[derive(Debug, Clone, Copy, PartialEq, Eq, Structural)]
pub enum WorkloadState {
    /// No processes in the workload slice: faster polling.
    Idle,
    /// Workloads running: slower polling, minimal overhead.
    Active,
}

/// Configuration of the supervision loop.
#[derive(Debug, Clone, Copy)]
pub struct SupervisionConfig {
    /// Poll interval when idle, in milliseconds.
    pub idle_interval_ms: u64,
    /// Poll interval when workloads run, in milliseconds.
    pub active_interval_ms: u64,
}

impl Default for SupervisionConfig {
    /// 500 ms idle, 2000 ms active.
    fn default() -> (r: Self)
        ensures
            r.idle_interval_ms == 500,
            r.active_interval_ms == 2000,
    {
        SupervisionConfig { idle_interval_ms: 500, active_interval_ms: 2000 }
    }
}

impl SupervisionConfig {
    /// The poll interval for a workload state.
    pub fn poll_interval_ms(&self, workload: WorkloadState) -> (r: u64)
        ensures
            r == match workload {
                WorkloadState::Active => self.active_interval_ms,
                WorkloadState::Idle => self.idle_interval_ms,
            },
    {
        match workload {
            WorkloadState::Active => self.active_interval_ms,
            WorkloadState::Idle => self.idle_interval_ms,
        }
    }
}

/// Whether a crashed service is restarted: always, never, or on failure
/// (an exit without code, as by a signal, or with a non-zero code).
pub open spec fn restart_wanted(policy: RestartPolicy, exit_code: Option<i32>) -> bool {
    match policy {
        RestartPolicy::Always => true,
        RestartPolicy::OnFailure => match exit_code {
            None => true,
            Some(c) => c != 0,
        },
        RestartPolicy::Never => false,
    }
}

/// Decides whether a crashed service is restarted.
pub fn should_restart(policy: RestartPolicy, exit_code: Option<i32>) -> (r: bool)
    ensures
        r == restart_wanted(policy, exit_code),
{
    match policy {
        RestartPolicy::Always => true,
        RestartPolicy::OnFailure => match exit_code {
            None => true,
            Some(c) => c != 0,
        },
        RestartPolicy::Never => false,
    }
}

/// The restart policies decide as their names say: under `Always` a crashed
/// service is restarted whatever its exit code (or none); under `Never`
/// it never is; under `OnFailure` it is unless it exited with code 0.
pub proof fn law_restart_policies(exit_code: Option<i32>, code: i32)
    ensures
        restart_wanted(RestartPolicy::Always, exit_code),
        !restart_wanted(RestartPolicy::Never, exit_code),
        restart_wanted(RestartPolicy::OnFailure, exit_code) <==> exit_code != Some(0i32),
        restart_wanted(RestartPolicy::OnFailure, None),
        code != 0 ==> restart_wanted(RestartPolicy::OnFailure, Some(code)),
        !restart_wanted(RestartPolicy::OnFailure, Some(0i32)),
{
}

/// What the supervision loop does about one crashed service: the crash
/// is reported with the decision, and a restart waits the service's delay.
#[derive(Debug, Clone)]
pub struct CrashResponse {
    pub service: String,
    pub exit_code: Option<i32>,
    pub policy: RestartPolicy,
    pub restart: bool,
    pub delay_seconds: u32,
}

/// The first declaration of a service, if any.
pub open spec fn decl_named(decls: Seq<ServiceDecl>, name: Seq<char>) -> Option<ServiceDecl>
    decreases decls.len(),
{
    if decls.len() == 0 {
        None
    } else if decls[0].name@ == name {
        Some(decls[0])
    } else {
        decl_named(decls.drop_first(), name)
    }
}

/// The plain contents of a crash response.
pub open spec fn response_view(r: CrashResponse) -> (Seq<char>, Option<i32>, RestartPolicy, bool, u32) {
    (r.service@, r.exit_code, r.policy, r.restart, r.delay_seconds)
}

/// The responses to the crashes of one tick, in order: a crash of a
/// service that is not declared is passed over.
pub open spec fn crash_responses(crashed: Seq<(String, Option<i32>)>, decls: Seq<ServiceDecl>) -> Seq<(Seq<char>, Option<i32>, RestartPolicy, bool, u32)>
    decreases crashed.len(),
{
    if crashed.len() == 0 {
        Seq::empty()
    } else {
        let (name, code) = crashed.last();
        crash_responses(crashed.drop_last(), decls) + match decl_named(decls, name@) {
            Some(d) => seq![(name@, code, d.restart, restart_wanted(d.restart, code), d.restart_delay_seconds)],
            None => Seq::empty(),
        }
    }
}

fn find_decl<'a>(decls: &'a [ServiceDecl], name: &String) -> (r: Option<&'a ServiceDecl>)
    ensures
        match r {
            Some(d) => decl_named(decls@, name@) == Some(*d),
            None => decl_named(decls@, name@) is None,
        },
{
    let mut i: usize = 0;
    proof {
        assert(decls@.skip(0) =~= decls@);
    }
    while i < decls.len()
        invariant
            i <= decls@.len(),
            decl_named(decls@, name@) == decl_named(decls@.skip(i as int), name@),
        decreases decls.len() - i,
    {
        proof {
            assert(decls@.skip(i as int)[0] == decls@[i as int]);
            assert(decls@.skip(i as int).drop_first() =~= decls@.skip(i + 1));
        }
        if crate::text::string_eq_str(&decls[i].name, name.as_str()) {
            return Some(&decls[i]);
        }
        i = i + 1;
    }
    None
}

/// Decides, for the crashes a supervision tick found, which services are
/// restarted (by their restart policy and exit code) and after which
/// delay; crashes of undeclared services are passed over.
pub fn plan_crash_responses(crashed: &[(String, Option<i32>)], decls: &[ServiceDecl]) -> (r: Vec<CrashResponse>)
    ensures
        r@.map_values(|c: CrashResponse| response_view(c)) == crash_responses(crashed@, decls@),
{
    let mut r: Vec<CrashResponse> = Vec::new();
    let mut i: usize = 0;
    while i < crashed.len()
        invariant
            i <= crashed@.len(),
            r@.map_values(|c: CrashResponse| response_view(c)) == crash_responses(crashed@.take(i as int), decls@),
        decreases crashed.len() - i,
    {
        proof {
            assert(crashed@.take(i + 1).drop_last() =~= crashed@.take(i as int));
        }
        let ghost before = r@;
        match find_decl(decls, &crashed[i].0) {
            Some(d) => {
                let restart = should_restart(d.restart, crashed[i].1);
                r.push(CrashResponse {
                    service: crashed[i].0.clone(),
                    exit_code: crashed[i].1,
                    policy: d.restart,
                    restart,
                    delay_seconds: d.restart_delay_seconds,
                });
                proof {
                    assert(r@.map_values(|c: CrashResponse| response_view(c)) =~= before.map_values(
                        |c: CrashResponse| response_view(c),
                    ).push(response_view(r@.last())));
                }
            },
            None => {},
        }
        proof {
            assert(r@.map_values(|c: CrashResponse| response_view(c)) =~= crash_responses(crashed@.take(i + 1), decls@));
        }
        i = i + 1;
    }
    proof {
        assert(crashed@.take(crashed@.len() as int) =~= crashed@);
    }
    r
}

// ---------------------------------------------------------------------------
// Memory limits
// ---------------------------------------------------------------------------

/// Whether a character is an ASCII digit.
pub open spec fn is_digit(c: char) -> bool {
    '0' <= c && c <= '9'
}

/// The value of a string of ASCII digits.
pub open spec fn digits_value(s: Seq<char>) -> nat
    decreases s.len(),
{
    if s.len() == 0 {
        0
    } else {
        digits_value(s.drop_last()) * 10 + ((s.last() as u32) - ('0' as u32)) as nat
    }
}

/// The number `str::parse::<u64>` reads from `s`: an optional `+` and at
/// least one ASCII digit, within the range of `u64`.
pub open spec fn parse_u64(s: Seq<char>) -> Option<u64> {
    let d = unsigned_digits(s);
    if d.len() > 0 && all_digits(d) && digits_value(d) <= u64::MAX {
        Some(digits_value(d) as u64)
    } else {
        None
    }
}

/// The digits of an unsigned number: without a leading `+`.
pub open spec fn unsigned_digits(s: Seq<char>) -> Seq<char> {
    if s.len() > 0 && s[0] == '+' {
        s.drop_first()
    } else {
        s
    }
}

/// Whether every character is an ASCII digit.
pub open spec fn all_digits(d: Seq<char>) -> bool {
    forall|i: int| 0 <= i < d.len() ==> is_digit(#[trigger] d[i])
}

/// The white space `str::trim` removes, as far as memory values go.
pub open spec fn trimmed_value(s: Seq<char>) -> Seq<char> {
    crate::cli::config::trim_ws(s)
}

/// The number part and multiplier of a trimmed memory value: a `G`, `M`
/// or `K` suffix (either case) scales by 2^30, 2^20 or 2^10.
pub open spec fn memory_parts(t: Seq<char>) -> (Seq<char>, nat) {
    if t.len() > 0 && (t.last() == 'G' || t.last() == 'g') {
        (t.drop_last(), 1024 * 1024 * 1024)
    } else if t.len() > 0 && (t.last() == 'M' || t.last() == 'm') {
        (t.drop_last(), 1024 * 1024)
    } else if t.len() > 0 && (t.last() == 'K' || t.last() == 'k') {
        (t.drop_last(), 1024)
    } else {
        (t, 1)
    }
}

/// The number of bytes a memory value like `512M`, `1G` or `1048576`
/// names, if it is one.
pub open spec fn memory_value(s: Seq<char>) -> Option<nat> {
    let t = trimmed_value(s);
    if t.len() == 0 {
        None
    } else {
        let (num, mult) = memory_parts(t);
        match parse_u64(trimmed_value(num)) {
            Some(v) => Some((v as nat) * mult),
            None => None,
        }
    }
}

/// Whether the bytes a memory value names fit in a `u64` (the
/// multiplication overflows otherwise).
pub open spec fn memory_value_fits(s: Seq<char>) -> bool {
    match memory_value(s) {
        Some(v) => v <= u64::MAX,
        None => true,
    }
}

proof fn lemma_digits_value_push(s: Seq<char>, c: char)
    ensures
        digits_value(s.push(c)) == digits_value(s) * 10 + ((c as u32) - ('0' as u32)) as nat,
{
    assert(s.push(c).drop_last() =~= s);
}

/// Reads a string the way `str::parse::<u64>` does.
fn parse_u64_exec(v: &Vec<char>) -> (r: Option<u64>)
    ensures
        r == parse_u64(v@),
{
    let mut i: usize = 0;
    if v.len() > 0 && v[0] == '+' {
        i = 1;
    }
    let start = i;
    let ghost d = unsigned_digits(v@);
    proof {
        assert(d =~= v@.skip(start as int));
    }
    if start == v.len() {
        return None;
    }
    let mut acc: u64 = 0;
    while i < v.len()
        invariant
            start <= i <= v@.len(),
            d == v@.skip(start as int),
            d == unsigned_digits(v@),
            forall|k: int| start <= k < i ==> is_digit(#[trigger] v@[k]),
            acc as nat == digits_value(v@.subrange(start as int, i as int)),
        decreases v.len() - i,
    {
        let c = v[i];
        if !('0' <= c && c <= '9') {
            proof {
                assert(d[i - start] == c);
                assert(!is_digit(d[i - start]));
                assert(!all_digits(d));
            }
            return None;
        }
        let digit = (c as u32) - ('0' as u32);
        proof {
            lemma_digits_value_push(v@.subrange(start as int, i as int), c);
            assert(v@.subrange(start as int, i + 1) =~= v@.subrange(start as int, i as int).push(c));
        }
        if acc > (u64::MAX - digit as u64) / 10 {
            proof {
                assert(acc as int * 10 + digit as int > u64::MAX) by (nonlinear_arith)
                    requires
                        acc as int > (u64::MAX - digit as int) / 10,
                        0 <= digit <= 9,
                ;
                assert(digits_value(v@.subrange(start as int, i + 1)) == acc as int * 10 + digit as int);
                if all_digits(d) {
                    // The value only grows with more digits.
                    lemma_digits_value_grows(d, (i - start + 1) as nat);
                    assert(v@.subrange(start as int, i + 1) =~= d.take(i - start + 1));
                    assert(digits_value(d) > u64::MAX);
                }
            }
            return None;
        }
        acc = acc * 10 + digit as u64;
        i = i + 1;
    }
    proof {
        assert(v@.subrange(start as int, v@.len() as int) =~= d);
        assert forall|k: int| 0 <= k < d.len() implies is_digit(#[trigger] d[k]) by {
            assert(d[k] == v@[start + k]);
        }
        assert(all_digits(d));
    }
    Some(acc)
}

proof fn lemma_digits_value_grows(d: Seq<char>, n: nat)
    requires
        n <= d.len(),
        all_digits(d),
    ensures
        digits_value(d.take(n as int)) <= digits_value(d),
    decreases d.len() - n,
{
    if n < d.len() {
        lemma_digits_value_grows(d, n + 1);
        assert(d.take(n + 1int).drop_last() =~= d.take(n as int));
        assert(is_digit(d[n as int]));
    } else {
        assert(d.take(n as int) =~= d);
    }
}

/// Parses a memory value like `512M`, `1G` or `1048576` to bytes.
pub fn parse_memory_value(s: &str) -> (r: Option<u64>)
    requires
        memory_value_fits(s@),
    ensures
        match memory_value(s@) {
            Some(v) => r == Some(v as u64),
            None => r is None,
        },
{
    let t = trim_chars(&chars_of(s));
    if t.len() == 0 {
        return None;
    }
    let last = t[t.len() - 1];
    let (num, mult): (Vec<char>, u64) = if last == 'G' || last == 'g' {
        (crate::text::copy_range(&t, 0, t.len() - 1), 1024 * 1024 * 1024)
    } else if last == 'M' || last == 'm' {
        (crate::text::copy_range(&t, 0, t.len() - 1), 1024 * 1024)
    } else if last == 'K' || last == 'k' {
        (crate::text::copy_range(&t, 0, t.len() - 1), 1024)
    } else {
        (crate::text::copy_range(&t, 0, t.len()), 1)
    };
    proof {
        assert(t@.subrange(0, t@.len() - 1) =~= t@.drop_last());
        assert(t@.subrange(0, t@.len() as int) =~= t@);
        assert(memory_parts(t@) == (num@, mult as nat));
    }
    let n = trim_chars(&num);
    match parse_u64_exec(&n) {
        Some(v) => {
            proof {
                assert(v as nat * mult as nat <= u64::MAX);
            }
            Some(v * mult)
        },
        None => None,
    }
}

/// `v` trimmed of white space at both ends.
fn trim_chars(v: &Vec<char>) -> (r: Vec<char>)
    ensures
        r@ == trimmed_value(v@),
{
    let s = string_of(v);
    let mut lo: usize = 0;
    let mut hi: usize = v.len();
    proof {
        assert(v@.subrange(0, v@.len() as int) =~= v@);
    }
    while lo < hi && (crate::text::is_white_space_exec(v[lo]) || crate::text::is_white_space_exec(v[hi - 1]))
        invariant
            lo <= hi <= v@.len(),
            trimmed_value(v@) == trimmed_value(v@.subrange(lo as int, hi as int)),
        decreases hi - lo,
    {
        let ghost cur = v@.subrange(lo as int, hi as int);
        if crate::text::is_white_space_exec(v[lo]) {
            proof {
                assert(cur.drop_first() =~= v@.subrange(lo + 1, hi as int));
            }
            lo = lo + 1;
        } else {
            proof {
                assert(cur.drop_last() =~= v@.subrange(lo as int, hi - 1));
            }
            hi = hi - 1;
        }
    }
    crate::text::copy_range(v, lo, hi)
}

// ---------------------------------------------------------------------------
// Start order
// ---------------------------------------------------------------------------

/// `sorted` with `x` inserted after every element whose order is not
/// larger than `x`'s (so that equal orders keep their input order).
pub open spec fn insert_by_order(sorted: Seq<ServiceDecl>, x: ServiceDecl) -> Seq<ServiceDecl>
    decreases sorted.len(),
{
    if sorted.len() == 0 {
        seq![x]
    } else if sorted.last().order <= x.order {
        sorted.push(x)
    } else {
        insert_by_order(sorted.drop_last(), x).push(sorted.last())
    }
}

/// The services in start order: stably sorted by their `order` field.
pub open spec fn start_order(s: Seq<ServiceDecl>) -> Seq<ServiceDecl>
    decreases s.len(),
{
    if s.len() == 0 {
        Seq::empty()
    } else {
        insert_by_order(start_order(s.drop_last()), s.last())
    }
}

/// Whether services are in non-decreasing `order`.
pub open spec fn order_sorted(s: Seq<ServiceDecl>) -> bool {
    forall|i: int, j: int| 0 <= i < j < s.len() ==> s[i].order <= s[j].order
}

/// The values behind a sequence of references.
pub open spec fn derefs(r: Seq<&ServiceDecl>) -> Seq<ServiceDecl> {
    r.map_values(|s: &ServiceDecl| *s)
}

proof fn lemma_insert_by_order_shape(sorted: Seq<ServiceDecl>, x: ServiceDecl)
    requires
        order_sorted(sorted),
    ensures
        insert_by_order(sorted, x).len() == sorted.len() + 1,
        exists|p: int| 0 <= p <= sorted.len() && insert_by_order(sorted, x) == #[trigger] sorted.insert(p, x)
            && (forall|k: int| 0 <= k < p ==> sorted[k].order <= x.order)
            && (forall|k: int| p <= k < sorted.len() ==> sorted[k].order > x.order),
    decreases sorted.len(),
{
    if sorted.len() == 0 {
        assert(insert_by_order(sorted, x) =~= sorted.insert(0, x));
    } else if sorted.last().order <= x.order {
        let p = sorted.len() as int;
        assert(insert_by_order(sorted, x) =~= sorted.insert(p, x));
        assert(forall|k: int| 0 <= k < p ==> sorted[k].order <= x.order);
    } else {
        let pre = sorted.drop_last();
        lemma_insert_by_order_shape(pre, x);
        let p = choose|p: int| 0 <= p <= pre.len() && insert_by_order(pre, x) == #[trigger] pre.insert(p, x)
            && (forall|k: int| 0 <= k < p ==> pre[k].order <= x.order)
            && (forall|k: int| p <= k < pre.len() ==> pre[k].order > x.order);
        assert(insert_by_order(sorted, x) =~= sorted.insert(p, x));
        assert forall|k: int| p <= k < sorted.len() implies sorted[k].order > x.order by {
            if k < pre.len() {
                assert(sorted[k] == pre[k]);
            }
        }
        assert forall|k: int| 0 <= k < p implies sorted[k].order <= x.order by {
            assert(sorted[k] == pre[k]);
        }
    }
}

/// Inserting by order keeps a sorted sequence sorted.
proof fn lemma_insert_sorted(sorted: Seq<ServiceDecl>, x: ServiceDecl)
    requires
        order_sorted(sorted),
    ensures
        order_sorted(insert_by_order(sorted, x)),
        insert_by_order(sorted, x).to_multiset() == sorted.to_multiset().insert(x),
{
    lemma_insert_by_order_shape(sorted, x);
    let p = choose|p: int| 0 <= p <= sorted.len() && insert_by_order(sorted, x) == #[trigger] sorted.insert(p, x)
        && (forall|k: int| 0 <= k < p ==> sorted[k].order <= x.order)
        && (forall|k: int| p <= k < sorted.len() ==> sorted[k].order > x.order);
    let r = sorted.insert(p, x);
    assert(r == insert_by_order(sorted, x));
    assert forall|i: int, j: int| 0 <= i < j < r.len() implies r[i].order <= r[j].order by {
        if j < p {
            assert(r[i] == sorted[i] && r[j] == sorted[j]);
        } else if j == p {
            assert(r[i] == sorted[i]);
        } else if i < p {
            assert(r[i] == sorted[i] && r[j] == sorted[j - 1]);
        } else if i == p {
            assert(r[j] == sorted[j - 1]);
        } else {
            assert(r[i] == sorted[i - 1] && r[j] == sorted[j - 1]);
        }
    }
    vstd::seq_lib::to_multiset_insert(sorted, p, x);
}

/// The start order is sorted by `order` and holds the same services.
pub proof fn law_start_order_sorted(s: Seq<ServiceDecl>)
    ensures
        order_sorted(start_order(s)),
        start_order(s).to_multiset() == s.to_multiset(),
    decreases s.len(),
{
    if s.len() > 0 {
        law_start_order_sorted(s.drop_last());
        lemma_insert_sorted(start_order(s.drop_last()), s.last());
        vstd::seq_lib::to_multiset_build(s.drop_last(), s.last());
        assert(s.drop_last().push(s.last()) =~= s);
        assert(start_order(s) == insert_by_order(start_order(s.drop_last()), s.last()));
        assert(start_order(s).to_multiset() =~= s.drop_last().to_multiset().insert(s.last()));
        assert(s.to_multiset() =~= s.drop_last().push(s.last()).to_multiset());
    } else {
        assert(s =~= Seq::<ServiceDecl>::empty());
    }
}

/// The services in dependency (start) order: stably sorted by `order`.
pub fn sorted_services(services: &[ServiceDecl]) -> (r: Vec<&ServiceDecl>)
    ensures
        derefs(r@) == start_order(services@),
{
    let mut r: Vec<&ServiceDecl> = Vec::new();
    let mut j: usize = 0;
    while j < services.len()
        invariant
            j <= services@.len(),
            derefs(r@) == start_order(services@.take(j as int)),
        decreases services.len() - j,
    {
        let x = &services[j];
        let mut p: usize = r.len();
        let ghost sorted = derefs(r@);
        proof {
            let t = services@.take(j + 1);
            assert(t.drop_last() =~= services@.take(j as int));
            assert(t.last() == *x);
        }
        proof {
            assert(sorted.take(p as int) =~= sorted);
            assert(sorted.skip(p as int) =~= Seq::<ServiceDecl>::empty());
            assert(insert_by_order(sorted, *x) =~= insert_by_order(sorted.take(p as int), *x) + sorted.skip(p as int));
        }
        // Walk back over the elements ordered after x.
        while p > 0 && r[p - 1].order > x.order
            invariant
                p <= r@.len(),
                sorted == derefs(r@),
                insert_by_order(sorted, *x) == insert_by_order(sorted.take(p as int), *x) + sorted.skip(p as int),
            decreases p,
        {
            proof {
                let pre = sorted.take(p as int);
                assert(pre.drop_last() =~= sorted.take(p - 1));
                assert(pre.last() == sorted[p - 1]);
                assert(sorted.skip(p - 1) =~= seq![sorted[p - 1]] + sorted.skip(p as int));
                assert(insert_by_order(pre, *x) == insert_by_order(sorted.take(p - 1), *x).push(sorted[p - 1]));
                assert(insert_by_order(sorted.take(p - 1), *x).push(sorted[p - 1]) + sorted.skip(p as int)
                    =~= insert_by_order(sorted.take(p - 1), *x) + sorted.skip(p - 1));
            }
            p = p - 1;
        }
        proof {
            let pre = sorted.take(p as int);
            if p > 0 {
                assert(pre.last() == sorted[p - 1]);
                assert(pre.drop_last().push(pre.last()) =~= pre);
            } else {
                assert(pre =~= Seq::<ServiceDecl>::empty());
            }
            assert(insert_by_order(pre, *x) =~= pre.push(*x));
        }
        r.insert(p, x);
        proof {
            assert(derefs(r@) =~= sorted.take(p as int).push(*x) + sorted.skip(p as int));
        }
        j = j + 1;
    }
    proof {
        assert(services@.take(services@.len() as int) =~= services@);
    }
    r
}

/// The services in stop order: the start order reversed.
pub fn stop_order(services: &[ServiceDecl]) -> (r: Vec<&ServiceDecl>)
    ensures
        derefs(r@) == start_order(services@).reverse(),
{
    let sorted = sorted_services(services);
    let mut r: Vec<&ServiceDecl> = Vec::new();
    let mut i: usize = sorted.len();
    while i > 0
        invariant
            i <= sorted@.len(),
            derefs(r@) == derefs(sorted@).skip(i as int).reverse(),
        decreases i,
    {
        i = i - 1;
        let ghost before = r@;
        r.push(sorted[i]);
        proof {
            assert(derefs(sorted@).skip(i as int) =~= seq![derefs(sorted@)[i as int]] + derefs(sorted@).skip(i + 1));
            assert(derefs(r@) =~= derefs(before).push(*sorted@[i as int]));
            assert(derefs(sorted@).skip(i as int).reverse() =~= derefs(sorted@).skip(i + 1).reverse().push(derefs(sorted@)[i as int]));
        }
    }
    proof {
        assert(derefs(sorted@).skip(0) =~= derefs(sorted@));
    }
    r
}

// ---------------------------------------------------------------------------
// systemd backend
// ---------------------------------------------------------------------------

/// Service management delegated to systemd: unit files are generated from
/// service declarations; systemd handles restarts.
#[derive(Debug, Clone, Copy)]
pub struct SystemdBackend;

/// The `Restart=` value of a restart policy.
pub open spec fn restart_directive(p: RestartPolicy) -> Seq<char> {
    match p {
        RestartPolicy::Always => "always"@,
        RestartPolicy::OnFailure => "on-failure"@,
        RestartPolicy::Never => "no"@,
    }
}

/// The systemd unit file for a service.
pub open spec fn unit_text(s: ServiceDecl) -> Seq<char> {
    "[Unit]\n"@ + "Description=pact-managed: "@ + s.name@ + "\n"@ + "After=network.target\n"@ + "\n"@
        + "[Service]\n"@ + "Type=simple\n"@ + "ExecStart="@ + s.binary@
        + (if s.args@.len() == 0 { Seq::empty() } else { " "@ + join(views(s.args@), " "@) }) + "\n"@
        + "Restart="@ + restart_directive(s.restart) + "\n"@
        + "RestartSec="@ + dec(s.restart_delay_seconds as nat) + "\n"@
        + (match s.cgroup_memory_max {
            Some(m) => "MemoryMax="@ + m@ + "\n"@,
            None => Seq::empty(),
        })
        + (match s.cgroup_cpu_weight {
            Some(w) => "CPUWeight="@ + dec(w as nat) + "\n"@,
            None => Seq::empty(),
        })
        + "\n[Install]\nWantedBy=multi-user.target\n"@
}

/// The state systemd reports in `systemctl is-active` output (after
/// trimming): active is running, failed is failed, anything else stopped.
pub open spec fn state_of_is_active(out: Seq<char>) -> ServiceState {
    let t = crate::cli::config::trim_ws(out);
    if t == "active"@ {
        ServiceState::Running
    } else if t == "failed"@ {
        ServiceState::Failed
    } else {
        ServiceState::Stopped
    }
}

/// The name of a state, as `{:?}` writes it.
pub open spec fn state_name(s: ServiceState) -> Seq<char> {
    match s {
        ServiceState::Starting => "Starting"@,
        ServiceState::Running => "Running"@,
        ServiceState::Stopping => "Stopping"@,
        ServiceState::Stopped => "Stopped"@,
        ServiceState::Failed => "Failed"@,
        ServiceState::Restarting => "Restarting"@,
    }
}

fn state_name_exec(s: ServiceState) -> (r: &'static str)
    ensures
        r@ == state_name(s),
{
    match s {
        ServiceState::Starting => "Starting",
        ServiceState::Running => "Running",
        ServiceState::Stopping => "Stopping",
        ServiceState::Stopped => "Stopped",
        ServiceState::Failed => "Failed",
        ServiceState::Restarting => "Restarting",
    }
}

/// Appends the `ExecStart=` line of a unit.
fn push_exec_start(out: &mut Vec<char>, service: &ServiceDecl)
    ensures
        final(out)@ == old(out)@ + "ExecStart="@ + service.binary@
            + (if service.args@.len() == 0 { Seq::empty() } else { " "@ + join(views(service.args@), " "@) }) + "\n"@,
{
    push_str(out, "ExecStart=");
    push_chars(out, &chars_of(service.binary.as_str()));
    if service.args.len() > 0 {
        push_str(out, " ");
        let mut parts: Vec<Vec<char>> = Vec::new();
        let mut i: usize = 0;
        while i < service.args.len()
            invariant
                i <= service.args@.len(),
                crate::text::vviews(parts@) == views(service.args@).take(i as int),
            decreases service.args.len() - i,
        {
            let ghost before = parts@;
            parts.push(chars_of(service.args[i].as_str()));
            proof {
                assert(crate::text::vviews(parts@) =~= crate::text::vviews(before).push(service.args@[i as int]@));
                assert(views(service.args@).take(i + 1) =~= views(service.args@).take(i as int).push(service.args@[i as int]@));
            }
            i = i + 1;
        }
        proof {
            assert(views(service.args@).take(service.args@.len() as int) =~= views(service.args@));
        }
        push_chars(out, &crate::text::join_chars(&parts, &chars_of(" ")));
    }
    push_str(out, "\n");
    proof {
        if service.args@.len() == 0 {
            assert(out@ =~= old(out)@ + "ExecStart="@ + service.binary@ + Seq::<char>::empty() + "\n"@);
        }
    }
}

impl SystemdBackend {
    /// The systemd backend.
    pub fn new() -> (r: Self)
        ensures
            r == SystemdBackend,
    {
        SystemdBackend
    }

    /// Generates the systemd unit file of a service.
    pub fn generate_unit(service: &ServiceDecl) -> (r: String)
        ensures
            r@ == unit_text(*service),
    {
        let mut out: Vec<char> = Vec::new();
        push_str(&mut out, "[Unit]\n");
        push_str(&mut out, "Description=pact-managed: ");
        push_chars(&mut out, &chars_of(service.name.as_str()));
        push_str(&mut out, "\n");
        push_str(&mut out, "After=network.target\n");
        push_str(&mut out, "\n");
        push_str(&mut out, "[Service]\n");
        push_str(&mut out, "Type=simple\n");
        push_exec_start(&mut out, service);
        push_str(&mut out, "Restart=");
        match service.restart {
            RestartPolicy::Always => push_str(&mut out, "always"),
            RestartPolicy::OnFailure => push_str(&mut out, "on-failure"),
            RestartPolicy::Never => push_str(&mut out, "no"),
        }
        push_str(&mut out, "\n");
        push_str(&mut out, "RestartSec=");
        push_u64(&mut out, service.restart_delay_seconds as u64);
        push_str(&mut out, "\n");
        match &service.cgroup_memory_max {
            Some(m) => {
                push_str(&mut out, "MemoryMax=");
                push_chars(&mut out, &chars_of(m.as_str()));
                push_str(&mut out, "\n");
            },
            None => {},
        }
        match service.cgroup_cpu_weight {
            Some(w) => {
                push_str(&mut out, "CPUWeight=");
                push_u64(&mut out, w as u64);
                push_str(&mut out, "\n");
            },
            None => {},
        }
        push_str(&mut out, "\n[Install]\nWantedBy=multi-user.target\n");
        string_of(&out)
    }

    /// The systemd unit name of a service: `pact-{name}.service`.
    pub fn unit_name(service: &ServiceDecl) -> (r: String)
        ensures
            r@ == "pact-"@ + service.name@ + ".service"@,
    {
        let mut out: Vec<char> = Vec::new();
        push_str(&mut out, "pact-");
        push_chars(&mut out, &chars_of(service.name.as_str()));
        push_str(&mut out, ".service");
        string_of(&out)
    }

    /// The status of a service from `systemctl is-active` output (systemd
    /// tracks PIDs and restarts itself).
    pub fn status_from_is_active(service: &ServiceDecl, output: &str) -> (r: ServiceStatus)
        ensures
            r.name@ == service.name@,
            r.state == state_of_is_active(output@),
            r.pid is None,
            r.restarts == 0,
            r.last_exit_code is None,
    {
        let t = crate::cli::config::trim_text(output);
        let state = if str_eq(t.as_str(), "active") {
            ServiceState::Running
        } else if str_eq(t.as_str(), "failed") {
            ServiceState::Failed
        } else {
            ServiceState::Stopped
        };
        ServiceStatus { name: service.name.clone(), state, pid: None, restarts: 0, last_exit_code: None }
    }

    /// The health of a service under systemd: healthy when running.
    pub fn health_from_status(status: &ServiceStatus) -> (r: HealthCheckResult)
        ensures
            r.healthy == (status.state == ServiceState::Running),
            r.detail@ == "systemd state: "@ + state_name(status.state),
    {
        let mut out: Vec<char> = Vec::new();
        push_str(&mut out, "systemd state: ");
        push_str(&mut out, state_name_exec(status.state));
        HealthCheckResult { healthy: status.state == ServiceState::Running, detail: string_of(&out) }
    }
}

// ---------------------------------------------------------------------------
// Supervised processes
// ---------------------------------------------------------------------------

/// What the supervisor records of a managed process.
#[derive(Debug, Clone, Copy, PartialEq, Eq, Structural)]
pub struct ProcessRecord {
    pub state: ServiceState,
    pub pid: Option<u32>,
    pub restarts: u32,
    pub last_exit_code: Option<i32>,
}

/// Key of a process entry: the service name.
pub open spec fn proc_key() -> spec_fn((String, ProcessRecord)) -> Seq<char> {
    |e: (String, ProcessRecord)| e.0@
}

/// Value of a process entry: its record.
pub open spec fn proc_val() -> spec_fn((String, ProcessRecord)) -> ProcessRecord {
    |e: (String, ProcessRecord)| e.1
}

/// The records of supervised processes, by service name.
pub struct ProcessTable {
    entries: Vec<(String, ProcessRecord)>,
}

/// Whether the table shows a service running.
pub open spec fn running_in(m: Map<Seq<char>, ProcessRecord>, name: Seq<char>) -> bool {
    m.contains_key(name) && m[name].state == ServiceState::Running
}

/// The table after a successful spawn: running with the new pid, the
/// restart count carried over, no exit code.
pub open spec fn after_start(m: Map<Seq<char>, ProcessRecord>, name: Seq<char>, pid: Option<u32>) -> Map<Seq<char>, ProcessRecord> {
    let prev = if m.contains_key(name) { m[name].restarts } else { 0 };
    m.insert(name, ProcessRecord { state: ServiceState::Running, pid, restarts: prev, last_exit_code: None })
}

/// The table after stopping: a running service becomes stopped without a
/// pid; the exit code is recorded when waiting for it succeeded.
pub open spec fn after_stop(m: Map<Seq<char>, ProcessRecord>, name: Seq<char>, waited: Option<Option<i32>>) -> Map<Seq<char>, ProcessRecord> {
    if running_in(m, name) {
        let r = m[name];
        m.insert(name, ProcessRecord {
            state: ServiceState::Stopped,
            pid: None,
            restarts: r.restarts,
            last_exit_code: match waited {
                Some(code) => code,
                None => r.last_exit_code,
            },
        })
    } else {
        m
    }
}

/// The table after a restart is requested: one more restart, restarting.
pub open spec fn after_restart_request(m: Map<Seq<char>, ProcessRecord>, name: Seq<char>) -> Map<Seq<char>, ProcessRecord> {
    if m.contains_key(name) {
        let r = m[name];
        m.insert(name, ProcessRecord { state: ServiceState::Restarting, restarts: (r.restarts + 1) as u32, ..r })
    } else {
        m
    }
}

/// The table after a running process exited on its own: failed, one more
/// restart counted, its exit code recorded.
pub open spec fn after_exit(m: Map<Seq<char>, ProcessRecord>, name: Seq<char>, code: Option<i32>) -> Map<Seq<char>, ProcessRecord> {
    if running_in(m, name) {
        let r = m[name];
        m.insert(name, ProcessRecord { state: ServiceState::Failed, pid: None, restarts: (r.restarts + 1) as u32, last_exit_code: code })
    } else {
        m
    }
}

/// The table after a status query found that a running process had
/// exited: failed, without a pid, its exit code recorded; no restart is
/// counted.
pub open spec fn after_exit_seen(m: Map<Seq<char>, ProcessRecord>, name: Seq<char>, code: Option<i32>) -> Map<Seq<char>, ProcessRecord> {
    if running_in(m, name) {
        let r = m[name];
        m.insert(name, ProcessRecord { state: ServiceState::Failed, pid: None, restarts: r.restarts, last_exit_code: code })
    } else {
        m
    }
}

/// The table after the supervision loop restarted a service: running with
/// the new pid (a first record counts one restart).
pub open spec fn after_loop_restart(m: Map<Seq<char>, ProcessRecord>, name: Seq<char>, pid: Option<u32>) -> Map<Seq<char>, ProcessRecord> {
    if m.contains_key(name) {
        m.insert(name, ProcessRecord { state: ServiceState::Running, pid, ..m[name] })
    } else {
        m.insert(name, ProcessRecord { state: ServiceState::Running, pid, restarts: 1, last_exit_code: None })
    }
}

/// The table after the supervision loop decided not to restart a crashed
/// service: under the `Never` policy it is marked stopped.
pub open spec fn after_no_restart(m: Map<Seq<char>, ProcessRecord>, name: Seq<char>, policy: RestartPolicy) -> Map<Seq<char>, ProcessRecord> {
    if policy == RestartPolicy::Never && m.contains_key(name) {
        m.insert(name, ProcessRecord { state: ServiceState::Stopped, ..m[name] })
    } else {
        m
    }
}

/// Whether no restart count decreased from `m` to `n`.
pub open spec fn restarts_kept(m: Map<Seq<char>, ProcessRecord>, n: Map<Seq<char>, ProcessRecord>) -> bool {
    forall|k: Seq<char>| #[trigger] m.contains_key(k) ==> n.contains_key(k) && n[k].restarts >= m[k].restarts
}

/// The status reported for a service: its record, or stopped with nothing
/// recorded when it has none.
pub open spec fn status_in(m: Map<Seq<char>, ProcessRecord>, name: Seq<char>) -> ProcessRecord {
    if m.contains_key(name) {
        m[name]
    } else {
        ProcessRecord { state: ServiceState::Stopped, pid: None, restarts: 0, last_exit_code: None }
    }
}

impl ProcessTable {
    /// The records by service name.
    pub closed spec fn records(self) -> Map<Seq<char>, ProcessRecord> {
        index_map(self.entries@, proc_key(), proc_val())
    }

    /// One record per service.
    pub closed spec fn wf(self) -> bool {
        keys_unique(self.entries@, proc_key())
    }

    /// An empty table.
    pub fn new() -> (r: Self)
        ensures
            r.wf(),
            r.records() == Map::<Seq<char>, ProcessRecord>::empty(),
    {
        let r = ProcessTable { entries: Vec::new() };
        proof {
            crate::keyed::lemma_index_map_empty(r.entries@, proc_key(), proc_val());
        }
        r
    }

    fn find(&self, name: &str) -> (r: Option<usize>)
        requires
            self.wf(),
        ensures
            r matches Some(i) ==> i < self.entries@.len() && self.entries@[i as int].0@ == name@
                && self.records().contains_key(name@) && self.records()[name@] == self.entries@[i as int].1,
            r is None ==> !self.records().contains_key(name@),
    {
        let mut i: usize = 0;
        while i < self.entries.len()
            invariant
                i <= self.entries@.len(),
                self.wf(),
                forall|k: int| 0 <= k < i ==> self.entries@[k].0@ != name@,
            decreases self.entries.len() - i,
        {
            if string_eq_str(&self.entries[i].0, name) {
                proof {
                    lemma_index_map_at(self.entries@, proc_key(), proc_val(), i as int);
                }
                return Some(i);
            }
            i = i + 1;
        }
        proof {
            if has_key(self.entries@, proc_key(), name@) {
                let k = choose|k: int| 0 <= k < self.entries@.len() && proc_key()(self.entries@[k]) == name@;
                assert(self.entries@[k].0@ != name@);
            }
        }
        None
    }

    /// Sets the record of a service.
    fn put(&mut self, name: &str, rec: ProcessRecord)
        requires
            old(self).wf(),
        ensures
            final(self).wf(),
            final(self).records() == old(self).records().insert(name@, rec),
    {
        match self.find(name) {
            Some(i) => {
                let e = (string_from(name), rec);
                proof {
                    lemma_index_map_update(self.entries@, proc_key(), proc_val(), i as int, e);
                }
                self.entries.set(i, e);
            },
            None => {
                let e = (string_from(name), rec);
                proof {
                    assert(!has_key(self.entries@, proc_key(), name@));
                    lemma_index_map_push(self.entries@, proc_key(), proc_val(), e);
                }
                self.entries.push(e);
            },
        }
    }

    /// Whether a service is recorded as running (so that starting it again
    /// does nothing).
    pub fn is_running(&self, name: &str) -> (r: bool)
        requires
            self.wf(),
        ensures
            r == running_in(self.records(), name@),
    {
        match self.find(name) {
            Some(i) => self.entries[i].1.state == ServiceState::Running,
            None => false,
        }
    }

    /// Records a successful spawn.
    pub fn record_started(&mut self, name: &str, pid: Option<u32>)
        requires
            old(self).wf(),
        ensures
            final(self).wf(),
            final(self).records() == after_start(old(self).records(), name@, pid),
            restarts_kept(old(self).records(), final(self).records()),
    {
        let prev = match self.find(name) {
            Some(i) => self.entries[i].1.restarts,
            None => 0,
        };
        self.put(name, ProcessRecord { state: ServiceState::Running, pid, restarts: prev, last_exit_code: None });
    }

    /// Records a stop; `waited` is the exit code when waiting for the
    /// process succeeded.  Returns whether the service was running.
    pub fn record_stopped(&mut self, name: &str, waited: Option<Option<i32>>) -> (r: bool)
        requires
            old(self).wf(),
        ensures
            final(self).wf(),
            r == running_in(old(self).records(), name@),
            final(self).records() == after_stop(old(self).records(), name@, waited),
            restarts_kept(old(self).records(), final(self).records()),
    {
        match self.find(name) {
            Some(i) => {
                let rec = self.entries[i].1;
                if rec.state != ServiceState::Running {
                    return false;
                }
                let code = match waited {
                    Some(c) => c,
                    None => rec.last_exit_code,
                };
                self.put(name, ProcessRecord { state: ServiceState::Stopped, pid: None, restarts: rec.restarts, last_exit_code: code });
                true
            },
            None => false,
        }
    }

    /// Records that a restart was requested.
    pub fn record_restart_request(&mut self, name: &str)
        requires
            old(self).wf(),
            old(self).records().contains_key(name@) ==> old(self).records()[name@].restarts < u32::MAX,
        ensures
            final(self).wf(),
            final(self).records() == after_restart_request(old(self).records(), name@),
            restarts_kept(old(self).records(), final(self).records()),
    {
        match self.find(name) {
            Some(i) => {
                let rec = self.entries[i].1;
                self.put(name, ProcessRecord { state: ServiceState::Restarting, restarts: rec.restarts + 1, ..rec });
            },
            None => {},
        }
    }

    /// Records that a running process exited on its own.  Returns whether a
    /// crash was recorded.
    pub fn record_exit(&mut self, name: &str, code: Option<i32>) -> (r: bool)
        requires
            old(self).wf(),
            old(self).records().contains_key(name@) ==> old(self).records()[name@].restarts < u32::MAX,
        ensures
            final(self).wf(),
            r == running_in(old(self).records(), name@),
            final(self).records() == after_exit(old(self).records(), name@, code),
            restarts_kept(old(self).records(), final(self).records()),
    {
        match self.find(name) {
            Some(i) => {
                let rec = self.entries[i].1;
                if rec.state != ServiceState::Running {
                    return false;
                }
                self.put(name, ProcessRecord { state: ServiceState::Failed, pid: None, restarts: rec.restarts + 1, last_exit_code: code });
                true
            },
            None => false,
        }
    }

    /// Records that a status query found a running process exited (the
    /// status then reports it failed).  Returns whether the exit was
    /// recorded.
    pub fn record_exit_seen(&mut self, name: &str, code: Option<i32>) -> (r: bool)
        requires
            old(self).wf(),
        ensures
            final(self).wf(),
            r == running_in(old(self).records(), name@),
            final(self).records() == after_exit_seen(old(self).records(), name@, code),
            restarts_kept(old(self).records(), final(self).records()),
    {
        match self.find(name) {
            Some(i) => {
                let rec = self.entries[i].1;
                if rec.state != ServiceState::Running {
                    return false;
                }
                self.put(name, ProcessRecord { state: ServiceState::Failed, pid: None, restarts: rec.restarts, last_exit_code: code });
                true
            },
            None => false,
        }
    }

    /// Records a restart made by the supervision loop.
    pub fn record_loop_restart(&mut self, name: &str, pid: Option<u32>)
        requires
            old(self).wf(),
        ensures
            final(self).wf(),
            final(self).records() == after_loop_restart(old(self).records(), name@, pid),
            restarts_kept(old(self).records(), final(self).records()),
    {
        match self.find(name) {
            Some(i) => {
                let rec = self.entries[i].1;
                self.put(name, ProcessRecord { state: ServiceState::Running, pid, ..rec });
            },
            None => {
                self.put(name, ProcessRecord { state: ServiceState::Running, pid, restarts: 1, last_exit_code: None });
            },
        }
    }

    /// Records the decision not to restart a crashed service: under the
    /// `Never` policy it is marked stopped.
    pub fn record_no_restart(&mut self, name: &str, policy: RestartPolicy)
        requires
            old(self).wf(),
        ensures
            final(self).wf(),
            final(self).records() == after_no_restart(old(self).records(), name@, policy),
            restarts_kept(old(self).records(), final(self).records()),
    {
        if policy == RestartPolicy::Never {
            match self.find(name) {
                Some(i) => {
                    let rec = self.entries[i].1;
                    self.put(name, ProcessRecord { state: ServiceState::Stopped, ..rec });
                },
                None => {},
            }
        }
    }

    /// The status of a service.
    pub fn status(&self, name: &str) -> (r: ServiceStatus)
        requires
            self.wf(),
        ensures
            r.name@ == name@,
            (ProcessRecord { state: r.state, pid: r.pid, restarts: r.restarts, last_exit_code: r.last_exit_code })
                == status_in(self.records(), name@),
    {
        let rec = match self.find(name) {
            Some(i) => self.entries[i].1,
            None => ProcessRecord { state: ServiceState::Stopped, pid: None, restarts: 0, last_exit_code: None },
        };
        ServiceStatus { name: string_from(name), state: rec.state, pid: rec.pid, restarts: rec.restarts, last_exit_code: rec.last_exit_code }
    }
}

/// Once started, a service is recorded running with the new process's pid,
/// so a second start request finds it running and spawns nothing: its
/// status keeps that pid.
pub proof fn law_start_idempotent(m: Map<Seq<char>, ProcessRecord>, name: Seq<char>, pid: Option<u32>)
    ensures
        running_in(after_start(m, name, pid), name),
        status_in(after_start(m, name, pid), name).state == ServiceState::Running,
        status_in(after_start(m, name, pid), name).pid == pid,
{
}

/// A running service under the `Never` policy whose process exits is not
/// restarted, whatever its exit code: the crash is counted and the service
/// ends stopped, without a pid, and not running.
pub proof fn law_never_policy_stops(m: Map<Seq<char>, ProcessRecord>, name: Seq<char>, code: Option<i32>)
    requires
        running_in(m, name),
        m[name].restarts < u32::MAX,
    ensures
        !restart_wanted(RestartPolicy::Never, code),
        ({
            let n = after_no_restart(after_exit(m, name, code), name, RestartPolicy::Never);
            &&& status_in(n, name).state == ServiceState::Stopped
            &&& status_in(n, name).pid is None
            &&& status_in(n, name).restarts == m[name].restarts + 1
            &&& !running_in(n, name)
        }),
{
}

/// After a stop, a service that was running reports stopped, without a pid,
/// and with its restart count unchanged.
pub proof fn law_stop_then_stopped(m: Map<Seq<char>, ProcessRecord>, name: Seq<char>, waited: Option<Option<i32>>)
    requires
        running_in(m, name),
    ensures
        status_in(after_stop(m, name, waited), name).state == ServiceState::Stopped,
        status_in(after_stop(m, name, waited), name).pid is None,
        status_in(after_stop(m, name, waited), name).restarts == m[name].restarts,
{
}

/// A crash counts one restart and leaves the service failed until it is
/// restarted.
pub proof fn law_crash_counts_restart(m: Map<Seq<char>, ProcessRecord>, name: Seq<char>, code: Option<i32>, pid: Option<u32>)
    requires
        running_in(m, name),
        m[name].restarts < u32::MAX,
    ensures
        status_in(after_exit(m, name, code), name).state == ServiceState::Failed,
        status_in(after_exit(m, name, code), name).restarts == m[name].restarts + 1,
        !running_in(after_exit(m, name, code), name),
        running_in(after_loop_restart(after_exit(m, name, code), name, pid), name),
        status_in(after_loop_restart(after_exit(m, name, code), name, pid), name).restarts == m[name].restarts + 1,
{
}

/// The health of a supervised service without network probes: not healthy
/// unless running; a running service without a probe, or with a process
/// probe, is alive.
pub fn process_health(status: &ServiceStatus, check: Option<&HealthCheckType>) -> (r: Option<HealthCheckResult>)
    ensures
        status.state != ServiceState::Running ==> (r matches Some(h) && !h.healthy
            && h.detail@ == "service is "@ + state_name(status.state)),
        status.state == ServiceState::Running ==> match check {
            None | Some(HealthCheckType::Process) => r matches Some(h) && h.healthy && h.detail@ == "process alive"@,
            _ => r is None,
        },
{
    if status.state != ServiceState::Running {
        let mut out: Vec<char> = Vec::new();
        push_str(&mut out, "service is ");
        push_str(&mut out, state_name_exec(status.state));
        return Some(HealthCheckResult { healthy: false, detail: string_of(&out) });
    }
    match check {
        None => Some(HealthCheckResult { healthy: true, detail: string_from("process alive") }),
        Some(HealthCheckType::Process) => Some(HealthCheckResult { healthy: true, detail: string_from("process alive") }),
        _ => None,
    }
}

/// An optional exit code as `{:?}` writes it.
pub open spec fn exit_code_debug(code: Option<i32>) -> Seq<char> {
    match code {
        Some(c) => "Some("@ + idec(c as int) + ")"@,
        None => "None"@,
    }
}

/// The detail recorded when a supervised service crashes.
pub fn crash_detail(service_name: &str, exit_code: Option<i32>, will_restart: bool) -> (r: String)
    ensures
        r@ == "service "@ + service_name@ + " crashed with exit code "@ + exit_code_debug(exit_code) + ", restart="@
            + (if will_restart { "true"@ } else { "false"@ }),
{
    let mut out: Vec<char> = Vec::new();
    push_str(&mut out, "service ");
    push_str(&mut out, service_name);
    push_str(&mut out, " crashed with exit code ");
    match exit_code {
        Some(c) => {
            push_str(&mut out, "Some(");
            push_i64(&mut out, c as i64);
            push_str(&mut out, ")");
        },
        None => push_str(&mut out, "None"),
    }
    push_str(&mut out, ", restart=");
    if will_restart {
        push_str(&mut out, "true");
    } else {
        push_str(&mut out, "false");
    }
    string_of(&out)
}

/// The result of an HTTP health check that got an answer: healthy on a
/// 2xx status; the detail shows the status as the HTTP library writes it.
pub fn http_check_result(code: u16, status_text: &str) -> (r: HealthCheckResult)
    ensures
        r.healthy == (200 <= code < 300),
        r.detail@ == "HTTP "@ + status_text@,
{
    let mut out: Vec<char> = Vec::new();
    push_str(&mut out, "HTTP ");
    push_str(&mut out, status_text);
    HealthCheckResult { healthy: 200 <= code && code < 300, detail: string_of(&out) }
}

/// The result of an HTTP health check whose request failed.
pub fn http_check_failed(error: &str) -> (r: HealthCheckResult)
    ensures
        !r.healthy,
        r.detail@ == "HTTP check failed: "@ + error@,
{
    let mut out: Vec<char> = Vec::new();
    push_str(&mut out, "HTTP check failed: ");
    push_str(&mut out, error);
    HealthCheckResult { healthy: false, detail: string_of(&out) }
}

/// The local address a TCP health check connects to.
pub fn tcp_check_address(port: u16) -> (r: String)
    ensures
        r@ == "127.0.0.1:"@ + dec(port as nat),
{
    let mut out: Vec<char> = Vec::new();
    push_str(&mut out, "127.0.0.1:");
    push_u64(&mut out, port as u64);
    string_of(&out)
}

/// The result of a TCP health check: healthy when the port accepted the
/// connection, else the error.
pub fn tcp_check_result(port: u16, connected: Result<(), String>) -> (r: HealthCheckResult)
    ensures
        r.healthy == connected is Ok,
        r.detail@ == "TCP port "@ + dec(port as nat) + match connected {
            Ok(_) => " open"@,
            Err(e) => " closed: "@ + e@,
        },
{
    let mut out: Vec<char> = Vec::new();
    push_str(&mut out, "TCP port ");
    push_u64(&mut out, port as u64);
    let healthy = match &connected {
        Ok(_) => {
            push_str(&mut out, " open");
            true
        },
        Err(e) => {
            push_str(&mut out, " closed: ");
            push_str(&mut out, e.as_str());
            false
        },
    };
    HealthCheckResult { healthy, detail: string_of(&out) }
}

} // verus!
