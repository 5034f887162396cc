//! Commands delegated to the lattice scheduler: the connection settings,
//! and the text made of what the scheduler answers (allocations, health,
//! services).  Talking to the scheduler is the client runtime's work; it
//! hands the answers to these functions as plain values.

use vstd::prelude::*;

use crate::common::config::DelegationConfig;
use crate::text::{
    chars_of, dec, idec, join, join_strings, pad_right, push_chars, push_i64, push_padded_right, push_str,
    push_u64, string_from, string_of, views,
};

verus! {

broadcast use vstd::string::group_string_axioms;

/// Settings for connecting to the scheduler.
#[derive(Debug, Clone)]
pub struct LatticeClientConfig {
    pub endpoint: String,
    pub timeout_secs: u64,
    pub token: Option<String>,
}

/// The refusal when no scheduler endpoint is configured.
pub open spec fn not_configured_text() -> Seq<char> {
    "lattice endpoint not configured (set PACT_LATTICE_ENDPOINT)"@
}

/// The connection settings taken from the delegation configuration; an
/// error when no endpoint is set.
pub fn lattice_client_config(config: &DelegationConfig) -> (r: Result<LatticeClientConfig, String>)
    ensures
        match config.lattice_endpoint {
            None => r matches Err(m) && m@ == not_configured_text(),
            Some(e) => r matches Ok(c) && c.endpoint == e && c.timeout_secs == config.timeout_secs
                && c.token == config.lattice_token,
        },
{
    match &config.lattice_endpoint {
        None => Err(string_from("lattice endpoint not configured (set PACT_LATTICE_ENDPOINT)")),
        Some(e) => Ok(
            LatticeClientConfig {
                endpoint: e.clone(),
                timeout_secs: config.timeout_secs,
                token: match &config.lattice_token {
                    Some(t) => Some(t.clone()),
                    None => None,
                },
            },
        ),
    }
}

/// Resources requested by an allocation.
#[derive(Debug, Clone)]
pub struct ResourceRequest {
    pub min_nodes: u32,
    pub max_nodes: u32,
    pub gpu_type: String,
}

/// A liveness probe of an allocation.
#[derive(Debug, Clone)]
pub struct LivenessProbe {
    pub probe_type: String,
    pub port: u32,
    pub path: String,
    pub period_secs: u32,
    pub failure_threshold: u32,
    pub timeout_secs: u32,
    pub initial_delay_secs: u32,
}

/// What an allocation was submitted with.
#[derive(Debug, Clone)]
pub struct AllocationSpec {
    pub tenant: String,
    pub project: String,
    pub vcluster: String,
    pub entrypoint: String,
    pub sensitive: bool,
    pub resources: Option<ResourceRequest>,
    pub liveness_probe: Option<LivenessProbe>,
}

/// The status of an allocation (a job); times in seconds since the epoch.
#[derive(Debug, Clone)]
pub struct AllocationStatus {
    pub allocation_id: String,
    pub state: String,
    pub user: String,
    pub message: String,
    pub exit_code: i32,
    pub assigned_nodes: Vec<String>,
    pub spec: Option<AllocationSpec>,
    pub created_at: Option<i64>,
    pub started_at: Option<i64>,
    pub completed_at: Option<i64>,
}

/// A boolean as `{}` writes it.
pub open spec fn bool_text(b: bool) -> Seq<char> {
    if b { "true"@ } else { "false"@ }
}

/// The description of a probe: an HTTP GET on a port and path, or a TCP
/// connect, with its timing.
pub open spec fn probe_text(p: LivenessProbe) -> Seq<char> {
    let timing = " every "@ + dec(p.period_secs as nat) + "s (threshold="@ + dec(p.failure_threshold as nat)
        + ", timeout="@ + dec(p.timeout_secs as nat) + "s, delay="@ + dec(p.initial_delay_secs as nat) + "s)"@;
    if p.probe_type@ == "http"@ {
        "HTTP GET :"@ + dec(p.port as nat) + p.path@ + timing
    } else {
        "TCP :"@ + dec(p.port as nat) + timing
    }
}

/// The resources line, when resources were requested.
pub open spec fn resources_line(r: Option<ResourceRequest>) -> Seq<char> {
    match r {
        Some(r) => "Resources:  min_nodes="@ + dec(r.min_nodes as nat) + ", max_nodes="@ + dec(r.max_nodes as nat)
            + ", gpu_type="@ + r.gpu_type@ + "\n"@,
        None => Seq::empty(),
    }
}

/// The probe line, when a probe is set.
pub open spec fn probe_line(p: Option<LivenessProbe>) -> Seq<char> {
    match p {
        Some(p) => "Probe:      "@ + probe_text(p) + "\n"@,
        None => Seq::empty(),
    }
}

/// The submission lines: tenant, project, vCluster, entrypoint and
/// sensitivity.
pub open spec fn spec_head(s: AllocationSpec) -> Seq<char> {
    "Tenant:     "@ + s.tenant@ + "\n"@ + "Project:    "@ + s.project@ + "\n"@ + "vCluster:   "@ + s.vcluster@
        + "\n"@ + "Entrypoint: "@ + s.entrypoint@ + "\n"@ + "Sensitive:  "@ + bool_text(s.sensitive) + "\n"@
}

/// The lines describing what an allocation was submitted with.
pub open spec fn spec_text(s: AllocationSpec) -> Seq<char> {
    spec_head(s) + resources_line(s.resources) + probe_line(s.liveness_probe)
}

/// A time line, when the time is known.
pub open spec fn time_line(label: Seq<char>, t: Option<i64>) -> Seq<char> {
    match t {
        Some(x) => label + idec(x as int) + "s\n"@,
        None => Seq::empty(),
    }
}

/// The full description of an allocation, one field per line.
pub open spec fn allocation_text(a: AllocationStatus) -> Seq<char> {
    "Allocation: "@ + a.allocation_id@ + "\n"@ + "State:      "@ + a.state@ + "\n"@ + "User:       "@ + a.user@
        + "\n"@ + "Message:    "@ + a.message@ + "\n"@ + "Exit code:  "@ + idec(a.exit_code as int) + "\n"@
        + (if a.assigned_nodes@.len() > 0 {
        "Nodes:      "@ + join(views(a.assigned_nodes@), ", "@) + "\n"@
    } else {
        Seq::empty()
    }) + match a.spec {
        Some(s) => spec_text(s),
        None => Seq::empty(),
    } + time_line("Created:    "@, a.created_at) + time_line("Started:    "@, a.started_at) + time_line(
        "Completed:  "@,
        a.completed_at,
    )
}

fn push_field(out: &mut Vec<char>, label: &str, value: &String)
    ensures
        final(out)@ == old(out)@ + label@ + value@ + "\n"@,
{
    push_str(out, label);
    push_chars(out, &chars_of(value.as_str()));
    push_str(out, "\n");
}

fn push_time_line(out: &mut Vec<char>, label: &str, t: Option<i64>)
    ensures
        final(out)@ == old(out)@ + time_line(label@, t),
{
    match t {
        Some(x) => {
            push_str(out, label);
            push_i64(out, x);
            push_str(out, "s\n");
        },
        None => {},
    }
}

fn push_probe(out: &mut Vec<char>, p: &LivenessProbe)
    ensures
        final(out)@ == old(out)@ + probe_text(*p),
{
    if crate::text::string_eq_str(&p.probe_type, "http") {
        push_str(out, "HTTP GET :");
        push_u64(out, p.port as u64);
        push_chars(out, &chars_of(p.path.as_str()));
    } else {
        push_str(out, "TCP :");
        push_u64(out, p.port as u64);
    }
    push_str(out, " every ");
    push_u64(out, p.period_secs as u64);
    push_str(out, "s (threshold=");
    push_u64(out, p.failure_threshold as u64);
    push_str(out, ", timeout=");
    push_u64(out, p.timeout_secs as u64);
    push_str(out, "s, delay=");
    push_u64(out, p.initial_delay_secs as u64);
    push_str(out, "s)");
}

fn push_resources(out: &mut Vec<char>, r: &Option<ResourceRequest>)
    ensures
        final(out)@ == old(out)@ + resources_line(*r),
{
    match r {
        Some(r) => {
            push_str(out, "Resources:  min_nodes=");
            push_u64(out, r.min_nodes as u64);
            push_str(out, ", max_nodes=");
            push_u64(out, r.max_nodes as u64);
            push_str(out, ", gpu_type=");
            push_chars(out, &chars_of(r.gpu_type.as_str()));
            push_str(out, "\n");
        },
        None => {},
    }
}

fn push_probe_line(out: &mut Vec<char>, p: &Option<LivenessProbe>)
    ensures
        final(out)@ == old(out)@ + probe_line(*p),
{
    match p {
        Some(p) => {
            push_str(out, "Probe:      ");
            push_probe(out, p);
            push_str(out, "\n");
        },
        None => {},
    }
}

fn push_spec_head(out: &mut Vec<char>, s: &AllocationSpec)
    ensures
        final(out)@ == old(out)@ + spec_head(*s),
{
    push_field(out, "Tenant:     ", &s.tenant);
    push_field(out, "Project:    ", &s.project);
    push_field(out, "vCluster:   ", &s.vcluster);
    push_field(out, "Entrypoint: ", &s.entrypoint);
    push_str(out, "Sensitive:  ");
    if s.sensitive {
        push_str(out, "true");
    } else {
        push_str(out, "false");
    }
    push_str(out, "\n");
    proof {
        assert(final(out)@ =~= old(out)@ + spec_head(*s));
    }
}

fn push_spec(out: &mut Vec<char>, s: &AllocationSpec)
    ensures
        final(out)@ == old(out)@ + spec_text(*s),
{
    push_spec_head(out, s);
    push_resources(out, &s.resources);
    push_probe_line(out, &s.liveness_probe);
    proof {
        assert(final(out)@ =~= old(out)@ + spec_text(*s));
    }
}

/// Describes an allocation (`pact job inspect`).
pub fn format_allocation(a: &AllocationStatus) -> (r: String)
    ensures
        r@ == allocation_text(*a),
{
    let mut out: Vec<char> = Vec::new();
    push_field(&mut out, "Allocation: ", &a.allocation_id);
    push_field(&mut out, "State:      ", &a.state);
    push_field(&mut out, "User:       ", &a.user);
    push_field(&mut out, "Message:    ", &a.message);
    push_str(&mut out, "Exit code:  ");
    push_i64(&mut out, a.exit_code as i64);
    push_str(&mut out, "\n");
    if a.assigned_nodes.len() > 0 {
        push_str(&mut out, "Nodes:      ");
        push_chars(&mut out, &join_strings(&a.assigned_nodes, ", "));
        push_str(&mut out, "\n");
    }
    match &a.spec {
        Some(s) => push_spec(&mut out, s),
        None => {},
    }
    push_time_line(&mut out, "Created:    ", a.created_at);
    push_time_line(&mut out, "Started:    ", a.started_at);
    push_time_line(&mut out, "Completed:  ", a.completed_at);
    proof {
        assert(out@ =~= allocation_text(*a));
    }
    string_of(&out)
}

/// The uppercase form of a string, as `str::to_uppercase` computes it
/// (full Unicode case mapping).
pub uninterp spec fn uppercase_of(s: Seq<char>) -> Seq<char>;

/// `str::to_uppercase`: the named uppercase form of the text.
#[verifier::external_body]
fn to_uppercase(s: &str) -> (r: String)
    ensures
        r@ == uppercase_of(s@),
{
    s.to_uppercase()
}

/// The endpoints found for a registered service; `None` when its lookup
/// failed.
#[derive(Debug, Clone)]
pub struct ServiceLookup {
    pub name: String,
    pub endpoints: Option<u32>,
}

/// What the scheduler answered to a health query.
#[derive(Debug)]
pub enum LatticeHealth {
    /// No connection could be made; the reason.
    Unavailable(String),
    /// The health query failed; the error.
    Failed(String),
    /// The scheduler's report, and what its service registry answered.
    Reported { status: String, version: String, uptime_secs: u64, services: Result<Vec<ServiceLookup>, String> },
}

/// The total number of endpoints found.
pub open spec fn endpoint_total(ls: Seq<ServiceLookup>) -> nat
    decreases ls.len(),
{
    if ls.len() == 0 {
        0
    } else {
        endpoint_total(ls.drop_last()) + match ls.last().endpoints {
            Some(n) => n as nat,
            None => 0,
        }
    }
}

/// One line per registered service.
pub open spec fn service_lines(ls: Seq<ServiceLookup>) -> Seq<char>
    decreases ls.len(),
{
    if ls.len() == 0 {
        Seq::empty()
    } else {
        let l = ls.last();
        service_lines(ls.drop_last()) + "    "@ + l.name@ + match l.endpoints {
            Some(n) => ": "@ + dec(n as nat) + " endpoints\n"@,
            None => ": (lookup failed)\n"@,
        }
    }
}

/// The journal part of the health report.
pub open spec fn journal_health_text(journal: Result<(), String>) -> Seq<char> {
    "=== Pact Journal ===\n"@ + match journal {
        Ok(_) => "  Status: HEALTHY\n"@,
        Err(e) => "  Status: UNHEALTHY ("@ + e@ + ")\n"@,
    }
}

/// The scheduler part of the health report.
pub open spec fn lattice_health_text(h: LatticeHealth) -> Seq<char> {
    "\n=== Lattice Scheduler ===\n"@ + match h {
        LatticeHealth::Unavailable(m) => "  Status: UNAVAILABLE ("@ + m@ + ")\n"@,
        LatticeHealth::Failed(e) => "  Status: UNHEALTHY ("@ + e@ + ")\n"@,
        LatticeHealth::Reported { status, version, uptime_secs, .. } => "  Status:  "@ + uppercase_of(status@)
            + "\n"@ + "  Version: "@ + version@ + "\n"@ + "  Uptime:  "@ + dec(uptime_secs as nat) + "s\n"@,
    }
}

/// The service registry part of the health report.
pub open spec fn services_health_text(h: LatticeHealth) -> Seq<char> {
    "\n=== Lattice Services ===\n"@ + match h {
        LatticeHealth::Reported { services, .. } => match services {
            Err(e) => "  Service registry error: "@ + e@ + "\n"@,
            Ok(ls) => if ls@.len() == 0 {
                "  Registered: 0 services\n"@
            } else {
                "  Registered: "@ + dec(ls@.len()) + " services, "@ + dec(endpoint_total(ls@)) + " endpoints\n"@
                    + service_lines(ls@)
            },
        },
        _ => "  (unavailable \u{2014} see above)\n"@,
    }
}

/// Whether everything is healthy: the journal answers and the scheduler
/// reports `healthy`.
pub open spec fn all_healthy(journal: Result<(), String>, h: LatticeHealth) -> bool {
    &&& journal is Ok
    &&& h matches LatticeHealth::Reported { status, .. } && status@ == "healthy"@
}

/// The combined health report.
pub open spec fn health_text(journal: Result<(), String>, h: LatticeHealth) -> Seq<char> {
    journal_health_text(journal) + lattice_health_text(h) + services_health_text(h) + "\nOverall: "@ + if all_healthy(
        journal,
        h,
    ) {
        "PASS"@
    } else {
        "FAIL"@
    }
}

/// Whether the endpoint total of a health answer can be counted.
pub open spec fn health_countable(h: LatticeHealth) -> bool {
    h matches LatticeHealth::Reported { services: Ok(ls), .. } ==> endpoint_total(ls@) <= u32::MAX
}

fn push_service_lines(out: &mut Vec<char>, ls: &Vec<ServiceLookup>) -> (total: u32)
    requires
        endpoint_total(ls@) <= u32::MAX,
    ensures
        final(out)@ == old(out)@ + service_lines(ls@),
        total == endpoint_total(ls@),
{
    let mut total: u32 = 0;
    let mut i: usize = 0;
    proof {
        lemma_total_prefix(ls@, 0);
    }
    while i < ls.len()
        invariant
            i <= ls@.len(),
            endpoint_total(ls@) <= u32::MAX,
            total == endpoint_total(ls@.take(i as int)),
            out@ == old(out)@ + service_lines(ls@.take(i as int)),
        decreases ls.len() - i,
    {
        let l = &ls[i];
        proof {
            assert(ls@.take(i + 1).drop_last() =~= ls@.take(i as int));
            lemma_total_prefix(ls@, i + 1);
        }
        push_str(out, "    ");
        push_chars(out, &chars_of(l.name.as_str()));
        match l.endpoints {
            Some(n) => {
                push_str(out, ": ");
                push_u64(out, n as u64);
                push_str(out, " endpoints\n");
                total = total + n;
            },
            None => {
                push_str(out, ": (lookup failed)\n");
            },
        }
        i = i + 1;
    }
    proof {
        assert(ls@.take(ls@.len() as int) =~= ls@);
    }
    total
}

/// The total over a prefix is at most the total.
proof fn lemma_total_prefix(ls: Seq<ServiceLookup>, k: int)
    requires
        0 <= k <= ls.len(),
    ensures
        endpoint_total(ls.take(k)) <= endpoint_total(ls),
    decreases ls.len() - k,
{
    if k < ls.len() {
        lemma_total_prefix(ls, k + 1);
        assert(ls.take(k + 1).drop_last() =~= ls.take(k));
    } else {
        assert(ls.take(k) =~= ls);
    }
}

fn push_journal_health(out: &mut Vec<char>, journal: &Result<(), String>)
    ensures
        final(out)@ == old(out)@ + journal_health_text(*journal),
{
    push_str(out, "=== Pact Journal ===\n");
    match journal {
        Ok(_) => push_str(out, "  Status: HEALTHY\n"),
        Err(e) => {
            push_str(out, "  Status: UNHEALTHY (");
            push_chars(out, &chars_of(e.as_str()));
            push_str(out, ")\n");
        },
    }
    proof {
        assert(final(out)@ =~= old(out)@ + journal_health_text(*journal));
    }
}

#[verifier::spinoff_prover]
fn push_lattice_health(out: &mut Vec<char>, lattice: &LatticeHealth)
    ensures
        final(out)@ == old(out)@ + lattice_health_text(*lattice),
{
    push_str(out, "\n=== Lattice Scheduler ===\n");
    match lattice {
        LatticeHealth::Unavailable(m) => {
            push_str(out, "  Status: UNAVAILABLE (");
            push_chars(out, &chars_of(m.as_str()));
            push_str(out, ")\n");
        },
        LatticeHealth::Failed(e) => {
            push_str(out, "  Status: UNHEALTHY (");
            push_chars(out, &chars_of(e.as_str()));
            push_str(out, ")\n");
        },
        LatticeHealth::Reported { status, version, uptime_secs, .. } => {
            push_str(out, "  Status:  ");
            push_chars(out, &chars_of(to_uppercase(status.as_str()).as_str()));
            push_str(out, "\n");
            push_str(out, "  Version: ");
            push_chars(out, &chars_of(version.as_str()));
            push_str(out, "\n");
            push_str(out, "  Uptime:  ");
            push_u64(out, *uptime_secs);
            push_str(out, "s\n");
        },
    }
    proof {
        assert(final(out)@ =~= old(out)@ + lattice_health_text(*lattice));
    }
}

#[verifier::spinoff_prover]
fn push_services_health(out: &mut Vec<char>, lattice: &LatticeHealth)
    requires
        health_countable(*lattice),
    ensures
        final(out)@ == old(out)@ + services_health_text(*lattice),
{
    push_str(out, "\n=== Lattice Services ===\n");
    match lattice {
        LatticeHealth::Reported { services, .. } => match services {
            Err(e) => {
                push_str(out, "  Service registry error: ");
                push_chars(out, &chars_of(e.as_str()));
                push_str(out, "\n");
            },
            Ok(ls) => {
                if ls.len() == 0 {
                    push_str(out, "  Registered: 0 services\n");
                } else {
                    let mut lines: Vec<char> = Vec::new();
                    let total = push_service_lines(&mut lines, ls);
                    push_str(out, "  Registered: ");
                    push_u64(out, ls.len() as u64);
                    push_str(out, " services, ");
                    push_u64(out, total as u64);
                    push_str(out, " endpoints\n");
                    push_chars(out, &lines);
                }
            },
        },
        _ => push_str(out, "  (unavailable \u{2014} see above)\n"),
    }
    proof {
        assert(final(out)@ =~= old(out)@ + services_health_text(*lattice));
    }
}

fn overall_healthy(journal: &Result<(), String>, lattice: &LatticeHealth) -> (r: bool)
    ensures
        r == all_healthy(*journal, *lattice),
{
    match (journal, lattice) {
        (Ok(_), LatticeHealth::Reported { status, .. }) => crate::text::string_eq_str(status, "healthy"),
        _ => false,
    }
}

/// Renders the combined health check of the journal and the scheduler.
pub fn format_health_report(journal: &Result<(), String>, lattice: &LatticeHealth) -> (r: String)
    requires
        health_countable(*lattice),
    ensures
        r@ == health_text(*journal, *lattice),
{
    let mut out: Vec<char> = Vec::new();
    push_journal_health(&mut out, journal);
    push_lattice_health(&mut out, lattice);
    push_services_health(&mut out, lattice);
    push_str(&mut out, "\nOverall: ");
    if overall_healthy(journal, lattice) {
        push_str(&mut out, "PASS");
    } else {
        push_str(&mut out, "FAIL");
    }
    proof {
        assert(out@ =~= health_text(*journal, *lattice));
    }
    string_of(&out)
}

/// The nodes column of the job list: `-` when none, up to two by name,
/// else the first and how many more.
pub open spec fn nodes_column(nodes: Seq<Seq<char>>) -> Seq<char> {
    if nodes.len() == 0 {
        "-"@
    } else if nodes.len() <= 2 {
        join(nodes, ","@)
    } else {
        nodes[0] + "+"@ + dec((nodes.len() - 1) as nat)
    }
}

/// The vCluster column of the job list.
pub open spec fn vcluster_column(spec: Option<AllocationSpec>) -> Seq<char> {
    match spec {
        Some(s) => s.vcluster@,
        None => "-"@,
    }
}

/// One row of the job list.
pub open spec fn job_row(a: AllocationStatus) -> Seq<char> {
    pad_right(a.allocation_id@, 36) + "  "@ + pad_right(a.state@, 12) + "  "@ + pad_right(
        nodes_column(views(a.assigned_nodes@)),
        20,
    ) + "  "@ + pad_right(vcluster_column(a.spec), 16) + "  "@ + a.user@ + "\n"@
}

/// Whether a job is shown under the node filter: always without one,
/// else when the node is assigned to it.
pub open spec fn job_shown(a: AllocationStatus, node: Option<Seq<char>>) -> bool {
    match node {
        None => true,
        Some(n) => views(a.assigned_nodes@).contains(n),
    }
}

/// The rows of the jobs shown, in order.
pub open spec fn job_rows(allocs: Seq<AllocationStatus>, node: Option<Seq<char>>) -> Seq<char>
    decreases allocs.len(),
{
    if allocs.len() == 0 {
        Seq::empty()
    } else {
        job_rows(allocs.drop_last(), node) + if job_shown(allocs.last(), node) {
            job_row(allocs.last())
        } else {
            Seq::empty()
        }
    }
}

/// The header and rule of the job list.
pub open spec fn job_header() -> Seq<char> {
    pad_right("ID"@, 36) + "  "@ + pad_right("STATE"@, 12) + "  "@ + pad_right("NODE(S)"@, 20) + "  "@ + pad_right(
        "VCLUSTER"@,
        16,
    ) + "  "@ + "USER"@ + "\n"@ + Seq::new(100, |i: int| '-') + "\n"@
}

/// The job list: a notice when the scheduler has none, else the header
/// and the rows of the jobs shown.
pub open spec fn job_list_text(allocs: Seq<AllocationStatus>, node: Option<Seq<char>>) -> Seq<char> {
    if allocs.len() == 0 {
        "No jobs found."@
    } else {
        job_header() + job_rows(allocs, node)
    }
}

fn nodes_column_exec(nodes: &Vec<String>) -> (r: Vec<char>)
    ensures
        r@ == nodes_column(views(nodes@)),
{
    if nodes.len() == 0 {
        chars_of("-")
    } else if nodes.len() <= 2 {
        join_strings(nodes, ",")
    } else {
        let mut out = chars_of(nodes[0].as_str());
        push_str(&mut out, "+");
        push_u64(&mut out, (nodes.len() - 1) as u64);
        out
    }
}

fn contains_string(v: &Vec<String>, x: &str) -> (r: bool)
    ensures
        r == views(v@).contains(x@),
{
    let mut i: usize = 0;
    while i < v.len()
        invariant
            i <= v@.len(),
            forall|j: int| 0 <= j < i ==> v@[j]@ != x@,
        decreases v.len() - i,
    {
        if crate::text::string_eq_str(&v[i], x) {
            proof {
                assert(views(v@)[i as int] == x@);
            }
            return true;
        }
        i = i + 1;
    }
    proof {
        if views(v@).contains(x@) {
            let k = choose|k: int| 0 <= k < views(v@).len() && views(v@)[k] == x@;
            assert(v@[k]@ == x@);
        }
    }
    false
}

#[verifier::spinoff_prover]
fn push_job_row(out: &mut Vec<char>, a: &AllocationStatus)
    ensures
        final(out)@ == old(out)@ + job_row(*a),
{
    push_padded_right(out, &chars_of(a.allocation_id.as_str()), 36);
    push_str(out, "  ");
    push_padded_right(out, &chars_of(a.state.as_str()), 12);
    push_str(out, "  ");
    push_padded_right(out, &nodes_column_exec(&a.assigned_nodes), 20);
    push_str(out, "  ");
    let vc = match &a.spec {
        Some(s) => chars_of(s.vcluster.as_str()),
        None => chars_of("-"),
    };
    push_padded_right(out, &vc, 16);
    push_str(out, "  ");
    push_chars(out, &chars_of(a.user.as_str()));
    push_str(out, "\n");
    proof {
        assert(final(out)@ =~= old(out)@ + job_row(*a));
    }
}

fn job_header_chars() -> (r: Vec<char>)
    ensures
        r@ == job_header(),
{
    let mut out: Vec<char> = Vec::new();
    push_padded_right(&mut out, &chars_of("ID"), 36);
    push_str(&mut out, "  ");
    push_padded_right(&mut out, &chars_of("STATE"), 12);
    push_str(&mut out, "  ");
    push_padded_right(&mut out, &chars_of("NODE(S)"), 20);
    push_str(&mut out, "  ");
    push_padded_right(&mut out, &chars_of("VCLUSTER"), 16);
    push_str(&mut out, "  ");
    push_str(&mut out, "USER");
    push_str(&mut out, "\n");
    let ghost pre = out@;
    let mut k: usize = 0;
    while k < 100
        invariant
            k <= 100,
            out@ == pre + Seq::new(k as nat, |i: int| '-'),
        decreases 100 - k,
    {
        out.push('-');
        proof {
            assert(Seq::new((k + 1) as nat, |i: int| '-') =~= Seq::new(k as nat, |i: int| '-').push('-'));
        }
        k = k + 1;
    }
    push_str(&mut out, "\n");
    proof {
        assert(out@ =~= job_header());
    }
    out
}

/// Renders the job list, keeping only the jobs on `node_filter` when one
/// is given.
pub fn format_job_list(allocs: &[AllocationStatus], node_filter: Option<&str>) -> (r: String)
    ensures
        r@ == job_list_text(allocs@, crate::agent::auth::opt_str_view(node_filter)),
{
    if allocs.len() == 0 {
        return string_from("No jobs found.");
    }
    let ghost node = crate::agent::auth::opt_str_view(node_filter);
    let mut out = job_header_chars();
    let ghost head = out@;
    let mut i: usize = 0;
    while i < allocs.len()
        invariant
            i <= allocs@.len(),
            node == crate::agent::auth::opt_str_view(node_filter),
            out@ == head + job_rows(allocs@.take(i as int), node),
        decreases allocs.len() - i,
    {
        let a = &allocs[i];
        proof {
            assert(allocs@.take(i + 1).drop_last() =~= allocs@.take(i as int));
        }
        let shown = match node_filter {
            None => true,
            Some(n) => contains_string(&a.assigned_nodes, n),
        };
        if shown {
            push_job_row(&mut out, a);
        }
        i = i + 1;
    }
    proof {
        assert(allocs@.take(allocs@.len() as int) =~= allocs@);
    }
    string_of(&out)
}

} // verus!
