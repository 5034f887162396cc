//! More of the scheduler's answers as the CLI shows them: queues,
//! services, DAG workflows, backups, nodes, the raft cluster and the audit
//! log.  The values come from the client runtime; budgets, which the
//! scheduler reports as fractional hours, are rendered there.

use vstd::prelude::*;

use crate::cli::lattice::time_line;
use crate::text::{
    chars_of, dec, idec, join, join_strings, pad_right, push_chars, push_i64, push_padded_right, push_str, push_u64,
    string_from, string_of, views,
};

verus! {

broadcast use vstd::string::group_string_axioms;

fn push_line(out: &mut Vec<char>, label: &str, value: &String)
    ensures
        final(out)@ == old(out)@ + label@ + value@ + "\n"@,
{
    push_str(out, label);
    push_str(out, value.as_str());
    push_str(out, "\n");
}

fn push_time(out: &mut Vec<char>, label: &str, t: Option<i64>)
    ensures
        final(out)@ == old(out)@ + time_line(label@, t),
{
    match t {
        Some(x) => {
            push_str(out, label);
            push_i64(out, x);
            push_str(out, "s\n");
        },
        None => {},
    }
}

fn push_rule(out: &mut Vec<char>, n: usize)
    ensures
        final(out)@ == old(out)@ + Seq::new(n as nat, |i: int| '-') + "\n"@,
{
    let ghost pre = out@;
    let mut k: usize = 0;
    while k < n
        invariant
            k <= n,
            out@ == pre + Seq::new(k as nat, |i: int| '-'),
        decreases n - k,
    {
        out.push('-');
        proof {
            assert(Seq::new((k + 1) as nat, |i: int| '-') =~= Seq::new(k as nat, |i: int| '-').push('-'));
        }
        k = k + 1;
    }
    push_str(out, "\n");
}

/// The queue of a vCluster (`default` when none is named).
pub open spec fn queue_vcluster(vcluster: Option<&str>) -> Seq<char> {
    match vcluster {
        Some(v) => v@,
        None => "default"@,
    }
}

/// The vCluster whose queue is asked for.
pub fn queue_vcluster_id(vcluster: Option<&str>) -> (r: String)
    ensures
        r@ == queue_vcluster(vcluster),
{
    match vcluster {
        Some(v) => string_from(v),
        None => string_from("default"),
    }
}

/// The status of a scheduling queue.
pub fn format_queue_status(vcluster_id: &str, pending: u32, running: u32, total: u32) -> (r: String)
    ensures
        r@ == "Queue status for vCluster: "@ + vcluster_id@ + "\n"@ + "  Pending: "@ + dec(pending as nat) + "\n"@
            + "  Running: "@ + dec(running as nat) + "\n"@ + "  Total:   "@ + dec(total as nat) + "\n"@,
{
    let mut out: Vec<char> = Vec::new();
    push_str(&mut out, "Queue status for vCluster: ");
    push_str(&mut out, vcluster_id);
    push_str(&mut out, "\n");
    push_str(&mut out, "  Pending: ");
    push_u64(&mut out, pending as u64);
    push_str(&mut out, "\n");
    push_str(&mut out, "  Running: ");
    push_u64(&mut out, running as u64);
    push_str(&mut out, "\n");
    push_str(&mut out, "  Total:   ");
    push_u64(&mut out, total as u64);
    push_str(&mut out, "\n");
    proof {
        assert(out@ =~= "Queue status for vCluster: "@ + vcluster_id@ + "\n"@ + "  Pending: "@ + dec(pending as nat)
            + "\n"@ + "  Running: "@ + dec(running as nat) + "\n"@ + "  Total:   "@ + dec(total as nat) + "\n"@);
    }
    string_of(&out)
}

/// The answer to a job cancellation.
pub fn cancel_job_reply(job_id: &str, success: bool) -> (r: String)
    ensures
        r@ == "Job "@ + job_id@ + if success { " cancelled."@ } else { " cancel returned: success=false"@ },
{
    let mut out: Vec<char> = Vec::new();
    push_str(&mut out, "Job ");
    push_str(&mut out, job_id);
    if success {
        push_str(&mut out, " cancelled.");
    } else {
        push_str(&mut out, " cancel returned: success=false");
    }
    string_of(&out)
}

/// The answer to a DAG cancellation.
pub fn cancel_dag_reply(dag_id: &str, success: bool, allocations_cancelled: u32) -> (r: String)
    ensures
        r@ == "DAG "@ + dag_id@ + if success {
            " cancelled ("@ + dec(allocations_cancelled as nat) + " allocations cancelled)."@
        } else {
            " cancel returned: success=false"@
        },
{
    let mut out: Vec<char> = Vec::new();
    push_str(&mut out, "DAG ");
    push_str(&mut out, dag_id);
    if success {
        push_str(&mut out, " cancelled (");
        push_u64(&mut out, allocations_cancelled as u64);
        push_str(&mut out, " allocations cancelled).");
    } else {
        push_str(&mut out, " cancel returned: success=false");
    }
    string_of(&out)
}

/// The indented lines of a list of names.
pub open spec fn indented(names: Seq<Seq<char>>) -> Seq<char>
    decreases names.len(),
{
    if names.len() == 0 {
        Seq::empty()
    } else {
        indented(names.drop_last()) + "  "@ + names.last() + "\n"@
    }
}

/// The registered services.
pub open spec fn services_text(names: Seq<Seq<char>>) -> Seq<char> {
    if names.len() == 0 {
        "No services registered.\n"@
    } else {
        dec(names.len()) + " registered services:\n"@ + indented(names)
    }
}

/// Lists the registered services.
pub fn format_service_names(names: &Vec<String>) -> (r: String)
    ensures
        r@ == services_text(views(names@)),
{
    if names.len() == 0 {
        return string_from("No services registered.\n");
    }
    let mut out: Vec<char> = Vec::new();
    push_u64(&mut out, names.len() as u64);
    push_str(&mut out, " registered services:\n");
    let ghost head = out@;
    let mut i: usize = 0;
    while i < names.len()
        invariant
            i <= names@.len(),
            out@ == head + indented(views(names@).take(i as int)),
        decreases names.len() - i,
    {
        proof {
            assert(views(names@).take(i + 1).drop_last() =~= views(names@).take(i as int));
        }
        push_str(&mut out, "  ");
        push_str(&mut out, names[i].as_str());
        push_str(&mut out, "\n");
        i = i + 1;
    }
    proof {
        assert(views(names@).take(names@.len() as int) =~= views(names@));
    }
    string_of(&out)
}

/// An endpoint of a registered service.
#[derive(Debug, Clone)]
pub struct ServiceEndpoint {
    pub allocation_id: String,
    pub tenant: String,
    pub port: u32,
    pub protocol: String,
    pub nodes: Vec<String>,
}

/// One endpoint line; the protocol is `tcp` when unset.
pub open spec fn endpoint_line(e: ServiceEndpoint) -> Seq<char> {
    "    alloc="@ + e.allocation_id@ + " tenant="@ + e.tenant@ + " port="@ + dec(e.port as nat) + " proto="@ + (if e.protocol@.len()
        == 0 {
        "tcp"@
    } else {
        e.protocol@
    }) + " nodes=["@ + join(views(e.nodes@), ", "@) + "]\n"@
}

/// The endpoint lines, in order.
pub open spec fn endpoint_lines(es: Seq<ServiceEndpoint>) -> Seq<char>
    decreases es.len(),
{
    if es.len() == 0 {
        Seq::empty()
    } else {
        endpoint_lines(es.drop_last()) + endpoint_line(es.last())
    }
}

/// A service and its endpoints.
pub open spec fn lookup_text(name: Seq<char>, es: Seq<ServiceEndpoint>) -> Seq<char> {
    "Service: "@ + name + "\n"@ + if es.len() == 0 {
        "  No endpoints registered.\n"@
    } else {
        "  "@ + dec(es.len()) + " endpoints:\n"@ + endpoint_lines(es)
    }
}

fn push_endpoint(out: &mut Vec<char>, e: &ServiceEndpoint)
    ensures
        final(out)@ == old(out)@ + endpoint_line(*e),
{
    push_str(out, "    alloc=");
    push_str(out, e.allocation_id.as_str());
    push_str(out, " tenant=");
    push_str(out, e.tenant.as_str());
    push_str(out, " port=");
    push_u64(out, e.port as u64);
    push_str(out, " proto=");
    if chars_of(e.protocol.as_str()).len() == 0 {
        push_str(out, "tcp");
    } else {
        push_str(out, e.protocol.as_str());
    }
    push_str(out, " nodes=[");
    push_chars(out, &join_strings(&e.nodes, ", "));
    push_str(out, "]\n");
    proof {
        assert(final(out)@ =~= old(out)@ + endpoint_line(*e));
    }
}

/// Shows a service and its endpoints.
pub fn format_service_lookup(name: &str, endpoints: &[ServiceEndpoint]) -> (r: String)
    ensures
        r@ == lookup_text(name@, endpoints@),
{
    let mut out: Vec<char> = Vec::new();
    push_str(&mut out, "Service: ");
    push_str(&mut out, name);
    push_str(&mut out, "\n");
    if endpoints.len() == 0 {
        push_str(&mut out, "  No endpoints registered.\n");
        return string_of(&out);
    }
    push_str(&mut out, "  ");
    push_u64(&mut out, endpoints.len() as u64);
    push_str(&mut out, " endpoints:\n");
    let ghost head = out@;
    let mut i: usize = 0;
    while i < endpoints.len()
        invariant
            i <= endpoints@.len(),
            out@ == head + endpoint_lines(endpoints@.take(i as int)),
        decreases endpoints.len() - i,
    {
        proof {
            assert(endpoints@.take(i + 1).drop_last() =~= endpoints@.take(i as int));
        }
        push_endpoint(&mut out, &endpoints[i]);
        i = i + 1;
    }
    proof {
        assert(endpoints@.take(endpoints@.len() as int) =~= endpoints@);
    }
    string_of(&out)
}

/// A DAG workflow in a listing: its steps counted.
#[derive(Debug, Clone)]
pub struct DagSummary {
    pub dag_id: String,
    pub state: String,
    pub steps: u64,
    pub created_at: Option<i64>,
}

/// One row of the DAG listing.
pub open spec fn dag_row(d: DagSummary) -> Seq<char> {
    pad_right(d.dag_id@, 36) + "  "@ + pad_right(d.state@, 12) + "  "@ + pad_right(dec(d.steps as nat), 12) + "  "@
        + match d.created_at {
        Some(t) => idec(t as int) + "s"@,
        None => "-"@,
    } + "\n"@
}

/// The rows of the DAG listing, in order.
pub open spec fn dag_rows(ds: Seq<DagSummary>) -> Seq<char>
    decreases ds.len(),
{
    if ds.len() == 0 {
        Seq::empty()
    } else {
        dag_rows(ds.drop_last()) + dag_row(ds.last())
    }
}

/// The DAG listing.
pub open spec fn dag_list_text(ds: Seq<DagSummary>) -> Seq<char> {
    if ds.len() == 0 {
        "No DAGs found."@
    } else {
        pad_right("DAG ID"@, 36) + "  "@ + pad_right("STATE"@, 12) + "  "@ + pad_right("STEPS"@, 12) + "  "@
            + "CREATED"@ + "\n"@ + Seq::new(80, |i: int| '-') + "\n"@ + dag_rows(ds)
    }
}

fn push_dag_row(out: &mut Vec<char>, d: &DagSummary)
    ensures
        final(out)@ == old(out)@ + dag_row(*d),
{
    push_padded_right(out, &chars_of(d.dag_id.as_str()), 36);
    push_str(out, "  ");
    push_padded_right(out, &chars_of(d.state.as_str()), 12);
    push_str(out, "  ");
    let mut n: Vec<char> = Vec::new();
    push_u64(&mut n, d.steps);
    push_padded_right(out, &n, 12);
    push_str(out, "  ");
    match d.created_at {
        Some(t) => {
            push_i64(out, t);
            push_str(out, "s");
        },
        None => push_str(out, "-"),
    }
    push_str(out, "\n");
    proof {
        assert(final(out)@ =~= old(out)@ + dag_row(*d));
    }
}

/// Lists DAG workflows.
pub fn format_dag_list(dags: &[DagSummary]) -> (r: String)
    ensures
        r@ == dag_list_text(dags@),
{
    if dags.len() == 0 {
        return string_from("No DAGs found.");
    }
    let mut out: Vec<char> = Vec::new();
    push_padded_right(&mut out, &chars_of("DAG ID"), 36);
    push_str(&mut out, "  ");
    push_padded_right(&mut out, &chars_of("STATE"), 12);
    push_str(&mut out, "  ");
    push_padded_right(&mut out, &chars_of("STEPS"), 12);
    push_str(&mut out, "  ");
    push_str(&mut out, "CREATED");
    push_str(&mut out, "\n");
    push_rule(&mut out, 80);
    let ghost head = out@;
    let mut i: usize = 0;
    while i < dags.len()
        invariant
            i <= dags@.len(),
            out@ == head + dag_rows(dags@.take(i as int)),
        decreases dags.len() - i,
    {
        proof {
            assert(dags@.take(i + 1).drop_last() =~= dags@.take(i as int));
        }
        push_dag_row(&mut out, &dags[i]);
        i = i + 1;
    }
    proof {
        assert(dags@.take(dags@.len() as int) =~= dags@);
    }
    string_of(&out)
}

/// A step of a DAG workflow.
#[derive(Debug, Clone)]
pub struct DagStep {
    pub allocation_id: String,
    pub state: String,
    pub user: String,
}

/// The step lines of a DAG, in order.
pub open spec fn step_lines(ss: Seq<DagStep>) -> Seq<char>
    decreases ss.len(),
{
    if ss.len() == 0 {
        Seq::empty()
    } else {
        let s = ss.last();
        step_lines(ss.drop_last()) + "  "@ + s.allocation_id@ + " \u{2014} "@ + s.state@ + " ("@ + s.user@ + ")\n"@
    }
}

/// The description of a DAG workflow.
pub open spec fn dag_text(dag_id: Seq<char>, state: Seq<char>, steps: Seq<DagStep>, created_at: Option<i64>, completed_at: Option<i64>) -> Seq<char> {
    "DAG:       "@ + dag_id + "\n"@ + "State:     "@ + state + "\n"@ + "Steps:     "@ + dec(steps.len()) + "\n"@ + time_line(
        "Created:   "@,
        created_at,
    ) + time_line("Completed: "@, completed_at) + if steps.len() > 0 {
        "\nAllocations:\n"@ + step_lines(steps)
    } else {
        Seq::empty()
    }
}

/// Describes a DAG workflow.
pub fn format_dag(dag_id: &str, state: &str, steps: &[DagStep], created_at: Option<i64>, completed_at: Option<i64>) -> (r: String)
    ensures
        r@ == dag_text(dag_id@, state@, steps@, created_at, completed_at),
{
    let mut out: Vec<char> = Vec::new();
    push_str(&mut out, "DAG:       ");
    push_str(&mut out, dag_id);
    push_str(&mut out, "\n");
    push_str(&mut out, "State:     ");
    push_str(&mut out, state);
    push_str(&mut out, "\n");
    push_str(&mut out, "Steps:     ");
    push_u64(&mut out, steps.len() as u64);
    push_str(&mut out, "\n");
    push_time(&mut out, "Created:   ", created_at);
    push_time(&mut out, "Completed: ", completed_at);
    let ghost head0 = out@;
    if steps.len() > 0 {
        push_str(&mut out, "\nAllocations:\n");
        let ghost head = out@;
        let mut i: usize = 0;
        while i < steps.len()
            invariant
                i <= steps@.len(),
                out@ == head + step_lines(steps@.take(i as int)),
            decreases steps.len() - i,
        {
            proof {
                assert(steps@.take(i + 1).drop_last() =~= steps@.take(i as int));
            }
            push_str(&mut out, "  ");
            push_str(&mut out, steps[i].allocation_id.as_str());
            push_str(&mut out, " \u{2014} ");
            push_str(&mut out, steps[i].state.as_str());
            push_str(&mut out, " (");
            push_str(&mut out, steps[i].user.as_str());
            push_str(&mut out, ")\n");
            i = i + 1;
        }
        proof {
            assert(steps@.take(steps@.len() as int) =~= steps@);
        }
    }
    proof {
        assert(out@ =~= dag_text(dag_id@, state@, steps@, created_at, completed_at));
    }
    string_of(&out)
}

/// What a backup reported.
#[derive(Debug, Clone)]
pub struct BackupReport {
    pub success: bool,
    pub message: String,
    pub node_count: u32,
    pub allocation_count: u32,
    pub tenant_count: u32,
    pub audit_entry_count: u32,
    pub backup_timestamp: Option<i64>,
}

/// The report of a backup.
pub open spec fn backup_text(b: BackupReport) -> Seq<char> {
    "Backup created: "@ + b.message@ + "\n"@ + "  Nodes: "@ + dec(b.node_count as nat) + ", Allocations: "@ + dec(
        b.allocation_count as nat,
    ) + ", Tenants: "@ + dec(b.tenant_count as nat) + ", Audit entries: "@ + dec(b.audit_entry_count as nat) + "\n"@
        + time_line("  Timestamp: "@, b.backup_timestamp)
}

/// Reports a backup: its counts on success, else the failure.
pub fn backup_reply(b: &BackupReport) -> (r: Result<String, String>)
    ensures
        b.success ==> (r matches Ok(m) && m@ == backup_text(*b)),
        !b.success ==> (r matches Err(m) && m@ == "Backup failed: "@ + b.message@),
{
    let mut out: Vec<char> = Vec::new();
    if !b.success {
        push_str(&mut out, "Backup failed: ");
        push_str(&mut out, b.message.as_str());
        return Err(string_of(&out));
    }
    push_line(&mut out, "Backup created: ", &b.message);
    push_str(&mut out, "  Nodes: ");
    push_u64(&mut out, b.node_count as u64);
    push_str(&mut out, ", Allocations: ");
    push_u64(&mut out, b.allocation_count as u64);
    push_str(&mut out, ", Tenants: ");
    push_u64(&mut out, b.tenant_count as u64);
    push_str(&mut out, ", Audit entries: ");
    push_u64(&mut out, b.audit_entry_count as u64);
    push_str(&mut out, "\n");
    push_time(&mut out, "  Timestamp: ", b.backup_timestamp);
    proof {
        assert(out@ =~= backup_text(*b));
    }
    Ok(string_of(&out))
}

/// The report of a backup check.
pub fn backup_verify_reply(valid: bool, message: &str, backup_timestamp: Option<i64>, snapshot_term: u64, snapshot_index: u64) -> (r: String)
    ensures
        r@ == "Backup valid: "@ + (if valid { "YES"@ } else { "NO"@ }) + "\n"@ + message@ + "\n"@ + time_line(
            "  Timestamp: "@,
            backup_timestamp,
        ) + "  Snapshot: term="@ + dec(snapshot_term as nat) + ", index="@ + dec(snapshot_index as nat) + "\n"@,
{
    let mut out: Vec<char> = Vec::new();
    push_str(&mut out, "Backup valid: ");
    if valid {
        push_str(&mut out, "YES");
    } else {
        push_str(&mut out, "NO");
    }
    push_str(&mut out, "\n");
    push_str(&mut out, message);
    push_str(&mut out, "\n");
    push_time(&mut out, "  Timestamp: ", backup_timestamp);
    push_str(&mut out, "  Snapshot: term=");
    push_u64(&mut out, snapshot_term);
    push_str(&mut out, ", index=");
    push_u64(&mut out, snapshot_index);
    push_str(&mut out, "\n");
    string_of(&out)
}

/// The answer to a restore.
pub fn restore_reply(success: bool, message: &str) -> (r: Result<String, String>)
    ensures
        success ==> (r matches Ok(m) && m@ == "Restore completed: "@ + message@),
        !success ==> (r matches Err(m) && m@ == "Restore failed: "@ + message@),
{
    let mut out: Vec<char> = Vec::new();
    if success {
        push_str(&mut out, "Restore completed: ");
        push_str(&mut out, message);
        Ok(string_of(&out))
    } else {
        push_str(&mut out, "Restore failed: ");
        push_str(&mut out, message);
        Err(string_of(&out))
    }
}

/// A node as the scheduler lists it.
#[derive(Debug, Clone)]
pub struct SchedulerNode {
    pub node_id: String,
    pub state: String,
    pub state_reason: String,
    pub group: String,
    pub gpu_count: u32,
    pub gpu_type: String,
    pub cpu_cores: u32,
    pub memory_gb: u64,
    pub features: Vec<String>,
    pub owner_tenant: String,
    pub owner_vcluster: String,
    pub owner_allocation: String,
    pub allocation_ids: Vec<String>,
    pub last_heartbeat: Option<i64>,
}

/// One row of the scheduler's node listing.
pub open spec fn scheduler_node_row(n: SchedulerNode) -> Seq<char> {
    pad_right(n.node_id@, 20) + "  "@ + pad_right(n.state@, 10) + "  "@ + pad_right(dec(n.gpu_count as nat), 8) + "  "@
        + pad_right(dec(n.cpu_cores as nat), 6) + "  "@ + pad_right(dec(n.memory_gb as nat), 8) + "  "@ + pad_right(
        if n.owner_vcluster@.len() == 0 {
            "-"@
        } else {
            n.owner_vcluster@
        },
        16,
    ) + "  "@ + n.state_reason@ + "\n"@
}

/// The rows, in order.
pub open spec fn scheduler_node_rows(ns: Seq<SchedulerNode>) -> Seq<char>
    decreases ns.len(),
{
    if ns.len() == 0 {
        Seq::empty()
    } else {
        scheduler_node_rows(ns.drop_last()) + scheduler_node_row(ns.last())
    }
}

/// The header of the scheduler's node listing.
pub open spec fn scheduler_node_header() -> Seq<char> {
    pad_right("NODE"@, 20) + "  "@ + pad_right("STATE"@, 10) + "  "@ + pad_right("GPUs"@, 8) + "  "@ + pad_right(
        "CORES"@,
        6,
    ) + "  "@ + pad_right("MEM GB"@, 8) + "  "@ + pad_right("VCLUSTER"@, 16) + "  "@ + "REASON"@ + "\n"@ + Seq::new(
        90,
        |i: int| '-',
    ) + "\n"@
}

/// The scheduler's node listing.
pub open spec fn scheduler_nodes_text(ns: Seq<SchedulerNode>) -> Seq<char> {
    if ns.len() == 0 {
        "No nodes found."@
    } else {
        scheduler_node_header() + scheduler_node_rows(ns)
    }
}

fn push_number(out: &mut Vec<char>, n: u64, w: usize)
    ensures
        final(out)@ == old(out)@ + pad_right(dec(n as nat), w as nat),
{
    let mut v: Vec<char> = Vec::new();
    push_u64(&mut v, n);
    push_padded_right(out, &v, w);
}

#[verifier::spinoff_prover]
fn push_scheduler_node_row(out: &mut Vec<char>, n: &SchedulerNode)
    ensures
        final(out)@ == old(out)@ + scheduler_node_row(*n),
{
    push_padded_right(out, &chars_of(n.node_id.as_str()), 20);
    push_str(out, "  ");
    push_padded_right(out, &chars_of(n.state.as_str()), 10);
    push_str(out, "  ");
    push_number(out, n.gpu_count as u64, 8);
    push_str(out, "  ");
    push_number(out, n.cpu_cores as u64, 6);
    push_str(out, "  ");
    push_number(out, n.memory_gb, 8);
    push_str(out, "  ");
    let vc = chars_of(n.owner_vcluster.as_str());
    if vc.len() == 0 {
        push_padded_right(out, &chars_of("-"), 16);
    } else {
        push_padded_right(out, &vc, 16);
    }
    push_str(out, "  ");
    push_str(out, n.state_reason.as_str());
    push_str(out, "\n");
    proof {
        assert(final(out)@ =~= old(out)@ + scheduler_node_row(*n));
    }
}

fn scheduler_node_header_chars() -> (r: Vec<char>)
    ensures
        r@ == scheduler_node_header(),
{
    let mut out: Vec<char> = Vec::new();
    push_padded_right(&mut out, &chars_of("NODE"), 20);
    push_str(&mut out, "  ");
    push_padded_right(&mut out, &chars_of("STATE"), 10);
    push_str(&mut out, "  ");
    push_padded_right(&mut out, &chars_of("GPUs"), 8);
    push_str(&mut out, "  ");
    push_padded_right(&mut out, &chars_of("CORES"), 6);
    push_str(&mut out, "  ");
    push_padded_right(&mut out, &chars_of("MEM GB"), 8);
    push_str(&mut out, "  ");
    push_padded_right(&mut out, &chars_of("VCLUSTER"), 16);
    push_str(&mut out, "  ");
    push_str(&mut out, "REASON");
    push_str(&mut out, "\n");
    push_rule(&mut out, 90);
    proof {
        assert(out@ =~= scheduler_node_header());
    }
    out
}

/// Lists the scheduler's nodes.
pub fn format_scheduler_nodes(nodes: &[SchedulerNode]) -> (r: String)
    ensures
        r@ == scheduler_nodes_text(nodes@),
{
    if nodes.len() == 0 {
        return string_from("No nodes found.");
    }
    let mut out = scheduler_node_header_chars();
    let ghost head = out@;
    let mut i: usize = 0;
    while i < nodes.len()
        invariant
            i <= nodes@.len(),
            out@ == head + scheduler_node_rows(nodes@.take(i as int)),
        decreases nodes.len() - i,
    {
        proof {
            assert(nodes@.take(i + 1).drop_last() =~= nodes@.take(i as int));
        }
        push_scheduler_node_row(&mut out, &nodes[i]);
        i = i + 1;
    }
    proof {
        assert(nodes@.take(nodes@.len() as int) =~= nodes@);
    }
    string_of(&out)
}

/// A line shown only when its value is set.
pub open spec fn opt_line(label: Seq<char>, value: Seq<char>) -> Seq<char> {
    if value.len() > 0 { label + value + "\n"@ } else { Seq::empty() }
}

/// The description of a scheduler node: its identity and capacity, then
/// what it is used for.
pub open spec fn scheduler_node_text(n: SchedulerNode) -> Seq<char> {
    scheduler_node_head(n) + scheduler_node_tail(n)
}

/// The identity and capacity lines.
pub open spec fn scheduler_node_head(n: SchedulerNode) -> Seq<char> {
    "Node:      "@ + n.node_id@ + "\n"@ + "State:     "@ + n.state@ + "\n"@ + opt_line("Reason:    "@, n.state_reason@)
        + "Group:     "@ + n.group@ + "\n"@ + "GPU:       "@ + dec(n.gpu_count as nat) + " x "@ + n.gpu_type@ + "\n"@
        + "CPU:       "@ + dec(n.cpu_cores as nat) + " cores\n"@ + "Memory:    "@ + dec(n.memory_gb as nat) + " GB\n"@
}

/// The feature, ownership, allocation and heartbeat lines.
pub open spec fn scheduler_node_tail(n: SchedulerNode) -> Seq<char> {
    (if n.features@.len() > 0 {
        "Features:  "@ + join(views(n.features@), ", "@) + "\n"@
    } else {
        Seq::empty()
    }) + opt_line("Tenant:    "@, n.owner_tenant@) + opt_line("vCluster:  "@, n.owner_vcluster@) + opt_line(
        "Allocation: "@,
        n.owner_allocation@,
    ) + (if n.allocation_ids@.len() > 0 {
        "Active allocations: "@ + join(views(n.allocation_ids@), ", "@) + "\n"@
    } else {
        Seq::empty()
    }) + time_line("Heartbeat: "@, n.last_heartbeat)
}

fn push_opt_line(out: &mut Vec<char>, label: &str, value: &String)
    ensures
        final(out)@ == old(out)@ + opt_line(label@, value@),
{
    if chars_of(value.as_str()).len() > 0 {
        push_line(out, label, value);
    }
}

#[verifier::spinoff_prover]
fn push_scheduler_node_head(out: &mut Vec<char>, n: &SchedulerNode)
    ensures
        final(out)@ == old(out)@ + scheduler_node_head(*n),
{
    push_line(out, "Node:      ", &n.node_id);
    push_line(out, "State:     ", &n.state);
    push_opt_line(out, "Reason:    ", &n.state_reason);
    push_line(out, "Group:     ", &n.group);
    push_str(out, "GPU:       ");
    push_u64(out, n.gpu_count as u64);
    push_str(out, " x ");
    push_str(out, n.gpu_type.as_str());
    push_str(out, "\n");
    push_str(out, "CPU:       ");
    push_u64(out, n.cpu_cores as u64);
    push_str(out, " cores\n");
    push_str(out, "Memory:    ");
    push_u64(out, n.memory_gb);
    push_str(out, " GB\n");
    proof {
        assert(final(out)@ =~= old(out)@ + scheduler_node_head(*n));
    }
}

#[verifier::spinoff_prover]
fn push_scheduler_node_tail(out: &mut Vec<char>, n: &SchedulerNode)
    ensures
        final(out)@ == old(out)@ + scheduler_node_tail(*n),
{
    if n.features.len() > 0 {
        push_str(out, "Features:  ");
        push_chars(out, &join_strings(&n.features, ", "));
        push_str(out, "\n");
    }
    push_opt_line(out, "Tenant:    ", &n.owner_tenant);
    push_opt_line(out, "vCluster:  ", &n.owner_vcluster);
    push_opt_line(out, "Allocation: ", &n.owner_allocation);
    if n.allocation_ids.len() > 0 {
        push_str(out, "Active allocations: ");
        push_chars(out, &join_strings(&n.allocation_ids, ", "));
        push_str(out, "\n");
    }
    push_time(out, "Heartbeat: ", n.last_heartbeat);
    proof {
        assert(final(out)@ =~= old(out)@ + scheduler_node_tail(*n));
    }
}

/// Describes a scheduler node.
pub fn format_scheduler_node(n: &SchedulerNode) -> (r: String)
    ensures
        r@ == scheduler_node_text(*n),
{
    let mut out: Vec<char> = Vec::new();
    push_scheduler_node_head(&mut out, n);
    push_scheduler_node_tail(&mut out, n);
    string_of(&out)
}

/// The state line of a node as the journal reports it.
pub fn node_state_line(node_id: &str, config_state: &str) -> (r: String)
    ensures
        r@ == "Node: "@ + node_id@ + "  State: "@ + config_state@,
{
    let mut out: Vec<char> = Vec::new();
    push_str(&mut out, "Node: ");
    push_str(&mut out, node_id);
    push_str(&mut out, "  State: ");
    push_str(&mut out, config_state);
    string_of(&out)
}

/// A member of the scheduler's raft cluster.
#[derive(Debug, Clone)]
pub struct RaftMember {
    pub node_id: u64,
    pub address: String,
    pub role: String,
    pub match_index: u64,
}

/// What the scheduler answered about its raft cluster.
#[derive(Debug)]
pub enum RaftAnswer {
    /// No connection could be made; the reason.
    ConnectFailed(String),
    /// The query failed; the error.
    QueryFailed(String),
    /// The cluster's state.
    Status { leader_id: u64, current_term: u64, last_applied: u64, commit_index: u64, members: Vec<RaftMember> },
}

/// The member lines, in order.
pub open spec fn member_lines(ms: Seq<RaftMember>) -> Seq<char>
    decreases ms.len(),
{
    if ms.len() == 0 {
        Seq::empty()
    } else {
        let m = ms.last();
        member_lines(ms.drop_last()) + "    "@ + dec(m.node_id as nat) + " ("@ + m.address@ + ") \u{2014} role="@
            + m.role@ + ", match_index="@ + dec(m.match_index as nat) + "\n"@
    }
}

/// The lines of a cluster's state.
pub open spec fn raft_status_text(
    leader_id: u64,
    current_term: u64,
    last_applied: u64,
    commit_index: u64,
    members: Seq<RaftMember>,
) -> Seq<char> {
    "  Leader:       "@ + dec(leader_id as nat) + "\n"@ + "  Term:         "@ + dec(current_term as nat) + "\n"@
        + "  Last applied: "@ + dec(last_applied as nat) + "\n"@ + "  Commit index: "@ + dec(commit_index as nat)
        + "\n"@ + if members.len() > 0 {
        "  Members:\n"@ + member_lines(members)
    } else {
        Seq::empty()
    }
}

/// The scheduler part of the cluster status.
pub open spec fn raft_text(a: RaftAnswer) -> Seq<char> {
    match a {
        RaftAnswer::ConnectFailed(m) => "  "@ + m@ + "\n"@,
        RaftAnswer::QueryFailed(e) => "  Raft query failed: "@ + e@ + "\n"@,
        RaftAnswer::Status { leader_id, current_term, last_applied, commit_index, members } => raft_status_text(
            leader_id,
            current_term,
            last_applied,
            commit_index,
            members@,
        ),
    }
}

/// The combined cluster status of the journal and the scheduler.
pub open spec fn cluster_text(journal: Result<String, String>, a: RaftAnswer) -> Seq<char> {
    "=== Pact Journal ===\n"@ + match journal {
        Ok(s) => s@ + "\n"@,
        Err(e) => "  Status: error ("@ + e@ + ")\n"@,
    } + "\n=== Lattice Scheduler ===\n"@ + raft_text(a)
}

#[verifier::spinoff_prover]
fn push_member_lines(out: &mut Vec<char>, members: &Vec<RaftMember>)
    ensures
        final(out)@ == old(out)@ + member_lines(members@),
{
    let ghost head = out@;
    let mut i: usize = 0;
    while i < members.len()
        invariant
            i <= members@.len(),
            out@ == head + member_lines(members@.take(i as int)),
        decreases members.len() - i,
    {
        proof {
            assert(members@.take(i + 1).drop_last() =~= members@.take(i as int));
        }
        let m = &members[i];
        push_str(out, "    ");
        push_u64(out, m.node_id);
        push_str(out, " (");
        push_str(out, m.address.as_str());
        push_str(out, ") \u{2014} role=");
        push_str(out, m.role.as_str());
        push_str(out, ", match_index=");
        push_u64(out, m.match_index);
        push_str(out, "\n");
        i = i + 1;
    }
    proof {
        assert(members@.take(members@.len() as int) =~= members@);
    }
}

#[verifier::spinoff_prover]
fn push_raft_status(
    out: &mut Vec<char>,
    leader_id: u64,
    current_term: u64,
    last_applied: u64,
    commit_index: u64,
    members: &Vec<RaftMember>,
)
    ensures
        final(out)@ == old(out)@ + raft_status_text(leader_id, current_term, last_applied, commit_index, members@),
{
    push_str(out, "  Leader:       ");
    push_u64(out, leader_id);
    push_str(out, "\n");
    push_str(out, "  Term:         ");
    push_u64(out, current_term);
    push_str(out, "\n");
    push_str(out, "  Last applied: ");
    push_u64(out, last_applied);
    push_str(out, "\n");
    push_str(out, "  Commit index: ");
    push_u64(out, commit_index);
    push_str(out, "\n");
    if members.len() > 0 {
        push_str(out, "  Members:\n");
        push_member_lines(out, members);
    }
    proof {
        assert(final(out)@ =~= old(out)@ + raft_status_text(leader_id, current_term, last_applied, commit_index, members@));
    }
}

fn push_raft(out: &mut Vec<char>, a: &RaftAnswer)
    ensures
        final(out)@ == old(out)@ + raft_text(*a),
{
    match a {
        RaftAnswer::ConnectFailed(m) => {
            push_str(out, "  ");
            push_str(out, m.as_str());
            push_str(out, "\n");
            proof {
                assert(final(out)@ =~= old(out)@ + raft_text(*a));
            }
        },
        RaftAnswer::QueryFailed(e) => {
            push_str(out, "  Raft query failed: ");
            push_str(out, e.as_str());
            push_str(out, "\n");
            proof {
                assert(final(out)@ =~= old(out)@ + raft_text(*a));
            }
        },
        RaftAnswer::Status { leader_id, current_term, last_applied, commit_index, members } => {
            push_raft_status(out, *leader_id, *current_term, *last_applied, *commit_index, members);
        },
    }
}

/// Renders the combined cluster status.
pub fn format_cluster_status(journal: &Result<String, String>, raft: &RaftAnswer) -> (r: String)
    ensures
        r@ == cluster_text(*journal, *raft),
{
    let mut out: Vec<char> = Vec::new();
    push_str(&mut out, "=== Pact Journal ===\n");
    match journal {
        Ok(st) => {
            push_str(&mut out, st.as_str());
            push_str(&mut out, "\n");
        },
        Err(e) => {
            push_str(&mut out, "  Status: error (");
            push_str(&mut out, e.as_str());
            push_str(&mut out, ")\n");
        },
    }
    push_str(&mut out, "\n=== Lattice Scheduler ===\n");
    push_raft(&mut out, raft);
    proof {
        assert(out@ =~= cluster_text(*journal, *raft));
    }
    string_of(&out)
}

/// Which audit logs a source names: the journal's, the scheduler's, or
/// both (`all`).
pub fn audit_sources(source: &str) -> (r: (bool, bool))
    ensures
        r.0 == (source@ == "all"@ || source@ == "pact"@),
        r.1 == (source@ == "all"@ || source@ == "lattice"@),
{
    let all = crate::text::str_eq(source, "all");
    (all || crate::text::str_eq(source, "pact"), all || crate::text::str_eq(source, "lattice"))
}

/// An entry of the scheduler's audit log.
#[derive(Debug, Clone)]
pub struct SchedulerAuditEntry {
    pub timestamp: Option<i64>,
    pub user_id: String,
    pub action: String,
    pub details: String,
}

/// What the scheduler answered for its audit log.
#[derive(Debug)]
pub enum AuditAnswer {
    ConnectFailed(String),
    QueryFailed(String),
    Entries(Vec<SchedulerAuditEntry>),
}

/// The audit entry lines, in order.
pub open spec fn audit_lines(es: Seq<SchedulerAuditEntry>) -> Seq<char>
    decreases es.len(),
{
    if es.len() == 0 {
        Seq::empty()
    } else {
        let e = es.last();
        audit_lines(es.drop_last()) + "  ["@ + match e.timestamp {
            Some(t) => idec(t as int) + "s"@,
            None => "-"@,
        } + "] "@ + e.user_id@ + " "@ + e.action@ + " \u{2014} "@ + e.details@ + "\n"@
    }
}

/// The journal's part of the audit report, when it was asked for.
pub open spec fn pact_audit_text(pact: Option<Result<String, String>>) -> Seq<char> {
    match pact {
        Some(p) => "=== Pact Audit Log ===\n"@ + match p {
            Ok(log) => log@ + "\n"@,
            Err(e) => "  Error: "@ + e@ + "\n"@,
        },
        None => Seq::empty(),
    }
}

/// The scheduler's part of the audit report, when it was asked for.
pub open spec fn lattice_audit_text(lattice: Option<AuditAnswer>) -> Seq<char> {
    match lattice {
        Some(a) => "=== Lattice Audit Log ===\n"@ + match a {
            AuditAnswer::ConnectFailed(m) => "  "@ + m@ + "\n"@,
            AuditAnswer::QueryFailed(e) => "  Audit query failed: "@ + e@ + "\n"@,
            AuditAnswer::Entries(es) => (if es@.len() == 0 {
                "  No audit entries.\n"@
            } else {
                Seq::empty()
            }) + audit_lines(es@),
        },
        None => Seq::empty(),
    }
}

/// The combined audit report: the journal's log and the scheduler's, each
/// when it was asked for.
pub open spec fn audit_report_text(pact: Option<Result<String, String>>, lattice: Option<AuditAnswer>) -> Seq<char> {
    pact_audit_text(pact) + lattice_audit_text(lattice)
}

#[verifier::spinoff_prover]
fn push_audit_entries(out: &mut Vec<char>, es: &Vec<SchedulerAuditEntry>)
    ensures
        final(out)@ == old(out)@ + audit_lines(es@),
{
    let ghost head = out@;
    let mut i: usize = 0;
    while i < es.len()
        invariant
            i <= es@.len(),
            out@ == head + audit_lines(es@.take(i as int)),
        decreases es.len() - i,
    {
        proof {
            assert(es@.take(i + 1).drop_last() =~= es@.take(i as int));
        }
        let e = &es[i];
        push_str(out, "  [");
        match e.timestamp {
            Some(t) => {
                push_i64(out, t);
                push_str(out, "s");
            },
            None => push_str(out, "-"),
        }
        push_str(out, "] ");
        push_str(out, e.user_id.as_str());
        push_str(out, " ");
        push_str(out, e.action.as_str());
        push_str(out, " \u{2014} ");
        push_str(out, e.details.as_str());
        push_str(out, "\n");
        i = i + 1;
    }
    proof {
        assert(es@.take(es@.len() as int) =~= es@);
    }
}

/// Renders the combined audit report.
#[verifier::spinoff_prover]
pub fn format_audit_report(pact: &Option<Result<String, String>>, lattice: &Option<AuditAnswer>) -> (r: String)
    ensures
        r@ == audit_report_text(*pact, *lattice),
{
    let mut out: Vec<char> = Vec::new();
    match pact {
        Some(p) => {
            push_str(&mut out, "=== Pact Audit Log ===\n");
            match p {
                Ok(log) => {
                    push_str(&mut out, log.as_str());
                    push_str(&mut out, "\n");
                },
                Err(e) => {
                    push_str(&mut out, "  Error: ");
                    push_str(&mut out, e.as_str());
                    push_str(&mut out, "\n");
                },
            }
        },
        None => {},
    }
    let ghost mid = out@;
    match lattice {
        Some(a) => {
            push_str(&mut out, "=== Lattice Audit Log ===\n");
            match a {
                AuditAnswer::ConnectFailed(m) => {
                    push_str(&mut out, "  ");
                    push_str(&mut out, m.as_str());
                    push_str(&mut out, "\n");
                },
                AuditAnswer::QueryFailed(e) => {
                    push_str(&mut out, "  Audit query failed: ");
                    push_str(&mut out, e.as_str());
                    push_str(&mut out, "\n");
                },
                AuditAnswer::Entries(es) => {
                    if es.len() == 0 {
                        push_str(&mut out, "  No audit entries.\n");
                    }
                    push_audit_entries(&mut out, es);
                },
            }
        },
        None => {},
    }
    proof {
        assert(out@ =~= audit_report_text(*pact, *lattice));
    }
    string_of(&out)
}

} // verus!
