//! `pact status`: a node's state, supervisor, memory, GPUs and drift, as
//! the CLI shows them.
//!
//! Quantities that the agent reports as fractional numbers (memory in GB,
//! drift per category) reach these functions already rounded to one
//! decimal, as counts of tenths; the client runtime does that rounding.

use vstd::prelude::*;

use crate::common::types::{ConfigState, GpuHealth, SupervisorBackend, SupervisorStatus};
use crate::text::{dec, join, join_strings, push_str, push_u64, string_of, views};

verus! {

broadcast use vstd::string::group_string_axioms;

/// Formats a configuration state for display.
pub fn format_config_state(state: &ConfigState) -> (r: &'static str)
    ensures
        r@ == match *state {
            ConfigState::Committed => "COMMITTED"@,
            ConfigState::Drifted => "DRIFTED"@,
            ConfigState::Converging => "CONVERGING"@,
            ConfigState::Emergency => "EMERGENCY"@,
            ConfigState::ObserveOnly => "OBSERVE_ONLY"@,
        },
{
    match state {
        ConfigState::Committed => "COMMITTED",
        ConfigState::Drifted => "DRIFTED",
        ConfigState::Converging => "CONVERGING",
        ConfigState::Emergency => "EMERGENCY",
        ConfigState::ObserveOnly => "OBSERVE_ONLY",
    }
}

/// Formats the supervisor backend of a status for display.
pub fn format_supervisor_backend(status: &SupervisorStatus) -> (r: &'static str)
    ensures
        r@ == match status.backend {
            SupervisorBackend::Pact => "pact"@,
            SupervisorBackend::Systemd => "systemd"@,
        },
{
    match status.backend {
        SupervisorBackend::Pact => "pact",
        SupervisorBackend::Systemd => "systemd",
    }
}

/// Formats GPU health for status display.
pub fn format_gpu_health(health: &GpuHealth) -> (r: &'static str)
    ensures
        r@ == match *health {
            GpuHealth::Healthy => "healthy"@,
            GpuHealth::Degraded => "DEGRADED"@,
            GpuHealth::Failed => "FAILED"@,
        },
{
    match health {
        GpuHealth::Healthy => "healthy",
        GpuHealth::Degraded => "DEGRADED",
        GpuHealth::Failed => "FAILED",
    }
}

/// A number rounded to one decimal: its sign and its magnitude in tenths.
#[derive(Debug, Clone, Copy, PartialEq, Eq, Structural)]
pub struct Decimal1 {
    pub negative: bool,
    pub tenths: u64,
}

/// A count of tenths written with one decimal (`{:.1}`).
pub open spec fn tenths_text(t: u64) -> Seq<char> {
    dec((t / 10) as nat) + "."@ + dec((t % 10) as nat)
}

/// A signed number written with one decimal.
pub open spec fn decimal1_text(d: Decimal1) -> Seq<char> {
    (if d.negative { "-"@ } else { Seq::empty() }) + tenths_text(d.tenths)
}

/// Writes a count of tenths with one decimal.
pub fn push_tenths(out: &mut Vec<char>, t: u64)
    ensures
        final(out)@ == old(out)@ + tenths_text(t),
{
    push_u64(out, t / 10);
    push_str(out, ".");
    push_u64(out, t % 10);
}

/// Writes a signed number with one decimal.
pub fn push_decimal1(out: &mut Vec<char>, d: Decimal1)
    ensures
        final(out)@ == old(out)@ + decimal1_text(d),
{
    if d.negative {
        push_str(out, "-");
    }
    push_tenths(out, d.tenths);
    proof {
        assert(final(out)@ =~= old(out)@ + decimal1_text(d));
    }
}

/// The drift of each category, in tenths, for the categories whose drift
/// is above zero.
#[derive(Debug, Clone, Copy)]
pub struct DriftReport {
    pub mounts: Option<u64>,
    pub files: Option<u64>,
    pub network: Option<u64>,
    pub services: Option<u64>,
    pub kernel: Option<u64>,
    pub packages: Option<u64>,
    pub gpu: Option<u64>,
}

/// The entry of one category: its name and drift, when it drifted.
pub open spec fn drift_part(name: Seq<char>, v: Option<u64>) -> Seq<Seq<char>> {
    match v {
        Some(t) => seq![name + "("@ + tenths_text(t) + ")"@],
        None => Seq::empty(),
    }
}

/// The entries of the drifted categories: kernel, mounts, files, network,
/// services, packages, gpu.
pub open spec fn drift_parts(d: DriftReport) -> Seq<Seq<char>> {
    drift_part("kernel"@, d.kernel) + drift_part("mounts"@, d.mounts) + drift_part("files"@, d.files) + drift_part(
        "network"@,
        d.network,
    ) + drift_part("services"@, d.services) + drift_part("packages"@, d.packages) + drift_part("gpu"@, d.gpu)
}

/// The drifted categories, separated by commas.
pub open spec fn drift_categories_text(d: DriftReport) -> Seq<char> {
    join(drift_parts(d), ", "@)
}

fn push_drift_part(parts: &mut Vec<String>, name: &str, v: Option<u64>)
    ensures
        views(final(parts)@) == views(old(parts)@) + drift_part(name@, v),
{
    match v {
        Some(t) => {
            let mut out: Vec<char> = Vec::new();
            push_str(&mut out, name);
            push_str(&mut out, "(");
            push_tenths(&mut out, t);
            push_str(&mut out, ")");
            let s = string_of(&out);
            let ghost before = parts@;
            parts.push(s);
            proof {
                assert(views(parts@) =~= views(before) + drift_part(name@, v));
            }
        },
        None => {
            proof {
                assert(views(parts@) =~= views(old(parts)@) + drift_part(name@, v));
            }
        },
    }
}

/// Lists the drifted categories with their drift.
pub fn format_drift_categories(drift: &DriftReport) -> (r: String)
    ensures
        r@ == drift_categories_text(*drift),
{
    let mut parts: Vec<String> = Vec::new();
    push_drift_part(&mut parts, "kernel", drift.kernel);
    push_drift_part(&mut parts, "mounts", drift.mounts);
    push_drift_part(&mut parts, "files", drift.files);
    push_drift_part(&mut parts, "network", drift.network);
    push_drift_part(&mut parts, "services", drift.services);
    push_drift_part(&mut parts, "packages", drift.packages);
    push_drift_part(&mut parts, "gpu", drift.gpu);
    proof {
        assert(views(parts@) =~= drift_parts(*drift));
    }
    string_of(&join_strings(&parts, ", "))
}

/// A node's status as the journal reports it.
#[derive(Debug, Clone)]
pub struct NodeStatus {
    pub node_id: String,
    pub vcluster_id: String,
    pub config_state: ConfigState,
    pub drift_summary: Option<DriftReport>,
    pub supervisor: SupervisorStatus,
    pub gpu_count: u32,
    pub gpu_healthy: u32,
    pub gpu_degraded: u32,
    pub memory_total_gb: Decimal1,
    pub memory_avail_gb: Decimal1,
}

/// The display name of a configuration state.
pub open spec fn config_state_text(s: ConfigState) -> Seq<char> {
    match s {
        ConfigState::Committed => "COMMITTED"@,
        ConfigState::Drifted => "DRIFTED"@,
        ConfigState::Converging => "CONVERGING"@,
        ConfigState::Emergency => "EMERGENCY"@,
        ConfigState::ObserveOnly => "OBSERVE_ONLY"@,
    }
}

/// The display name of a supervisor backend.
pub open spec fn supervisor_backend_text(b: SupervisorBackend) -> Seq<char> {
    match b {
        SupervisorBackend::Pact => "pact"@,
        SupervisorBackend::Systemd => "systemd"@,
    }
}

/// The fixed lines of a node status: identity and state, supervisor,
/// memory.
pub open spec fn status_head_lines(s: NodeStatus) -> Seq<Seq<char>> {
    seq![
        "Node: "@ + s.node_id@ + "  vCluster: "@ + s.vcluster_id@ + "  State: "@ + config_state_text(s.config_state),
        "Supervisor: "@ + supervisor_backend_text(s.supervisor.backend) + " ("@ + dec(
            s.supervisor.services_running as nat,
        ) + "/"@ + dec(s.supervisor.services_declared as nat) + " running, "@ + dec(
            s.supervisor.services_failed as nat,
        ) + " failed)"@,
        "Memory: "@ + decimal1_text(s.memory_avail_gb) + " GB / "@ + decimal1_text(s.memory_total_gb)
            + " GB available"@,
    ]
}

/// The optional lines of a node status: GPUs when there are any, drift
/// when a category drifted.
pub open spec fn status_tail_lines(s: NodeStatus) -> Seq<Seq<char>> {
    (if s.gpu_count > 0 {
        seq![
            "GPUs: "@ + dec(s.gpu_count as nat) + " total ("@ + dec(s.gpu_healthy as nat) + " healthy, "@ + dec(
                s.gpu_degraded as nat,
            ) + " degraded)"@,
        ]
    } else {
        Seq::empty()
    }) + match s.drift_summary {
        Some(d) => if drift_categories_text(d).len() > 0 {
            seq!["Drift: "@ + drift_categories_text(d)]
        } else {
            Seq::empty()
        },
        None => Seq::empty(),
    }
}

/// A node status, one line per item.
pub open spec fn node_status_text(s: NodeStatus) -> Seq<char> {
    join(status_head_lines(s) + status_tail_lines(s), "\n"@)
}

fn status_head(status: &NodeStatus, lines: &mut Vec<String>)
    ensures
        views(final(lines)@) == views(old(lines)@) + status_head_lines(*status),
{
    let ghost before = lines@;
    let mut a: Vec<char> = Vec::new();
    push_str(&mut a, "Node: ");
    push_str(&mut a, status.node_id.as_str());
    push_str(&mut a, "  vCluster: ");
    push_str(&mut a, status.vcluster_id.as_str());
    push_str(&mut a, "  State: ");
    push_str(&mut a, format_config_state(&status.config_state));
    lines.push(string_of(&a));
    let mut b: Vec<char> = Vec::new();
    push_str(&mut b, "Supervisor: ");
    push_str(&mut b, format_supervisor_backend(&status.supervisor));
    push_str(&mut b, " (");
    push_u64(&mut b, status.supervisor.services_running as u64);
    push_str(&mut b, "/");
    push_u64(&mut b, status.supervisor.services_declared as u64);
    push_str(&mut b, " running, ");
    push_u64(&mut b, status.supervisor.services_failed as u64);
    push_str(&mut b, " failed)");
    lines.push(string_of(&b));
    let mut c: Vec<char> = Vec::new();
    push_str(&mut c, "Memory: ");
    push_decimal1(&mut c, status.memory_avail_gb);
    push_str(&mut c, " GB / ");
    push_decimal1(&mut c, status.memory_total_gb);
    push_str(&mut c, " GB available");
    lines.push(string_of(&c));
    proof {
        assert(views(lines@) =~= views(before) + status_head_lines(*status));
    }
}

fn status_tail(status: &NodeStatus, lines: &mut Vec<String>)
    ensures
        views(final(lines)@) == views(old(lines)@) + status_tail_lines(*status),
{
    let ghost before = lines@;
    if status.gpu_count > 0 {
        let mut g: Vec<char> = Vec::new();
        push_str(&mut g, "GPUs: ");
        push_u64(&mut g, status.gpu_count as u64);
        push_str(&mut g, " total (");
        push_u64(&mut g, status.gpu_healthy as u64);
        push_str(&mut g, " healthy, ");
        push_u64(&mut g, status.gpu_degraded as u64);
        push_str(&mut g, " degraded)");
        lines.push(string_of(&g));
    }
    let ghost mid = lines@;
    proof {
        assert(views(mid) =~= views(before) + (if status.gpu_count > 0 {
            seq![
                "GPUs: "@ + dec(status.gpu_count as nat) + " total ("@ + dec(status.gpu_healthy as nat) + " healthy, "@
                    + dec(status.gpu_degraded as nat) + " degraded)"@,
            ]
        } else {
            Seq::<Seq<char>>::empty()
        }));
    }
    match &status.drift_summary {
        Some(d) => {
            let cats = format_drift_categories(d);
            if cats.as_str().unicode_len() > 0 {
                let mut l: Vec<char> = Vec::new();
                push_str(&mut l, "Drift: ");
                push_str(&mut l, cats.as_str());
                lines.push(string_of(&l));
            }
        },
        None => {},
    }
    proof {
        assert(views(lines@) =~= views(before) + status_tail_lines(*status));
    }
}

/// Formats a node's status for text output.
pub fn format_node_status(status: &NodeStatus) -> (r: String)
    ensures
        r@ == node_status_text(*status),
{
    let mut lines: Vec<String> = Vec::new();
    status_head(status, &mut lines);
    status_tail(status, &mut lines);
    proof {
        assert(views(lines@) =~= status_head_lines(*status) + status_tail_lines(*status));
    }
    string_of(&join_strings(&lines, "\n"))
}

} // verus!
