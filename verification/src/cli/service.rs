//! `pact service`: rendering of supervised service status.

use vstd::prelude::*;

use crate::common::types::{ServiceState, ServiceStatusInfo};
use crate::text::{
    chars_of, dec, join, join_chars, pad_left, pad_right, push_chars, push_padded_left,
    push_padded_right, push_str, push_u64, string_of, vviews,
};

verus! {

broadcast use vstd::string::group_string_axioms;

/// The display name of a service state.
pub open spec fn service_state_text(state: ServiceState) -> Seq<char> {
    match state {
        ServiceState::Starting => "starting"@,
        ServiceState::Running => "running"@,
        ServiceState::Stopping => "stopping"@,
        ServiceState::Stopped => "stopped"@,
        ServiceState::Failed => "FAILED"@,
        ServiceState::Restarting => "restarting"@,
    }
}

/// The display name of a service state.
pub fn format_service_state(state: &ServiceState) -> (r: &'static str)
    ensures
        r@ == service_state_text(*state),
{
    match state {
        ServiceState::Starting => "starting",
        ServiceState::Running => "running",
        ServiceState::Stopping => "stopping",
        ServiceState::Stopped => "stopped",
        ServiceState::Failed => "FAILED",
        ServiceState::Restarting => "restarting",
    }
}

/// An uptime in its two largest units: `30s`, `2m5s`, `2h1m`, `1d1h`.
pub open spec fn uptime_text(s: nat) -> Seq<char> {
    if s < 60 {
        dec(s) + "s"@
    } else if s < 3600 {
        dec(s / 60) + "m"@ + dec(s % 60) + "s"@
    } else if s < 86400 {
        dec(s / 3600) + "h"@ + dec((s % 3600) / 60) + "m"@
    } else {
        dec(s / 86400) + "d"@ + dec((s % 86400) / 3600) + "h"@
    }
}

/// Formats an uptime in seconds.
pub fn format_uptime(seconds: u64) -> (r: String)
    ensures
        r@ == uptime_text(seconds as nat),
{
    let mut out: Vec<char> = Vec::new();
    if seconds < 60 {
        push_u64(&mut out, seconds);
        push_str(&mut out, "s");
    } else if seconds < 3600 {
        push_u64(&mut out, seconds / 60);
        push_str(&mut out, "m");
        push_u64(&mut out, seconds % 60);
        push_str(&mut out, "s");
    } else if seconds < 86400 {
        push_u64(&mut out, seconds / 3600);
        push_str(&mut out, "h");
        push_u64(&mut out, (seconds % 3600) / 60);
        push_str(&mut out, "m");
    } else {
        push_u64(&mut out, seconds / 86400);
        push_str(&mut out, "d");
        push_u64(&mut out, (seconds % 86400) / 3600);
        push_str(&mut out, "h");
    }
    string_of(&out)
}

/// The header of the service table.
pub open spec fn service_header() -> Seq<char> {
    pad_right("SERVICE"@, 25) + " "@ + pad_right("STATE"@, 12) + " "@ + pad_left("PID"@, 8) + " "@
        + pad_left("UPTIME"@, 10) + " "@ + pad_left("RESTARTS"@, 8)
}

/// One row of the service table.
pub open spec fn service_row(svc: ServiceStatusInfo) -> Seq<char> {
    pad_right(svc.name@, 25) + " "@ + pad_right(service_state_text(svc.state), 12) + " "@
        + pad_left(dec(svc.pid as nat), 8) + " "@ + pad_left(uptime_text(svc.uptime_seconds as nat), 10)
        + " "@ + pad_left(dec(svc.restart_count as nat), 8)
}

/// The service table: `(no services)` when empty, else a header and one
/// row per service, one per line.
pub open spec fn service_table(services: Seq<ServiceStatusInfo>) -> Seq<char> {
    if services.len() == 0 {
        "(no services)"@
    } else {
        join(seq![service_header()] + services.map_values(|s: ServiceStatusInfo| service_row(s)), "\n"@)
    }
}

fn header_line() -> (r: Vec<char>)
    ensures
        r@ == service_header(),
{
    let mut out: Vec<char> = Vec::new();
    push_padded_right(&mut out, &chars_of("SERVICE"), 25);
    push_str(&mut out, " ");
    push_padded_right(&mut out, &chars_of("STATE"), 12);
    push_str(&mut out, " ");
    push_padded_left(&mut out, &chars_of("PID"), 8);
    push_str(&mut out, " ");
    push_padded_left(&mut out, &chars_of("UPTIME"), 10);
    push_str(&mut out, " ");
    push_padded_left(&mut out, &chars_of("RESTARTS"), 8);
    out
}

fn row_line(svc: &ServiceStatusInfo) -> (r: Vec<char>)
    ensures
        r@ == service_row(*svc),
{
    let mut out: Vec<char> = Vec::new();
    push_padded_right(&mut out, &chars_of(svc.name.as_str()), 25);
    push_str(&mut out, " ");
    push_padded_right(&mut out, &chars_of(format_service_state(&svc.state)), 12);
    push_str(&mut out, " ");
    let mut pid: Vec<char> = Vec::new();
    push_u64(&mut pid, svc.pid as u64);
    push_padded_left(&mut out, &pid, 8);
    push_str(&mut out, " ");
    push_padded_left(&mut out, &chars_of(format_uptime(svc.uptime_seconds).as_str()), 10);
    push_str(&mut out, " ");
    let mut rc: Vec<char> = Vec::new();
    push_u64(&mut rc, svc.restart_count as u64);
    push_padded_left(&mut out, &rc, 8);
    out
}

/// Formats service status as a table.
pub fn format_service_status(services: &[ServiceStatusInfo]) -> (r: String)
    ensures
        r@ == service_table(services@),
{
    let mut out: Vec<char> = Vec::new();
    if services.len() == 0 {
        push_str(&mut out, "(no services)");
        return string_of(&out);
    }
    let mut lines: Vec<Vec<char>> = Vec::new();
    lines.push(header_line());
    let mut i: usize = 0;
    while i < services.len()
        invariant
            i <= services@.len(),
            vviews(lines@) == seq![service_header()]
                + services@.take(i as int).map_values(|s: ServiceStatusInfo| service_row(s)),
        decreases services.len() - i,
    {
        let ghost before = lines@;
        lines.push(row_line(&services[i]));
        proof {
            assert(services@.take(i + 1).map_values(|s: ServiceStatusInfo| service_row(s))
                =~= services@.take(i as int).map_values(|s: ServiceStatusInfo| service_row(s))
                    .push(service_row(services@[i as int])));
            assert(vviews(lines@) =~= vviews(before).push(service_row(services@[i as int])));
        }
        i = i + 1;
    }
    proof {
        assert(services@.take(services@.len() as int) =~= services@);
    }
    let mut nl: Vec<char> = Vec::new();
    nl.push('\n');
    proof {
        assert(nl@ =~= "\n"@) by {
            reveal_strlit("\n");
        }
    }
    let joined = join_chars(&lines, &nl);
    string_of(&joined)
}

/// One service on one line.
pub open spec fn single_service_text(svc: ServiceStatusInfo) -> Seq<char> {
    svc.name@ + ": "@ + service_state_text(svc.state) + " (PID "@ + dec(svc.pid as nat) + ", uptime "@
        + uptime_text(svc.uptime_seconds as nat) + ", "@ + dec(svc.restart_count as nat) + " restarts)"@
}

/// Formats one service's status on one line.
pub fn format_single_service(svc: &ServiceStatusInfo) -> (r: String)
    ensures
        r@ == single_service_text(*svc),
{
    let mut out: Vec<char> = Vec::new();
    push_chars(&mut out, &chars_of(svc.name.as_str()));
    push_str(&mut out, ": ");
    push_str(&mut out, format_service_state(&svc.state));
    push_str(&mut out, " (PID ");
    push_u64(&mut out, svc.pid as u64);
    push_str(&mut out, ", uptime ");
    push_chars(&mut out, &chars_of(format_uptime(svc.uptime_seconds).as_str()));
    push_str(&mut out, ", ");
    push_u64(&mut out, svc.restart_count as u64);
    push_str(&mut out, " restarts)");
    string_of(&out)
}

} // verus!
