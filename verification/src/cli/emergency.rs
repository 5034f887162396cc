//! `pact emergency`: entering and leaving emergency mode.
//!
//! Emergency mode extends the commit window and keeps the audit trail; AI
//! and service agents cannot enter it.

use vstd::prelude::*;

use crate::common::types::PrincipalType;
use crate::text::{all_white_space, chars_of, dec, is_blank, push_chars, push_str, push_u64, str_eq, string_eq_str, string_from, string_of};

verus! {

broadcast use vstd::string::group_string_axioms;

/// Emergency mode subcommand.
#[derive(Debug, Clone)]
pub enum EmergencyAction {
    Start { reason: String },
    End { force: bool },
}

impl PartialEq for EmergencyAction {
    fn eq(&self, other: &Self) -> (r: bool) {
        match (self, other) {
            (EmergencyAction::Start { reason: a }, EmergencyAction::Start { reason: b }) => string_eq_str(a, b.as_str()),
            (EmergencyAction::End { force: a }, EmergencyAction::End { force: b }) => *a == *b,
            _ => false,
        }
    }
}

impl Eq for EmergencyAction {}

impl vstd::std_specs::cmp::PartialEqSpecImpl for EmergencyAction {
    open spec fn obeys_eq_spec() -> bool {
        true
    }

    open spec fn eq_spec(&self, other: &Self) -> bool {
        match (self, other) {
            (EmergencyAction::Start { reason: a }, EmergencyAction::Start { reason: b }) => a@ == b@,
            (EmergencyAction::End { force: a }, EmergencyAction::End { force: b }) => a == b,
            _ => false,
        }
    }
}

/// Result of an emergency mode operation.
#[derive(Debug, Clone)]
pub struct EmergencyResult {
    pub action: String,
    pub node_id: String,
    pub sequence: u64,
    pub window_seconds: Option<u32>,
}

/// The text of an emergency result.
pub open spec fn emergency_text(r: EmergencyResult) -> Seq<char> {
    if r.action@ == "start"@ {
        let window = match r.window_seconds {
            Some(w) => w,
            None => 14400u32,
        };
        "Emergency mode ACTIVE on "@ + r.node_id@ + " (seq:"@ + dec(r.sequence as nat)
            + ")\nExtended commit window: "@ + dec((window / 60) as nat)
            + " minutes\nAll actions continue to be logged."@
    } else if r.action@ == "end"@ {
        "Emergency mode ENDED on "@ + r.node_id@ + " (seq:"@ + dec(r.sequence as nat)
            + ")\nNormal commit window restored."@
    } else {
        "Emergency: "@ + r.action@ + " on "@ + r.node_id@
    }
}

/// Formats an emergency result for display.
pub fn format_emergency_result(result: &EmergencyResult) -> (r: String)
    ensures
        r@ == emergency_text(*result),
{
    let mut out: Vec<char> = Vec::new();
    if str_eq(result.action.as_str(), "start") {
        let window = match result.window_seconds {
            Some(w) => w,
            None => 14400u32,
        };
        push_str(&mut out, "Emergency mode ACTIVE on ");
        push_chars(&mut out, &chars_of(result.node_id.as_str()));
        push_str(&mut out, " (seq:");
        push_u64(&mut out, result.sequence);
        push_str(&mut out, ")\nExtended commit window: ");
        push_u64(&mut out, (window / 60) as u64);
        push_str(&mut out, " minutes\nAll actions continue to be logged.");
    } else if str_eq(result.action.as_str(), "end") {
        push_str(&mut out, "Emergency mode ENDED on ");
        push_chars(&mut out, &chars_of(result.node_id.as_str()));
        push_str(&mut out, " (seq:");
        push_u64(&mut out, result.sequence);
        push_str(&mut out, ")\nNormal commit window restored.");
    } else {
        push_str(&mut out, "Emergency: ");
        push_chars(&mut out, &chars_of(result.action.as_str()));
        push_str(&mut out, " on ");
        push_chars(&mut out, &chars_of(result.node_id.as_str()));
    }
    string_of(&out)
}

/// Checks that an emergency may be started: not by an AI or service agent,
/// and with a reason that is not blank.
pub fn validate_emergency_start(principal_type: &PrincipalType, reason: &str) -> (r: Result<(), String>)
    ensures
        r is Ok <==> (*principal_type == PrincipalType::Human && !all_white_space(reason@)),
        r matches Err(m) ==> m@ == if *principal_type != PrincipalType::Human {
            "AI/service agents cannot enter emergency mode (P8)"@
        } else {
            "Emergency reason is required"@
        },
{
    if *principal_type == PrincipalType::Agent || *principal_type == PrincipalType::Service {
        return Err(string_from("AI/service agents cannot enter emergency mode (P8)"));
    }
    if is_blank(reason) {
        return Err(string_from("Emergency reason is required"));
    }
    Ok(())
}

} // verus!
