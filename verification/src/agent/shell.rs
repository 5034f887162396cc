//! The exec authorization pipeline of the shell server.
//!
//! A command is allowed when it is whitelisted and the caller holds the
//! ops role of the vCluster; viewers may run read-only commands; the
//! platform admin may run commands outside the whitelist.

use vstd::prelude::*;

use crate::agent::auth::{
    has_ops_role, has_viewer_role, is_admin_role, is_ops_role, is_platform_admin,
    is_viewer_role, AuthError,
};
use crate::agent::exec::{exec_error_text, ExecError, ExecResult};
use crate::agent::session::{session_error_text, SessionError};
use crate::agent::whitelist::{after_denial, WhitelistManager};
use crate::common::types::Identity;
use crate::agent::auth::auth_error_text;
use crate::text::{push_chars, push_str, string_from, string_of};

verus! {

broadcast use vstd::string::group_string_axioms;

/// Shell server errors.
#[derive(Debug)]
pub enum ShellError {
    Auth(AuthError),
    Exec(ExecError),
    Session(SessionError),
}

/// The text of a shell server error.
pub open spec fn shell_error_text(e: ShellError) -> Seq<char> {
    match e {
        ShellError::Auth(a) => "authentication failed: "@ + auth_error_text(a),
        ShellError::Exec(x) => "execution failed: "@ + exec_error_text(x),
        ShellError::Session(s) => "session error: "@ + session_error_text(s),
    }
}

impl ShellError {
    /// The error's message.
    pub fn message(&self) -> (m: String)
        ensures
            m@ == shell_error_text(*self),
    {
        let mut out: Vec<char> = Vec::new();
        match self {
            ShellError::Auth(a) => {
                push_str(&mut out, "authentication failed: ");
                push_chars(&mut out, &crate::text::chars_of(a.message().as_str()));
            },
            ShellError::Exec(x) => {
                push_str(&mut out, "execution failed: ");
                push_chars(&mut out, &crate::text::chars_of(x.message().as_str()));
            },
            ShellError::Session(s) => {
                push_str(&mut out, "session error: ");
                push_chars(&mut out, &crate::text::chars_of(s.message().as_str()));
            },
        }
        string_of(&out)
    }
}

/// The outcome of an exec authorization, as the model sees it.
pub enum ExecDecision {
    /// Allowed; the flag tells whether the command changes state.
    Allowed(bool),
    /// Refused: the command is not whitelisted.
    NotWhitelisted,
    /// Refused: the caller lacks the ops role.
    NeedsOps,
}

/// The decision for `command` by a caller with `role` on `vcluster`, given
/// the exec whitelist: platform admins may run anything (reported as
/// state-changing when not whitelisted); others need a whitelisted command
/// and the ops role, except that viewers may run read-only commands.
pub open spec fn exec_decision(
    exec_map: Map<Seq<char>, crate::agent::whitelist::WhitelistEntryView>,
    role: Seq<char>,
    vcluster: Seq<char>,
    command: Seq<char>,
) -> ExecDecision {
    if !exec_map.contains_key(command) {
        if is_admin_role(role) {
            ExecDecision::Allowed(true)
        } else {
            ExecDecision::NotWhitelisted
        }
    } else {
        let state_changing = exec_map[command].state_changing;
        if !is_ops_role(role, vcluster) {
            if is_viewer_role(role, vcluster) && !state_changing {
                ExecDecision::Allowed(false)
            } else {
                ExecDecision::NeedsOps
            }
        } else {
            ExecDecision::Allowed(state_changing)
        }
    }
}

/// Authorizes a command for exec: whitelist check, admin bypass, role
/// check.  Returns whether the command is state-changing.  A refused
/// command outside the whitelist is recorded as denied (learning mode).
pub fn authorize_exec(
    whitelist: &mut WhitelistManager,
    identity: &Identity,
    vcluster_id: &str,
    command: &str,
) -> (r: Result<bool, AuthError>)
    requires
        old(whitelist).wf(),
    ensures
        final(whitelist).wf(),
        final(whitelist).exec_map() == old(whitelist).exec_map(),
        final(whitelist).shell_map() == old(whitelist).shell_map(),
        final(whitelist).learning() == old(whitelist).learning(),
        match exec_decision(old(whitelist).exec_map(), identity.role@, vcluster_id@, command@) {
            ExecDecision::Allowed(sc) => r == Ok::<bool, AuthError>(sc)
                && final(whitelist).denied() == old(whitelist).denied(),
            ExecDecision::NotWhitelisted => (r matches Err(AuthError::InsufficientPrivileges(m))
                && m@ == "command not whitelisted: "@ + command@)
                && final(whitelist).denied() == after_denial(old(whitelist).denied(), old(whitelist).learning(), command@),
            ExecDecision::NeedsOps => (r matches Err(AuthError::InsufficientPrivileges(m))
                && m@ == "requires pact-ops-"@ + vcluster_id@ + " or pact-platform-admin role"@)
                && final(whitelist).denied() == old(whitelist).denied(),
        },
{
    if !whitelist.is_exec_allowed(command) {
        if is_platform_admin(identity) {
            return Ok(true);
        }
        whitelist.record_denied(command);
        let mut m: Vec<char> = Vec::new();
        push_str(&mut m, "command not whitelisted: ");
        push_str(&mut m, command);
        return Err(AuthError::InsufficientPrivileges(string_of(&m)));
    }
    let state_changing = whitelist.is_state_changing(command);
    if !has_ops_role(identity, vcluster_id) {
        if has_viewer_role(identity, vcluster_id) && !state_changing {
            return Ok(false);
        }
        let mut m: Vec<char> = Vec::new();
        push_str(&mut m, "requires pact-ops-");
        push_str(&mut m, vcluster_id);
        push_str(&mut m, " or pact-platform-admin role");
        return Err(AuthError::InsufficientPrivileges(string_of(&m)));
    }
    Ok(state_changing)
}

/// A viewer is never allowed a state-changing command, and a command
/// outside the whitelist is allowed only to the platform admin.
pub proof fn law_exec_authorization(
    exec_map: Map<Seq<char>, crate::agent::whitelist::WhitelistEntryView>,
    role: Seq<char>,
    vcluster: Seq<char>,
    command: Seq<char>,
)
    ensures
        exec_map.contains_key(command) && exec_map[command].state_changing
            && !is_ops_role(role, vcluster)
            ==> exec_decision(exec_map, role, vcluster, command) is NeedsOps,
        !exec_map.contains_key(command)
            ==> (exec_decision(exec_map, role, vcluster, command) is Allowed <==> is_admin_role(role)),
        exec_decision(exec_map, role, vcluster, command) is Allowed ==> is_viewer_role(role, vcluster),
{
}

/// The role needed for an interactive shell: the ops role of the vCluster
/// (or platform admin); viewers are refused.
pub fn authorize_shell(identity: &Identity, vcluster_id: &str) -> (r: Result<(), String>)
    ensures
        r is Ok <==> is_ops_role(identity.role@, vcluster_id@),
        r matches Err(m) ==> m@ == "shell requires pact-ops-"@ + vcluster_id@ + " or pact-platform-admin role"@,
{
    if has_ops_role(identity, vcluster_id) {
        return Ok(());
    }
    let mut m: Vec<char> = Vec::new();
    push_str(&mut m, "shell requires pact-ops-");
    push_str(&mut m, vcluster_id);
    push_str(&mut m, " or pact-platform-admin role");
    Err(string_of(&m))
}

/// Largest terminal dimension accepted from a client.
pub const MAX_TERMINAL_DIM: u32 = 500;

/// Terminal type used when the client names none.
pub open spec fn default_term() -> Seq<char> {
    "xterm-256color"@
}

/// A message of the interactive shell protocol, from the client.
#[derive(Debug)]
pub enum ShellInputMsg {
    /// Opens the session with the terminal's dimensions and type.
    Open { rows: u32, cols: u32, term: String },
    /// Bytes typed by the user.
    Stdin(Vec<u8>),
    /// The terminal was resized.
    Resize { rows: u32, cols: u32 },
    /// The client closes the session.
    Close,
}

/// The terminal a session opens with.
#[derive(Debug)]
pub struct TerminalSize {
    pub rows: u16,
    pub cols: u16,
    pub term: String,
}

/// A dimension clamped to the accepted range.
pub open spec fn clamped(d: u32) -> u16 {
    if d < MAX_TERMINAL_DIM { d as u16 } else { MAX_TERMINAL_DIM as u16 }
}

/// Clamps a terminal dimension.
pub fn clamp_dim(d: u32) -> (r: u16)
    ensures
        r == clamped(d),
        r <= MAX_TERMINAL_DIM,
{
    if d < MAX_TERMINAL_DIM {
        d as u16
    } else {
        500u16
    }
}

/// Why a session could not be opened.
pub open spec fn open_refusal(first: Option<ShellInputMsg>) -> Option<Seq<char>> {
    match first {
        None => Some("stream closed before ShellOpen"@),
        Some(ShellInputMsg::Open { .. }) => None,
        Some(_) => Some("first message must be ShellOpen with terminal dimensions"@),
    }
}

/// Reads the terminal from the first message of a session, which must be
/// an open message (`None` when the stream ended first): dimensions
/// clamped, the default terminal type when none is named.
pub fn open_terminal(first: Option<ShellInputMsg>) -> (r: Result<TerminalSize, String>)
    ensures
        match open_refusal(first) {
            Some(m) => r matches Err(e) && e@ == m,
            None => r matches Ok(t) && first matches Some(ShellInputMsg::Open { rows, cols, term }) && t.rows
                == clamped(rows) && t.cols == clamped(cols) && t.term@ == (if term@.len() == 0 {
                default_term()
            } else {
                term@
            }),
        },
{
    match first {
        None => Err(string_from("stream closed before ShellOpen")),
        Some(ShellInputMsg::Open { rows, cols, term }) => {
            let t = if crate::text::chars_of(term.as_str()).len() == 0 {
                string_from("xterm-256color")
            } else {
                term
            };
            Ok(TerminalSize { rows: clamp_dim(rows), cols: clamp_dim(cols), term: t })
        },
        Some(_) => Err(string_from("first message must be ShellOpen with terminal dimensions")),
    }
}

/// What the session does with a client message.
#[derive(Debug)]
pub enum ShellStep {
    /// Write the bytes to the terminal.
    Write(Vec<u8>),
    /// Resize the terminal.
    Resize(u16, u16),
    /// End the session.
    Stop,
    /// Nothing (a repeated open, or an empty message).
    Ignore,
}

/// Decides what to do with a message during a session: input is written,
/// resizes are clamped, a close ends the session, anything else is
/// ignored.
pub fn shell_step(msg: Option<ShellInputMsg>) -> (r: ShellStep)
    ensures
        match msg {
            Some(ShellInputMsg::Stdin(d)) => r == ShellStep::Write(d),
            Some(ShellInputMsg::Resize { rows, cols }) => r == ShellStep::Resize(clamped(rows), clamped(cols)),
            Some(ShellInputMsg::Close) => r is Stop,
            _ => r is Ignore,
        },
{
    match msg {
        Some(ShellInputMsg::Stdin(d)) => ShellStep::Write(d),
        Some(ShellInputMsg::Resize { rows, cols }) => ShellStep::Resize(clamp_dim(rows), clamp_dim(cols)),
        Some(ShellInputMsg::Close) => ShellStep::Stop,
        _ => ShellStep::Ignore,
    }
}

/// A message of the interactive shell protocol, to the client.
#[derive(Debug)]
pub enum ShellOutputMsg {
    /// The session was opened under this identifier.
    SessionId(String),
    /// Terminal output.
    Stdout(Vec<u8>),
    /// The shell ended with this code.
    ExitCode(i32),
    /// The session failed.
    Error(String),
}

/// A message of the exec stream, to the client.
#[derive(Debug)]
pub enum ExecOutputMsg {
    Stdout(Vec<u8>),
    Stderr(Vec<u8>),
    ExitCode(i32),
    Error(String),
}

/// An exec stream message as plain values.
pub enum ExecOutputView {
    Stdout(Seq<u8>),
    Stderr(Seq<u8>),
    ExitCode(i32),
    Error(Seq<char>),
}

/// The plain values of a message.
pub open spec fn output_view(m: ExecOutputMsg) -> ExecOutputView {
    match m {
        ExecOutputMsg::Stdout(d) => ExecOutputView::Stdout(d@),
        ExecOutputMsg::Stderr(d) => ExecOutputView::Stderr(d@),
        ExecOutputMsg::ExitCode(c) => ExecOutputView::ExitCode(c),
        ExecOutputMsg::Error(e) => ExecOutputView::Error(e@),
    }
}

/// The messages that answer an exec: the captured streams that are not
/// empty, then the exit code; or the error.
pub open spec fn exec_stream(outcome: Result<ExecResult, ShellError>) -> Seq<ExecOutputView> {
    match outcome {
        Ok(res) => (if res.stdout@.len() > 0 {
            seq![ExecOutputView::Stdout(res.stdout@)]
        } else {
            Seq::empty()
        }) + (if res.stderr@.len() > 0 {
            seq![ExecOutputView::Stderr(res.stderr@)]
        } else {
            Seq::empty()
        }) + seq![ExecOutputView::ExitCode(res.exit_code)],
        Err(e) => seq![ExecOutputView::Error(shell_error_text(e))],
    }
}

/// Builds the messages answering an exec.
pub fn exec_output_messages(outcome: Result<ExecResult, ShellError>) -> (r: Vec<ExecOutputMsg>)
    ensures
        r@.map_values(|m: ExecOutputMsg| output_view(m)) == exec_stream(outcome),
{
    let mut out: Vec<ExecOutputMsg> = Vec::new();
    match outcome {
        Ok(res) => {
            let ExecResult { stdout, stderr, exit_code } = res;
            let has_out = stdout.len() > 0;
            let has_err = stderr.len() > 0;
            if has_out {
                out.push(ExecOutputMsg::Stdout(stdout));
            }
            if has_err {
                out.push(ExecOutputMsg::Stderr(stderr));
            }
            out.push(ExecOutputMsg::ExitCode(exit_code));
            proof {
                assert(out@.map_values(|m: ExecOutputMsg| output_view(m)) =~= exec_stream(outcome));
            }
        },
        Err(e) => {
            out.push(ExecOutputMsg::Error(e.message()));
            proof {
                assert(out@.map_values(|m: ExecOutputMsg| output_view(m)) =~= exec_stream(outcome));
            }
        },
    }
    out
}

/// How far an extension request moves the commit window: the minutes
/// asked for, in seconds; asking for no time at all is refused.
pub fn extension_seconds(additional_minutes: u32) -> (r: Result<u64, String>)
    ensures
        additional_minutes == 0 ==> (r matches Err(m) && m@ == "additional_minutes must be > 0"@),
        additional_minutes > 0 ==> (r matches Ok(s) && s == additional_minutes * 60),
{
    if additional_minutes == 0 {
        return Err(string_from("additional_minutes must be > 0"));
    }
    Ok(additional_minutes as u64 * 60)
}

/// How a shell call is refused (the gRPC status kind).
#[derive(Debug, Clone, Copy, PartialEq, Eq, Structural)]
pub enum ShellRefusal {
    Unauthenticated,
    PermissionDenied,
    InvalidArgument,
    ResourceExhausted,
    Internal,
}

/// Where the opening of an interactive shell stands.
#[derive(Debug)]
pub enum ShellSetupPhase {
    /// The caller is being authenticated.
    Authenticating,
    /// Waiting for the client's open message.
    AwaitingOpen,
    /// A session is being created.
    CreatingSession,
    /// The session's terminal is being allocated.
    AllocatingPty { session_id: String },
    /// The session runs.
    Active { session_id: String },
    /// The call was refused.
    Refused,
}

/// What the runtime reports back while a shell opens.
#[derive(Debug)]
pub enum ShellSetupEvent {
    /// The caller's identity, or why authentication failed.
    Authenticated(Result<Identity, String>),
    /// The first client message (`None` when the stream ended first).
    FirstMessage(Option<ShellInputMsg>),
    /// Reading the stream failed.
    StreamError(String),
    /// The session was created under this identifier, or refused.
    SessionCreated(Result<String, String>),
    /// The terminal was allocated, or why not.
    PtyAllocated(Result<(), String>),
}

/// What the runtime does next.
#[derive(Debug)]
pub enum ShellSetupAction {
    /// Refuse the call.
    Refuse(ShellRefusal, String),
    /// Read the first client message.
    ReadFirstMessage,
    /// Create a session with this terminal.
    CreateSession(TerminalSize),
    /// Allocate the session's terminal.
    AllocatePty(String),
    /// Remove the session, then refuse the call.
    RemoveAndRefuse(String, ShellRefusal, String),
    /// Mark the session active and send its identifier to the client.
    Activate(String),
    /// Nothing: the event does not belong to this phase.
    Ignore,
}

fn prefixed(prefix: &str, s: &str) -> (r: String)
    ensures
        r@ == prefix@ + s@,
{
    let mut out: Vec<char> = Vec::new();
    push_str(&mut out, prefix);
    push_str(&mut out, s);
    string_of(&out)
}

/// The opening of an interactive shell, one step at a time: the caller is
/// authenticated and must hold the ops role of the vCluster; the first
/// message must open a terminal; then a session is created, its terminal
/// allocated (a failure removes the session) and the session activated.
/// An event that does not belong to the phase changes nothing.
pub fn shell_setup_step(phase: ShellSetupPhase, vcluster_id: &str, event: ShellSetupEvent) -> (r: (ShellSetupPhase, ShellSetupAction))
    ensures
        match (phase, event) {
            (ShellSetupPhase::Authenticating, ShellSetupEvent::Authenticated(Err(e))) => r.1 matches ShellSetupAction::Refuse(k, m)
                && k == ShellRefusal::Unauthenticated && m@ == e@ && r.0 is Refused,
            (ShellSetupPhase::Authenticating, ShellSetupEvent::Authenticated(Ok(id))) => if is_ops_role(id.role@, vcluster_id@) {
                r.0 is AwaitingOpen && r.1 is ReadFirstMessage
            } else {
                r.1 matches ShellSetupAction::Refuse(k, m) && k == ShellRefusal::PermissionDenied && m@
                    == "shell requires pact-ops-"@ + vcluster_id@ + " or pact-platform-admin role"@ && r.0 is Refused
            },
            (ShellSetupPhase::AwaitingOpen, ShellSetupEvent::StreamError(e)) => r.1 matches ShellSetupAction::Refuse(k, m)
                && k == ShellRefusal::Internal && m@ == "stream error: "@ + e@ && r.0 is Refused,
            (ShellSetupPhase::AwaitingOpen, ShellSetupEvent::FirstMessage(first)) => match open_refusal(first) {
                Some(m) => r.1 matches ShellSetupAction::Refuse(k, t) && k == ShellRefusal::InvalidArgument && t@ == m
                    && r.0 is Refused,
                None => r.1 matches ShellSetupAction::CreateSession(t) && r.0 is CreatingSession && (first matches Some(
                    ShellInputMsg::Open { rows, cols, term },
                ) && t.rows == clamped(rows) && t.cols == clamped(cols) && t.term@ == (if term@.len() == 0 {
                    default_term()
                } else {
                    term@
                })),
            },
            (ShellSetupPhase::CreatingSession, ShellSetupEvent::SessionCreated(Err(e))) => r.1 matches ShellSetupAction::Refuse(
                k,
                m,
            ) && k == ShellRefusal::ResourceExhausted && m@ == e@ && r.0 is Refused,
            (ShellSetupPhase::CreatingSession, ShellSetupEvent::SessionCreated(Ok(id))) => r.0 matches ShellSetupPhase::AllocatingPty {
                session_id,
            } && session_id == id && (r.1 matches ShellSetupAction::AllocatePty(s) && s == id),
            (ShellSetupPhase::AllocatingPty { session_id }, ShellSetupEvent::PtyAllocated(Err(e))) => r.1 matches ShellSetupAction::RemoveAndRefuse(
                s,
                k,
                m,
            ) && s == session_id && k == ShellRefusal::Internal && m@ == "PTY allocation failed: "@ + e@ && r.0 is Refused,
            (ShellSetupPhase::AllocatingPty { session_id }, ShellSetupEvent::PtyAllocated(Ok(_))) => r.0 matches ShellSetupPhase::Active {
                session_id: s,
            } && s == session_id && (r.1 matches ShellSetupAction::Activate(a) && a == session_id),
            (p, _) => r.0 == p && r.1 is Ignore,
        },
{
    match (phase, event) {
        (ShellSetupPhase::Authenticating, ShellSetupEvent::Authenticated(Err(e))) => {
            (ShellSetupPhase::Refused, ShellSetupAction::Refuse(ShellRefusal::Unauthenticated, e))
        },
        (ShellSetupPhase::Authenticating, ShellSetupEvent::Authenticated(Ok(id))) => match authorize_shell(&id, vcluster_id) {
            Ok(()) => (ShellSetupPhase::AwaitingOpen, ShellSetupAction::ReadFirstMessage),
            Err(m) => (ShellSetupPhase::Refused, ShellSetupAction::Refuse(ShellRefusal::PermissionDenied, m)),
        },
        (ShellSetupPhase::AwaitingOpen, ShellSetupEvent::StreamError(e)) => {
            (ShellSetupPhase::Refused, ShellSetupAction::Refuse(ShellRefusal::Internal, prefixed("stream error: ", e.as_str())))
        },
        (ShellSetupPhase::AwaitingOpen, ShellSetupEvent::FirstMessage(first)) => match open_terminal(first) {
            Ok(t) => (ShellSetupPhase::CreatingSession, ShellSetupAction::CreateSession(t)),
            Err(m) => (ShellSetupPhase::Refused, ShellSetupAction::Refuse(ShellRefusal::InvalidArgument, m)),
        },
        (ShellSetupPhase::CreatingSession, ShellSetupEvent::SessionCreated(Err(e))) => {
            (ShellSetupPhase::Refused, ShellSetupAction::Refuse(ShellRefusal::ResourceExhausted, e))
        },
        (ShellSetupPhase::CreatingSession, ShellSetupEvent::SessionCreated(Ok(id))) => {
            let s = id.clone();
            (ShellSetupPhase::AllocatingPty { session_id: id }, ShellSetupAction::AllocatePty(s))
        },
        (ShellSetupPhase::AllocatingPty { session_id }, ShellSetupEvent::PtyAllocated(Err(e))) => {
            let m = prefixed("PTY allocation failed: ", e.as_str());
            (ShellSetupPhase::Refused, ShellSetupAction::RemoveAndRefuse(session_id, ShellRefusal::Internal, m))
        },
        (ShellSetupPhase::AllocatingPty { session_id }, ShellSetupEvent::PtyAllocated(Ok(_))) => {
            let s = session_id.clone();
            (ShellSetupPhase::Active { session_id }, ShellSetupAction::Activate(s))
        },
        (p, _) => (p, ShellSetupAction::Ignore),
    }
}

} // verus!
