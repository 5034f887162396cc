//! Single command execution: results, errors, limits, and the capping of
//! captured output.
//!
//! Commands are run directly (no shell interpretation) by the agent's
//! runtime; this module holds what that runtime decides.

use vstd::prelude::*;

use crate::text::{chars_of, push_chars, push_str, push_u64, string_from, string_of};

verus! {

broadcast use vstd::string::group_string_axioms;

/// Result of a command execution.
#[derive(Debug)]
pub struct ExecResult {
    /// Captured stdout output.
    pub stdout: Vec<u8>,
    /// Captured stderr output.
    pub stderr: Vec<u8>,
    /// Process exit code.
    pub exit_code: i32,
}

/// Errors during command execution.
#[derive(Debug)]
pub enum ExecError {
    NotWhitelisted(String),
    NotFound(String),
    ExecutionFailed(String),
    Timeout(u64),
}

/// The text of an execution error.
pub open spec fn exec_error_text(e: ExecError) -> Seq<char> {
    match e {
        ExecError::NotWhitelisted(c) => "command not whitelisted: "@ + c@,
        ExecError::NotFound(c) => "command not found on PATH: "@ + c@,
        ExecError::ExecutionFailed(d) => "execution failed: "@ + d@,
        ExecError::Timeout(s) => "command timed out after "@ + crate::text::dec(s as nat) + " seconds"@,
    }
}

impl ExecError {
    /// The error's message.
    pub fn message(&self) -> (m: String)
        ensures
            m@ == exec_error_text(*self),
    {
        let mut out: Vec<char> = Vec::new();
        match self {
            ExecError::NotWhitelisted(c) => {
                push_str(&mut out, "command not whitelisted: ");
                push_chars(&mut out, &chars_of(c.as_str()));
            },
            ExecError::NotFound(c) => {
                push_str(&mut out, "command not found on PATH: ");
                push_chars(&mut out, &chars_of(c.as_str()));
            },
            ExecError::ExecutionFailed(d) => {
                push_str(&mut out, "execution failed: ");
                push_chars(&mut out, &chars_of(d.as_str()));
            },
            ExecError::Timeout(s) => {
                push_str(&mut out, "command timed out after ");
                push_u64(&mut out, *s);
                push_str(&mut out, " seconds");
            },
        }
        string_of(&out)
    }
}

/// Configuration for command execution.
#[derive(Debug, Clone, Copy)]
pub struct ExecConfig {
    /// Maximum execution time in seconds (0 = no limit).
    pub timeout_seconds: u64,
    /// Maximum output size in bytes (to prevent runaway output).
    pub max_output_bytes: usize,
}

impl Default for ExecConfig {
    /// Five minutes and 10 MiB.
    fn default() -> (r: Self)
        ensures
            r.timeout_seconds == 300,
            r.max_output_bytes == 10_485_760,
    {
        ExecConfig { timeout_seconds: 300, max_output_bytes: 10_485_760 }
    }
}

/// Appends a chunk read from a child's stream to the captured output,
/// keeping at most `max` bytes.  Returns whether reading stops because the
/// limit was reached.
pub fn append_capped(output: &mut Vec<u8>, chunk: &[u8], max: usize) -> (stop: bool)
    requires
        old(output)@.len() <= max,
    ensures
        stop == (old(output)@.len() + chunk@.len() > max),
        final(output)@ == if stop {
            old(output)@ + chunk@.take(max - old(output)@.len())
        } else {
            old(output)@ + chunk@
        },
        final(output)@.len() <= max,
{
    let ghost start = output@;
    let stop = chunk.len() > max || output.len() > max - chunk.len();
    let take = if stop { max - output.len() } else { chunk.len() };
    let mut i: usize = 0;
    while i < take
        invariant
            i <= take <= chunk@.len(),
            start.len() <= max,
            take == if stop { (max - start.len()) as usize } else { chunk@.len() as usize },
            output@ == start + chunk@.take(i as int),
        decreases take - i,
    {
        output.push(chunk[i]);
        proof {
            assert(chunk@.take(i + 1) =~= chunk@.take(i as int).push(chunk@[i as int]));
        }
        i = i + 1;
    }
    proof {
        if !stop {
            assert(chunk@.take(take as int) =~= chunk@);
        }
    }
    stop
}

/// The environment a command runs with; the agent's own is cleared.
pub open spec fn exec_env() -> Seq<(Seq<char>, Seq<char>)> {
    seq![("PATH"@, "/usr/bin:/bin"@), ("HOME"@, "/tmp"@), ("LANG"@, "C.UTF-8"@)]
}

/// Builds the environment of a command.
pub fn exec_environment() -> (r: Vec<(String, String)>)
    ensures
        r@.map_values(|p: (String, String)| (p.0@, p.1@)) == exec_env(),
{
    let mut r: Vec<(String, String)> = Vec::new();
    r.push((string_from("PATH"), string_from("/usr/bin:/bin")));
    r.push((string_from("HOME"), string_from("/tmp")));
    r.push((string_from("LANG"), string_from("C.UTF-8")));
    proof {
        assert(r@.map_values(|p: (String, String)| (p.0@, p.1@)) =~= exec_env());
    }
    r
}

/// The error when a command could not be started: not found on the path,
/// or another failure with the system's description.
pub fn spawn_error(command: &str, not_found: bool, detail: String) -> (r: ExecError)
    ensures
        not_found ==> (r matches ExecError::NotFound(c) && c@ == command@),
        !not_found ==> r == ExecError::ExecutionFailed(detail),
{
    if not_found {
        ExecError::NotFound(string_from(command))
    } else {
        ExecError::ExecutionFailed(detail)
    }
}

/// The exit code reported for a finished command: its own, or -1 when it
/// has none (ended by a signal).
pub fn exit_code_of(code: Option<i32>) -> (r: i32)
    ensures
        r == match code {
            Some(c) => c,
            None => -1i32,
        },
{
    match code {
        Some(c) => c,
        None => -1,
    }
}

} // verus!
