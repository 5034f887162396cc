//! `pact exec`: rendering of remote command output, exit codes, and the
//! split of a command line into command and arguments.

use vstd::prelude::*;

use crate::text::{chars_of, has_sub, push_chars, str_contains, string_of, views};

verus! {

broadcast use vstd::string::group_string_axioms;

/// Result of a remote exec operation.
#[derive(Debug, Clone)]
pub struct ExecResult {
    pub node_id: String,
    pub command: String,
    pub stdout: String,
    pub stderr: String,
    pub exit_code: i32,
}

/// Exit code: success.
pub const SUCCESS: i32 = 0;
/// Exit code: general error.
pub const GENERAL_ERROR: i32 = 1;
/// Exit code: authentication failure.
pub const AUTH_FAILURE: i32 = 2;
/// Exit code: rejected by policy.
pub const POLICY_REJECTION: i32 = 3;
/// Exit code: conflict.
pub const CONFLICT: i32 = 4;
/// Exit code: timeout.
pub const TIMEOUT: i32 = 5;
/// Exit code: command not whitelisted.
pub const NOT_WHITELISTED: i32 = 6;
/// Exit code: rollback failed.
pub const ROLLBACK_FAILED: i32 = 10;

/// The output of a remote command: stdout, then stderr, separated by a
/// newline when both are present.
pub open spec fn exec_output(stdout: Seq<char>, stderr: Seq<char>) -> Seq<char> {
    if stderr.len() == 0 {
        stdout
    } else if stdout.len() == 0 {
        stderr
    } else {
        stdout + seq!['\n'] + stderr
    }
}

/// Formats an exec result for display.
pub fn format_exec_result(result: &ExecResult) -> (r: String)
    ensures
        r@ == exec_output(result.stdout@, result.stderr@),
{
    let mut out: Vec<char> = Vec::new();
    let so = chars_of(result.stdout.as_str());
    let se = chars_of(result.stderr.as_str());
    if so.len() > 0 {
        push_chars(&mut out, &so);
    }
    if se.len() > 0 {
        if out.len() > 0 {
            out.push('\n');
        }
        push_chars(&mut out, &se);
    }
    proof {
        if se@.len() == 0 {
            assert(out@ =~= result.stdout@);
        } else if so@.len() == 0 {
            assert(out@ =~= result.stderr@);
        } else {
            assert(out@ =~= result.stdout@ + seq!['\n'] + result.stderr@);
        }
    }
    string_of(&out)
}

/// The exit code for an error message, by the first matching keyword group.
pub open spec fn exit_code_for(e: Seq<char>) -> i32 {
    if has_sub(e, "not whitelisted"@) || has_sub(e, "not allowed"@) {
        NOT_WHITELISTED
    } else if has_sub(e, "auth"@) || has_sub(e, "token"@) || has_sub(e, "unauthorized"@) {
        AUTH_FAILURE
    } else if has_sub(e, "policy"@) || has_sub(e, "denied"@) {
        POLICY_REJECTION
    } else if has_sub(e, "timeout"@) || has_sub(e, "unreachable"@) {
        TIMEOUT
    } else {
        GENERAL_ERROR
    }
}

/// The exit code of an error message goes by the first keyword group it
/// contains: "not whitelisted"/"not allowed" (6), then "auth"/"token"/
/// "unauthorized" (2), then "policy"/"denied" (3), then "timeout"/
/// "unreachable" (5); a message with none of them is a general error (1).
pub proof fn law_exit_code_groups(e: Seq<char>)
    ensures
        ({
            let whitelist = has_sub(e, "not whitelisted"@) || has_sub(e, "not allowed"@);
            let auth = has_sub(e, "auth"@) || has_sub(e, "token"@) || has_sub(e, "unauthorized"@);
            let policy = has_sub(e, "policy"@) || has_sub(e, "denied"@);
            let timeout = has_sub(e, "timeout"@) || has_sub(e, "unreachable"@);
            &&& whitelist ==> exit_code_for(e) == 6
            &&& !whitelist && auth ==> exit_code_for(e) == 2
            &&& !whitelist && !auth && policy ==> exit_code_for(e) == 3
            &&& !whitelist && !auth && !policy && timeout ==> exit_code_for(e) == 5
            &&& !whitelist && !auth && !policy && !timeout ==> exit_code_for(e) == 1
            &&& !whitelist && !auth && has_sub(e, "denied"@) ==> exit_code_for(e) == 3
            &&& !whitelist && !auth && has_sub(e, "policy"@) ==> exit_code_for(e) == 3
        }),
{
}

/// Maps an exec error message to a CLI exit code.
pub fn error_to_exit_code(error: &str) -> (r: i32)
    ensures
        r == exit_code_for(error@),
{
    if str_contains(error, "not whitelisted") || str_contains(error, "not allowed") {
        NOT_WHITELISTED
    } else if str_contains(error, "auth") || str_contains(error, "token") || str_contains(error, "unauthorized") {
        AUTH_FAILURE
    } else if str_contains(error, "policy") || str_contains(error, "denied") {
        POLICY_REJECTION
    } else if str_contains(error, "timeout") || str_contains(error, "unreachable") {
        TIMEOUT
    } else {
        GENERAL_ERROR
    }
}

/// Splits a command line into the command and its arguments; an empty
/// line is refused.
pub fn parse_exec_command(parts: &[String]) -> (r: Result<(String, Vec<String>), String>)
    ensures
        parts@.len() == 0 <==> r is Err,
        r matches Err(m) ==> m@ == "No command specified"@,
        r matches Ok((c, a)) ==> c@ == parts@[0]@ && views(a@) == views(parts@).skip(1),
{
    if parts.len() == 0 {
        return Err(crate::text::string_from("No command specified"));
    }
    let command = parts[0].clone();
    let mut args: Vec<String> = Vec::new();
    let mut i: usize = 1;
    while i < parts.len()
        invariant
            1 <= i <= parts@.len(),
            views(args@) == views(parts@).subrange(1, i as int),
        decreases parts.len() - i,
    {
        let ghost before = args@;
        args.push(parts[i].clone());
        proof {
            assert(views(args@) =~= views(before).push(parts@[i as int]@));
            assert(views(args@) =~= views(parts@).subrange(1, i + 1));
        }
        i = i + 1;
    }
    proof {
        assert(views(parts@).subrange(1, parts@.len() as int) =~= views(parts@).skip(1));
    }
    Ok((command, args))
}

} // verus!
