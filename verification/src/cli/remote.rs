//! Talking to a node's agent: collecting the output of a remote command,
//! listing the commands it offers, and driving an interactive shell.  The
//! streams themselves are the client runtime's; it hands each message to
//! these functions.

use vstd::prelude::*;

use crate::agent::shell::{ExecOutputMsg, ShellInputMsg, ShellOutputMsg};
use crate::agent::whitelist::WhitelistEntry;
use crate::text::{
    chars_of, idec, pad_right, push_chars, push_i64, push_padded_right, push_str, string_from, string_of,
};

verus! {

broadcast use vstd::string::group_string_axioms;

/// The text of bytes read as UTF-8, invalid sequences replaced by
/// U+FFFD, as `String::from_utf8_lossy` decodes them.
pub uninterp spec fn lossy_text(b: Seq<u8>) -> Seq<char>;

/// `String::from_utf8_lossy`: the named decoding of the bytes.
#[verifier::external_body]
fn utf8_lossy(b: &[u8]) -> (r: String)
    ensures
        r@ == lossy_text(b@),
{
    String::from_utf8_lossy(b).into_owned()
}

/// What a remote command produced: its output streams and exit code.
#[derive(Debug)]
pub struct RemoteOutput {
    pub stdout: Vec<u8>,
    pub stderr: Vec<u8>,
    pub exit_code: i32,
}

/// The output gathered from the messages of an exec stream: bytes of each
/// stream appended in order, the last exit code (0 when none came); an
/// error message ends it.  Empty messages change nothing.
pub open spec fn gathered(ms: Seq<Option<ExecOutputMsg>>) -> Result<(Seq<u8>, Seq<u8>, i32), Seq<char>>
    decreases ms.len(),
{
    if ms.len() == 0 {
        Ok((Seq::empty(), Seq::empty(), 0i32))
    } else {
        match gathered(ms.drop_last()) {
            Err(e) => Err(e),
            Ok((o, e, c)) => match ms.last() {
                Some(ExecOutputMsg::Stdout(d)) => Ok((o + d@, e, c)),
                Some(ExecOutputMsg::Stderr(d)) => Ok((o, e + d@, c)),
                Some(ExecOutputMsg::ExitCode(k)) => Ok((o, e, k)),
                Some(ExecOutputMsg::Error(m)) => Err(m@),
                None => Ok((o, e, c)),
            },
        }
    }
}

fn append_bytes(out: &mut Vec<u8>, d: &Vec<u8>)
    ensures
        final(out)@ == old(out)@ + d@,
{
    let ghost start = out@;
    let mut i: usize = 0;
    while i < d.len()
        invariant
            i <= d@.len(),
            out@ == start + d@.take(i as int),
        decreases d.len() - i,
    {
        out.push(d[i]);
        proof {
            assert(d@.take(i + 1) =~= d@.take(i as int).push(d@[i as int]));
        }
        i = i + 1;
    }
    proof {
        assert(d@.take(d@.len() as int) =~= d@);
    }
}

/// Gathers the output of a remote command from its stream.
pub fn gather_exec_stream(msgs: &[Option<ExecOutputMsg>]) -> (r: Result<RemoteOutput, String>)
    ensures
        match gathered(msgs@) {
            Ok((o, e, c)) => r matches Ok(out) && out.stdout@ == o && out.stderr@ == e && out.exit_code == c,
            Err(m) => r matches Err(x) && x@ == m,
        },
{
    let mut stdout: Vec<u8> = Vec::new();
    let mut stderr: Vec<u8> = Vec::new();
    let mut exit_code: i32 = 0;
    let mut i: usize = 0;
    while i < msgs.len()
        invariant
            i <= msgs@.len(),
            gathered(msgs@.take(i as int)) == Ok::<(Seq<u8>, Seq<u8>, i32), Seq<char>>(
                (stdout@, stderr@, exit_code),
            ),
        decreases msgs.len() - i,
    {
        proof {
            assert(msgs@.take(i + 1).drop_last() =~= msgs@.take(i as int));
        }
        match &msgs[i] {
            Some(ExecOutputMsg::Stdout(d)) => append_bytes(&mut stdout, d),
            Some(ExecOutputMsg::Stderr(d)) => append_bytes(&mut stderr, d),
            Some(ExecOutputMsg::ExitCode(k)) => {
                exit_code = *k;
            },
            Some(ExecOutputMsg::Error(m)) => {
                proof {
                    lemma_gathered_stays_err(msgs@, i + 1);
                }
                return Err(m.clone());
            },
            None => {},
        }
        i = i + 1;
    }
    proof {
        assert(msgs@.take(msgs@.len() as int) =~= msgs@);
    }
    Ok(RemoteOutput { stdout, stderr, exit_code })
}

/// Once the gathering has failed, it stays failed with the same message.
proof fn lemma_gathered_stays_err(ms: Seq<Option<ExecOutputMsg>>, k: int)
    requires
        0 <= k <= ms.len(),
        gathered(ms.take(k)) is Err,
    ensures
        gathered(ms) == gathered(ms.take(k)),
    decreases ms.len() - k,
{
    if k == ms.len() {
        assert(ms.take(k) =~= ms);
    } else {
        assert(ms.take(k + 1).drop_last() =~= ms.take(k));
        lemma_gathered_stays_err(ms, k + 1);
    }
}

/// The text shown for a remote command: its output, then its error
/// output (on a new line when both are there), then the exit code when
/// it is not zero.
pub open spec fn remote_text(o: Seq<u8>, e: Seq<u8>, code: i32) -> Seq<char> {
    let out = if o.len() > 0 { lossy_text(o) } else { Seq::empty() };
    let with_err = if e.len() > 0 {
        out + (if out.len() > 0 { "\n"@ } else { Seq::empty() }) + lossy_text(e)
    } else {
        out
    };
    with_err + if code != 0 { "\n(exit code: "@ + idec(code as int) + ")"@ } else { Seq::empty() }
}

/// Renders the output of a remote command.
pub fn format_remote_output(out: &RemoteOutput) -> (r: String)
    ensures
        r@ == remote_text(out.stdout@, out.stderr@, out.exit_code),
{
    let mut text: Vec<char> = Vec::new();
    if out.stdout.len() > 0 {
        push_chars(&mut text, &chars_of(utf8_lossy(out.stdout.as_slice()).as_str()));
    }
    if out.stderr.len() > 0 {
        if text.len() > 0 {
            push_str(&mut text, "\n");
        }
        push_chars(&mut text, &chars_of(utf8_lossy(out.stderr.as_slice()).as_str()));
    }
    if out.exit_code != 0 {
        push_str(&mut text, "\n(exit code: ");
        push_i64(&mut text, out.exit_code as i64);
        push_str(&mut text, ")");
    }
    proof {
        assert(text@ =~= remote_text(out.stdout@, out.stderr@, out.exit_code));
    }
    string_of(&text)
}

/// A command an agent offers.
#[derive(Debug, Clone)]
pub struct CommandEntry {
    pub command: String,
    pub state_changing: bool,
    pub description: String,
}

/// The commands an agent offers, from its whitelist entries.
pub fn command_entries(entries: &[&WhitelistEntry]) -> (r: Vec<CommandEntry>)
    ensures
        r@.len() == entries@.len(),
        forall|i: int| 0 <= i < r@.len() ==> {
            &&& (#[trigger] r@[i]).command@ == entries@[i].command@
            &&& r@[i].state_changing == entries@[i].state_changing
            &&& r@[i].description@ == entries@[i].description@
        },
{
    let mut r: Vec<CommandEntry> = Vec::new();
    let mut i: usize = 0;
    while i < entries.len()
        invariant
            i <= entries@.len(),
            r@.len() == i,
            forall|j: int| 0 <= j < i ==> {
                &&& (#[trigger] r@[j]).command@ == entries@[j].command@
                &&& r@[j].state_changing == entries@[j].state_changing
                &&& r@[j].description@ == entries@[j].description@
            },
        decreases entries.len() - i,
    {
        let e = entries[i];
        r.push(
            CommandEntry {
                command: e.command.clone(),
                state_changing: e.state_changing,
                description: e.description.clone(),
            },
        );
        i = i + 1;
    }
    r
}

/// One row of the command listing.
pub open spec fn command_row(c: CommandEntry) -> Seq<char> {
    pad_right(c.command@, 24) + " "@ + pad_right(if c.state_changing { "yes"@ } else { "no"@ }, 6) + " "@
        + c.description@ + "\n"@
}

/// The rows of the command listing, in order.
pub open spec fn command_rows(cs: Seq<CommandEntry>) -> Seq<char>
    decreases cs.len(),
{
    if cs.len() == 0 {
        Seq::empty()
    } else {
        command_rows(cs.drop_last()) + command_row(cs.last())
    }
}

/// The command listing: a notice when there is none, else a header and a
/// row per command.
pub open spec fn command_list_text(cs: Seq<CommandEntry>) -> Seq<char> {
    if cs.len() == 0 {
        "No commands available."@
    } else {
        pad_right("COMMAND"@, 24) + " "@ + pad_right("STATE"@, 6) + " "@ + "DESCRIPTION"@ + "\n"@ + command_rows(cs)
    }
}

fn push_command_row(out: &mut Vec<char>, c: &CommandEntry)
    ensures
        final(out)@ == old(out)@ + command_row(*c),
{
    push_padded_right(out, &chars_of(c.command.as_str()), 24);
    push_str(out, " ");
    let state = if c.state_changing {
        chars_of("yes")
    } else {
        chars_of("no")
    };
    push_padded_right(out, &state, 6);
    push_str(out, " ");
    push_chars(out, &chars_of(c.description.as_str()));
    push_str(out, "\n");
    proof {
        assert(final(out)@ =~= old(out)@ + command_row(*c));
    }
}

/// Lists the commands an agent offers.
pub fn format_command_list(cmds: &[CommandEntry]) -> (r: String)
    ensures
        r@ == command_list_text(cmds@),
{
    if cmds.len() == 0 {
        return string_from("No commands available.");
    }
    let mut out: Vec<char> = Vec::new();
    push_padded_right(&mut out, &chars_of("COMMAND"), 24);
    push_str(&mut out, " ");
    push_padded_right(&mut out, &chars_of("STATE"), 6);
    push_str(&mut out, " ");
    push_str(&mut out, "DESCRIPTION");
    push_str(&mut out, "\n");
    let ghost head = out@;
    let mut i: usize = 0;
    while i < cmds.len()
        invariant
            i <= cmds@.len(),
            out@ == head + command_rows(cmds@.take(i as int)),
        decreases cmds.len() - i,
    {
        proof {
            assert(cmds@.take(i + 1).drop_last() =~= cmds@.take(i as int));
        }
        push_command_row(&mut out, &cmds[i]);
        i = i + 1;
    }
    proof {
        assert(cmds@.take(cmds@.len() as int) =~= cmds@);
    }
    string_of(&out)
}

/// The first message of an interactive shell: a 24 by 80 terminal of the
/// user's type (`xterm` when unknown).
pub fn shell_open_message(term: Option<String>) -> (r: ShellInputMsg)
    ensures
        r matches ShellInputMsg::Open { rows, cols, term: t } && rows == 24 && cols == 80 && t@ == match term {
            Some(x) => x@,
            None => "xterm"@,
        },
{
    let t = match term {
        Some(x) => x,
        None => string_from("xterm"),
    };
    ShellInputMsg::Open { rows: 24, cols: 80, term: t }
}

/// What the client does with a message from the shell.
#[derive(Debug)]
pub enum ShellClientStep {
    /// Write the bytes to the terminal.
    Print(Vec<u8>),
    /// Tell the user (on the error stream).
    Notice(String),
    /// The session is over, with this outcome.
    Finish(Result<String, String>),
    /// Nothing to do.
    Continue,
}

/// Decides what the client does with a message from the shell: output is
/// printed, the session identifier announced, an exit code or error ends
/// the session.
pub fn shell_client_step(msg: Option<ShellOutputMsg>) -> (r: ShellClientStep)
    ensures
        match msg {
            Some(ShellOutputMsg::Stdout(d)) => r == ShellClientStep::Print(d),
            Some(ShellOutputMsg::SessionId(id)) => r matches ShellClientStep::Notice(m) && m@ == "Shell session: "@
                + id@,
            Some(ShellOutputMsg::ExitCode(c)) => r matches ShellClientStep::Finish(Ok(m)) && m@
                == "Shell exited with code "@ + idec(c as int),
            Some(ShellOutputMsg::Error(e)) => r matches ShellClientStep::Finish(Err(m)) && m@ == "shell error: "@
                + e@,
            None => r is Continue,
        },
{
    match msg {
        Some(ShellOutputMsg::Stdout(d)) => ShellClientStep::Print(d),
        Some(ShellOutputMsg::SessionId(id)) => {
            let mut m: Vec<char> = Vec::new();
            push_str(&mut m, "Shell session: ");
            push_str(&mut m, id.as_str());
            ShellClientStep::Notice(string_of(&m))
        },
        Some(ShellOutputMsg::ExitCode(c)) => {
            let mut m: Vec<char> = Vec::new();
            push_str(&mut m, "Shell exited with code ");
            push_i64(&mut m, c as i64);
            ShellClientStep::Finish(Ok(string_of(&m)))
        },
        Some(ShellOutputMsg::Error(e)) => {
            let mut m: Vec<char> = Vec::new();
            push_str(&mut m, "shell error: ");
            push_str(&mut m, e.as_str());
            ShellClientStep::Finish(Err(string_of(&m)))
        },
        None => ShellClientStep::Continue,
    }
}

} // verus!
