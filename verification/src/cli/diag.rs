//! `pact diag`: the request sent to an agent and the text made of the
//! chunks it streams back.

use vstd::prelude::*;

use crate::agent::diag::DiagChunk;
use crate::text::{push_str, push_string, string_from, string_of, views};

verus! {

broadcast use vstd::string::group_string_axioms;

/// A diagnostic request: which sources, the service (empty for all), the
/// grep pattern (empty for none) and the line limit per source.
#[derive(Debug, Clone)]
pub struct DiagRequest {
    pub source_filter: String,
    pub service_name: String,
    pub grep_pattern: String,
    pub line_limit: u32,
}

/// An optional argument as sent: empty when absent.
pub open spec fn or_empty(o: Option<&str>) -> Seq<char> {
    match o {
        Some(s) => s@,
        None => Seq::empty(),
    }
}

/// Builds the request for a node.
pub fn diag_request(source: &str, service: Option<&str>, grep: Option<&str>, lines: u32) -> (r: DiagRequest)
    ensures
        r.source_filter@ == source@,
        r.service_name@ == or_empty(service),
        r.grep_pattern@ == or_empty(grep),
        r.line_limit == lines,
{
    let service_name = match service {
        Some(s) => string_from(s),
        None => String::new(),
    };
    let grep_pattern = match grep {
        Some(g) => string_from(g),
        None => String::new(),
    };
    DiagRequest { source_filter: string_from(source), service_name, grep_pattern, line_limit: lines }
}

/// Lines, each followed by a newline.
pub open spec fn lines_block(ls: Seq<Seq<char>>) -> Seq<char>
    decreases ls.len(),
{
    if ls.len() == 0 {
        Seq::empty()
    } else {
        lines_block(ls.drop_last()) + ls.last() + "\n"@
    }
}

/// The text of one chunk: nothing when it has no lines, else a
/// `--- source ---` header, its lines, and `(truncated)` when older lines
/// were left out.
pub open spec fn chunk_text(c: DiagChunk) -> Seq<char> {
    if c.lines@.len() == 0 {
        Seq::empty()
    } else {
        "--- "@ + c.source@ + " ---\n"@ + lines_block(views(c.lines@)) + if c.truncated {
            "(truncated)\n"@
        } else {
            Seq::empty()
        }
    }
}

/// The texts of the chunks, in the order they came.
pub open spec fn chunks_text(cs: Seq<DiagChunk>) -> Seq<char>
    decreases cs.len(),
{
    if cs.len() == 0 {
        Seq::empty()
    } else {
        chunks_text(cs.drop_last()) + chunk_text(cs.last())
    }
}

/// The output of a diagnostic query: the chunk texts, or a notice when
/// there is nothing to show.
pub open spec fn diag_output(cs: Seq<DiagChunk>) -> Seq<char> {
    if chunks_text(cs).len() == 0 {
        "No log entries found."@
    } else {
        chunks_text(cs)
    }
}

fn push_chunk(out: &mut Vec<char>, c: &DiagChunk)
    ensures
        final(out)@ == old(out)@ + chunk_text(*c),
{
    if c.lines.len() == 0 {
        proof {
            assert(old(out)@ + chunk_text(*c) =~= old(out)@);
        }
        return;
    }
    push_str(out, "--- ");
    push_string(out, &c.source);
    push_str(out, " ---\n");
    let ghost head = out@;
    let mut j: usize = 0;
    while j < c.lines.len()
        invariant
            j <= c.lines@.len(),
            out@ == head + lines_block(views(c.lines@).take(j as int)),
        decreases c.lines.len() - j,
    {
        push_string(out, &c.lines[j]);
        push_str(out, "\n");
        proof {
            assert(views(c.lines@).take(j + 1).drop_last() =~= views(c.lines@).take(j as int));
        }
        j = j + 1;
    }
    proof {
        assert(views(c.lines@).take(c.lines@.len() as int) =~= views(c.lines@));
    }
    if c.truncated {
        push_str(out, "(truncated)\n");
    }
    proof {
        assert(out@ =~= old(out)@ + chunk_text(*c));
    }
}

/// Renders the chunks streamed back by an agent.
pub fn format_diag_output(chunks: &[DiagChunk]) -> (r: String)
    ensures
        r@ == diag_output(chunks@),
{
    let mut out: Vec<char> = Vec::new();
    let mut i: usize = 0;
    while i < chunks.len()
        invariant
            i <= chunks@.len(),
            out@ == chunks_text(chunks@.take(i as int)),
        decreases chunks.len() - i,
    {
        push_chunk(&mut out, &chunks[i]);
        proof {
            assert(chunks@.take(i + 1).drop_last() =~= chunks@.take(i as int));
        }
        i = i + 1;
    }
    proof {
        assert(chunks@.take(chunks@.len() as int) =~= chunks@);
    }
    if out.len() == 0 {
        return string_from("No log entries found.");
    }
    string_of(&out)
}

} // verus!
