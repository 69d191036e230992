use vstd::prelude::*;
use crate::errors::InputError;
use crate::line::{fix_line_issues, normalized, raw_line_of, rest_after_line};
use crate::source::{LineSink, LineSource};

verus! {

// The plain-prompt orchestrators: no echo suppression, for non-secret input.

/// Reads one reply from the source and normalizes it.  Succeeds on every
/// source that can fail no read; at end-of-input it returns the empty reply,
/// not an error.
pub fn read_reply_from_bufread<S: LineSource>(reader: &mut S) -> (r: Result<String, InputError>)
    ensures
        old(reader).infallible() ==> r is Ok && final(reader).infallible(),
        r is Ok ==> r->Ok_0@ == normalized(raw_line_of(old(reader).remaining()))
            && final(reader).remaining() == rest_after_line(old(reader).remaining()),
{
    match reader.read_raw_line() {
        Ok(line) => Ok(fix_line_issues(line.as_str())),
        Err(e) => Err(e),
    }
}

/// Writes `prompt` verbatim to the sink — no newline added — flushes it, then
/// reads and normalizes one reply from the source.
pub fn prompt_reply_from_bufread<S: LineSource, W: LineSink>(
    reader: &mut S,
    writer: &mut W,
    prompt: &str,
) -> (r: Result<String, InputError>)
    ensures
        old(reader).infallible() && old(writer).accepting() ==> r is Ok && final(reader).infallible() && final(writer).accepting(),
        r is Ok ==> final(writer).written() == old(writer).written() + prompt@
            && r->Ok_0@ == normalized(raw_line_of(old(reader).remaining()))
            && final(reader).remaining() == rest_after_line(old(reader).remaining()),
{
    match writer.write_text(prompt) {
        Ok(u) => u,
        Err(e) => {
            return Err(e);
        },
    }
    match writer.flush_sink() {
        Ok(u) => u,
        Err(e) => {
            return Err(e);
        },
    }
    read_reply_from_bufread(reader)
}

} // verus!
