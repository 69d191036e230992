use vstd::prelude::*;
use crate::errors::InputError;
use crate::hidden::{enter_hidden, release_hidden, TermState};
use crate::line::{fix_line_issues, normalized, raw_line_of, rest_after_line};
use crate::source::{LineSink, LineSource};

verus! {

// The secret-input orchestrators: read one line, normalize it, and — on an
// interactive terminal — keep the echo suppressed for exactly the duration of
// the read, restoring the mode on every exit path, the failing ones included.

/// Reads a secret from a source that is not an interactive terminal: no mode
/// change, one line read and normalized.  Succeeds on every source that can
/// fail no read; at end-of-input it returns the empty secret, not an error.
pub fn read_password_from_bufread<S: LineSource>(source: &mut S) -> (r: Result<
    String,
    InputError,
>)
    ensures
        old(source).infallible() ==> r is Ok && final(source).infallible(),
        r is Ok ==> r->Ok_0@ == normalized(raw_line_of(old(source).remaining()))
            && final(source).remaining() == rest_after_line(old(source).remaining()),
{
    match source.read_raw_line() {
        Ok(line) => Ok(fix_line_issues(line.as_str())),
        Err(e) => Err(e),
    }
}

/// Reads a secret from a source attached to the terminal whose mode `term`
/// holds: the echo is suppressed before the read and the original mode is
/// restored afterwards, whether the read succeeded or failed.
pub fn read_password_from_fd<S: LineSource>(
    reader: &mut S,
    term: &mut TermState,
    echo_mask: u64,
    echonl_mask: u64,
) -> (r: Result<String, InputError>)
    ensures
        final(term).flags == old(term).flags,
        old(reader).infallible() ==> r is Ok && final(reader).infallible(),
        r is Ok ==> r->Ok_0@ == normalized(raw_line_of(old(reader).remaining()))
            && final(reader).remaining() == rest_after_line(old(reader).remaining()),
{
    let guard = enter_hidden(term, echo_mask, echonl_mask);
    let outcome = reader.read_raw_line();
    release_hidden(term, guard);
    match outcome {
        Ok(line) => Ok(fix_line_issues(line.as_str())),
        Err(e) => Err(e),
    }
}

/// Writes `prompt` to the sink, flushes it, and reads a secret: with the
/// hidden-input scope around the read when `on_terminal` holds, transparently
/// otherwise.  Whatever path is taken and however it ends, the terminal mode
/// comes back as it was.
pub fn prompt_and_read_secret_from<S: LineSource, W: LineSink>(
    reader: &mut S,
    writer: &mut W,
    prompt: &str,
    on_terminal: bool,
    term: &mut TermState,
    echo_mask: u64,
    echonl_mask: u64,
) -> (r: Result<String, InputError>)
    ensures
        final(term).flags == old(term).flags,
        old(reader).infallible() && old(writer).accepting() ==> r is Ok && final(reader).infallible() && final(writer).accepting(),
        r is Ok ==> final(writer).written() == old(writer).written() + prompt@
            && r->Ok_0@ == normalized(raw_line_of(old(reader).remaining()))
            && final(reader).remaining() == rest_after_line(old(reader).remaining()),
{
    match writer.write_text(prompt) {
        Ok(u) => u,
        Err(e) => {
            return Err(e);
        },
    }
    match writer.flush_sink() {
        Ok(u) => u,
        Err(e) => {
            return Err(e);
        },
    }
    if on_terminal {
        read_password_from_fd(reader, term, echo_mask, echonl_mask)
    } else {
        read_password_from_bufread(reader)
    }
}

} // verus!
