use vstd::prelude::*;
use vstd::string::StrSliceExecFns;
use vstd::string::StringExecFns;
use crate::errors::InputError;
use crate::line::{raw_line_of, rest_after_line, raw_line_len, lemma_raw_line_len_at,
    lemma_raw_line_len_none};

verus! {

// The orchestrators read from an abstract buffered source and write to an
// abstract sink; the surrounding application supplies the process's real
// streams, and tests supply the in-memory doubles defined below.

/// A buffered source of text, read one line at a time.
///
/// `remaining` is the text the source still holds; `infallible` marks a
/// source whose reads cannot fail, such as an in-memory buffer.  One read
/// takes the raw line at the front of `remaining` — everything up to and
/// including the first newline, or everything left when no newline follows —
/// so a read at end-of-input yields the empty line, not an error.
pub trait LineSource {
    spec fn remaining(&self) -> Seq<char>;

    spec fn infallible(&self) -> bool;

    fn read_raw_line(&mut self) -> (r: Result<String, InputError>)
        ensures
            old(self).infallible() ==> r is Ok && final(self).infallible(),
            r is Ok ==> r->Ok_0@ == raw_line_of(old(self).remaining())
                && final(self).remaining() == rest_after_line(old(self).remaining()),
    ;
}

/// A sink for prompt text.
///
/// `written` is all the text the sink has accepted; `accepting` marks a sink
/// whose writes cannot fail.  Flushing pushes buffered text onward and never
/// changes what was written.
pub trait LineSink {
    spec fn written(&self) -> Seq<char>;

    spec fn accepting(&self) -> bool;

    fn write_text(&mut self, text: &str) -> (r: Result<(), InputError>)
        ensures
            old(self).accepting() ==> r is Ok && final(self).accepting(),
            r is Ok ==> final(self).written() == old(self).written() + text@,
    ;

    fn flush_sink(&mut self) -> (r: Result<(), InputError>)
        ensures
            old(self).accepting() ==> r is Ok && final(self).accepting(),
            final(self).written() == old(self).written(),
    ;
}

/// An in-memory source: a fixed text and a cursor over it.  Its reads never
/// fail, and reading past the end yields empty lines forever.
pub struct MemSource {
    text: String,
    pos: usize,
}

impl MemSource {
    #[verifier::type_invariant]
    spec fn inv(self) -> bool {
        self.pos <= self.text@.len()
    }

    /// A source holding exactly `text`.
    pub fn from_text(text: &str) -> (s: MemSource)
        ensures
            s.remaining() == text@,
            s.infallible(),
    {
        let s = MemSource { text: text.to_owned(), pos: 0 };
        proof {
            assert(s.remaining() =~= text@);
        }
        s
    }
}

/// Index one past the first newline of `s` at or after `from`, or the length
/// of `s` when no newline follows `from`.
fn find_line_end(s: &str, from: usize) -> (end: usize)
    requires
        from <= s@.len(),
    ensures
        from <= end <= s@.len(),
        raw_line_len(s@.skip(from as int)) == end - from,
{
    let n = s.unicode_len();
    let mut i = from;
    while i < n
        invariant
            from <= i <= n,
            n == s@.len(),
            forall|k: int| from <= k < i ==> s@[k] != '\n',
        decreases n - i,
    {
        if s.get_char(i) == '\n' {
            proof {
                let rest = s@.skip(from as int);
                assert(rest[i - from] == s@[i as int]);
                assert forall|k: int| 0 <= k < i - from implies rest[k] != '\n' by {
                    assert(rest[k] == s@[k + from]);
                }
                lemma_raw_line_len_at(rest, i - from);
            }
            return i + 1;
        }
        i += 1;
    }
    proof {
        let rest = s@.skip(from as int);
        assert forall|k: int| 0 <= k < rest.len() implies rest[k] != '\n' by {
            assert(rest[k] == s@[k + from]);
        }
        lemma_raw_line_len_none(rest);
    }
    n
}

impl LineSource for MemSource {
    closed spec fn remaining(&self) -> Seq<char> {
        self.text@.skip(self.pos as int)
    }

    closed spec fn infallible(&self) -> bool {
        true
    }

    fn read_raw_line(&mut self) -> (r: Result<String, InputError>) {
        proof {
            use_type_invariant(&*self);
        }
        let ghost before = self.remaining();
        let end = find_line_end(self.text.as_str(), self.pos);
        let line = self.text.as_str().substring_char(self.pos, end).to_owned();
        proof {
            assert(line@ =~= raw_line_of(before));
        }
        self.pos = end;
        proof {
            assert(self.remaining() =~= rest_after_line(before));
        }
        Ok(line)
    }
}

/// A source whose every read fails with a fixed error: the double for an
/// interrupted or broken stream.
pub struct FailingSource {
    err: InputError,
}

impl FailingSource {
    /// A source that always fails with `err`.
    pub fn new(err: InputError) -> (s: FailingSource)
        ensures
            !s.infallible(),
    {
        FailingSource { err }
    }
}

impl LineSource for FailingSource {
    open spec fn remaining(&self) -> Seq<char> {
        Seq::empty()
    }

    open spec fn infallible(&self) -> bool {
        false
    }

    fn read_raw_line(&mut self) -> (r: Result<String, InputError>)
        ensures
            r is Err,
    {
        Err(self.err)
    }
}

/// An in-memory sink that keeps every character written to it.
pub struct MemSink {
    text: String,
}

impl MemSink {
    /// An empty sink.
    pub fn new() -> (s: MemSink)
        ensures
            s.written() == Seq::<char>::empty(),
            s.accepting(),
    {
        MemSink { text: String::new() }
    }

    /// Everything written so far.
    pub fn contents(&self) -> (r: String)
        ensures
            r@ == self.written(),
    {
        self.text.clone()
    }
}

impl LineSink for MemSink {
    closed spec fn written(&self) -> Seq<char> {
        self.text@
    }

    closed spec fn accepting(&self) -> bool {
        true
    }

    fn write_text(&mut self, text: &str) -> (r: Result<(), InputError>) {
        self.text.append(text);
        Ok(())
    }

    fn flush_sink(&mut self) -> (r: Result<(), InputError>) {
        Ok(())
    }
}

} // verus!
