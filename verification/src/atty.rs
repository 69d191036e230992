use vstd::prelude::*;
use vstd::string::StrSliceExecFns;
use std::io::IsTerminal;

verus! {

// The stream classifier: is a standard stream attached to an interactive
// terminal?  The live query cannot be pinned by a contract — it depends on
// how the process was started — so the queries sit behind trusted wrappers
// and stay infallible, while the decision logic around them is proved: the
// three-tier console classification and the pseudo-terminal name heuristic
// that rescues redirected POSIX-emulation terminals.

/// possible stream sources
#[derive(Clone, Copy, Debug)]
pub enum Stream {
    Stdout,
    Stderr,
    Stdin,
}

/// Relies on std::io::IsTerminal::is_terminal on the process's standard
/// input: true exactly when the descriptor refers to a terminal.  The query
/// cannot fail; its answer depends on the process's environment, so nothing
/// more can be promised of it.
#[verifier::external_body]
fn stdin_is_terminal() -> bool {
    std::io::stdin().is_terminal()
}

/// Relies on std::io::IsTerminal::is_terminal on the process's standard
/// output.
#[verifier::external_body]
fn stdout_is_terminal() -> bool {
    std::io::stdout().is_terminal()
}

/// Relies on std::io::IsTerminal::is_terminal on the process's standard
/// error.
#[verifier::external_body]
fn stderr_is_terminal() -> bool {
    std::io::stderr().is_terminal()
}

/// returns true if this is a tty
///
/// Classification is a live, infallible query of the OS: on failure or
/// ambiguity the platform reports "not a terminal" rather than an error.
pub fn is(stream: Stream) -> bool {
    match stream {
        Stream::Stdout => stdout_is_terminal(),
        Stream::Stderr => stderr_is_terminal(),
        Stream::Stdin => stdin_is_terminal(),
    }
}

/// returns true if this is _not_ a tty
pub fn isnt(stream: Stream) -> bool {
    let tty = is(stream);
    !tty
}

/// `needle` occurs contiguously somewhere in `hay`.
pub open spec fn contains_seq(hay: Seq<char>, needle: Seq<char>) -> bool {
    exists|i: int|
        0 <= i && i + needle.len() <= hay.len() && #[trigger] hay.subrange(i, i + needle.len())
            == needle
}

/// Whether `needle` stands in `hay` starting at `at`.
fn matches_at(hay: &str, needle: &str, at: usize) -> (r: bool)
    requires
        at + needle@.len() <= hay@.len(),
    ensures
        r == (hay@.subrange(at as int, at as int + needle@.len()) == needle@),
{
    let n = hay.unicode_len();
    let m = needle.unicode_len();
    let mut j: usize = 0;
    while j < m
        invariant
            j <= m,
            n == hay@.len(),
            m == needle@.len(),
            at + m <= hay@.len(),
            forall|k: int| 0 <= k < j ==> hay@[at + k] == needle@[k],
        decreases m - j,
    {
        if hay.get_char(at + j) != needle.get_char(j) {
            proof {
                let sub = hay@.subrange(at as int, at as int + needle@.len());
                assert(sub[j as int] != needle@[j as int]);
            }
            return false;
        }
        j += 1;
    }
    proof {
        assert(hay@.subrange(at as int, at as int + needle@.len()) =~= needle@);
    }
    true
}

/// Whether `needle` occurs anywhere in `hay`.
fn contains_sub(hay: &str, needle: &str) -> (r: bool)
    ensures
        r == contains_seq(hay@, needle@),
{
    let n = hay.unicode_len();
    let m = needle.unicode_len();
    if m == 0 {
        proof {
            assert(hay@.subrange(0, 0 + needle@.len() as int) =~= needle@);
        }
        return true;
    }
    if m > n {
        return false;
    }
    let mut i: usize = 0;
    while i <= n - m
        invariant
            0 < m <= n,
            i <= n - m + 1,
            n == hay@.len(),
            m == needle@.len(),
            forall|k: int| 0 <= k < i ==> #[trigger] hay@.subrange(k, k + needle@.len())
                != needle@,
        decreases n - i,
    {
        if matches_at(hay, needle, i) {
            proof {
                assert(hay@.subrange(i as int, i as int + needle@.len()) == needle@);
            }
            return true;
        }
        i += 1;
    }
    false
}

/// The pseudo-terminal name heuristic: a file name denotes a redirected
/// POSIX-emulation terminal only when it carries one of the two recognized
/// emulation-environment markers and the pseudo-terminal suffix marker at the
/// same time.  Requiring both avoids a false positive on a legitimately-named
/// file that happens to contain one of them.
pub fn name_indicates_msys_pty(name: &str) -> (r: bool)
    ensures
        r == ((contains_seq(name@, "msys-"@) || contains_seq(name@, "cygwin-"@)) && contains_seq(
            name@,
            "-pty"@,
        )),
{
    let is_msys = contains_sub(name, "msys-") || contains_sub(name, "cygwin-");
    let is_pty = contains_sub(name, "-pty");
    is_msys && is_pty
}

/// The three-tier console classification: a stream whose own console query
/// succeeded is a terminal; otherwise, when any other standard stream has a
/// console the process runs in a real console host and the negative is
/// trusted; otherwise only the pseudo-terminal name heuristic can answer.
pub fn classify_console_queries(
    own_console: bool,
    other_console: bool,
    pty_name_match: bool,
) -> (r: bool)
    ensures
        r == (own_console || (!other_console && pty_name_match)),
{
    if own_console {
        return true;
    }
    if other_console {
        return false;
    }
    pty_name_match
}

} // verus!
