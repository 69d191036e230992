use vstd::prelude::*;
use vstd::string::StrSliceExecFns;

verus! {

// A raw line is what one read of a buffered source yields: every character up
// to and including the first newline, or everything left when no newline
// follows.  Normalization strips exactly one trailing '\n' and, if one then
// remains, a single preceding '\r', so that a caller sees the same text
// whatever line-ending convention the source used.

/// Length of the raw line at the front of `s`: the position one past the
/// first newline, or the whole length when `s` holds no newline.
pub open spec fn raw_line_len(s: Seq<char>) -> nat
    decreases s.len(),
{
    if s.len() == 0 {
        0
    } else if s[0] == '\n' {
        1
    } else {
        1 + raw_line_len(s.skip(1))
    }
}

/// The raw line at the front of `s`, terminator included.
pub open spec fn raw_line_of(s: Seq<char>) -> Seq<char> {
    s.take(raw_line_len(s) as int)
}

/// What is left of `s` once its first raw line has been read.
pub open spec fn rest_after_line(s: Seq<char>) -> Seq<char> {
    s.skip(raw_line_len(s) as int)
}

/// `s` with one trailing '\n' stripped and, if one then remains, a single
/// preceding '\r' stripped as well; `s` unchanged when it does not end in '\n'.
pub open spec fn normalized(s: Seq<char>) -> Seq<char> {
    if s.len() > 0 && s.last() == '\n' {
        let t = s.drop_last();
        if t.len() > 0 && t.last() == '\r' {
            t.drop_last()
        } else {
            t
        }
    } else {
        s
    }
}

/// True when `s` is non-empty and ends in a newline.
pub open spec fn ends_with_newline(s: Seq<char>) -> bool {
    s.len() > 0 && s.last() == '\n'
}

/// The raw line at the front of `s` is never longer than `s`, and is
/// non-empty whenever `s` is.
pub proof fn lemma_raw_line_len_bounds(s: Seq<char>)
    ensures
        raw_line_len(s) <= s.len(),
        s.len() > 0 ==> raw_line_len(s) >= 1,
    decreases s.len(),
{
    if s.len() > 0 && s[0] != '\n' {
        lemma_raw_line_len_bounds(s.skip(1));
    }
}

/// When the first newline of `s` stands at position `j`, the raw line runs
/// exactly through it.
pub proof fn lemma_raw_line_len_at(s: Seq<char>, j: int)
    requires
        0 <= j < s.len(),
        s[j] == '\n',
        forall|k: int| 0 <= k < j ==> s[k] != '\n',
    ensures
        raw_line_len(s) == j + 1,
    decreases j,
{
    if j > 0 {
        assert forall|k: int| 0 <= k < j - 1 implies s.skip(1)[k] != '\n' by {
            assert(s.skip(1)[k] == s[k + 1]);
        }
        assert(s.skip(1)[j - 1] == s[j]);
        lemma_raw_line_len_at(s.skip(1), j - 1);
    }
}

/// When `s` holds no newline at all, the raw line is all of `s`.
pub proof fn lemma_raw_line_len_none(s: Seq<char>)
    requires
        forall|k: int| 0 <= k < s.len() ==> s[k] != '\n',
    ensures
        raw_line_len(s) == s.len(),
    decreases s.len(),
{
    if s.len() > 0 {
        assert forall|k: int| 0 <= k < s.skip(1).len() implies s.skip(1)[k] != '\n' by {
            assert(s.skip(1)[k] == s[k + 1]);
        }
        lemma_raw_line_len_none(s.skip(1));
    }
}

/// No character of a raw line is a newline except possibly its last one.
pub proof fn lemma_raw_line_interior(s: Seq<char>)
    ensures
        forall|k: int| 0 <= k < raw_line_len(s) - 1 ==> s[k] != '\n',
    decreases s.len(),
{
    if s.len() > 0 && s[0] != '\n' {
        lemma_raw_line_len_bounds(s.skip(1));
        lemma_raw_line_interior(s.skip(1));
        assert forall|k: int| 0 <= k < raw_line_len(s) - 1 implies s[k] != '\n' by {
            if k > 0 {
                assert(s.skip(1)[k - 1] == s[k]);
            }
        }
    }
}

/// A line comes out the same whether its source ended it with "\n", with
/// "\r\n", or with nothing at all (end-of-input): normalization erases the
/// terminator flavor.
pub proof fn lemma_normalized_terminator_agnostic(s: Seq<char>)
    requires
        s.len() == 0 || (s.last() != '\n' && s.last() != '\r'),
    ensures
        normalized(s.push('\n')) == s,
        normalized(s.push('\r').push('\n')) == s,
        normalized(s) == s,
{
    assert(s.push('\n').drop_last() =~= s);
    assert(s.push('\r').push('\n').drop_last() =~= s.push('\r'));
    assert(s.push('\r').drop_last() =~= s);
}

/// Normalization is idempotent on every line whose normal form does not end
/// in a newline — in particular on every raw line a reader can produce.
pub proof fn lemma_normalized_idempotent(s: Seq<char>)
    requires
        !ends_with_newline(normalized(s)),
    ensures
        normalized(normalized(s)) == normalized(s),
{
}

/// The normal form of a raw line never ends in a newline, so normalizing a
/// raw line twice is the same as normalizing it once.
pub proof fn lemma_raw_line_normal_form(s: Seq<char>)
    ensures
        !ends_with_newline(normalized(raw_line_of(s))),
        normalized(normalized(raw_line_of(s))) == normalized(raw_line_of(s)),
{
    lemma_raw_line_len_bounds(s);
    lemma_raw_line_interior(s);
    let raw = raw_line_of(s);
    if ends_with_newline(raw) {
        let t = raw.drop_last();
        assert(forall|k: int| 0 <= k < t.len() ==> t[k] == s[k] && t[k] != '\n');
        if t.len() > 0 && t.last() == '\r' {
            assert(normalized(raw) == t.drop_last());
        }
    }
    lemma_normalized_idempotent(raw);
}

/// Reading twice from a source holding two newline-terminated lines yields
/// the two lines independently and in order, and then leaves the source at
/// end-of-input.
pub proof fn lemma_lines_read_in_order(first: Seq<char>, second: Seq<char>)
    requires
        forall|k: int| 0 <= k < first.len() ==> first[k] != '\n',
        forall|k: int| 0 <= k < second.len() ==> second[k] != '\n',
    ensures
        raw_line_of(first.push('\n') + second.push('\n')) == first.push('\n'),
        normalized(raw_line_of(first.push('\n') + second.push('\n')))
            == normalized(first.push('\n')),
        rest_after_line(first.push('\n') + second.push('\n')) == second.push('\n'),
        raw_line_of(second.push('\n')) == second.push('\n'),
        rest_after_line(second.push('\n')) == Seq::<char>::empty(),
{
    let input = first.push('\n') + second.push('\n');
    assert(input[first.len() as int] == '\n');
    assert forall|k: int| 0 <= k < first.len() implies input[k] != '\n' by {
        assert(input[k] == first[k]);
    }
    lemma_raw_line_len_at(input, first.len() as int);
    assert(raw_line_of(input) =~= first.push('\n'));
    assert(rest_after_line(input) =~= second.push('\n'));
    assert(second.push('\n')[second.len() as int] == '\n');
    lemma_raw_line_len_at(second.push('\n'), second.len() as int);
    assert(raw_line_of(second.push('\n')) =~= second.push('\n'));
    assert(rest_after_line(second.push('\n')) =~= Seq::<char>::empty());
}

/// Reading at end-of-input yields the empty line, which normalizes to the
/// empty result, and leaves the source at end-of-input.
pub proof fn lemma_read_at_end_of_input()
    ensures
        raw_line_of(Seq::<char>::empty()) == Seq::<char>::empty(),
        rest_after_line(Seq::<char>::empty()) == Seq::<char>::empty(),
        normalized(Seq::<char>::empty()) == Seq::<char>::empty(),
{
    assert(raw_line_of(Seq::<char>::empty()) =~= Seq::<char>::empty());
    assert(rest_after_line(Seq::<char>::empty()) =~= Seq::<char>::empty());
}

/// Strips one trailing '\n' from `line` and, if one then remains, a single
/// preceding '\r': the executable form of `normalized`.
pub fn fix_line_issues(line: &str) -> (r: String)
    ensures
        r@ == normalized(line@),
{
    let n = line.unicode_len();
    if n > 0 && line.get_char(n - 1) == '\n' {
        let end: usize = if n > 1 && line.get_char(n - 2) == '\r' {
            n - 2
        } else {
            n - 1
        };
        let r = line.substring_char(0, end).to_owned();
        proof {
            assert(line@.drop_last() =~= line@.subrange(0, n - 1));
            if n > 1 && line@[n - 2] == '\r' {
                assert(line@.drop_last().drop_last() =~= line@.subrange(0, n - 2));
            }
        }
        r
    } else {
        line.to_owned()
    }
}

} // verus!
