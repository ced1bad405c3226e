//! Small operations on texts.

use vstd::prelude::*;
use vstd::std_specs::iter::IteratorSpec;
use vstd::string::StringExecFns;

verus! {

/// Whether two texts are equal.
pub fn str_eq(a: &str, b: &str) -> (r: bool)
    ensures
        r == (a@ == b@),
{
    a.to_owned() == b.to_owned()
}

/// Whether a text begins with a prefix.
pub fn starts_with(text: &str, prefix: &str) -> (r: bool)
    ensures
        r == prefix@.is_prefix_of(text@),
{
    let n = prefix.unicode_len();
    let m = text.unicode_len();
    if n > m {
        return false;
    }
    let head = text.substring_char(0, n);
    let r = str_eq(head, prefix);
    proof {
        if r {
            assert(prefix@ =~= text@.subrange(0, prefix@.len() as int));
        }
    }
    r
}

/// The text without a prefix; `None` where it does not begin with it.
pub fn strip_prefix(text: &str, prefix: &str) -> (r: Option<String>)
    ensures
        match r {
            Some(rest) => text@ == prefix@ + rest@,
            None => !prefix@.is_prefix_of(text@),
        },
{
    if starts_with(text, prefix) {
        let n = prefix.unicode_len();
        let m = text.unicode_len();
        let rest = text.substring_char(n, m);
        assert(text@ =~= prefix@ + rest@);
        Some(String::from_str(rest))
    } else {
        None
    }
}

/// How many characters of a text are left when the slashes at its end are
/// taken off.
pub open spec fn trimmed_len(text: Seq<char>) -> int
    decreases text.len(),
{
    if text.len() > 0 && text.last() == '/' {
        trimmed_len(text.drop_last())
    } else {
        text.len() as int
    }
}

/// A text without the slashes at its end.
pub open spec fn without_trailing_slashes(text: Seq<char>) -> Seq<char> {
    text.subrange(0, trimmed_len(text))
}

/// Takes the slashes at the end of a text off.
pub fn trim_trailing_slashes(text: &str) -> (r: String)
    ensures
        r@ == without_trailing_slashes(text@),
{
    let n = text.unicode_len();
    let mut end: usize = n;
    let mut open = true;
    assert(text@.subrange(0, n as int) =~= text@);
    while open && end > 0
        invariant
            n == text@.len(),
            end <= n,
            trimmed_len(text@) == trimmed_len(text@.subrange(0, end as int)),
            !open ==> trimmed_len(text@.subrange(0, end as int)) == end,
        decreases (if open { 1int } else { 0int }), end,
    {
        let c = text.get_char(end - 1);
        let ghost head = text@.subrange(0, end as int);
        assert(head.last() == c);
        assert(head.drop_last() =~= text@.subrange(0, end as int - 1));
        if c == '/' {
            end = end - 1;
        } else {
            open = false;
        }
    }
    String::from_str(text.substring_char(0, end))
}

/// How many characters stand before the first line break of a text.
pub open spec fn line_end(text: Seq<char>) -> nat
    decreases text.len(),
{
    if text.len() == 0 || text[0] == '\n' {
        0
    } else {
        1 + line_end(text.drop_first())
    }
}

/// The lines of a text: the runs of characters between its line breaks.
/// A line break at the very end starts no further line.
pub open spec fn lines_of(text: Seq<char>) -> Seq<Seq<char>>
    decreases text.len(),
{
    if text.len() == 0 {
        Seq::empty()
    } else if line_end(text) >= text.len() {
        seq![text]
    } else {
        seq![text.subrange(0, line_end(text) as int)] + lines_of(
            text.subrange(line_end(text) as int + 1, text.len() as int),
        )
    }
}

/// A run of characters without a line break, followed by the rest of the
/// text, ends where the rest's first line ends.
proof fn lemma_line_end_skips(text: Seq<char>, k: int)
    requires
        0 <= k <= text.len(),
        forall|i: int| 0 <= i < k ==> text[i] != '\n',
    ensures
        line_end(text) == k + line_end(text.subrange(k, text.len() as int)),
    decreases k,
{
    if k == 0 {
        assert(text.subrange(0, text.len() as int) =~= text);
    } else {
        let rest = text.drop_first();
        assert forall|i: int| 0 <= i < k - 1 implies rest[i] != '\n' by {
            assert(rest[i] == text[i + 1]);
        }
        lemma_line_end_skips(rest, k - 1);
        assert(rest.subrange(k - 1, rest.len() as int) =~= text.subrange(k, text.len() as int));
    }
}

/// The texts of a run of lines.
pub open spec fn texts_of(lines: Seq<String>) -> Seq<Seq<char>> {
    Seq::new(lines.len(), |i: int| lines[i]@)
}

/// Splits a text into its lines.
pub fn split_lines(text: &str) -> (out: Vec<String>)
    ensures
        texts_of(out@) == lines_of(text@),
{
    let n = text.unicode_len();
    let mut out: Vec<String> = Vec::new();
    let mut chars = text.chars();
    let mut start: usize = 0;
    let mut pos: usize = 0;
    let mut open = true;
    proof {
        broadcast use vstd::string::axiom_spec_iter;
        assert(text@.subrange(0, n as int) =~= text@);
        assert(texts_of(out@) =~= Seq::empty());
    }
    while open
        invariant
            n == text@.len(),
            start <= pos <= n,
            chars.obeys_prophetic_iter_laws(),
            chars.remaining() == text@.subrange(pos as int, n as int),
            forall|i: int| start <= i < pos ==> text@[i] != '\n',
            lines_of(text@) == texts_of(out@) + lines_of(text@.subrange(start as int, n as int)),
            !open ==> pos == n,
        decreases (if open { 1int } else { 0int }), n - pos,
    {
        let next = chars.next();
        proof {
            broadcast use vstd::string::next_postcondition;
        }
        match next {
            Some(c) => {
                assert(c == text@[pos as int]);
                assert(chars.remaining() =~= text@.subrange(pos as int + 1, n as int));
                if c == '\n' {
                    let line = text.substring_char(start, pos);
                    let ghost tail = text@.subrange(start as int, n as int);
                    let ghost earlier = texts_of(out@);
                    proof {
                        assert forall|i: int| 0 <= i < pos - start implies tail[i] != '\n' by {
                            assert(tail[i] == text@[start + i]);
                        }
                        lemma_line_end_skips(tail, pos - start);
                        assert(tail.subrange(pos - start, tail.len() as int)[0] == '\n');
                        assert(line_end(tail) == pos - start);
                        assert(tail.subrange(0, pos - start) =~= line@);
                        assert(tail.subrange(pos - start + 1, tail.len() as int) =~= text@.subrange(
                            pos as int + 1,
                            n as int,
                        ));
                    }
                    out.push(String::from_str(line));
                    proof {
                        assert(texts_of(out@) =~= earlier + seq![line@]);
                        assert(lines_of(text@) =~= texts_of(out@) + lines_of(
                            text@.subrange(pos as int + 1, n as int),
                        ));
                    }
                    start = pos + 1;
                }
                pos = pos + 1;
            },
            None => {
                open = false;
            },
        }
    }
    if start < n {
        let line = text.substring_char(start, n);
        let ghost tail = text@.subrange(start as int, n as int);
        let ghost earlier = texts_of(out@);
        proof {
            assert forall|i: int| 0 <= i < n - start implies tail[i] != '\n' by {
                assert(tail[i] == text@[start + i]);
            }
            lemma_line_end_skips(tail, n - start);
            assert(tail =~= line@);
        }
        out.push(String::from_str(line));
        assert(texts_of(out@) =~= earlier + seq![line@]);
    } else {
        assert(text@.subrange(start as int, n as int) =~= Seq::empty());
        assert(texts_of(out@) + Seq::<Seq<char>>::empty() =~= texts_of(out@));
    }
    out
}

} // verus!
