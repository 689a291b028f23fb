//! Small text operations on character sequences.

use vstd::prelude::*;
use vstd::std_specs::iter::IteratorSpec;

verus! {

/// Whether `c` ends a line.
pub open spec fn is_line_break(c: char) -> bool {
    c == '\r' || c == '\n'
}

/// The first line of `s`: everything before its first line break, or all of
/// `s` where it has none.
pub open spec fn first_line(s: Seq<char>) -> Seq<char>
    decreases s.len(),
{
    if s.len() == 0 || is_line_break(s[0]) {
        Seq::empty()
    } else {
        seq![s[0]] + first_line(s.drop_first())
    }
}

/// What `s` becomes when a backslash is put before each double quote in it.
pub open spec fn escape_quotes(s: Seq<char>) -> Seq<char>
    decreases s.len(),
{
    if s.len() == 0 {
        Seq::empty()
    } else if s.last() == '"' {
        escape_quotes(s.drop_last()) + seq!['\\', '"']
    } else {
        escape_quotes(s.drop_last()).push(s.last())
    }
}

/// The first line of `s` is the part of `s` before its first line break: it is
/// a prefix of `s`, it holds no line break, and it ends either where `s` ends
/// or just before a line break.
pub proof fn lemma_first_line(s: Seq<char>)
    ensures
        first_line(s).len() <= s.len(),
        first_line(s) == s.take(first_line(s).len() as int),
        forall|i: int| 0 <= i < first_line(s).len() ==> !is_line_break(#[trigger] s[i]),
        first_line(s).len() < s.len() ==> is_line_break(s[first_line(s).len() as int]),
    decreases s.len(),
{
    if s.len() > 0 && !is_line_break(s[0]) {
        let rest = s.drop_first();
        lemma_first_line(rest);
        assert forall|i: int| 0 <= i < first_line(s).len() implies !is_line_break(
            #[trigger] s[i],
        ) by {
            if i > 0 {
                assert(s[i] == rest[i - 1]);
            }
        }
    }
}

/// A text without a line break is its own first line.
pub proof fn lemma_first_line_of_one_line(s: Seq<char>)
    requires
        forall|i: int| 0 <= i < s.len() ==> !is_line_break(#[trigger] s[i]),
    ensures
        first_line(s) == s,
{
    lemma_first_line(s);
}

/// Escaping goes character by character: the escaped form of two texts joined
/// is the two escaped forms joined.
pub proof fn lemma_escape_quotes_concat(a: Seq<char>, b: Seq<char>)
    ensures
        escape_quotes(a + b) == escape_quotes(a) + escape_quotes(b),
    decreases b.len(),
{
    if b.len() > 0 {
        lemma_escape_quotes_concat(a, b.drop_last());
        assert((a + b).drop_last() == a + b.drop_last());
    }
}

/// A text without a double quote is left as it is.
pub proof fn lemma_escape_quotes_without_quotes(s: Seq<char>)
    requires
        forall|i: int| 0 <= i < s.len() ==> #[trigger] s[i] != '"',
    ensures
        escape_quotes(s) == s,
    decreases s.len(),
{
    if s.len() > 0 {
        lemma_escape_quotes_without_quotes(s.drop_last());
    }
}

/// In an escaped text every double quote stands behind a backslash.
pub proof fn lemma_escaped_quotes_follow_backslash(s: Seq<char>, i: int)
    requires
        0 <= i < escape_quotes(s).len(),
        escape_quotes(s)[i] == '"',
    ensures
        i > 0,
        escape_quotes(s)[i - 1] == '\\',
    decreases s.len(),
{
    if s.len() > 0 {
        if i < escape_quotes(s.drop_last()).len() {
            lemma_escaped_quotes_follow_backslash(s.drop_last(), i);
        }
    }
}

/// `String::push` of the standard library: the string afterwards holds the
/// characters it held before, followed by `c`.
#[verifier::external_body]
pub(crate) fn push_char(s: &mut String, c: char)
    ensures
        final(s)@ == old(s)@.push(c),
{
    s.push(c);
}

/// Appends the first line of `s` to `out`.
pub fn push_first_line(out: &mut String, s: &str)
    ensures
        final(out)@ == old(out)@ + first_line(s@),
{
    let mut chars = s.chars();
    let ghost mut seen: int = 0;
    loop
        invariant
            0 <= seen <= s@.len(),
            chars.remaining() == s@.skip(seen),
            out@ + first_line(s@.skip(seen)) == old(out)@ + first_line(s@),
        decreases s@.len() - seen,
    {
        match chars.next() {
            Some(c) => {
                if c == '\r' || c == '\n' {
                    return;
                }
                proof {
                    assert(s@.skip(seen).drop_first() == s@.skip(seen + 1));
                    seen = seen + 1;
                }
                push_char(out, c);
            },
            None => {
                return;
            },
        }
    }
}

/// Appends `s` to `out`, with a backslash before each double quote.
pub fn push_escaped(out: &mut String, s: &str)
    ensures
        final(out)@ == old(out)@ + escape_quotes(s@),
{
    let mut chars = s.chars();
    let ghost mut seen: int = 0;
    loop
        invariant
            0 <= seen <= s@.len(),
            chars.remaining() == s@.skip(seen),
            out@ == old(out)@ + escape_quotes(s@.take(seen)),
        decreases s@.len() - seen,
    {
        match chars.next() {
            Some(c) => {
                proof {
                    assert(s@.take(seen + 1).drop_last() == s@.take(seen));
                    seen = seen + 1;
                }
                if c == '"' {
                    push_char(out, '\\');
                }
                push_char(out, c);
            },
            None => {
                assert(s@.take(seen) == s@);
                return;
            },
        }
    }
}

} // verus!
