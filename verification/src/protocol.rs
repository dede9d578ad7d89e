//! The wire protocol's framing: newline-delimited text.
//!
//! A connection carries plain text split after every `'\n'`; a
//! trailing fragment with no newline is the final line. `line_split`
//! is the protocol's definition, `split_lines` computes it, and
//! `lemma_line_split_flatten` states that framing loses nothing: the
//! lines joined back together are exactly the characters received.

use vstd::prelude::*;

verus! {

/// Position of the first newline in `s`, or `s.len()` when it has none.
pub open spec fn first_newline(s: Seq<char>) -> int
    decreases s.len(),
{
    if s.len() == 0 {
        0
    } else if s[0] == '\n' {
        0
    } else {
        1 + first_newline(s.drop_first())
    }
}

/// The first newline is a position in `s` or just past its end; it
/// holds a newline when inside, and no position before it does.
pub proof fn lemma_first_newline(s: Seq<char>)
    ensures
        0 <= first_newline(s) <= s.len(),
        first_newline(s) < s.len() ==> s[first_newline(s)] == '\n',
        forall|j: int| 0 <= j < first_newline(s) ==> s[j] != '\n',
    decreases s.len(),
{
    if s.len() == 0 {
    } else if s[0] == '\n' {
    } else {
        lemma_first_newline(s.drop_first());
        assert forall|j: int| 0 <= j < first_newline(s) implies s[j] != '\n' by {
            if j > 0 {
                assert(s.drop_first()[j - 1] == s[j]);
            }
        }
        if first_newline(s) < s.len() {
            assert(s.drop_first()[first_newline(s) - 1] == s[first_newline(s)]);
        }
    }
}

/// Where the newline actually stands, there the first newline is:
/// nothing before `k` is a newline, and `k` is one or the end.
pub proof fn lemma_first_newline_at(s: Seq<char>, k: int)
    requires
        0 <= k <= s.len(),
        forall|j: int| 0 <= j < k ==> s[j] != '\n',
        k < s.len() ==> s[k] == '\n',
    ensures
        first_newline(s) == k,
    decreases k,
{
    if k == 0 {
    } else {
        assert(s[0] != '\n');
        assert forall|j: int| 0 <= j < k - 1 implies s.drop_first()[j] != '\n' by {
            assert(s.drop_first()[j] == s[j + 1]);
        }
        if k - 1 < s.drop_first().len() {
            assert(s.drop_first()[k - 1] == s[k]);
        }
        lemma_first_newline_at(s.drop_first(), k - 1);
    }
}

/// The lines a buffered line reader yields from `s`: one line up to
/// and including each newline, and the unterminated trailing fragment,
/// if any, as the final line.
pub open spec fn line_split(s: Seq<char>) -> Seq<Seq<char>>
    decreases s.len() via line_split_dec
{
    if s.len() == 0 {
        Seq::empty()
    } else {
        let i = first_newline(s);
        if i == s.len() {
            seq![s]
        } else {
            seq![s.take(i + 1)] + line_split(s.skip(i + 1))
        }
    }
}

#[via_fn]
proof fn line_split_dec(s: Seq<char>) {
    lemma_first_newline(s);
}

/// Framing loses nothing: the framed lines, joined back together, are
/// exactly the characters that arrived.
pub proof fn lemma_line_split_flatten(s: Seq<char>)
    ensures
        line_split(s).flatten() == s,
    decreases s.len(),
{
    lemma_first_newline(s);
    reveal_with_fuel(Seq::<_>::flatten, 2);
    if s.len() == 0 {
        assert(line_split(s).flatten() =~= s);
    } else {
        let i = first_newline(s);
        if i == s.len() {
            assert(seq![s].drop_first() =~= Seq::<Seq<char>>::empty());
            assert(seq![s].flatten() =~= s);
        } else {
            lemma_line_split_flatten(s.skip(i + 1));
            let parts = seq![s.take(i + 1)] + line_split(s.skip(i + 1));
            assert(parts.first() == s.take(i + 1));
            assert(parts.drop_first() =~= line_split(s.skip(i + 1)));
            assert(parts.flatten() =~= s.take(i + 1) + s.skip(i + 1));
            assert(s.take(i + 1) + s.skip(i + 1) =~= s);
        }
    }
}

/// A payload is exactly one line: every framed line is non-empty,
/// every line but possibly the last ends with the newline it was split
/// at, and no line holds a newline anywhere but at its end.
pub proof fn lemma_line_split_shape(s: Seq<char>)
    ensures
        forall|k: int| 0 <= k < line_split(s).len() ==> #[trigger] line_split(s)[k].len() > 0,
        forall|k: int|
            0 <= k < line_split(s).len() - 1 ==> #[trigger] line_split(s)[k].last() == '\n',
        forall|k: int, j: int|
            0 <= k < line_split(s).len() && 0 <= j < line_split(s)[k].len() - 1
                ==> #[trigger] line_split(s)[k][j] != '\n',
    decreases s.len(),
{
    lemma_first_newline(s);
    if s.len() == 0 {
    } else {
        let i = first_newline(s);
        if i == s.len() {
            assert(line_split(s) == seq![s]);
            assert(line_split(s)[0] == s);
            assert(forall|j: int| 0 <= j < s.len() - 1 ==> s[j] != '\n');
        } else {
            lemma_line_split_shape(s.skip(i + 1));
            let rest = line_split(s.skip(i + 1));
            assert(line_split(s) == seq![s.take(i + 1)] + rest);
            assert(line_split(s)[0] == s.take(i + 1));
            assert(s.take(i + 1).len() == i + 1);
            assert(s.take(i + 1).last() == s[i]);
            assert(forall|j: int| 0 <= j < i ==> #[trigger] s.take(i + 1)[j] == s[j]);
            assert(forall|k: int|
                1 <= k < line_split(s).len() ==> #[trigger] line_split(s)[k] == rest[k - 1]);
        }
    }
}

/// Frames `input` as the wire protocol reads it: split after every
/// newline, with an unterminated trailing fragment as the final line.
pub fn split_lines(input: &str) -> (lines: Vec<String>)
    ensures
        lines@.map_values(|l: String| l@) == line_split(input@),
{
    let n = input.unicode_len();
    let mut lines: Vec<String> = Vec::new();
    let mut start: usize = 0;
    let mut i: usize = 0;
    proof {
        assert(input@.skip(0) =~= input@);
        assert(lines@.map_values(|l: String| l@) =~= Seq::<Seq<char>>::empty());
    }
    while i < n
        invariant
            start <= i <= n,
            n == input@.len(),
            lines@.map_values(|l: String| l@) + line_split(input@.skip(start as int)) =~= line_split(
                input@,
            ),
            forall|j: int| start <= j < i ==> input@[j] != '\n',
        decreases n - i,
    {
        let c = input.get_char(i);
        if c == '\n' {
            let ghost prev = lines@;
            let line = input.substring_char(start, i + 1);
            lines.push(String::from_str(line));
            proof {
                let suf = input@.skip(start as int);
                assert forall|j: int| 0 <= j < i - start implies suf[j] != '\n' by {
                    assert(suf[j] == input@[start + j]);
                }
                assert(suf[i - start] == input@[i as int]);
                lemma_first_newline_at(suf, i - start);
                assert(line_split(suf) == seq![suf.take(i - start + 1)] + line_split(
                    suf.skip(i - start + 1),
                ));
                assert(suf.take(i - start + 1) =~= input@.subrange(start as int, i + 1));
                assert(suf.skip(i - start + 1) =~= input@.skip(i + 1));
                assert(lines@.map_values(|l: String| l@) =~= prev.map_values(
                    |l: String| l@,
                ).push(input@.subrange(start as int, i + 1)));
                assert(lines@.map_values(|l: String| l@) + line_split(input@.skip(i + 1))
                    =~= prev.map_values(|l: String| l@) + line_split(suf));
            }
            start = i + 1;
        }
        i = i + 1;
    }
    if start < n {
        let ghost prev = lines@;
        let line = input.substring_char(start, n);
        lines.push(String::from_str(line));
        proof {
            let suf = input@.skip(start as int);
            assert forall|j: int| 0 <= j < suf.len() implies suf[j] != '\n' by {
                assert(suf[j] == input@[start + j]);
            }
            lemma_first_newline_at(suf, suf.len() as int);
            assert(line_split(suf) == seq![suf]);
            assert(suf =~= input@.subrange(start as int, n as int));
            assert(lines@.map_values(|l: String| l@) =~= prev.map_values(|l: String| l@).push(
                input@.subrange(start as int, n as int),
            ));
            assert(lines@.map_values(|l: String| l@) =~= prev.map_values(|l: String| l@)
                + line_split(suf));
        }
    } else {
        proof {
            assert(input@.skip(start as int) =~= Seq::<char>::empty());
            assert(line_split(input@.skip(start as int)) =~= Seq::<Seq<char>>::empty());
            assert(lines@.map_values(|l: String| l@) + line_split(input@.skip(start as int))
                =~= lines@.map_values(|l: String| l@));
        }
    }
    lines
}

} // verus!
