//! Plain string utilities: reversal, palindrome test, and a
//! copy-on-write reversal that hands the input back when reversing
//! would not change it.

use vstd::prelude::*;
use std::borrow::Cow;

verus! {

/// The sequence `s` read back to front.
pub open spec fn reversed(s: Seq<char>) -> Seq<char> {
    Seq::new(s.len(), |i: int| s[s.len() - 1 - i])
}

/// A sequence reads the same forwards and backwards.
pub open spec fn palindromic(s: Seq<char>) -> bool {
    forall|i: int| 0 <= i < s.len() ==> #[trigger] s[i] == s[s.len() - 1 - i]
}

/// Number of characters (not bytes) in `input`.
pub fn count_characters(input: &str) -> (n: usize)
    ensures
        n == input@.len(),
{
    input.unicode_len()
}

/// Builds a new string holding the characters of `input` in reverse order.
pub fn reverse_string(input: &str) -> (r: String)
    ensures
        r@ == reversed(input@),
{
    let n = input.unicode_len();
    let mut r = String::new();
    let mut i: usize = n;
    while i > 0
        invariant
            i <= n,
            n == input@.len(),
            r@ == reversed(input@).take(n - i),
        decreases i,
    {
        i = i - 1;
        let c = input.substring_char(i, i + 1);
        r.append(c);
        proof {
            assert(r@ =~= reversed(input@).take(n - i));
        }
    }
    proof {
        assert(reversed(input@).take(n as int) =~= reversed(input@));
    }
    r
}

/// True exactly when `input` is non-empty and palindromic: the empty
/// string is not counted as a palindrome.
pub fn is_palimdrom(input: &str) -> (r: bool)
    ensures
        r == (input@.len() > 0 && palindromic(input@)),
{
    let n = input.unicode_len();
    if n == 0 {
        return false;
    }
    let half = n - n / 2;
    let mut i: usize = 0;
    while i < half
        invariant
            i <= half,
            half == n - n / 2,
            n == input@.len(),
            0 < n <= usize::MAX,
            forall|j: int| 0 <= j < i ==> #[trigger] input@[j] == input@[n - 1 - j],
        decreases half - i,
    {
        let front = input.get_char(i);
        let back = input.get_char(n - 1 - i);
        if front != back {
            return false;
        }
        i = i + 1;
    }
    proof {
        assert forall|j: int| 0 <= j < n implies #[trigger] input@[j] == input@[n - 1 - j] by {
            if j >= half {
                assert(input@[n - 1 - j] == input@[n - 1 - (n - 1 - j)]);
            }
        }
    }
    true
}

/// Reversing a palindrome changes nothing, so handing such an input
/// back unchanged is the very value a reversal would produce.
pub proof fn lemma_palindrome_reverse_identity(s: Seq<char>)
    requires
        palindromic(s),
    ensures
        reversed(s) == s,
{
    assert(reversed(s) =~= s);
}

/// Reverses `input`, borrowing it unchanged when it is already a
/// (non-empty) palindrome and allocating a reversed copy otherwise;
/// either way the result reads `input` back to front.
pub fn reverse_cow<'a>(input: &'a str) -> (r: Cow<'a, str>)
    ensures
        r@ == reversed(input@),
        (r is Borrowed) <==> (input@.len() > 0 && palindromic(input@)),
{
    if is_palimdrom(input) {
        proof {
            lemma_palindrome_reverse_identity(input@);
        }
        Cow::Borrowed(input)
    } else {
        Cow::Owned(reverse_string(input))
    }
}

} // verus!
