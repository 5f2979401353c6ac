//! Approximate token counting: words are maximal runs of non-whitespace
//! characters, and a text of `w` words is estimated at `ceil(w * 1.35)` tokens.

use vstd::prelude::*;

verus! {

/// The characters with the Unicode `White_Space` property.
pub open spec fn is_white_space(c: char) -> bool {
    let u = c as u32;
    ||| 0x09 <= u <= 0x0d
    ||| u == 0x20
    ||| u == 0x85
    ||| u == 0xa0
    ||| u == 0x1680
    ||| 0x2000 <= u <= 0x200a
    ||| u == 0x2028
    ||| u == 0x2029
    ||| u == 0x202f
    ||| u == 0x205f
    ||| u == 0x3000
}

/// Position `i` of `s` starts a word: it is not whitespace and either begins
/// the text or follows whitespace.
pub open spec fn starts_word(s: Seq<char>, i: int) -> bool {
    &&& !is_white_space(s[i])
    &&& (i == 0 || is_white_space(s[i - 1]))
}

/// Number of whitespace-separated words in `s`.
pub open spec fn word_count(s: Seq<char>) -> nat
    decreases s.len(),
{
    if s.len() == 0 {
        0
    } else {
        word_count(s.drop_last()) + if starts_word(s, s.len() - 1) {
            1nat
        } else {
            0nat
        }
    }
}

/// `ceil(words * 1.35)`, in exact integer arithmetic.
pub open spec fn estimate(words: nat) -> nat {
    ((words * 135 + 99) / 100) as nat
}

/// The token estimate of a text, saturated at the largest `usize`.
pub open spec fn token_estimate(s: Seq<char>) -> nat {
    let e = estimate(word_count(s));
    if e > usize::MAX {
        usize::MAX as nat
    } else {
        e
    }
}

/// Whether `c` is whitespace (the Unicode `White_Space` property).
pub fn is_white_space_char(c: char) -> (r: bool)
    ensures
        r == is_white_space(c),
{
    let u = c as u32;
    (0x09 <= u && u <= 0x0d) || u == 0x20 || u == 0x85 || u == 0xa0 || u == 0x1680 || (0x2000
        <= u && u <= 0x200a) || u == 0x2028 || u == 0x2029 || u == 0x202f || u == 0x205f || u
        == 0x3000
}

/// Counts the whitespace-separated words of `s`.
pub fn count_words(s: &str) -> (r: usize)
    ensures
        r == word_count(s@),
{
    let n = s.unicode_len();
    let mut count: usize = 0;
    let mut prev_white: bool = true;
    let mut i: usize = 0;
    while i < n
        invariant
            n == s@.len(),
            i <= n,
            count == word_count(s@.subrange(0, i as int)),
            count <= i,
            i > 0 ==> prev_white == is_white_space(s@[i - 1]),
            i == 0 ==> prev_white,
        decreases n - i,
    {
        let c = s.get_char(i);
        let white = is_white_space_char(c);
        proof {
            let next = s@.subrange(0, i + 1);
            assert(next.drop_last() =~= s@.subrange(0, i as int));
            assert(next[i as int] == c);
            assert(i > 0 ==> next[i - 1] == s@[i - 1]);
        }
        if !white && prev_white {
            count = count + 1;
        }
        prev_white = white;
        i = i + 1;
    }
    assert(s@.subrange(0, n as int) =~= s@);
    count
}

/// The token estimate of `s`: `ceil(words * 1.35)`, saturated at `usize::MAX`.
pub fn estimate_tokens(s: &str) -> (r: usize)
    ensures
        r == token_estimate(s@),
{
    let words = count_words(s);
    let e: u128 = ((words as u128) * 135 + 99) / 100;
    if e > usize::MAX as u128 {
        usize::MAX
    } else {
        e as usize
    }
}

} // verus!
