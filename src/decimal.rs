//! Unsigned integers written in decimal, as they appear in stored records.

use vstd::prelude::*;

verus! {

pub open spec fn digit_chars() -> Seq<char> {
    seq!['0', '1', '2', '3', '4', '5', '6', '7', '8', '9']
}

pub open spec fn is_digit(c: char) -> bool {
    48 <= (c as u32) <= 57
}

pub open spec fn digit_value(c: char) -> nat {
    ((c as u32) - 48) as nat
}

/// The decimal digits of `n`, most significant first, with no leading zero.
pub open spec fn digits_of(n: nat) -> Seq<char>
    decreases n,
{
    if n < 10 {
        seq![digit_chars()[n as int]]
    } else {
        digits_of(n / 10) + seq![digit_chars()[(n % 10) as int]]
    }
}

/// The number that a string of decimal digits denotes.
pub open spec fn value_of(s: Seq<char>) -> nat
    decreases s.len(),
{
    if s.len() == 0 {
        0
    } else {
        value_of(s.drop_last()) * 10 + digit_value(s.last())
    }
}

pub proof fn lemma_digit_table(d: nat)
    requires
        d < 10,
    ensures
        is_digit(digit_chars()[d as int]),
        digit_value(digit_chars()[d as int]) == d,
{
    assert(d == 0 || d == 1 || d == 2 || d == 3 || d == 4 || d == 5 || d == 6 || d == 7 || d
        == 8 || d == 9);
}

/// Reading the digits of `n` gives back `n`.
pub proof fn lemma_value_of_digits(n: nat)
    ensures
        value_of(digits_of(n)) == n,
        digits_of(n).len() >= 1,
        forall|i: int| 0 <= i < digits_of(n).len() ==> is_digit(#[trigger] digits_of(n)[i]),
    decreases n,
{
    lemma_digit_table(n % 10);
    if n < 10 {
        assert(digits_of(n).drop_last() =~= Seq::<char>::empty());
        assert(value_of(digits_of(n)) == value_of(Seq::<char>::empty()) * 10 + digit_value(
            digit_chars()[n as int],
        ));
    } else {
        lemma_value_of_digits(n / 10);
        let s = digits_of(n);
        assert(s.drop_last() =~= digits_of(n / 10));
        assert(s.last() == digit_chars()[(n % 10) as int]);
        assert(value_of(s) == value_of(digits_of(n / 10)) * 10 + digit_value(s.last()));
        assert((n / 10) * 10 + n % 10 == n);
        assert forall|i: int| 0 <= i < s.len() implies is_digit(#[trigger] s[i]) by {
            if i < s.len() - 1 {
                assert(s[i] == digits_of(n / 10)[i]);
            }
        }
    }
}

/// A prefix of a digit string denotes no more than the whole.
pub proof fn lemma_prefix_value_le(s: Seq<char>, i: int)
    requires
        0 <= i <= s.len(),
    ensures
        value_of(s.subrange(0, i)) <= value_of(s),
    decreases s.len() - i,
{
    if i < s.len() {
        let t = s.drop_last();
        lemma_prefix_value_le(t, i);
        assert(t.subrange(0, i) =~= s.subrange(0, i));
    } else {
        assert(s.subrange(0, i) =~= s);
    }
}

/// The one-character text of a digit.
fn digit_text(d: u64) -> (r: &'static str)
    requires
        d < 10,
    ensures
        r@ == seq![digit_chars()[d as int]],
{
    let digits = "0123456789";
    proof {
        reveal_strlit("0123456789");
    }
    let r = digits.substring_char(d as usize, d as usize + 1);
    assert(r@ =~= seq![digit_chars()[d as int]]);
    r
}

/// `n` in decimal.
pub fn decimal(n: u64) -> (r: String)
    ensures
        r@ == digits_of(n as nat),
    decreases n,
{
    if n < 10 {
        String::from_str(digit_text(n))
    } else {
        let mut r = decimal(n / 10);
        r.append(digit_text(n % 10));
        r
    }
}

/// The number written in `s` when `s` is its decimal form and it fits a `u64`.
pub fn parse_decimal(s: &str) -> (r: Option<u64>)
    ensures
        match r {
            Some(v) => s@ == digits_of(v as nat),
            None => forall|v: u64| s@ != digits_of(v as nat),
        },
{
    let n = s.unicode_len();
    let mut v: u128 = 0;
    let mut i: usize = 0;
    while i < n
        invariant
            n == s@.len(),
            i <= n,
            v == value_of(s@.subrange(0, i as int)),
            v <= u64::MAX,
            forall|j: int| 0 <= j < i ==> is_digit(#[trigger] s@[j]),
        decreases n - i,
    {
        let c = s.get_char(i);
        let code = c as u32;
        if code < 48 || code > 57 {
            proof {
                assert forall|w: u64| s@ != digits_of(w as nat) by {
                    lemma_value_of_digits(w as nat);
                    if s@ == digits_of(w as nat) {
                        assert(is_digit(s@[i as int]));
                    }
                }
            }
            return None;
        }
        proof {
            let next = s@.subrange(0, i + 1);
            assert(next.drop_last() =~= s@.subrange(0, i as int));
            assert(next.last() == c);
        }
        v = v * 10 + (code - 48) as u128;
        i = i + 1;
        if v > u64::MAX as u128 {
            proof {
                assert forall|w: u64| s@ != digits_of(w as nat) by {
                    lemma_value_of_digits(w as nat);
                    lemma_prefix_value_le(s@, i as int);
                }
            }
            return None;
        }
    }
    assert(s@.subrange(0, n as int) =~= s@);
    let back = decimal(v as u64);
    let text = String::from_str(s);
    if back == text {
        Some(v as u64)
    } else {
        proof {
            assert forall|w: u64| s@ != digits_of(w as nat) by {
                lemma_value_of_digits(w as nat);
            }
        }
        None
    }
}

} // verus!
