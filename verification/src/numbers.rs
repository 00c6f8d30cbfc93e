//! Decimal parsing for the age field and decimal formatting for rendering.

use vstd::prelude::*;
use crate::validate::{all_digits, is_digit_char, digit_char};

verus! {

/// The numeric value of a string of decimal digits, most significant first.
pub open spec fn digits_val(s: Seq<char>) -> int
    decreases s.len(),
{
    if s.len() == 0 {
        0
    } else {
        digits_val(s.drop_last()) * 10 + (s[s.len() - 1] as int - 48)
    }
}

/// The stored age for a raw age string: the value of an optional `+` sign
/// followed by digits when it fits a 32-bit unsigned integer, and 0 for any
/// other string. The zero fallback is deliberate: an unparseable age is
/// stored as 0, never rejected.
pub open spec fn age_of(s: Seq<char>) -> u32 {
    let t = if s.len() > 0 && s[0] == '+' {
        s.drop_first()
    } else {
        s
    };
    if all_digits(t) && digits_val(t) <= u32::MAX {
        digits_val(t) as u32
    } else {
        0
    }
}

proof fn lemma_digits_val_nonneg(s: Seq<char>)
    requires
        forall|i: int| 0 <= i < s.len() ==> is_digit_char(s[i]),
    ensures
        digits_val(s) >= 0,
    decreases s.len(),
{
    if s.len() > 0 {
        lemma_digits_val_nonneg(s.drop_last());
    }
}

proof fn lemma_digits_val_prefix_le(s: Seq<char>, k: int)
    requires
        forall|i: int| 0 <= i < s.len() ==> is_digit_char(s[i]),
        0 <= k <= s.len(),
    ensures
        digits_val(s.take(k)) <= digits_val(s),
    decreases s.len(),
{
    if k == s.len() {
        assert(s.take(k) =~= s);
    } else {
        let t = s.drop_last();
        assert(s.take(k) =~= t.take(k));
        lemma_digits_val_prefix_le(t, k);
        lemma_digits_val_nonneg(t);
    }
}

/// Parses a raw age string: the numeric value when it is an optionally
/// `+`-signed digit string whose value fits, and 0 otherwise.
pub fn parse_age(s: &str) -> (r: u32)
    ensures
        r == age_of(s@),
{
    let n = s.unicode_len();
    let start: usize = if n > 0 && s.get_char(0) == '+' {
        1
    } else {
        0
    };
    let ghost t = s@.subrange(start as int, n as int);
    proof {
        if n > 0 && s@[0] == '+' {
            assert(s@.drop_first() =~= t);
        } else {
            assert(s@ =~= t);
        }
    }
    if start >= n {
        return 0;
    }
    let mut acc: u32 = 0;
    let mut i: usize = start;
    while i < n
        invariant
            start <= i <= n,
            start < n,
            n == s@.len(),
            t == s@.subrange(start as int, n as int),
            age_of(s@) == (if all_digits(t) && digits_val(t) <= u32::MAX {
                digits_val(t) as u32
            } else {
                0u32
            }),
            forall|k: int| start <= k < i ==> is_digit_char(s@[k]),
            acc == digits_val(t.take(i - start)),
        decreases n - i,
    {
        let c = s.get_char(i);
        if !digit_char(c) {
            assert(!all_digits(t)) by {
                assert(t[i - start] == s@[i as int]);
            }
            return 0;
        }
        let d: u32 = (c as u32) - 48;
        let v: u64 = (acc as u64) * 10 + (d as u64);
        proof {
            let p = t.take(i - start + 1);
            assert(p.drop_last() =~= t.take(i - start));
            assert(p[p.len() - 1] == s@[i as int]);
            assert(digits_val(p) == digits_val(t.take(i - start)) * 10 + (s@[i as int] as int
                - 48));
        }
        if v > 0xffff_ffffu64 {
            // Any digit string continuing this prefix is too large for the
            // age field, and any other continuation is not all digits: the
            // stored age is 0 either way.
            proof {
                if all_digits(t) {
                    lemma_digits_val_prefix_le(t, i - start + 1);
                }
            }
            return 0;
        }
        acc = v as u32;
        i += 1;
    }
    proof {
        assert(t.take(n - start) =~= t);
        assert(all_digits(t)) by {
            assert(forall|j: int| 0 <= j < t.len() ==> t[j] == s@[start + j]);
        }
    }
    acc
}

/// The decimal digit character for a value between 0 and 9.
pub open spec fn char_of_digit(d: int) -> char {
    if d == 0 {
        '0'
    } else if d == 1 {
        '1'
    } else if d == 2 {
        '2'
    } else if d == 3 {
        '3'
    } else if d == 4 {
        '4'
    } else if d == 5 {
        '5'
    } else if d == 6 {
        '6'
    } else if d == 7 {
        '7'
    } else if d == 8 {
        '8'
    } else {
        '9'
    }
}

/// The decimal rendering of a non-negative integer, most significant digit
/// first, with no sign and no leading zeros (a single `0` for zero).
pub open spec fn dec_str(n: int) -> Seq<char>
    decreases n,
{
    if n < 10 {
        seq![char_of_digit(n)]
    } else {
        dec_str(n / 10) + seq![char_of_digit(n % 10)]
    }
}

fn digit_str(d: u32) -> (r: String)
    requires
        d < 10,
    ensures
        r@ == seq![char_of_digit(d as int)],
{
    let r = if d == 0 {
        String::from_str("0")
    } else if d == 1 {
        String::from_str("1")
    } else if d == 2 {
        String::from_str("2")
    } else if d == 3 {
        String::from_str("3")
    } else if d == 4 {
        String::from_str("4")
    } else if d == 5 {
        String::from_str("5")
    } else if d == 6 {
        String::from_str("6")
    } else if d == 7 {
        String::from_str("7")
    } else if d == 8 {
        String::from_str("8")
    } else {
        String::from_str("9")
    };
    proof {
        reveal_strlit("0");
        reveal_strlit("1");
        reveal_strlit("2");
        reveal_strlit("3");
        reveal_strlit("4");
        reveal_strlit("5");
        reveal_strlit("6");
        reveal_strlit("7");
        reveal_strlit("8");
        reveal_strlit("9");
        assert(r@ =~= seq![char_of_digit(d as int)]);
    }
    r
}

/// Renders a 32-bit unsigned integer in decimal.
pub fn u32_to_string(n: u32) -> (r: String)
    ensures
        r@ == dec_str(n as int),
    decreases n,
{
    if n < 10 {
        digit_str(n)
    } else {
        let high = u32_to_string(n / 10);
        let low = digit_str(n % 10);
        let r = high.concat(low.as_str());
        proof {
            assert(r@ =~= dec_str(n as int));
        }
        r
    }
}

} // verus!
