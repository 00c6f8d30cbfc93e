//! Character classes and full-string validation rules for collected fields.
//!
//! Each rule must hold of the entire trimmed input: a single offending
//! character rejects the string.

use vstd::prelude::*;

verus! {

/// The Unicode characters with the White_Space property, the set that input
/// trimming and the name-like rule treat as whitespace.
pub open spec fn is_space_char(c: char) -> bool {
    c == ' ' || c == '\t' || c == '\n' || c == '\u{b}' || c == '\u{c}' || c == '\r'
        || c == '\u{85}' || c == '\u{a0}' || c == '\u{1680}'
        || ('\u{2000}' <= c && c <= '\u{200a}')
        || c == '\u{2028}' || c == '\u{2029}' || c == '\u{202f}' || c == '\u{205f}'
        || c == '\u{3000}'
}

/// An ASCII letter.
pub open spec fn is_letter(c: char) -> bool {
    ('a' <= c && c <= 'z') || ('A' <= c && c <= 'Z')
}

/// An ASCII decimal digit.
pub open spec fn is_digit_char(c: char) -> bool {
    '0' <= c && c <= '9'
}

pub fn space_char(c: char) -> (r: bool)
    ensures
        r == is_space_char(c),
{
    c == ' ' || c == '\t' || c == '\n' || c == '\u{b}' || c == '\u{c}' || c == '\r'
        || c == '\u{85}' || c == '\u{a0}' || c == '\u{1680}'
        || ('\u{2000}' <= c && c <= '\u{200a}')
        || c == '\u{2028}' || c == '\u{2029}' || c == '\u{202f}' || c == '\u{205f}'
        || c == '\u{3000}'
}

pub fn letter_char(c: char) -> (r: bool)
    ensures
        r == is_letter(c),
{
    ('a' <= c && c <= 'z') || ('A' <= c && c <= 'Z')
}

pub fn digit_char(c: char) -> (r: bool)
    ensures
        r == is_digit_char(c),
{
    '0' <= c && c <= '9'
}

/// A character allowed in the local part of an email address.
pub open spec fn is_local_char(c: char) -> bool {
    is_letter(c) || is_digit_char(c) || c == '.' || c == '_' || c == '%' || c == '+' || c == '-'
}

/// A character allowed in the domain part of an email address.
pub open spec fn is_domain_char(c: char) -> bool {
    is_letter(c) || is_digit_char(c) || c == '.' || c == '-'
}

/// The name-like rule: one or more characters, each a letter or whitespace.
pub open spec fn name_like(s: Seq<char>) -> bool {
    s.len() > 0 && forall|i: int| 0 <= i < s.len() ==> is_letter(s[i]) || is_space_char(s[i])
}

pub fn is_name_like(s: &str) -> (r: bool)
    ensures
        r == name_like(s@),
{
    let n = s.unicode_len();
    if n == 0 {
        return false;
    }
    let mut i: usize = 0;
    while i < n
        invariant
            0 <= i <= n,
            n == s@.len(),
            forall|j: int| 0 <= j < i ==> is_letter(s@[j]) || is_space_char(s@[j]),
        decreases n - i,
    {
        let c = s.get_char(i);
        if !(letter_char(c) || space_char(c)) {
            return false;
        }
        i += 1;
    }
    true
}

/// The numeric rule: one or more characters, each a decimal digit.
pub open spec fn all_digits(s: Seq<char>) -> bool {
    s.len() > 0 && forall|i: int| 0 <= i < s.len() ==> is_digit_char(s[i])
}

pub fn is_all_digits(s: &str) -> (r: bool)
    ensures
        r == all_digits(s@),
{
    let n = s.unicode_len();
    if n == 0 {
        return false;
    }
    let mut i: usize = 0;
    while i < n
        invariant
            0 <= i <= n,
            n == s@.len(),
            forall|j: int| 0 <= j < i ==> is_digit_char(s@[j]),
        decreases n - i,
    {
        if !digit_char(s.get_char(i)) {
            return false;
        }
        i += 1;
    }
    true
}

/// One or more digit groups separated by single hyphens: the string is
/// non-empty, holds only digits and hyphens, starts and ends with a digit,
/// and never has two hyphens in a row.
pub open spec fn digit_groups(t: Seq<char>) -> bool {
    &&& t.len() > 0
    &&& forall|i: int| 0 <= i < t.len() ==> is_digit_char(t[i]) || t[i] == '-'
    &&& is_digit_char(t[0])
    &&& is_digit_char(t[t.len() - 1])
    &&& forall|i: int| 0 <= i < t.len() - 1 ==> !(#[trigger] t[i] == '-' && t[i + 1] == '-')
}

/// The phone rule: an optional leading `+`, then digit groups separated by
/// single hyphens.
pub open spec fn phone_ok(s: Seq<char>) -> bool {
    if s.len() > 0 && s[0] == '+' {
        digit_groups(s.drop_first())
    } else {
        digit_groups(s)
    }
}

/// A decomposition witnessing the email rule: `s` splits as a non-empty
/// local part, `@`, a non-empty domain part, `.`, and a top-level segment of
/// at least two letters, with `a` the position of the `@` and `d` the
/// position of the final `.`.
pub open spec fn email_split(s: Seq<char>, a: int, d: int) -> bool {
    &&& 1 <= a
    &&& a + 1 < d
    &&& d + 2 < s.len()
    &&& s[a] == '@'
    &&& s[d] == '.'
    &&& forall|k: int| 0 <= k < a ==> is_local_char(s[k])
    &&& forall|k: int| a < k < d ==> is_domain_char(s[k])
    &&& forall|k: int| d < k < s.len() ==> is_letter(s[k])
}

/// The email rule: some split into local part, domain and top-level segment
/// satisfies `email_split`.
pub open spec fn email_ok(s: Seq<char>) -> bool {
    exists|a: int, d: int| email_split(s, a, d)
}

pub fn is_phone(s: &str) -> (r: bool)
    ensures
        r == phone_ok(s@),
{
    let n = s.unicode_len();
    if n == 0 {
        return false;
    }
    let start: usize = if s.get_char(0) == '+' {
        1
    } else {
        0
    };
    proof {
        assert(phone_ok(s@) == digit_groups(s@.subrange(start as int, n as int))) by {
            if s@[0] == '+' {
                assert(s@.drop_first() =~= s@.subrange(1, n as int));
            } else {
                assert(s@ =~= s@.subrange(0, n as int));
            }
        }
    }
    let ghost t = s@.subrange(start as int, n as int);
    if start >= n {
        return false;
    }
    if !digit_char(s.get_char(start)) {
        assert(!digit_groups(t)) by {
            assert(t[0] == s@[start as int]);
        }
        return false;
    }
    if !digit_char(s.get_char(n - 1)) {
        assert(!digit_groups(t)) by {
            assert(t[t.len() - 1] == s@[n - 1]);
        }
        return false;
    }
    let mut i: usize = start;
    let mut prev: char = '0';
    while i < n
        invariant
            start <= i <= n,
            n == s@.len(),
            t == s@.subrange(start as int, n as int),
            phone_ok(s@) == digit_groups(t),
            i > start ==> prev == s@[i - 1],
            forall|k: int| start <= k < i ==> is_digit_char(s@[k]) || s@[k] == '-',
            forall|k: int| start <= k < i - 1 ==> !(#[trigger] s@[k] == '-' && s@[k + 1] == '-'),
        decreases n - i,
    {
        let c = s.get_char(i);
        if !(digit_char(c) || c == '-') {
            assert(!digit_groups(t)) by {
                assert(t[i - start] == s@[i as int]);
            }
            return false;
        }
        if i > start && c == '-' && prev == '-' {
            assert(!digit_groups(t)) by {
                assert(t[i - start - 1] == s@[i - 1]);
                assert(t[i - start] == s@[i as int]);
            }
            return false;
        }
        prev = c;
        i += 1;
    }
    proof {
        assert(digit_groups(t)) by {
            assert(t.len() == n - start);
            assert(forall|j: int| 0 <= j < t.len() ==> t[j] == s@[start + j]);
            assert(t[0] == s@[start as int]);
            assert(t[t.len() - 1] == s@[n - 1]);
            assert forall|j: int| 0 <= j < t.len() - 1 implies !(#[trigger] t[j] == '-' && t[j + 1]
                == '-') by {
                assert(t[j] == s@[start + j]);
                assert(t[j + 1] == s@[start + j + 1]);
            }
        }
    }
    true
}

pub fn is_email(s: &str) -> (r: bool)
    ensures
        r == email_ok(s@),
{
    let n = s.unicode_len();
    // Find the first `@`: any witness split places its `@` here, since the
    // local part admits no `@`.
    let mut a: usize = 0;
    while a < n && s.get_char(a) != '@'
        invariant
            0 <= a <= n,
            n == s@.len(),
            forall|k: int| 0 <= k < a ==> s@[k] != '@',
        decreases n - a,
    {
        a += 1;
    }
    if a >= n {
        proof {
            assert(!email_ok(s@)) by {
                if email_ok(s@) {
                    let (x, y) = choose|x: int, y: int| email_split(s@, x, y);
                    assert(s@[x] == '@');
                }
            }
        }
        return false;
    }
    // Find the last `.`: any witness split places its `.` here, since the
    // top-level segment holds letters only.
    let mut d: usize = n;
    let mut found_dot: bool = false;
    while d > 0 && !found_dot
        invariant
            0 <= d <= n,
            n == s@.len(),
            !found_dot ==> forall|k: int| d <= k < n ==> s@[k] != '.',
            found_dot ==> d < n && s@[d as int] == '.' && forall|k: int|
                d < k < n ==> s@[k] != '.',
        decreases d + (if found_dot { 0int } else { 1int }),
    {
        if s.get_char(d - 1) == '.' {
            d -= 1;
            found_dot = true;
        } else {
            d -= 1;
        }
    }
    proof {
        // Any witness split must use exactly this `@` and this `.`.
        if email_ok(s@) {
            let (x, y) = choose|x: int, y: int| email_split(s@, x, y);
            assert(s@[x] == '@');
            assert(x >= a);
            if x > a {
                assert(is_local_char(s@[a as int]));
            }
            assert(x == a);
            assert(s@[y] == '.');
            assert(found_dot);
            assert(y <= d);
            if y < d {
                assert(is_letter(s@[d as int]));
            }
            assert(y == d);
            assert(email_split(s@, a as int, d as int));
        }
    }
    if !found_dot {
        return false;
    }
    if !(a >= 1 && a + 1 < d && n >= 3 && d <= n - 3) {
        return false;
    }
    let mut k: usize = 0;
    while k < a
        invariant
            0 <= k <= a < n,
            n == s@.len(),
            a >= 1,
            a + 1 < d,
            d + 2 < n,
            s@[a as int] == '@',
            s@[d as int] == '.',
            email_ok(s@) ==> email_split(s@, a as int, d as int),
            forall|j: int| 0 <= j < k ==> is_local_char(s@[j]),
        decreases a - k,
    {
        let c = s.get_char(k);
        if !(letter_char(c) || digit_char(c) || c == '.' || c == '_' || c == '%' || c == '+' || c
            == '-') {
            return false;
        }
        k += 1;
    }
    let mut k2: usize = a + 1;
    while k2 < d
        invariant
            a < k2 <= d < n,
            n == s@.len(),
            a >= 1,
            a + 1 < d,
            d + 2 < n,
            s@[a as int] == '@',
            s@[d as int] == '.',
            email_ok(s@) ==> email_split(s@, a as int, d as int),
            forall|j: int| 0 <= j < a ==> is_local_char(s@[j]),
            forall|j: int| a < j < k2 ==> is_domain_char(s@[j]),
        decreases d - k2,
    {
        let c = s.get_char(k2);
        if !(letter_char(c) || digit_char(c) || c == '.' || c == '-') {
            return false;
        }
        k2 += 1;
    }
    let mut k3: usize = d + 1;
    while k3 < n
        invariant
            d < k3 <= n,
            n == s@.len(),
            a >= 1,
            a + 1 < d,
            d + 2 < n,
            s@[a as int] == '@',
            s@[d as int] == '.',
            email_ok(s@) ==> email_split(s@, a as int, d as int),
            forall|j: int| 0 <= j < a ==> is_local_char(s@[j]),
            forall|j: int| a < j < d ==> is_domain_char(s@[j]),
            forall|j: int| d < j < k3 ==> is_letter(s@[j]),
        decreases n - k3,
    {
        if !letter_char(s.get_char(k3)) {
            return false;
        }
        k3 += 1;
    }
    assert(email_split(s@, a as int, d as int));
    true
}

/// `s` with its leading whitespace removed.
pub open spec fn trim_front(s: Seq<char>) -> Seq<char>
    decreases s.len(),
{
    if s.len() == 0 {
        s
    } else if is_space_char(s[0]) {
        trim_front(s.drop_first())
    } else {
        s
    }
}

/// `s` with its trailing whitespace removed.
pub open spec fn trim_back(s: Seq<char>) -> Seq<char>
    decreases s.len(),
{
    if s.len() == 0 {
        s
    } else if is_space_char(s[s.len() - 1]) {
        trim_back(s.drop_last())
    } else {
        s
    }
}

/// `s` with leading and trailing whitespace removed.
pub open spec fn trimmed(s: Seq<char>) -> Seq<char> {
    trim_back(trim_front(s))
}

proof fn lemma_trim_front_all_space(s: Seq<char>)
    requires
        forall|k: int| 0 <= k < s.len() ==> is_space_char(s[k]),
    ensures
        trim_front(s) == Seq::<char>::empty(),
    decreases s.len(),
{
    if s.len() == 0 {
        assert(s =~= Seq::<char>::empty());
    } else {
        lemma_trim_front_all_space(s.drop_first());
    }
}

proof fn lemma_trim_front_at(s: Seq<char>, b: int)
    requires
        0 <= b < s.len(),
        forall|k: int| 0 <= k < b ==> is_space_char(s[k]),
        !is_space_char(s[b]),
    ensures
        trim_front(s) == s.subrange(b, s.len() as int),
    decreases b,
{
    if b == 0 {
        assert(s.subrange(0, s.len() as int) =~= s);
    } else {
        let t = s.drop_first();
        assert(forall|k: int| 0 <= k < b - 1 ==> is_space_char(t[k]));
        lemma_trim_front_at(t, b - 1);
        assert(t.subrange(b - 1, t.len() as int) =~= s.subrange(b, s.len() as int));
    }
}

proof fn lemma_trim_back_at(s: Seq<char>, e: int)
    requires
        0 < e <= s.len(),
        forall|k: int| e <= k < s.len() ==> is_space_char(s[k]),
        !is_space_char(s[e - 1]),
    ensures
        trim_back(s) == s.subrange(0, e),
    decreases s.len(),
{
    if e == s.len() {
        assert(s.subrange(0, e) =~= s);
    } else {
        let t = s.drop_last();
        assert(forall|k: int| e <= k < t.len() ==> is_space_char(t[k]));
        lemma_trim_back_at(t, e);
        assert(t.subrange(0, e) =~= s.subrange(0, e));
    }
}

/// Returns `s` with leading and trailing whitespace removed.
pub fn trim_str(s: &str) -> (r: String)
    ensures
        r@ == trimmed(s@),
{
    let n = s.unicode_len();
    let mut b: usize = 0;
    while b < n && space_char(s.get_char(b))
        invariant
            0 <= b <= n,
            n == s@.len(),
            forall|k: int| 0 <= k < b ==> is_space_char(s@[k]),
        decreases n - b,
    {
        b += 1;
    }
    if b >= n {
        proof {
            lemma_trim_front_all_space(s@);
        }
        return String::new();
    }
    let mut e: usize = n;
    while e > b && space_char(s.get_char(e - 1))
        invariant
            b <= e <= n,
            n == s@.len(),
            forall|k: int| e <= k < n ==> is_space_char(s@[k]),
        decreases e,
    {
        e -= 1;
    }
    assert(e > b) by {
        if e == b {
            assert(is_space_char(s@[b as int]));
        }
    }
    let t = s.substring_char(b, e);
    proof {
        lemma_trim_front_at(s@, b as int);
        let f = s@.subrange(b as int, n as int);
        assert(forall|k: int| e - b <= k < f.len() ==> is_space_char(f[k]));
        assert(!is_space_char(f[e - b - 1]));
        lemma_trim_back_at(f, e - b);
        assert(f.subrange(0, e - b) =~= s@.subrange(b as int, e as int));
    }
    String::from_str(t)
}

} // verus!
