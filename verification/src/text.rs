//! Small verified text utilities: decimal rendering of port numbers and
//! substring search, together with the spec-level notions the rest of the
//! crate states its contracts with.

use vstd::prelude::*;

verus! {

/// The character for a single decimal digit.
pub open spec fn digit_char(d: nat) -> char {
    if d == 0 {
        '0'
    } else if d == 1 {
        '1'
    } else if d == 2 {
        '2'
    } else if d == 3 {
        '3'
    } else if d == 4 {
        '4'
    } else if d == 5 {
        '5'
    } else if d == 6 {
        '6'
    } else if d == 7 {
        '7'
    } else if d == 8 {
        '8'
    } else {
        '9'
    }
}

/// The usual decimal rendering of a natural number, most significant
/// digit first, with no leading zeros (and `0` rendered as "0").
pub open spec fn dec_digits(n: nat) -> Seq<char>
    decreases n,
{
    if n < 10 {
        seq![digit_char(n)]
    } else {
        dec_digits(n / 10).push(digit_char(n % 10))
    }
}

/// True when `s` contains no line break, i.e. it fits on one line of a
/// line-oriented configuration file.
pub open spec fn line_free(s: Seq<char>) -> bool {
    forall|i: int| 0 <= i < s.len() ==> s[i] != '\n'
}

/// True when `sub` occurs contiguously somewhere in `s`.
pub open spec fn has_substring(s: Seq<char>, sub: Seq<char>) -> bool {
    exists|i: int| 0 <= i && i + sub.len() <= s.len() && #[trigger] s.subrange(i, i + sub.len()) == sub
}

fn digit_str(d: u32) -> (r: &'static str)
    requires
        d < 10,
    ensures
        r@ == seq![digit_char(d as nat)],
{
    proof {
        reveal_strlit("0");
        reveal_strlit("1");
        reveal_strlit("2");
        reveal_strlit("3");
        reveal_strlit("4");
        reveal_strlit("5");
        reveal_strlit("6");
        reveal_strlit("7");
        reveal_strlit("8");
        reveal_strlit("9");
    }
    if d == 0 {
        "0"
    } else if d == 1 {
        "1"
    } else if d == 2 {
        "2"
    } else if d == 3 {
        "3"
    } else if d == 4 {
        "4"
    } else if d == 5 {
        "5"
    } else if d == 6 {
        "6"
    } else if d == 7 {
        "7"
    } else if d == 8 {
        "8"
    } else {
        "9"
    }
}

/// Renders `n` in decimal, exactly as `dec_digits` describes.
pub fn u32_to_dec(n: u32) -> (r: String)
    ensures
        r@ == dec_digits(n as nat),
    decreases n,
{
    if n < 10 {
        String::from_str(digit_str(n))
    } else {
        let mut s = u32_to_dec(n / 10);
        s.append(digit_str(n % 10));
        s
    }
}

/// Concatenation of two pieces of text into an owned string.
pub fn concat2(a: &str, b: &str) -> (r: String)
    ensures
        r@ == a@ + b@,
{
    let mut s = String::from_str(a);
    s.append(b);
    s
}

/// Concatenation of three pieces of text into an owned string.
pub fn concat3(a: &str, b: &str, c: &str) -> (r: String)
    ensures
        r@ == a@ + b@ + c@,
{
    let mut s = String::from_str(a);
    s.append(b);
    s.append(c);
    s
}

/// Substring search: decides `has_substring(text@, pat@)`.
pub fn contains_str(text: &str, pat: &str) -> (r: bool)
    ensures
        r == has_substring(text@, pat@),
{
    let n = text.unicode_len();
    let m = pat.unicode_len();
    if m > n {
        assert(!has_substring(text@, pat@));
        return false;
    }
    let mut i: usize = 0;
    while i <= n - m
        invariant
            m <= n,
            n == text@.len(),
            m == pat@.len(),
            i <= n - m + 1,
            forall|k: int|
                0 <= k < i ==> #[trigger] text@.subrange(k, k + pat@.len()) != pat@,
        decreases n - m + 1 - i,
    {
        let mut j: usize = 0;
        let mut matched = true;
        while matched && j < m
            invariant
                m <= n,
                n == text@.len(),
                m == pat@.len(),
                i + m <= n,
                j <= m,
                matched ==> forall|l: int| 0 <= l < j ==> text@[i + l] == pat@[l],
                !matched ==> text@.subrange(i as int, i + pat@.len()) != pat@,
                !matched ==> j < m,
            decreases m - j + (if matched { 1int } else { 0int }),
        {
            if text.get_char(i + j) != pat.get_char(j) {
                assert(text@.subrange(i as int, i + pat@.len())[j as int] != pat@[j as int]);
                matched = false;
            } else {
                j += 1;
            }
        }
        if matched {
            assert(text@.subrange(i as int, i + pat@.len()) =~= pat@);
            return true;
        }
        i += 1;
    }
    assert(forall|k: int| 0 <= k && k + pat@.len() <= text@.len() ==> #[trigger] text@.subrange(k, k + pat@.len()) != pat@);
    false
}

} // verus!
