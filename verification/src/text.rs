//! Small text utilities: decimal rendering of integers and case-insensitive
//! substring search.

use vstd::prelude::*;

verus! {

/// The decimal digit character for `d` (`0 <= d < 10`).
pub open spec fn digit_char(d: nat) -> char {
    if d == 0 { '0' }
    else if d == 1 { '1' }
    else if d == 2 { '2' }
    else if d == 3 { '3' }
    else if d == 4 { '4' }
    else if d == 5 { '5' }
    else if d == 6 { '6' }
    else if d == 7 { '7' }
    else if d == 8 { '8' }
    else { '9' }
}

/// The decimal representation of `n`, without leading zeros.
pub open spec fn decimal(n: nat) -> Seq<char>
    decreases n,
{
    if n < 10 {
        seq![digit_char(n)]
    } else {
        decimal(n / 10).push(digit_char(n % 10))
    }
}

fn digit_str(d: u32) -> (s: &'static str)
    requires
        d < 10,
    ensures
        s@ == seq![digit_char(d as nat)],
{
    if d == 0 {
        proof { reveal_strlit("0"); }
        "0"
    } else if d == 1 {
        proof { reveal_strlit("1"); }
        "1"
    } else if d == 2 {
        proof { reveal_strlit("2"); }
        "2"
    } else if d == 3 {
        proof { reveal_strlit("3"); }
        "3"
    } else if d == 4 {
        proof { reveal_strlit("4"); }
        "4"
    } else if d == 5 {
        proof { reveal_strlit("5"); }
        "5"
    } else if d == 6 {
        proof { reveal_strlit("6"); }
        "6"
    } else if d == 7 {
        proof { reveal_strlit("7"); }
        "7"
    } else if d == 8 {
        proof { reveal_strlit("8"); }
        "8"
    } else {
        proof { reveal_strlit("9"); }
        "9"
    }
}

/// Renders `n` in decimal, as `format!("{}", n)` does.
pub fn u32_to_decimal(n: u32) -> (s: String)
    ensures
        s@ == decimal(n as nat),
    decreases n,
{
    if n < 10 {
        String::from_str(digit_str(n))
    } else {
        let mut s = u32_to_decimal(n / 10);
        s.append(digit_str(n % 10));
        s
    }
}

/// `prefix` followed by the decimal rendering of `n`, as
/// `format!("{prefix}{n}")` gives it.
pub fn with_decimal_suffix(prefix: &str, n: u32) -> (s: String)
    ensures
        s@ == prefix@ + decimal(n as nat),
{
    let digits = u32_to_decimal(n);
    let s = String::from_str(prefix);
    s.concat(digits.as_str())
}

/// ASCII lower-casing of one character; other characters are unchanged.
pub open spec fn ascii_lower(c: char) -> char {
    if 'A' <= c && c <= 'Z' {
        ((c as u32) + 32) as char
    } else {
        c
    }
}

/// Lower-cases every ASCII letter of `s`.
pub open spec fn lower_seq(s: Seq<char>) -> Seq<char> {
    s.map_values(|c: char| ascii_lower(c))
}

/// `needle` occurs in `hay` starting at index `i`.
pub open spec fn occurs_at(hay: Seq<char>, needle: Seq<char>, i: int) -> bool {
    0 <= i && i + needle.len() <= hay.len() && hay.subrange(i, i + needle.len()) == needle
}

/// `needle` occurs somewhere in `hay`.
pub open spec fn contains_seq(hay: Seq<char>, needle: Seq<char>) -> bool {
    exists|i: int| occurs_at(hay, needle, i)
}

fn lower_char(c: char) -> (r: char)
    ensures
        r == ascii_lower(c),
{
    if 'A' <= c && c <= 'Z' {
        let v: u8 = (c as u8) + 32;
        v as char
    } else {
        c
    }
}

/// Whether the ASCII-lower-cased `hay` contains `needle`. For needles made of
/// lower-case ASCII letters and spaces this agrees with
/// `hay.to_lowercase().contains(needle)`: the only non-ASCII characters whose
/// Unicode lower case holds an ASCII letter are U+212A (to `k`) and U+0130
/// (to `i` followed by U+0307), and such needles contain no `k` and end in no
/// `i`.
pub fn contains_ignore_ascii_case(hay: &str, needle: &str) -> (r: bool)
    ensures
        r == contains_seq(lower_seq(hay@), needle@),
{
    let n = hay.unicode_len();
    let m = needle.unicode_len();
    let ghost h = lower_seq(hay@);
    if m > n {
        assert forall|i: int| !occurs_at(h, needle@, i) by {}
        return false;
    }
    let mut i: usize = 0;
    while i <= n - m
        invariant
            n == hay@.len(),
            m == needle@.len(),
            m <= n,
            i <= n - m + 1,
            h == lower_seq(hay@),
            forall|k: int| 0 <= k < i ==> !occurs_at(h, needle@, k),
        decreases n - i,
    {
        let mut j: usize = 0;
        let mut ok = true;
        while j < m
            invariant
                n == hay@.len(),
                m == needle@.len(),
                i + m <= n,
                j <= m,
                h == lower_seq(hay@),
                ok ==> forall|t: int| 0 <= t < j ==> h[i + t] == needle@[t],
                !ok ==> exists|t: int| 0 <= t < m && h[i + t] != needle@[t],
            decreases m - j,
        {
            let c = lower_char(hay.get_char(i + j));
            if c != needle.get_char(j) {
                ok = false;
                assert(h[i + j] != needle@[j as int]);
            }
            j = j + 1;
        }
        if ok {
            assert(h.subrange(i as int, i + m) =~= needle@);
            assert(occurs_at(h, needle@, i as int));
            return true;
        }
        proof {
            let t = choose|t: int| 0 <= t < m && h[i + t] != needle@[t];
            assert(h.subrange(i as int, i + m)[t] != needle@[t]);
        }
        i = i + 1;
    }
    assert forall|k: int| !occurs_at(h, needle@, k) by {
        if 0 <= k && k + m <= n {
            assert(k < i);
        }
    }
    false
}

} // verus!
