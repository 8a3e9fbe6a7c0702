//! Small verified helpers for working with strings as sequences of
//! characters: comparison, prefix matching, searching, and decimal
//! rendering.

use vstd::prelude::*;

verus! {

/// Relies on String::push: appends exactly one character.
#[verifier::external_body]
pub(crate) fn push_char(s: &mut String, c: char)
    ensures
        final(s)@ == old(s)@.push(c),
{
    s.push(c);
}

/// True when `lit` occurs in `s` starting at position `pos`.
pub open spec fn starts_at(s: Seq<char>, pos: int, lit: Seq<char>) -> bool {
    0 <= pos && pos + lit.len() <= s.len() && s.subrange(pos, pos + lit.len()) == lit
}

/// Compares two string slices character by character.
pub fn str_eq(a: &str, b: &str) -> (r: bool)
    ensures
        r == (a@ == b@),
{
    let alen = a.unicode_len();
    let blen = b.unicode_len();
    if alen != blen {
        assert(a@ != b@) by {
            assert(a@.len() != b@.len());
        }
        return false;
    }
    let mut i: usize = 0;
    while i < alen
        invariant
            i <= alen,
            alen == a@.len(),
            alen == b@.len(),
            forall|k: int| 0 <= k < i ==> a@[k] == b@[k],
        decreases alen - i,
    {
        if a.get_char(i) != b.get_char(i) {
            assert(a@ != b@) by {
                assert(a@[i as int] != b@[i as int]);
            }
            return false;
        }
        i = i + 1;
    }
    assert(a@ =~= b@);
    true
}

/// Does `s` carry `lit` starting at character position `pos`?
pub fn match_at(s: &str, pos: usize, lit: &str) -> (r: bool)
    ensures
        r == starts_at(s@, pos as int, lit@),
{
    let slen = s.unicode_len();
    let llen = lit.unicode_len();
    if pos > slen || llen > slen - pos {
        assert(!starts_at(s@, pos as int, lit@));
        return false;
    }
    let mut j: usize = 0;
    while j < llen
        invariant
            j <= llen,
            slen == s@.len(),
            llen == lit@.len(),
            pos + llen <= slen,
            forall|k: int| 0 <= k < j ==> s@[pos + k] == lit@[k],
        decreases llen - j,
    {
        if s.get_char(pos + j) != lit.get_char(j) {
            assert(!starts_at(s@, pos as int, lit@)) by {
                assert(s@.subrange(pos as int, pos + lit@.len())[j as int] == s@[pos + j]);
            }
            return false;
        }
        j = j + 1;
    }
    assert(s@.subrange(pos as int, pos + lit@.len()) =~= lit@);
    true
}

/// The position of the first occurrence of `c` in `s` at or after
/// position `p`, or the length of `s` when there is none.
pub open spec fn idx_of_from(s: Seq<char>, p: int, c: char) -> int
    decreases s.len() - p,
{
    if p < 0 || p >= s.len() {
        s.len() as int
    } else if s[p] == c {
        p
    } else {
        idx_of_from(s, p + 1, c)
    }
}

/// The position of the first occurrence of `c1` or `c2` in `s` at or
/// after position `p`, or the length of `s` when there is none.
pub open spec fn idx_of2_from(s: Seq<char>, p: int, c1: char, c2: char) -> int
    decreases s.len() - p,
{
    if p < 0 || p >= s.len() {
        s.len() as int
    } else if s[p] == c1 || s[p] == c2 {
        p
    } else {
        idx_of2_from(s, p + 1, c1, c2)
    }
}

/// Scans from `from` to the first occurrence of `stop` (or the end of
/// `s`).
pub fn seg_end(s: &str, from: usize, stop: char) -> (r: usize)
    requires
        from <= s@.len(),
    ensures
        r == idx_of_from(s@, from as int, stop),
        from <= r <= s@.len(),
{
    let slen = s.unicode_len();
    let mut i: usize = from;
    while i < slen
        invariant
            from <= i <= slen,
            slen == s@.len(),
            idx_of_from(s@, from as int, stop) == idx_of_from(s@, i as int, stop),
        decreases slen - i,
    {
        if s.get_char(i) == stop {
            return i;
        }
        i = i + 1;
    }
    slen
}

/// Scans from `from` to the first occurrence of `stop1` or `stop2` (or
/// the end of `s`).
pub fn seg_end2(s: &str, from: usize, stop1: char, stop2: char) -> (r: usize)
    requires
        from <= s@.len(),
    ensures
        r == idx_of2_from(s@, from as int, stop1, stop2),
        from <= r <= s@.len(),
{
    let slen = s.unicode_len();
    let mut i: usize = from;
    while i < slen
        invariant
            from <= i <= slen,
            slen == s@.len(),
            idx_of2_from(s@, from as int, stop1, stop2) == idx_of2_from(s@, i as int, stop1, stop2),
        decreases slen - i,
    {
        let c = s.get_char(i);
        if c == stop1 || c == stop2 {
            return i;
        }
        i = i + 1;
    }
    slen
}

/// Pins the value of [`idx_of_from`]: if nothing in `[p, e)` is `c`,
/// and `e` is the end of the text or holds `c`, the first occurrence
/// is at `e`.
pub proof fn lemma_idx_of_from_val(s: Seq<char>, p: int, e: int, c: char)
    requires
        0 <= p <= e <= s.len(),
        forall|k: int| p <= k < e ==> s[k] != c,
        e == s.len() || s[e] == c,
    ensures
        idx_of_from(s, p, c) == e,
    decreases e - p,
{
    if p < e {
        lemma_idx_of_from_val(s, p + 1, e, c);
    }
}

/// The companion of [`lemma_idx_of_from_val`] for two stop characters.
pub proof fn lemma_idx_of2_from_val(s: Seq<char>, p: int, e: int, c1: char, c2: char)
    requires
        0 <= p <= e <= s.len(),
        forall|k: int| p <= k < e ==> s[k] != c1 && s[k] != c2,
        e == s.len() || s[e] == c1 || s[e] == c2,
    ensures
        idx_of2_from(s, p, c1, c2) == e,
    decreases e - p,
{
    if p < e {
        lemma_idx_of2_from_val(s, p + 1, e, c1, c2);
    }
}

/// The character for one decimal digit.
pub open spec fn digit_char(d: int) -> char {
    if d == 0 {
        '0'
    } else if d == 1 {
        '1'
    } else if d == 2 {
        '2'
    } else if d == 3 {
        '3'
    } else if d == 4 {
        '4'
    } else if d == 5 {
        '5'
    } else if d == 6 {
        '6'
    } else if d == 7 {
        '7'
    } else if d == 8 {
        '8'
    } else {
        '9'
    }
}

/// The usual decimal rendering of a natural number, most significant
/// digit first.
pub open spec fn dec_digits(n: nat) -> Seq<char>
    decreases n,
{
    if n < 10 {
        seq![digit_char(n as int)]
    } else {
        dec_digits(n / 10).push(digit_char((n % 10) as int))
    }
}

fn digit_str(d: usize) -> (r: &'static str)
    requires
        d < 10,
    ensures
        r@ =~= seq![digit_char(d as int)],
{
    proof {
        reveal_strlit("0");
        reveal_strlit("1");
        reveal_strlit("2");
        reveal_strlit("3");
        reveal_strlit("4");
        reveal_strlit("5");
        reveal_strlit("6");
        reveal_strlit("7");
        reveal_strlit("8");
        reveal_strlit("9");
    }
    if d == 0 {
        "0"
    } else if d == 1 {
        "1"
    } else if d == 2 {
        "2"
    } else if d == 3 {
        "3"
    } else if d == 4 {
        "4"
    } else if d == 5 {
        "5"
    } else if d == 6 {
        "6"
    } else if d == 7 {
        "7"
    } else if d == 8 {
        "8"
    } else {
        "9"
    }
}

/// Renders a number in decimal.
pub fn usize_to_string(n: usize) -> (r: String)
    ensures
        r@ == dec_digits(n as nat),
    decreases n,
{
    if n < 10 {
        String::from_str(digit_str(n))
    } else {
        let prefix = usize_to_string(n / 10);
        let r = prefix.concat(digit_str(n % 10));
        assert(r@ =~= dec_digits(n as nat));
        r
    }
}

} // verus!
