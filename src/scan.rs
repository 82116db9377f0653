//! Byte-level scanning: locating a marker in a chunk and reading decimal digits.

use vstd::prelude::*;

verus! {

/// `m` occurs in `s` starting at index `i`.
pub open spec fn matches_at(s: Seq<u8>, m: Seq<u8>, i: int) -> bool {
    0 <= i && i + m.len() <= s.len() && s.subrange(i, i + m.len()) == m
}

/// The first index at or after `i` where `m` occurs in `s`.
pub open spec fn first_match_from(s: Seq<u8>, m: Seq<u8>, i: int) -> Option<int>
    decreases s.len() + 1 - i,
{
    if i < 0 || i + m.len() > s.len() {
        None
    } else if matches_at(s, m, i) {
        Some(i)
    } else {
        first_match_from(s, m, i + 1)
    }
}

/// The first index where `m` occurs in `s`.
pub open spec fn first_match(s: Seq<u8>, m: Seq<u8>) -> Option<int> {
    first_match_from(s, m, 0)
}

pub open spec fn is_digit(b: u8) -> bool {
    48 <= b <= 57
}

pub open spec fn digit_value(b: u8) -> int {
    b - 48
}

/// The number of consecutive ASCII digits in `s` starting at `p`.
pub open spec fn digit_run_len(s: Seq<u8>, p: int) -> nat
    decreases s.len() - p,
{
    if 0 <= p < s.len() && is_digit(s[p]) {
        1 + digit_run_len(s, p + 1)
    } else {
        0
    }
}

/// The value of a sequence of decimal digits, most significant first.
pub open spec fn digits_value(ds: Seq<u8>) -> nat
    decreases ds.len(),
{
    if ds.len() == 0 {
        0
    } else {
        (digits_value(ds.drop_last()) * 10 + digit_value(ds.last())) as nat
    }
}

/// Whether `m` occurs in `s` at `i`, compared byte by byte.
pub fn matches_at_exec(s: &[u8], m: &[u8], i: usize) -> (r: bool)
    ensures
        r == matches_at(s@, m@, i as int),
{
    if i > s.len() || m.len() > s.len() - i {
        return false;
    }
    let mut k: usize = 0;
    while k < m.len()
        invariant
            i + m@.len() <= s@.len(),
            s@.len() == s.len(),
            m@.len() == m.len(),
            k <= m@.len(),
            forall|j: int| 0 <= j < k ==> s@[i + j] == m@[j],
        decreases m@.len() - k,
    {
        if s[i + k] != m[k] {
            assert(s@.subrange(i as int, i + m@.len())[k as int] != m@[k as int]);
            return false;
        }
        k += 1;
    }
    assert(s@.subrange(i as int, i + m@.len()) =~= m@);
    true
}

/// The index of the first occurrence of `m` in `s`.
pub fn find_marker(s: &[u8], m: &[u8]) -> (r: Option<usize>)
    ensures
        r matches Some(i) ==> first_match(s@, m@) == Some(i as int),
        r matches Some(i) ==> i + m@.len() <= s@.len(),
        r is None ==> first_match(s@, m@) is None,
{
    if m.len() > s.len() {
        assert(first_match(s@, m@) is None);
        return None;
    }
    let last: usize = s.len() - m.len();
    let mut i: usize = 0;
    loop
        invariant
            last + m@.len() == s@.len(),
            i <= last,
            first_match(s@, m@) == first_match_from(s@, m@, i as int),
        decreases last - i,
    {
        if matches_at_exec(s, m, i) {
            return Some(i);
        }
        if i == last {
            assert(first_match_from(s@, m@, i + 1) is None);
            return None;
        }
        i += 1;
    }
}

/// `v`, or `cap` when `v` exceeds it.
pub open spec fn capped(v: nat, cap: nat) -> nat {
    if v < cap {
        v
    } else {
        cap
    }
}

pub open spec fn is_line_end(b: u8) -> bool {
    b == 10 || b == 13
}

/// Reads the run of digits that starts at `p`: its length, and its value capped at `cap`.
pub fn read_digits(s: &[u8], p: usize, cap: u128) -> (r: (usize, u128))
    requires
        p <= s@.len(),
        cap <= u64::MAX as u128 + 1,
    ensures
        r.0 == digit_run_len(s@, p as int),
        p + r.0 <= s@.len(),
        forall|j: int| p <= j < p + r.0 ==> is_digit(#[trigger] s@[j]),
        r.1 == capped(digits_value(s@.subrange(p as int, p + r.0)), cap as nat),
{
    let mut j: usize = p;
    let mut acc: u128 = 0;
    assert(s@.subrange(p as int, p as int) =~= Seq::<u8>::empty());
    while j < s.len() && 48 <= s[j] && s[j] <= 57
        invariant
            p <= j <= s@.len(),
            s@.len() == s.len(),
            cap <= u64::MAX as u128 + 1,
            digit_run_len(s@, p as int) == (j - p) + digit_run_len(s@, j as int),
            forall|x: int| p <= x < j ==> is_digit(#[trigger] s@[x]),
            acc == capped(digits_value(s@.subrange(p as int, j as int)), cap as nat),
        decreases s@.len() - j,
    {
        let ghost prefix = s@.subrange(p as int, j as int);
        let ghost next = s@.subrange(p as int, j + 1);
        assert(next.drop_last() =~= prefix);
        assert(next.last() == s@[j as int]);
        let d: u128 = (s[j] - 48) as u128;
        let grown: u128 = acc * 10 + d;
        acc = if grown < cap {
            grown
        } else {
            cap
        };
        j += 1;
    }
    (j - p, acc)
}

} // verus!
