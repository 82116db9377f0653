//! The progress line parser: reads one progress value out of a chunk of tool output.
//!
//! A chunk is whatever one read returned; a marker and its value need not be
//! aligned with it. A value is taken only where it is complete in the chunk, so a
//! value cut off by the end of a read is missed rather than misread.

use vstd::prelude::*;
use crate::scan::{
    capped, digit_run_len, digit_value, digits_value, find_marker, first_match, is_digit,
    is_line_end, read_digits,
};

verus! {

/// One whole fraction, in parts per million.
pub const FULL: u64 = 1_000_000;

/// An unsigned integer written at `p` and ended by a line break.
pub open spec fn line_number_at(s: Seq<u8>, p: int) -> Option<u64> {
    let k = digit_run_len(s, p);
    if k > 0 && p + k < s.len() && is_line_end(s[p + k]) && digits_value(
        s.subrange(p, p + k),
    ) <= u64::MAX {
        Some(digits_value(s.subrange(p, p + k)) as u64)
    } else {
        None
    }
}

/// The elapsed-time value that follows the first `marker` in `chunk`.
pub open spec fn elapsed_reading(chunk: Seq<u8>, marker: Seq<u8>) -> Option<u64> {
    match first_match(chunk, marker) {
        Some(i) => line_number_at(chunk, i + marker.len()),
        None => None,
    }
}

/// The number of spaces in `s` starting at `p`.
pub open spec fn space_run_len(s: Seq<u8>, p: int) -> nat
    decreases s.len() - p,
{
    if 0 <= p < s.len() && s[p] == 32 {
        1 + space_run_len(s, p + 1)
    } else {
        0
    }
}

/// Parts per million of a percent that the fraction digits `ds` stand for, where the
/// first digit is worth `w`; digits past the resolution are dropped.
pub open spec fn fraction_ppm(ds: Seq<u8>, w: nat) -> nat
    decreases ds.len(),
{
    if ds.len() == 0 || w == 0 {
        0
    } else {
        (digit_value(ds[0]) * w + fraction_ppm(ds.drop_first(), w / 10)) as nat
    }
}

/// A percentage written at `p` as spaces, digits, an optional `.` with digits, and `%`,
/// in parts per million; `None` where it is malformed or above one hundred percent.
pub open spec fn percent_at(s: Seq<u8>, p: int) -> Option<u64> {
    let q = p + space_run_len(s, p);
    let k = digit_run_len(s, q);
    let r = q + k;
    let whole = digits_value(s.subrange(q, r)) * 10000;
    if k == 0 || r >= s.len() {
        None
    } else if s[r] == 37 {
        if whole <= FULL {
            Some(whole as u64)
        } else {
            None
        }
    } else if s[r] == 46 {
        let k2 = digit_run_len(s, r + 1);
        let t = r + 1 + k2;
        let ppm = whole + fraction_ppm(s.subrange(r + 1, t), 1000);
        if k2 > 0 && t < s.len() && s[t] == 37 && ppm <= FULL {
            Some(ppm as u64)
        } else {
            None
        }
    } else {
        None
    }
}

/// The percentage that follows the first `marker` in `chunk`, in parts per million.
pub open spec fn percent_reading(chunk: Seq<u8>, marker: Seq<u8>) -> Option<u64> {
    match first_match(chunk, marker) {
        Some(i) => percent_at(chunk, i + marker.len()),
        None => None,
    }
}

/// Reads the elapsed-time value after the first `marker` in `chunk`: the digits up to
/// the end of that line.
pub fn parse_elapsed(chunk: &[u8], marker: &[u8]) -> (r: Option<u64>)
    ensures
        r == elapsed_reading(chunk@, marker@),
{
    let i = match find_marker(chunk, marker) {
        Some(i) => i,
        None => return None,
    };
    let n: usize = chunk.len();
    let p: usize = i + marker.len();
    let (k, v) = read_digits(chunk, p, u64::MAX as u128 + 1);
    if k == 0 || p + k >= n {
        return None;
    }
    let end = chunk[p + k];
    if end != 10 && end != 13 {
        return None;
    }
    if v > u64::MAX as u128 {
        return None;
    }
    Some(v as u64)
}

/// Reads the fraction digits from `a` up to `t` into parts per million of a percent.
fn read_fraction(s: &[u8], a: usize, t: usize) -> (r: u64)
    requires
        a <= t <= s@.len(),
        forall|j: int| a <= j < t ==> is_digit(#[trigger] s@[j]),
    ensures
        r == fraction_ppm(s@.subrange(a as int, t as int), 1000),
        r <= 10000,
{
    let mut j: usize = a;
    let mut w: u64 = 1000;
    let mut acc: u64 = 0;
    while j < t && w > 0
        invariant
            a <= j <= t <= s@.len(),
            s@.len() == s.len(),
            forall|x: int| a <= x < t ==> is_digit(#[trigger] s@[x]),
            w <= 1000,
            acc + 10 * w <= 10000,
            acc + fraction_ppm(s@.subrange(j as int, t as int), w as nat) == fraction_ppm(
                s@.subrange(a as int, t as int),
                1000,
            ),
        decreases t - j,
    {
        let ghost rest = s@.subrange(j as int, t as int);
        assert(rest.drop_first() =~= s@.subrange(j + 1, t as int));
        assert(rest[0] == s@[j as int]);
        let d: u64 = (s[j] - 48) as u64;
        assert(d * w <= 9 * w) by (nonlinear_arith)
            requires
                d <= 9,
        ;
        acc = acc + d * w;
        w = w / 10;
        j += 1;
    }
    acc
}

/// Reads the percentage after the first `marker` in `chunk`, in parts per million.
pub fn parse_percentage(chunk: &[u8], marker: &[u8]) -> (r: Option<u64>)
    ensures
        r == percent_reading(chunk@, marker@),
{
    let i = match find_marker(chunk, marker) {
        Some(i) => i,
        None => return None,
    };
    let n: usize = chunk.len();
    let p: usize = i + marker.len();
    let mut q: usize = p;
    while q < n && chunk[q] == 32
        invariant
            p <= q <= chunk@.len(),
            chunk@.len() == n,
            space_run_len(chunk@, p as int) == (q - p) + space_run_len(chunk@, q as int),
        decreases chunk@.len() - q,
    {
        q += 1;
    }
    let (k, whole) = read_digits(chunk, q, 101);
    let r: usize = q + k;
    if k == 0 || r >= n || whole > 100 {
        return None;
    }
    let whole_ppm: u64 = whole as u64 * 10000;
    if chunk[r] == 37 {
        return Some(whole_ppm);
    }
    if chunk[r] != 46 {
        return None;
    }
    let (k2, _) = read_digits(chunk, r + 1, 0);
    let t: usize = r + 1 + k2;
    if k2 == 0 || t >= n || chunk[t] != 37 {
        return None;
    }
    let frac = read_fraction(chunk, r + 1, t);
    let ppm = whole_ppm + frac;
    if ppm > FULL {
        return None;
    }
    Some(ppm)
}

} // verus!
