//! The duration probe adapter: the total duration of a media file, read out of the
//! diagnostic text that the media probe prints for it.

use vstd::prelude::*;
use crate::scan::{digit_value, find_marker, first_match, is_digit};
use vstd::string::StringSliceAdditionalSpecFns;

verus! {

/// The label that precedes the duration in probe text: `Duration:`.
pub open spec fn duration_label() -> Seq<u8> {
    seq![68u8, 117u8, 114u8, 97u8, 116u8, 105u8, 111u8, 110u8, 58u8]
}

/// The two-digit decimal number at `p`.
pub open spec fn two_digits(s: Seq<u8>, p: int) -> int {
    digit_value(s[p]) * 10 + digit_value(s[p + 1])
}

/// A timestamp `HH:MM:SS.ff` starts at `p` (further fraction digits may follow).
pub open spec fn timestamp_at(s: Seq<u8>, p: int) -> bool {
    &&& 0 <= p
    &&& p + 11 <= s.len()
    &&& is_digit(s[p]) && is_digit(s[p + 1])
    &&& s[p + 2] == 58
    &&& is_digit(s[p + 3]) && is_digit(s[p + 4])
    &&& s[p + 5] == 58
    &&& is_digit(s[p + 6]) && is_digit(s[p + 7])
    &&& s[p + 8] == 46
    &&& is_digit(s[p + 9]) && is_digit(s[p + 10])
}

/// The timestamp at `p` in milliseconds; the two fraction digits are hundredths.
pub open spec fn timestamp_ms(s: Seq<u8>, p: int) -> int {
    two_digits(s, p) * 3_600_000 + two_digits(s, p + 3) * 60_000 + two_digits(s, p + 6) * 1000
        + two_digits(s, p + 9) * 10
}

/// The duration that probe text reports: the timestamp after a single space that
/// follows the first `Duration:` label.
pub open spec fn probe_duration(s: Seq<u8>) -> Option<u64> {
    match first_match(s, duration_label()) {
        Some(i) => {
            let p = i + duration_label().len() + 1;
            if p <= s.len() && s[p - 1] == 32 && timestamp_at(s, p) {
                Some(timestamp_ms(s, p) as u64)
            } else {
                None
            }
        },
        None => None,
    }
}

/// The two-digit number at `p`.
fn read_two_digits(s: &[u8], p: usize) -> (r: u64)
    requires
        p + 1 < s@.len(),
        is_digit(s@[p as int]),
        is_digit(s@[p + 1]),
    ensures
        r == two_digits(s@, p as int),
{
    ((s[p] - 48) as u64) * 10 + (s[p + 1] - 48) as u64
}

/// The duration in milliseconds that probe text, as bytes, reports.
pub fn duration_from_bytes(text: &[u8]) -> (r: Option<u64>)
    ensures
        r == probe_duration(text@),
{
    let label: Vec<u8> = vec![68u8, 117u8, 114u8, 97u8, 116u8, 105u8, 111u8, 110u8, 58u8];
    assert(label@ == duration_label());
    let i = match find_marker(text, label.as_slice()) {
        Some(i) => i,
        None => return None,
    };
    let n: usize = text.len();
    if label.len() + 12 > n - i {
        return None;
    }
    let p: usize = i + label.len() + 1;
    if text[p - 1] != 32 {
        return None;
    }
    let digits_ok = 48 <= text[p] && text[p] <= 57 && 48 <= text[p + 1] && text[p + 1] <= 57
        && 48 <= text[p + 3] && text[p + 3] <= 57 && 48 <= text[p + 4] && text[p + 4] <= 57
        && 48 <= text[p + 6] && text[p + 6] <= 57 && 48 <= text[p + 7] && text[p + 7] <= 57
        && 48 <= text[p + 9] && text[p + 9] <= 57 && 48 <= text[p + 10] && text[p + 10] <= 57;
    let marks_ok = text[p + 2] == 58 && text[p + 5] == 58 && text[p + 8] == 46;
    if !digits_ok || !marks_ok {
        return None;
    }
    let hours = read_two_digits(text, p);
    let minutes = read_two_digits(text, p + 3);
    let seconds = read_two_digits(text, p + 6);
    let hundredths = read_two_digits(text, p + 9);
    Some(hours * 3_600_000 + minutes * 60_000 + seconds * 1000 + hundredths * 10)
}

/// The duration in milliseconds that probe text reports: the `HH:MM:SS.ff` after the
/// first `Duration: ` label; `None` when the label is missing or the value malformed.
pub fn extract_media_duration(media_string: &str) -> (r: Option<u64>)
    ensures
        r == probe_duration(media_string.spec_bytes()),
{
    duration_from_bytes(media_string.as_bytes())
}

} // verus!
