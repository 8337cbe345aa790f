//! Reading the partial dates MusicBrainz gives: a year, optionally followed
//! by a month and a day, separated by dashes.
use vstd::prelude::*;
use crate::text::{split_on, split_spec, str_views};

verus! {

/// Whether every character is a decimal digit.
pub open spec fn all_digits(s: Seq<char>) -> bool {
    forall|i: int| 0 <= i < s.len() ==> '0' <= #[trigger] s[i] <= '9'
}

/// The number written by a string of decimal digits.
pub open spec fn digits_value(s: Seq<char>) -> int
    decreases s.len(),
{
    if s.len() == 0 {
        0
    } else {
        digits_value(s.drop_last()) * 10 + (s.last() as int - '0' as int)
    }
}

/// The number a text writes in decimal digits, if it is one and at most `max`.
pub open spec fn number_spec(s: Seq<char>, max: int) -> Option<int> {
    if s.len() > 0 && all_digits(s) && digits_value(s) <= max {
        Some(digits_value(s))
    } else {
        None
    }
}

proof fn lemma_digits_value_grows(s: Seq<char>, k: int)
    requires
        0 <= k <= s.len(),
        all_digits(s),
    ensures
        digits_value(s.take(k)) <= digits_value(s),
        0 <= digits_value(s.take(k)),
    decreases s.len() - k,
{
    if k < s.len() {
        lemma_digits_value_grows(s, k + 1);
        assert(s.take(k + 1).drop_last() =~= s.take(k));
        assert('0' <= s[k] <= '9');
    } else {
        assert(s.take(k) =~= s);
        lemma_digits_value_nonneg(s);
    }
}

proof fn lemma_digits_value_nonneg(s: Seq<char>)
    requires
        all_digits(s),
    ensures
        0 <= digits_value(s),
    decreases s.len(),
{
    if s.len() > 0 {
        assert(all_digits(s.drop_last()));
        lemma_digits_value_nonneg(s.drop_last());
        assert('0' <= s.last() <= '9');
    }
}

/// Reads a number written in decimal digits that is at most `max`.
pub fn parse_number(s: &str, max: u64) -> (r: Option<u64>)
    ensures
        match r {
            Some(v) => number_spec(s@, max as int) == Some(v as int),
            None => number_spec(s@, max as int) is None,
        },
{
    let n = s.unicode_len();
    if n == 0 {
        return None;
    }
    let mut value: u64 = 0;
    let mut i: usize = 0;
    while i < n
        invariant
            n == s@.len(),
            i <= n,
            all_digits(s@.take(i as int)),
            value as int == digits_value(s@.take(i as int)),
            value <= max,
        decreases n - i,
    {
        let c = s.get_char(i);
        assert(s@.take(i as int + 1).drop_last() =~= s@.take(i as int));
        if c < '0' || c > '9' {
            assert(!all_digits(s@));
            return None;
        }
        let d = (c as u32 - '0' as u32) as u64;
        assert(all_digits(s@.take(i as int + 1)));
        let next = match value.checked_mul(10) {
            Some(t) => t.checked_add(d),
            None => None,
        };
        i = i + 1;
        match next {
            Some(v) if v <= max => {
                value = v;
            },
            _ => {
                proof {
                    if all_digits(s@) {
                        lemma_digits_value_grows(s@, i as int);
                    }
                }
                return None;
            },
        }
    }
    assert(s@.take(n as int) =~= s@);
    Some(value)
}

/// A date of which the year, the month and the day may each be unknown.
pub struct MaybeDate {
    pub year: Option<i32>,
    pub month: Option<u8>,
    pub day: Option<u8>,
}

/// The number in the `k`-th dash-separated piece, if there is such a piece
/// and it is a number at most `max`.
pub open spec fn date_part(parts: Seq<Seq<char>>, k: int, max: int) -> Option<int> {
    if k < parts.len() {
        number_spec(parts[k], max)
    } else {
        None
    }
}

/// The year, month and day of a date written `YYYY`, `YYYY-MM` or
/// `YYYY-MM-DD`; each piece that is not a number in range is unknown, and so
/// is everything when there is no date.
pub open spec fn maybe_date_spec(s: Option<Seq<char>>) -> (Option<int>, Option<int>, Option<int>) {
    match s {
        Some(text) => {
            let parts = split_spec(text, '-');
            (date_part(parts, 0, i32::MAX as int), date_part(parts, 1, 255), date_part(parts, 2, 255))
        },
        None => (None, None, None),
    }
}

/// An optional `i32` as an optional integer.
pub open spec fn opt_int_i32(a: Option<i32>) -> Option<int> {
    match a {
        Some(x) => Some(x as int),
        None => None,
    }
}

/// An optional `u8` as an optional integer.
pub open spec fn opt_int_u8(a: Option<u8>) -> Option<int> {
    match a {
        Some(x) => Some(x as int),
        None => None,
    }
}

/// Reads a partial date.
pub fn maybe_date(s: &Option<String>) -> (r: MaybeDate)
    ensures
        maybe_date_spec(crate::text::opt_view(*s)) == (
            opt_int_i32(r.year),
            opt_int_u8(r.month),
            opt_int_u8(r.day),
        ),
{
    match s {
        None => MaybeDate { year: None, month: None, day: None },
        Some(text) => {
            let parts = split_on(text.as_str(), '-');
            proof {
                crate::text::lemma_split_nonempty(text@, '-');
            }
            let year = match parse_number(parts[0], 0x7fff_ffff) {
                Some(v) => Some(v as i32),
                None => None,
            };
            let month = if parts.len() > 1 {
                match parse_number(parts[1], 255) {
                    Some(v) => Some(v as u8),
                    None => None,
                }
            } else {
                None
            };
            let day = if parts.len() > 2 {
                match parse_number(parts[2], 255) {
                    Some(v) => Some(v as u8),
                    None => None,
                }
            } else {
                None
            };
            MaybeDate { year, month, day }
        },
    }
}

} // verus!
