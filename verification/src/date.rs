//! Reformatting of the delivery date the cart reports: the site sends
//! `month/day/year`, the order form wants `day.month.year` with
//! two-digit day and month and a four-digit year.

use vstd::prelude::*;
use crate::digits::{spec_dec2, spec_dec4, u64_to_dec2, u64_to_dec4};
use crate::misc::{first_match, lemma_first_match_unique, match_at};

verus! {

/// `c` is a decimal digit.
pub open spec fn is_digit(c: char) -> bool {
    '0' <= c && c <= '9'
}

/// The value of one decimal digit.
pub open spec fn digit_val(c: char) -> int {
    (c as u32) - 48
}

/// Every character of `s` is a decimal digit.
pub open spec fn all_digits(s: Seq<char>) -> bool {
    forall|i: int| 0 <= i < s.len() ==> is_digit(#[trigger] s[i])
}

/// The numeric value of a digit string, most significant digit first.
pub open spec fn dec_val(s: Seq<char>) -> int
    decreases s.len(),
{
    if s.len() == 0 {
        0
    } else {
        dec_val(s.drop_last()) * 10 + digit_val(s.last())
    }
}

/// `y` is a leap year of the Gregorian calendar.
pub open spec fn spec_is_leap(y: int) -> bool {
    y % 4 == 0 && (y % 100 != 0 || y % 400 == 0)
}

/// How many days month `m` of year `y` has.
pub open spec fn spec_days_in_month(m: int, y: int) -> int {
    if m == 2 {
        if spec_is_leap(y) {
            29
        } else {
            28
        }
    } else if m == 4 || m == 6 || m == 9 || m == 11 {
        30
    } else {
        31
    }
}

/// Parses `month/day/year`: two slash-separated runs of one or two
/// digits and a four-digit year, naming a valid calendar date.
pub open spec fn spec_parse_date(s: Seq<char>) -> Option<(int, int, int)> {
    if !(exists|i: int| match_at(s, "/"@, i)) {
        Option::None
    } else {
        let p1 = first_match(s, "/"@);
        let a = s.subrange(0, p1);
        let rest = s.subrange(p1 + 1, s.len() as int);
        if !(exists|i: int| match_at(rest, "/"@, i)) {
            Option::None
        } else {
            let p2 = first_match(rest, "/"@);
            let b = rest.subrange(0, p2);
            let y = rest.subrange(p2 + 1, rest.len() as int);
            if exists|i: int| match_at(y, "/"@, i) {
                Option::None
            } else if 1 <= a.len() <= 2 && all_digits(a) && 1 <= b.len() <= 2 && all_digits(b)
                && y.len() == 4 && all_digits(y) && 1 <= dec_val(a) <= 12 && 1 <= dec_val(b)
                <= spec_days_in_month(dec_val(a), dec_val(y)) {
                Option::Some((dec_val(a), dec_val(b), dec_val(y)))
            } else {
                Option::None
            }
        }
    }
}

/// What the reformatted date reads: `day.month.year`, day and month
/// zero-padded to two digits, the year to four.
pub open spec fn spec_reformat(m: int, d: int, y: int) -> Seq<char> {
    spec_dec2(d as nat) + "."@ + spec_dec2(m as nat) + "."@ + spec_dec4(y as nat)
}

/// Parses a run of digits of bounded length into its value.
fn parse_dec_bounded(t: &str, min_len: usize, max_len: usize) -> (r: Option<u64>)
    requires
        max_len <= 4,
    ensures
        match r {
            Some(v) => min_len <= t@.len() <= max_len && all_digits(t@) && v == dec_val(t@),
            None => !(min_len <= t@.len() <= max_len && all_digits(t@)),
        },
{
    let len = t.unicode_len();
    if len < min_len || len > max_len {
        return None;
    }
    let mut v: u64 = 0;
    let mut i: usize = 0;
    while i < len
        invariant
            len == t@.len() <= 4,
            i <= len,
            all_digits(t@.subrange(0, i as int)),
            v == dec_val(t@.subrange(0, i as int)),
            i == 0 ==> v == 0,
            i == 1 ==> v <= 9,
            i == 2 ==> v <= 99,
            i == 3 ==> v <= 999,
            i == 4 ==> v <= 9999,
        decreases len - i,
    {
        let c = t.get_char(i);
        if c < '0' || c > '9' {
            proof {
                assert(t@.subrange(0, t@.len() as int) =~= t@);
            }
            return None;
        }
        proof {
            assert(t@.subrange(0, i + 1 as int).drop_last() =~= t@.subrange(0, i as int));
            assert(t@.subrange(0, i + 1 as int).last() == t@[i as int]);
        }
        v = v * 10 + ((c as u32 - 48) as u64);
        i = i + 1;
        proof {
            assert(all_digits(t@.subrange(0, i as int))) by {
                assert(forall|k: int|
                    0 <= k < i ==> t@.subrange(0, i as int)[k] == #[trigger] t@[k]);
            }
        }
    }
    proof {
        assert(t@.subrange(0, len as int) =~= t@);
    }
    Some(v)
}

/// Whether `y` is a leap year.
pub fn is_leap(y: u64) -> (r: bool)
    ensures
        r == spec_is_leap(y as int),
{
    y % 4 == 0 && (y % 100 != 0 || y % 400 == 0)
}

/// How many days month `m` of year `y` has.
pub fn days_in_month(m: u64, y: u64) -> (r: u64)
    ensures
        r == spec_days_in_month(m as int, y as int),
{
    if m == 2 {
        if is_leap(y) {
            29
        } else {
            28
        }
    } else if m == 4 || m == 6 || m == 9 || m == 11 {
        30
    } else {
        31
    }
}

/// Reformats the cart's `month/day/year` delivery date into the
/// `day.month.year` form the order form wants; `None` when the text is
/// not a valid date of that shape.
pub fn reformat_delivery_date(s: &str) -> (r: Option<String>)
    ensures
        match r {
            Some(out) => match spec_parse_date(s@) {
                Some(mdy) => out@ == spec_reformat(mdy.0, mdy.1, mdy.2),
                None => false,
            },
            None => spec_parse_date(s@) is None,
        },
{
    let s_len = s.unicode_len();
    let p1 = match crate::misc::find_sub(s, "/") {
        Some(i) => i,
        None => {
            return None;
        },
    };
    proof {
        lemma_first_match_unique(s@, "/"@, p1 as int);
        reveal_strlit("/");
    }
    let a = s.substring_char(0, p1);
    let rest = s.substring_char(p1 + 1, s_len);
    let p2 = match crate::misc::find_sub(rest, "/") {
        Some(i) => i,
        None => {
            return None;
        },
    };
    proof {
        lemma_first_match_unique(rest@, "/"@, p2 as int);
    }
    let rest_len = rest.unicode_len();
    let b = rest.substring_char(0, p2);
    let y = rest.substring_char(p2 + 1, rest_len);
    if crate::transport::contains_sub(y, "/") {
        return None;
    }
    let month = match parse_dec_bounded(a, 1, 2) {
        Some(v) => v,
        None => {
            return None;
        },
    };
    let day = match parse_dec_bounded(b, 1, 2) {
        Some(v) => v,
        None => {
            return None;
        },
    };
    let year = match parse_dec_bounded(y, 4, 4) {
        Some(v) => v,
        None => {
            return None;
        },
    };
    if month < 1 || month > 12 {
        return None;
    }
    if day < 1 || day > days_in_month(month, year) {
        return None;
    }
    let out = u64_to_dec2(day).concat(".").concat(u64_to_dec2(month).as_str()).concat(".").concat(
        u64_to_dec4(year).as_str(),
    );
    Some(out)
}

} // verus!
