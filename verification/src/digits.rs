//! Decimal rendering of integers, used when building request URLs,
//! form bodies and notification fields.

use vstd::prelude::*;

verus! {

/// The character for one decimal digit.
pub open spec fn digit_char(d: int) -> char {
    if d == 0 {
        '0'
    } else if d == 1 {
        '1'
    } else if d == 2 {
        '2'
    } else if d == 3 {
        '3'
    } else if d == 4 {
        '4'
    } else if d == 5 {
        '5'
    } else if d == 6 {
        '6'
    } else if d == 7 {
        '7'
    } else if d == 8 {
        '8'
    } else {
        '9'
    }
}

/// The decimal rendering of `n`, most significant digit first, with no
/// leading zeros (a single `0` for zero itself).
pub open spec fn spec_dec(n: nat) -> Seq<char>
    decreases n,
{
    if n < 10 {
        seq![digit_char(n as int)]
    } else {
        spec_dec(n / 10) + seq![digit_char((n % 10) as int)]
    }
}

/// One decimal digit as a string slice.
fn digit_str(d: u64) -> (r: &'static str)
    requires
        d < 10,
    ensures
        r@ == seq![digit_char(d as int)],
{
    let r = match d {
        0 => "0",
        1 => "1",
        2 => "2",
        3 => "3",
        4 => "4",
        5 => "5",
        6 => "6",
        7 => "7",
        8 => "8",
        _ => "9",
    };
    proof {
        reveal_strlit("0");
        reveal_strlit("1");
        reveal_strlit("2");
        reveal_strlit("3");
        reveal_strlit("4");
        reveal_strlit("5");
        reveal_strlit("6");
        reveal_strlit("7");
        reveal_strlit("8");
        reveal_strlit("9");
        assert(r@ =~= seq![digit_char(d as int)]);
    }
    r
}

/// Renders `n` in decimal.
pub fn u64_to_dec(n: u64) -> (s: String)
    ensures
        s@ == spec_dec(n as nat),
    decreases n,
{
    if n < 10 {
        String::from_str(digit_str(n))
    } else {
        let mut s = u64_to_dec(n / 10);
        s.append(digit_str(n % 10));
        s
    }
}

/// Renders `n` in decimal (for indices).
pub fn usize_to_dec(n: usize) -> (s: String)
    ensures
        s@ == spec_dec(n as nat),
{
    u64_to_dec(n as u64)
}

/// The decimal rendering of `n` padded with a leading zero to two
/// digits, as date formatting uses.
pub open spec fn spec_dec2(n: nat) -> Seq<char> {
    if n < 10 {
        seq!['0'] + spec_dec(n)
    } else {
        spec_dec(n)
    }
}

/// Renders `n` zero-padded to at least two digits.
pub fn u64_to_dec2(n: u64) -> (s: String)
    ensures
        s@ == spec_dec2(n as nat),
{
    if n < 10 {
        proof {
            reveal_strlit("0");
            assert("0"@ =~= seq!['0']);
        }
        let mut s = String::from_str("0");
        let d = u64_to_dec(n);
        s.append(d.as_str());
        s
    } else {
        u64_to_dec(n)
    }
}

/// The decimal rendering of `n` padded with leading zeros to four
/// digits, as year formatting uses.
pub open spec fn spec_dec4(n: nat) -> Seq<char> {
    if n < 10 {
        "000"@ + spec_dec(n)
    } else if n < 100 {
        "00"@ + spec_dec(n)
    } else if n < 1000 {
        "0"@ + spec_dec(n)
    } else {
        spec_dec(n)
    }
}

/// Renders `n` zero-padded to at least four digits.
pub fn u64_to_dec4(n: u64) -> (s: String)
    ensures
        s@ == spec_dec4(n as nat),
{
    let d = u64_to_dec(n);
    if n < 10 {
        String::from_str("000").concat(d.as_str())
    } else if n < 100 {
        String::from_str("00").concat(d.as_str())
    } else if n < 1000 {
        String::from_str("0").concat(d.as_str())
    } else {
        d
    }
}

/// The rendering `bool` formatting produces: `true` or `false`.
pub open spec fn spec_bool(b: bool) -> Seq<char> {
    if b {
        "true"@
    } else {
        "false"@
    }
}

/// Renders a boolean as `true` or `false`.
pub fn bool_to_dec(b: bool) -> (s: String)
    ensures
        s@ == spec_bool(b),
{
    if b {
        String::from_str("true")
    } else {
        String::from_str("false")
    }
}

} // verus!
