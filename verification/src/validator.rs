//! Format checks on operator input: an e-mail address and a formatted
//! phone number.

use vstd::prelude::*;

verus! {

/// Whether a character beyond ASCII has the Unicode `Alphabetic`
/// property: a function of the character alone.
pub uninterp spec fn alphabetic_ext(c: char) -> bool;

/// What `char::is_alphabetic` returns: within ASCII, exactly the
/// letters; beyond ASCII, the Unicode `Alphabetic` property.
pub open spec fn alphabetic(c: char) -> bool {
    if c <= '\u{7f}' {
        ('a' <= c && c <= 'z') || ('A' <= c && c <= 'Z')
    } else {
        alphabetic_ext(c)
    }
}

/// Relies on `char::is_alphabetic`: true exactly of characters with
/// the Unicode `Alphabetic` property, which within ASCII are the
/// letters; its result depends on the character alone.
#[verifier::external_body]
fn is_alpha(c: char) -> (r: bool)
    ensures
        r == alphabetic(c),
        c > '\u{7f}' ==> r == alphabetic_ext(c),
{
    c.is_alphabetic()
}

/// `c` is a decimal digit.
pub open spec fn decimal(c: char) -> bool {
    '0' <= c && c <= '9'
}

/// Checks whether `c` is a decimal digit.
fn is_decimal(c: char) -> (r: bool)
    ensures
        r == decimal(c),
{
    c >= '0' && c <= '9'
}

/// A character the local part of an address may hold: a letter, a
/// digit, or one of `-`, `_`, `.`.
pub open spec fn local_char(c: char) -> bool {
    alphabetic(c) || decimal(c) || c == '-' || c == '_' || c == '.'
}

/// A letter or a digit.
pub open spec fn alnum(c: char) -> bool {
    alphabetic(c) || decimal(c)
}

/// A well-formed address: a local part of at least three characters
/// from the local alphabet, an `@`, a domain of at least three letters
/// or digits, a `.`, and a root of at least two letters or digits.
pub open spec fn email_ok(s: Seq<char>) -> bool {
    exists|i: int, j: int| email_split(s, i, j)
}

/// Positions `i` and `j` split `s` into a well-formed address.
pub open spec fn email_split(s: Seq<char>, i: int, j: int) -> bool {
    &&& 0 <= i < j < s.len()
    &&& s[i] == '@'
    &&& s[j] == '.'
    &&& (forall|k: int| 0 <= k < i ==> local_char(#[trigger] s[k]))
    &&& (forall|k: int| i < k < j ==> alnum(#[trigger] s[k]))
    &&& (forall|k: int| j < k < s.len() ==> alnum(#[trigger] s[k]))
    &&& i >= 3
    &&& j - i >= 4
    &&& s.len() - j >= 3
}

/// Any witness split of a well-formed address uses the first `@` of
/// the string and the first `.` after it.
proof fn lemma_split_pinned(s: Seq<char>, at: int, dot: int)
    requires
        email_ok(s),
        0 <= at < s.len(),
        s[at] == '@',
        forall|k: int| 0 <= k < at ==> #[trigger] s[k] != '@',
        at < dot < s.len(),
        s[dot] == '.',
        forall|k: int| at < k < dot ==> #[trigger] s[k] != '.',
    ensures
        email_split(s, at, dot),
{
    let (wi, wj) = choose|wi: int, wj: int| email_split(s, wi, wj);
    assert(email_split(s, wi, wj));
    if wi < at {
        assert(s[wi] != '@');
    } else if wi > at {
        assert(local_char(s[at]));
    }
    if wj < dot {
        assert(s[wj] != '.');
    } else if wj > dot {
        assert(alnum(s[dot]));
    }
}

/// Checks that `val` is a well-formed e-mail address.
pub fn email(val: &String) -> (r: bool)
    ensures
        r == email_ok(val@),
{
    let len = val.as_str().unicode_len();
    // scan the local part up to the first `@`
    let mut i: usize = 0;
    loop
        invariant
            len == val@.len(),
            i <= len,
            forall|k: int| 0 <= k < i ==> local_char(#[trigger] val@[k]) && val@[k] != '@',
        ensures
            i < len,
            val@[i as int] == '@',
            forall|k: int| 0 <= k < i ==> local_char(#[trigger] val@[k]) && val@[k] != '@',
        decreases len - i,
    {
        if i == len {
            proof {
                if email_ok(val@) {
                    let (wi, wj) = choose|wi: int, wj: int| email_split(val@, wi, wj);
                    assert(email_split(val@, wi, wj));
                    assert(val@[wi] != '@');
                }
            }
            return false;
        }
        let c = val.as_str().get_char(i);
        if c == '@' {
            break ;
        }
        if !(is_alpha(c) || is_decimal(c) || c == '-' || c == '_' || c == '.') {
            proof {
                if email_ok(val@) {
                    let (wi, wj) = choose|wi: int, wj: int| email_split(val@, wi, wj);
                    assert(email_split(val@, wi, wj));
                    if wi < i {
                        assert(val@[wi] != '@');
                    } else if wi > i {
                        assert(local_char(val@[i as int]));
                    }
                }
            }
            return false;
        }
        i = i + 1;
    }
    let at = i;
    // scan the domain up to the first `.` after the `@`
    let mut j = at + 1;
    loop
        invariant
            len == val@.len(),
            at < len,
            val@[at as int] == '@',
            forall|k: int| 0 <= k < at ==> local_char(#[trigger] val@[k]) && val@[k] != '@',
            at < j <= len,
            forall|k: int| at < k < j ==> alnum(#[trigger] val@[k]) && val@[k] != '.',
        ensures
            at < j < len,
            val@[j as int] == '.',
            forall|k: int| at < k < j ==> alnum(#[trigger] val@[k]) && val@[k] != '.',
        decreases len - j,
    {
        if j == len {
            proof {
                if email_ok(val@) {
                    let (wi, wj) = choose|wi: int, wj: int| email_split(val@, wi, wj);
                    assert(email_split(val@, wi, wj));
                    if wi < at {
                        assert(val@[wi] != '@');
                    } else if wi > at {
                        assert(local_char(val@[at as int]));
                    }
                    assert(val@[wj] != '.');
                }
            }
            return false;
        }
        let c = val.as_str().get_char(j);
        if c == '.' {
            break ;
        }
        if !(is_alpha(c) || is_decimal(c)) {
            proof {
                if email_ok(val@) {
                    let (wi, wj) = choose|wi: int, wj: int| email_split(val@, wi, wj);
                    assert(email_split(val@, wi, wj));
                    if wi < at {
                        assert(val@[wi] != '@');
                    } else if wi > at {
                        assert(local_char(val@[at as int]));
                    }
                    if wj < j {
                        assert(val@[wj] != '.');
                    } else if wj > j {
                        assert(alnum(val@[j as int]));
                    }
                }
            }
            return false;
        }
        j = j + 1;
    }
    let dot = j;
    // scan the root to the end
    let mut k = dot + 1;
    loop
        invariant
            len == val@.len(),
            at < dot < len,
            val@[at as int] == '@',
            val@[dot as int] == '.',
            forall|m: int| 0 <= m < at ==> local_char(#[trigger] val@[m]) && val@[m] != '@',
            forall|m: int| at < m < dot ==> alnum(#[trigger] val@[m]) && val@[m] != '.',
            dot < k <= len,
            forall|m: int| dot < m < k ==> alnum(#[trigger] val@[m]),
        ensures
            k == len,
            forall|m: int| dot < m < len ==> alnum(#[trigger] val@[m]),
        decreases len - k,
    {
        if k == len {
            break ;
        }
        let c = val.as_str().get_char(k);
        if !(is_alpha(c) || is_decimal(c)) {
            proof {
                if email_ok(val@) {
                    lemma_split_pinned(val@, at as int, dot as int);
                    assert(alnum(val@[k as int]));
                }
            }
            return false;
        }
        k = k + 1;
    }
    let accepted = at >= 3 && dot - at >= 4 && len - dot >= 3;
    proof {
        if accepted {
            assert(email_split(val@, at as int, dot as int));
        } else {
            if email_ok(val@) {
                lemma_split_pinned(val@, at as int, dot as int);
            }
        }
    }
    accepted
}

/// A well-formed phone number: `+7(XXX)XXX-XX-XX` with digits at the
/// marked positions, sixteen characters in all.
pub open spec fn phone_ok(s: Seq<char>) -> bool {
    &&& s.len() == 16
    &&& s[0] == '+'
    &&& s[1] == '7'
    &&& s[2] == '('
    &&& s[6] == ')'
    &&& s[10] == '-'
    &&& s[13] == '-'
    &&& decimal(s[3]) && decimal(s[4]) && decimal(s[5])
    &&& decimal(s[7]) && decimal(s[8]) && decimal(s[9])
    &&& decimal(s[11]) && decimal(s[12])
    &&& decimal(s[14]) && decimal(s[15])
}

/// Checks that `val` is a phone number of the form `+7(XXX)XXX-XX-XX`.
pub fn phone(val: &String) -> (r: bool)
    ensures
        r == phone_ok(val@),
{
    let s = val.as_str();
    if s.unicode_len() != 16 {
        return false;
    }
    s.get_char(0) == '+' && s.get_char(1) == '7' && s.get_char(2) == '(' && s.get_char(6) == ')'
        && s.get_char(10) == '-' && s.get_char(13) == '-' && is_decimal(s.get_char(3))
        && is_decimal(s.get_char(4)) && is_decimal(s.get_char(5)) && is_decimal(s.get_char(7))
        && is_decimal(s.get_char(8)) && is_decimal(s.get_char(9)) && is_decimal(s.get_char(11))
        && is_decimal(s.get_char(12)) && is_decimal(s.get_char(14)) && is_decimal(s.get_char(15))
}

} // verus!
