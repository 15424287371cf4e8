//! Transport-level helpers: failure classification labels, substring
//! extraction from response bodies, and randomized request pacing.

use rand::Rng;
use vstd::prelude::*;

verus! {

/// A network-level failure of one HTTP exchange: the deadline elapsed,
/// or the connection itself failed.  These are never retried
/// automatically; the operator decides.
#[derive(Clone, Copy, PartialEq, Eq, Structural, Debug)]
pub enum ResponseStatus {
    Timeout,
    ConnectionError,
}

impl ResponseStatus {
    /// The human-readable name of this failure class.
    pub open spec fn label(self) -> Seq<char> {
        match self {
            ResponseStatus::Timeout => "Timeout"@,
            ResponseStatus::ConnectionError => "Connection Error"@,
        }
    }

    /// Formats the failure together with the tier tag of the exchange
    /// that failed, e.g. `Timeout (A)`.
    pub fn to_string(&self, tier: &str) -> (r: String)
        ensures
            r@ == self.label() + " ("@ + tier@ + ")"@,
    {
        let base = match self {
            ResponseStatus::Timeout => "Timeout",
            ResponseStatus::ConnectionError => "Connection Error",
        };
        String::from_str(base).concat(" (").concat(tier).concat(")")
    }
}

/// The HTTP method an exchange was made with.
#[derive(Clone, Copy, PartialEq, Eq, Structural, Debug)]
pub enum ResponseMethod {
    GET,
    POST,
}

/// The HTTP method to use for a request, with the URL-encoded form
/// body for a POST (`None` means an empty POST body).
#[derive(Clone, PartialEq, Debug)]
pub enum RequestMethod {
    GET,
    POST(Option<Vec<(String, String)>>),
}

/// `p` occurs in `t` starting at position `i`.
pub open spec fn match_at(t: Seq<char>, p: Seq<char>, i: int) -> bool {
    0 <= i && i + p.len() <= t.len() && t.subrange(i, i + p.len() as int) == p
}

/// `i` is the first position at which `p` occurs in `t`.
pub open spec fn is_first_match(t: Seq<char>, p: Seq<char>, i: int) -> bool {
    match_at(t, p, i) && forall|j: int| 0 <= j < i ==> !match_at(t, p, j)
}

/// The first position at which `p` occurs in `t` (meaningful only when
/// some position matches).
pub open spec fn first_match(t: Seq<char>, p: Seq<char>) -> int {
    choose|i: int| is_first_match(t, p, i)
}

/// First matches are unique, so `first_match` names the one position
/// that `is_first_match` holds of.
pub proof fn lemma_first_match_unique(t: Seq<char>, p: Seq<char>, i: int)
    requires
        is_first_match(t, p, i),
    ensures
        first_match(t, p) == i,
{
    let w = first_match(t, p);
    assert(is_first_match(t, p, w));
    if w < i {
        assert(!match_at(t, p, w));
    } else if i < w {
        assert(!match_at(t, p, i));
    }
}

/// Finds the first occurrence of `pat` in `text`, by character position.
pub fn find_sub(text: &str, pat: &str) -> (r: Option<usize>)
    ensures
        match r {
            Some(i) => is_first_match(text@, pat@, i as int),
            None => forall|k: int| !match_at(text@, pat@, k),
        },
{
    let t_len = text.unicode_len();
    let p_len = pat.unicode_len();
    if p_len > t_len {
        return None;
    }
    if p_len == 0 {
        proof {
            assert(text@.subrange(0, 0) =~= pat@);
        }
        return Some(0);
    }
    let mut i: usize = 0;
    while i <= t_len - p_len
        invariant
            0 < p_len <= t_len,
            t_len == text@.len(),
            p_len == pat@.len(),
            i <= t_len - p_len + 1,
            forall|k: int| 0 <= k < i ==> !match_at(text@, pat@, k),
        decreases t_len - p_len - i + 1,
    {
        let mut j: usize = 0;
        let mut matched = true;
        while j < p_len
            invariant
                p_len <= t_len,
                t_len == text@.len(),
                p_len == pat@.len(),
                i + p_len <= t_len,
                j <= p_len,
                matched ==> forall|m: int| 0 <= m < j ==> text@[i + m] == pat@[m],
                !matched ==> !match_at(text@, pat@, i as int),
            decreases p_len - j,
        {
            if text.get_char(i + j) != pat.get_char(j) {
                proof {
                    if match_at(text@, pat@, i as int) {
                        assert(text@.subrange(i as int, i + pat@.len() as int)[j as int]
                            == pat@[j as int]);
                    }
                }
                matched = false;
                j = p_len;
            } else {
                j = j + 1;
            }
        }
        if matched {
            proof {
                assert(text@.subrange(i as int, i + pat@.len() as int) =~= pat@);
            }
            return Some(i);
        }
        i = i + 1;
    }
    proof {
        assert forall|k: int| !match_at(text@, pat@, k) by {
            if match_at(text@, pat@, k) {
                assert(0 <= k <= t_len - p_len);
            }
        }
    }
    None
}

/// What `retrieve` extracts: the text between the end of the first
/// occurrence of `s` and the first occurrence of `e` after it (to the
/// end of the text when `e` is empty).
pub open spec fn retrieve_spec(t: Seq<char>, s: Seq<char>, e: Seq<char>) -> Option<Seq<char>> {
    if !(exists|i: int| match_at(t, s, i)) {
        None
    } else {
        let b = first_match(t, s) + s.len();
        let tail = t.subrange(b as int, t.len() as int);
        if e.len() == 0 {
            Some(tail)
        } else if exists|i: int| match_at(tail, e, i) {
            Some(tail.subrange(0, first_match(tail, e)))
        } else {
            None
        }
    }
}

/// Extracts the text between the first occurrence of `start` and the
/// first occurrence of `end` after it; with an empty `end`, everything
/// after `start`.  `None` when either marker is missing.
pub fn retrieve(text: &String, start: &str, end: &str) -> (r: Option<String>)
    ensures
        match r {
            Some(v) => retrieve_spec(text@, start@, end@) == Some(v@),
            None => retrieve_spec(text@, start@, end@) is None,
        },
{
    let t_len = text.as_str().unicode_len();
    let s_len = start.unicode_len();
    match find_sub(text.as_str(), start) {
        Some(i) => {
            proof {
                lemma_first_match_unique(text@, start@, i as int);
            }
            let b = i + s_len;
            let tail = text.as_str().substring_char(b, t_len);
            if end.unicode_len() == 0 {
                Some(String::from_str(tail))
            } else {
                match find_sub(tail, end) {
                    Some(j) => {
                        proof {
                            lemma_first_match_unique(tail@, end@, j as int);
                        }
                        Some(String::from_str(tail.substring_char(0, j)))
                    },
                    None => None,
                }
            }
        },
        None => None,
    }
}

/// Relies on `rand::Rng::gen_range` (via `rand::thread_rng`): returns a
/// uniformly random value within the inclusive range, which is what its
/// documentation promises of a `RangeInclusive` argument; it panics only
/// on an empty range, which the precondition rules out.
#[verifier::external_body]
fn rand_in_range(lo: u64, hi: u64) -> (r: u64)
    requires
        lo <= hi,
    ensures
        lo <= r <= hi,
{
    rand::thread_rng().gen_range(lo..=hi)
}

/// A random pacing delay in milliseconds: a value drawn from the given
/// inclusive range of centisecond-scale units, scaled by ten.
pub fn rand_millis(lo: u64, hi: u64) -> (r: u64)
    requires
        lo <= hi,
        hi <= 0x1999_9999_9999_9999,
    ensures
        10 * lo <= r <= 10 * hi,
{
    rand_in_range(lo, hi) * 10
}

/// The pacing delay to apply before an exchange: zero when pacing is
/// disabled, otherwise a randomized `rand_millis` delay from the given
/// range.
pub fn pick_delay(paced: bool, lo: u64, hi: u64) -> (r: u64)
    requires
        lo <= hi,
        hi <= 0x1999_9999_9999_9999,
    ensures
        !paced ==> r == 0,
        paced ==> 10 * lo <= r <= 10 * hi,
{
    if paced {
        rand_millis(lo, hi)
    } else {
        0
    }
}

} // verus!
