//! Classification of one HTTP exchange's outcome: network failures,
//! anti-bot "ban" fingerprints, and the reply handed to the engine.

use vstd::prelude::*;
use crate::misc::{match_at, ResponseMethod, ResponseStatus};
use crate::models::ResponseResult;

verus! {

/// The anti-bot protection that fingerprinted an exchange.
#[derive(Clone, Copy, PartialEq, Eq, Structural, Debug)]
pub enum BanKind {
    Variti,
    DdosGuard,
}

impl BanKind {
    /// The human-readable name of the protection.
    pub open spec fn label(self) -> Seq<char> {
        match self {
            BanKind::Variti => "Variti"@,
            BanKind::DdosGuard => "DDOS-Guard"@,
        }
    }

    /// Renders the protection's name.
    pub fn name(&self) -> (r: &'static str)
        ensures
            r@ == self.label(),
    {
        match self {
            BanKind::Variti => "Variti",
            BanKind::DdosGuard => "DDOS-Guard",
        }
    }
}

/// A transport-level failure: the taxonomy of everything that keeps an
/// exchange from yielding a usable reply.
#[derive(Clone, Copy, PartialEq, Eq, Structural, Debug)]
pub enum TransportError {
    Timeout,
    ConnectionError,
    ProtectionBan(BanKind),
}

/// A reply that reached the engine: the HTTP status, the body, and the
/// body parsed into the site's response envelope where it parsed at
/// all.
#[derive(Clone, Debug, PartialEq)]
pub struct Reply {
    pub status: u16,
    pub parsed: Option<ResponseResult>,
    pub body: String,
}

/// The outcome of one exchange as the engine sees it, after the retry
/// policy has run: a reply, a surfaced ban, or a network failure.
#[derive(Clone, Debug, PartialEq)]
pub enum SiteEvent {
    Net(ResponseStatus),
    Ban(BanKind),
    Reply(Reply),
}

/// A Variti challenge is fingerprinted by its `Server` header prefix.
pub open spec fn variti_fingerprint(server: Seq<char>) -> bool {
    server.len() >= 6 && server.subrange(0, 6) == "Variti"@
}

/// A DDOS-Guard challenge is fingerprinted by its `Server` header
/// prefix, or by a doctored empty body on a successful GET.
pub open spec fn ddos_guard_fingerprint(
    method: ResponseMethod,
    status: u16,
    server: Seq<char>,
    body_len: nat,
) -> bool {
    ||| (server.len() >= 10 && server.subrange(0, 10) == "ddos-guard"@)
    ||| (method is GET && status == 200 && body_len == 0)
}

/// `s` begins with `p`.
pub open spec fn has_prefix(s: Seq<char>, p: Seq<char>) -> bool {
    match_at(s, p, 0)
}

/// `s` ends with `p`.
pub open spec fn has_suffix(s: Seq<char>, p: Seq<char>) -> bool {
    p.len() <= s.len() && s.subrange(s.len() - p.len(), s.len() as int) == p
}

/// `p` occurs somewhere in `s`.
pub open spec fn has_sub(s: Seq<char>, p: Seq<char>) -> bool {
    exists|i: int| match_at(s, p, i)
}

/// Checks whether `text` begins with `prefix`.
pub fn starts_with(text: &str, prefix: &str) -> (r: bool)
    ensures
        r == has_prefix(text@, prefix@),
{
    let t_len = text.unicode_len();
    let p_len = prefix.unicode_len();
    if p_len > t_len {
        return false;
    }
    let mut j: usize = 0;
    while j < p_len
        invariant
            p_len <= t_len,
            t_len == text@.len(),
            p_len == prefix@.len(),
            j <= p_len,
            forall|m: int| 0 <= m < j ==> text@[m] == prefix@[m],
        decreases p_len - j,
    {
        if text.get_char(j) != prefix.get_char(j) {
            proof {
                if match_at(text@, prefix@, 0) {
                    assert(text@.subrange(0, prefix@.len() as int)[j as int] == prefix@[j as int]);
                }
            }
            return false;
        }
        j = j + 1;
    }
    proof {
        assert(text@.subrange(0, prefix@.len() as int) =~= prefix@);
    }
    true
}

/// Checks whether `text` ends with `suffix`.
pub fn ends_with(text: &str, suffix: &str) -> (r: bool)
    ensures
        r == has_suffix(text@, suffix@),
{
    let t_len = text.unicode_len();
    let s_len = suffix.unicode_len();
    if s_len > t_len {
        return false;
    }
    let tail = text.substring_char(t_len - s_len, t_len);
    let r = starts_with(tail, suffix);
    proof {
        if match_at(tail@, suffix@, 0) {
            assert(tail@.subrange(0, suffix@.len() as int) =~= tail@);
        } else {
            if text@.subrange(t_len - s_len, t_len as int) == suffix@ {
                assert(tail@.subrange(0, suffix@.len() as int) =~= tail@);
            }
        }
    }
    r
}

/// Checks whether `text` contains `pat`.
pub fn contains_sub(text: &str, pat: &str) -> (r: bool)
    ensures
        r == has_sub(text@, pat@),
{
    match crate::misc::find_sub(text, pat) {
        Some(_) => true,
        None => false,
    }
}

/// Inspects a completed exchange for the known anti-bot fingerprints,
/// so a challenge page is reported as a ban instead of being parsed as
/// content.  `server` is the reply's `Server` header, when present.
pub fn detect_ban(
    method: ResponseMethod,
    status: u16,
    server: Option<&String>,
    body: &String,
) -> (r: Option<BanKind>)
    ensures
        match r {
            Some(BanKind::Variti) => match server {
                Some(s) => variti_fingerprint(s@),
                None => false,
            },
            Some(BanKind::DdosGuard) => ddos_guard_fingerprint(
                method,
                status,
                match server {
                    Some(s) => s@,
                    None => Seq::empty(),
                },
                body@.len() as nat,
            ),
            None => {
                &&& match server {
                    Some(s) => !variti_fingerprint(s@) && !ddos_guard_fingerprint(
                        method,
                        status,
                        s@,
                        body@.len() as nat,
                    ),
                    None => !ddos_guard_fingerprint(
                        method,
                        status,
                        Seq::empty(),
                        body@.len() as nat,
                    ),
                }
            },
        },
{
    match server {
        Some(s) => {
            if starts_with(s.as_str(), "Variti") {
                proof {
                    reveal_strlit("Variti");
                }
                return Some(BanKind::Variti);
            }
            if starts_with(s.as_str(), "ddos-guard") {
                proof {
                    reveal_strlit("ddos-guard");
                }
                return Some(BanKind::DdosGuard);
            }
            proof {
                reveal_strlit("Variti");
                reveal_strlit("ddos-guard");
            }
            if matches!(method, ResponseMethod::GET) && status == 200 && body.as_str().unicode_len()
                == 0 {
                Some(BanKind::DdosGuard)
            } else {
                None
            }
        },
        None => {
            if matches!(method, ResponseMethod::GET) && status == 200 && body.as_str().unicode_len()
                == 0 {
                Some(BanKind::DdosGuard)
            } else {
                None
            }
        },
    }
}

} // verus!
