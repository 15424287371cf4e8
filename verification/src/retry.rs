//! The ban-retry policy around one transport call: a detected
//! protection ban is silently retried a bounded number of times before
//! it surfaces; network failures surface at once.

use vstd::prelude::*;
use crate::misc::ResponseStatus;
use crate::transport::{BanKind, Reply, SiteEvent, TransportError};

verus! {

/// How many extra attempts the policy makes after a banned one before
/// the ban surfaces.
pub const BAN_RETRY_LIMIT: usize = 3;

/// The outcome of one attempt at a transport call.
#[derive(Clone, Debug, PartialEq)]
pub enum AttemptOutcome {
    Delivered(Reply),
    Failed(TransportError),
}

impl AttemptOutcome {
    /// This attempt was fingerprinted as a protection ban.
    pub open spec fn is_ban(self) -> bool {
        self matches AttemptOutcome::Failed(TransportError::ProtectionBan(_))
    }
}

/// How many leading entries of `s` are banned attempts.
pub open spec fn leading_bans(s: Seq<AttemptOutcome>) -> int
    decreases s.len(),
{
    if s.len() == 0 || !s.first().is_ban() {
        0
    } else {
        1 + leading_bans(s.drop_first())
    }
}

/// Basic shape of `leading_bans`: it counts a prefix of banned
/// attempts, and the entry just past the prefix, when there is one, is
/// not banned.
pub proof fn lemma_leading_bans(s: Seq<AttemptOutcome>)
    ensures
        0 <= leading_bans(s) <= s.len(),
        forall|i: int| 0 <= i < leading_bans(s) ==> s[i].is_ban(),
        leading_bans(s) < s.len() ==> !s[leading_bans(s)].is_ban(),
    decreases s.len(),
{
    if s.len() > 0 && s.first().is_ban() {
        lemma_leading_bans(s.drop_first());
        assert forall|i: int| 0 <= i < leading_bans(s) implies s[i].is_ban() by {
            if i > 0 {
                assert(s.drop_first()[i - 1].is_ban());
            }
        }
        if leading_bans(s) < s.len() {
            assert(s[leading_bans(s)] == s.drop_first()[leading_bans(s) - 1]);
        }
    }
}

/// What the retry policy hands back for the whole call: the first
/// non-banned outcome within the bound, or the ban that exhausted it.
#[derive(Clone, Debug, PartialEq)]
pub enum PolicyOutcome {
    Delivered(Reply),
    Banned(BanKind),
    Net(ResponseStatus),
}

/// The policy outcome a single attempt outcome maps to.
pub open spec fn attempt_event(a: AttemptOutcome) -> PolicyOutcome {
    match a {
        AttemptOutcome::Delivered(reply) => PolicyOutcome::Delivered(reply),
        AttemptOutcome::Failed(TransportError::Timeout) => PolicyOutcome::Net(
            ResponseStatus::Timeout,
        ),
        AttemptOutcome::Failed(TransportError::ConnectionError) => PolicyOutcome::Net(
            ResponseStatus::ConnectionError,
        ),
        AttemptOutcome::Failed(TransportError::ProtectionBan(kind)) => PolicyOutcome::Banned(kind),
    }
}

/// Runs the retry policy against a transcript of attempt outcomes: the
/// outcome the transport would yield on each successive attempt at the
/// same call.  Returns what the policy surfaces and how many attempts
/// it made.  With `k` leading bans in the transcript, the call is
/// attempted `k + 1` times and the first non-banned outcome surfaces
/// when `k <= bound`; otherwise `bound + 1` attempts are made and the
/// ban at the bound surfaces.
pub fn run_policy(transcript: Vec<AttemptOutcome>, bound: usize) -> (r: (PolicyOutcome, usize))
    requires
        transcript@.len() > bound,
    ensures
        leading_bans(transcript@) <= bound ==> {
            &&& r.1 == leading_bans(transcript@) + 1
            &&& r.0 == attempt_event(transcript@[leading_bans(transcript@)])
        },
        leading_bans(transcript@) > bound ==> {
            &&& r.1 == bound + 1
            &&& r.0 == attempt_event(transcript@[bound as int])
            &&& r.0 is Banned
        },
{
    proof {
        lemma_leading_bans(transcript@);
    }
    let mut tr = transcript;
    let n = tr.len();
    let mut i: usize = 0;
    loop
        invariant
            tr@.len() == n > bound,
            tr@ == transcript@,
            i <= bound,
            i <= leading_bans(transcript@),
        decreases bound - i,
    {
        let is_ban = matches!(
            &tr[i],
            AttemptOutcome::Failed(TransportError::ProtectionBan(_))
        );
        if is_ban && i < bound {
            proof {
                lemma_leading_bans(transcript@);
                assert(leading_bans(transcript@) > i) by {
                    if leading_bans(transcript@) <= i {
                        assert(!transcript@[leading_bans(transcript@)].is_ban());
                    }
                }
            }
            i = i + 1;
        } else {
            proof {
                lemma_leading_bans(transcript@);
                if !is_ban {
                    assert(!transcript@[i as int].is_ban());
                    assert(leading_bans(transcript@) == i);
                } else {
                    assert(leading_bans(transcript@) > i) by {
                        if leading_bans(transcript@) <= i {
                            assert(!transcript@[leading_bans(transcript@)].is_ban());
                        }
                    }
                }
            }
            let got = tr.remove(i);
            let outcome = match got {
                AttemptOutcome::Delivered(reply) => PolicyOutcome::Delivered(reply),
                AttemptOutcome::Failed(TransportError::Timeout) => PolicyOutcome::Net(
                    ResponseStatus::Timeout,
                ),
                AttemptOutcome::Failed(TransportError::ConnectionError) => PolicyOutcome::Net(
                    ResponseStatus::ConnectionError,
                ),
                AttemptOutcome::Failed(TransportError::ProtectionBan(kind)) => PolicyOutcome::Banned(
                    kind,
                ),
            };
            return (outcome, i + 1);
        }
    }
}

/// Turns what the policy surfaced into the event the engine consumes.
pub fn policy_event(r: PolicyOutcome) -> (e: SiteEvent)
    ensures
        e == match r {
            PolicyOutcome::Delivered(reply) => SiteEvent::Reply(reply),
            PolicyOutcome::Banned(kind) => SiteEvent::Ban(kind),
            PolicyOutcome::Net(status) => SiteEvent::Net(status),
        },
{
    match r {
        PolicyOutcome::Delivered(reply) => SiteEvent::Reply(reply),
        PolicyOutcome::Banned(kind) => SiteEvent::Ban(kind),
        PolicyOutcome::Net(status) => SiteEvent::Net(status),
    }
}

/// Ban-retry bound law: against a transcript of `k` bans followed by a
/// delivered reply, the policy surfaces that reply on attempt `k + 1`
/// whenever the bound admits `k` retries, and surfaces a ban after
/// `bound + 1` attempts when it does not.
pub proof fn lemma_ban_retry_bound(s: Seq<AttemptOutcome>, k: int, bound: int)
    requires
        0 <= k < s.len(),
        bound < s.len(),
        forall|i: int| 0 <= i < k ==> s[i].is_ban(),
        !s[k].is_ban(),
    ensures
        k <= bound ==> leading_bans(s) == k,
        k > bound ==> leading_bans(s) > bound,
    decreases k,
{
    if k == 0 {
    } else {
        assert(s.first().is_ban());
        assert forall|i: int| 0 <= i < k - 1 implies s.drop_first()[i].is_ban() by {
            assert(s.drop_first()[i] == s[i + 1]);
        }
        assert(s.drop_first()[k - 1] == s[k]);
        lemma_ban_retry_bound(s.drop_first(), k - 1, bound - 1);
    }
}

} // verus!
