//! Proxy/account assignment: pairs each task created in a batch with
//! one active account and zero or one active proxy, per the configured
//! proxy mode.

use vstd::prelude::*;

verus! {

/// How proxies are distributed over the tasks of one batch.
#[derive(Clone, Copy, PartialEq, Eq, Structural, Debug)]
pub enum ProxyMode {
    Off,
    Repeat,
    Moderate,
    Strict,
}

impl ProxyMode {
    /// What `label` renders for this mode.
    pub open spec fn label_spec(self) -> Seq<char> {
        match self {
            ProxyMode::Off => "Off"@,
            ProxyMode::Repeat => "Repeat"@,
            ProxyMode::Moderate => "Moderate"@,
            ProxyMode::Strict => "Strict"@,
        }
    }

    /// The display name of this mode.
    pub fn label(&self) -> (r: &'static str)
        ensures
            r@ == self.label_spec(),
    {
        match self {
            ProxyMode::Off => "Off",
            ProxyMode::Repeat => "Repeat",
            ProxyMode::Moderate => "Moderate",
            ProxyMode::Strict => "Strict",
        }
    }
}

impl Default for ProxyMode {
    /// The default mode cycles proxies over the whole batch.
    fn default() -> (r: ProxyMode)
        ensures
            r is Repeat,
    {
        ProxyMode::Repeat
    }
}

/// An account credential: the login phone, its session token, and
/// whether assignment may use it.
#[derive(Clone, Debug, PartialEq)]
pub struct Account {
    pub phone: String,
    pub token: String,
    pub active: bool,
}

impl Account {
    /// A new account record, active by default.
    pub fn new(phone: String, token: String) -> (r: Account)
        ensures
            r.phone@ == phone@,
            r.token@ == token@,
            r.active,
    {
        Account { phone, token, active: true }
    }
}

/// A proxy endpoint and whether assignment may use it.
#[derive(Clone, Debug, PartialEq)]
pub struct Proxy {
    pub address: String,
    pub active: bool,
}

impl Proxy {
    /// A new proxy record with an empty address, active by default.
    pub fn new() -> (r: Proxy)
        ensures
            r.address@.len() == 0,
            r.active,
    {
        Proxy { address: String::new(), active: true }
    }
}

/// One task's identity assignment: indices into the caller's account
/// and proxy lists.
#[derive(Clone, Copy, PartialEq, Eq, Structural, Debug)]
pub struct Pairing {
    pub account: usize,
    pub proxy: Option<usize>,
}

/// The indices at which `flags` is set, in increasing order.
pub open spec fn actives(flags: Seq<bool>) -> Seq<int>
    decreases flags.len(),
{
    if flags.len() == 0 {
        Seq::empty()
    } else {
        actives(flags.drop_last()) + if flags.last() {
            seq![flags.len() - 1]
        } else {
            Seq::empty()
        }
    }
}

/// Every listed index is in range and set, and there are no more
/// listed indices than flags.
pub proof fn lemma_actives_props(flags: Seq<bool>)
    ensures
        actives(flags).len() <= flags.len(),
        forall|k: int|
            0 <= k < actives(flags).len() ==> 0 <= #[trigger] actives(flags)[k] < flags.len()
                && flags[actives(flags)[k]],
    decreases flags.len(),
{
    if flags.len() > 0 {
        lemma_actives_props(flags.drop_last());
        assert(forall|k: int|
            0 <= k < actives(flags.drop_last()).len() ==> actives(flags)[k] == #[trigger] actives(
                flags.drop_last(),
            )[k]);
    }
}

/// How many accounts the tail-alignment of `Strict` mode skips: with
/// fewer active proxies than active accounts, the earliest accounts
/// are left out so that the remainder pairs one to one.
pub open spec fn strict_skip(mode: ProxyMode, n_acc: int, n_prox: int) -> int {
    if mode is Strict && n_prox < n_acc {
        n_acc - n_prox
    } else {
        0
    }
}

/// Which active proxy (by position in the active-proxy list) the
/// `i`-th created task receives, out of `p` active proxies.
pub open spec fn proxy_slot(mode: ProxyMode, i: int, p: int) -> Option<int> {
    if p == 0 {
        Option::None
    } else {
        match mode {
            ProxyMode::Off => Option::None,
            ProxyMode::Repeat => Option::Some(i % p),
            ProxyMode::Moderate => if i < p {
                Option::Some(i)
            } else {
                Option::None
            },
            ProxyMode::Strict => Option::Some(i % p),
        }
    }
}

/// With no active proxies, every task of the batch is assigned no
/// proxy, whatever the mode.
pub proof fn lemma_no_active_proxies(mode: ProxyMode, i: int)
    ensures
        proxy_slot(mode, i, 0) is None,
{
}

/// In `Repeat` mode the active proxies are cycled indefinitely: the
/// `i`-th task gets active proxy `i` modulo the proxy count.
pub proof fn lemma_repeat_cycles(i: int, p: int)
    requires
        p > 0,
    ensures
        proxy_slot(ProxyMode::Repeat, i, p) == Option::Some(i % p),
{
}

/// In `Strict` mode with at most as many active proxies as active
/// accounts, the skip aligns the tails one to one: the batch has
/// exactly `p` tasks and the `i`-th pairs with active proxy `i`.
pub proof fn lemma_strict_one_to_one(n: int, p: int, i: int)
    requires
        0 < p <= n,
        0 <= i < n - strict_skip(ProxyMode::Strict, n, p),
    ensures
        n - strict_skip(ProxyMode::Strict, n, p) == p,
        proxy_slot(ProxyMode::Strict, i, p) == Option::Some(i),
{
    vstd::arithmetic::div_mod::lemma_small_mod(i as nat, p as nat);
}

/// In `Moderate` mode each active proxy is used once per batch and the
/// remaining tasks run without one.
pub proof fn lemma_moderate_single_pass(i: int, p: int)
    requires
        p > 0,
    ensures
        i < p ==> proxy_slot(ProxyMode::Moderate, i, p) == Option::Some(i),
        i >= p ==> proxy_slot(ProxyMode::Moderate, i, p) is None,
{
}

/// Collects the indices of the set flags.
fn active_indices(flags: &Vec<bool>) -> (r: Vec<usize>)
    ensures
        r@.map_values(|u: usize| u as int) == actives(flags@),
{
    let mut r: Vec<usize> = Vec::new();
    let mut i: usize = 0;
    while i < flags.len()
        invariant
            i <= flags@.len(),
            r@.map_values(|u: usize| u as int) == actives(flags@.subrange(0, i as int)),
        decreases flags@.len() - i,
    {
        proof {
            assert(flags@.subrange(0, i + 1 as int).drop_last() =~= flags@.subrange(0, i as int));
        }
        if flags[i] {
            r.push(i);
            proof {
                assert(r@.map_values(|u: usize| u as int) =~= actives(
                    flags@.subrange(0, i + 1 as int),
                ));
            }
        } else {
            proof {
                assert(r@.map_values(|u: usize| u as int) =~= actives(
                    flags@.subrange(0, i + 1 as int),
                ));
            }
        }
        i = i + 1;
    }
    proof {
        assert(flags@.subrange(0, flags@.len() as int) =~= flags@);
    }
    r
}

/// The active flags of the account list.
fn account_flags(accounts: &Vec<Account>) -> (r: Vec<bool>)
    ensures
        r@ == accounts@.map_values(|a: Account| a.active),
{
    let mut r: Vec<bool> = Vec::new();
    let mut i: usize = 0;
    while i < accounts.len()
        invariant
            i <= accounts@.len(),
            r@ =~= accounts@.subrange(0, i as int).map_values(|a: Account| a.active),
        decreases accounts@.len() - i,
    {
        r.push(accounts[i].active);
        proof {
            assert(accounts@.subrange(0, i + 1 as int).map_values(|a: Account| a.active)
                =~= accounts@.subrange(0, i as int).map_values(|a: Account| a.active)
                + seq![accounts@[i as int].active]);
        }
        i = i + 1;
    }
    proof {
        assert(accounts@.subrange(0, accounts@.len() as int) =~= accounts@);
    }
    r
}

/// The active flags of the proxy list.
fn proxy_flags(proxies: &Vec<Proxy>) -> (r: Vec<bool>)
    ensures
        r@ == proxies@.map_values(|p: Proxy| p.active),
{
    let mut r: Vec<bool> = Vec::new();
    let mut i: usize = 0;
    while i < proxies.len()
        invariant
            i <= proxies@.len(),
            r@ =~= proxies@.subrange(0, i as int).map_values(|p: Proxy| p.active),
        decreases proxies@.len() - i,
    {
        r.push(proxies[i].active);
        proof {
            assert(proxies@.subrange(0, i + 1 as int).map_values(|p: Proxy| p.active)
                =~= proxies@.subrange(0, i as int).map_values(|p: Proxy| p.active)
                + seq![proxies@[i as int].active]);
        }
        i = i + 1;
    }
    proof {
        assert(proxies@.subrange(0, proxies@.len() as int) =~= proxies@);
    }
    r
}

/// Pairs the tasks of one batch with accounts and proxies: the active
/// accounts are taken in reverse order (skipping the `Strict`-mode
/// prefix), and each receives the proxy its mode prescribes.  Returns
/// one pairing per created task, as indices into the two input lists.
pub fn assign(accounts: &Vec<Account>, proxies: &Vec<Proxy>, mode: ProxyMode) -> (r: Vec<Pairing>)
    ensures
        ({
            let acc = actives(accounts@.map_values(|a: Account| a.active));
            let prox = actives(proxies@.map_values(|p: Proxy| p.active));
            let skip = strict_skip(mode, acc.len() as int, prox.len() as int);
            &&& r@.len() == acc.len() - skip
            &&& forall|i: int|
                0 <= i < r@.len() ==> #[trigger] r@[i].account == acc[acc.len() - 1 - skip - i]
            &&& forall|i: int|
                0 <= i < r@.len() ==> (match proxy_slot(mode, i, prox.len() as int) {
                    Option::Some(j) => #[trigger] r@[i].proxy matches Some(u) && u == prox[j],
                    Option::None => r@[i].proxy is None,
                })
            &&& forall|i: int|
                0 <= i < r@.len() ==> 0 <= #[trigger] r@[i].account < accounts@.len()
                    && accounts@[r@[i].account as int].active
        }),
{
    let ghost acc = actives(accounts@.map_values(|a: Account| a.active));
    let ghost prox = actives(proxies@.map_values(|p: Proxy| p.active));
    proof {
        lemma_actives_props(accounts@.map_values(|a: Account| a.active));
        lemma_actives_props(proxies@.map_values(|p: Proxy| p.active));
    }
    let af = account_flags(accounts);
    let acc_idx = active_indices(&af);
    let pf = proxy_flags(proxies);
    let prox_idx = active_indices(&pf);
    let n = acc_idx.len();
    let p = prox_idx.len();
    let skip: usize = if matches!(mode, ProxyMode::Strict) && p < n {
        n - p
    } else {
        0
    };
    let count = n - skip;
    let mut r: Vec<Pairing> = Vec::new();
    let mut i: usize = 0;
    while i < count
        invariant
            acc == actives(accounts@.map_values(|a: Account| a.active)),
            prox == actives(proxies@.map_values(|p: Proxy| p.active)),
            forall|k: int| 0 <= k < acc.len() ==> 0 <= #[trigger] acc[k] < accounts@.len()
                && accounts@.map_values(|a: Account| a.active)[acc[k]],
            acc_idx@.map_values(|u: usize| u as int) == acc,
            prox_idx@.map_values(|u: usize| u as int) == prox,
            n == acc.len(),
            p == prox.len(),
            skip == strict_skip(mode, n as int, p as int),
            skip <= n,
            count == n - skip,
            i <= count,
            r@.len() == i,
            forall|k: int|
                0 <= k < i ==> #[trigger] r@[k].account == acc[n - 1 - skip - k],
            forall|k: int|
                0 <= k < i ==> (match proxy_slot(mode, k, p as int) {
                    Option::Some(j) => #[trigger] r@[k].proxy matches Some(u) && u == prox[j],
                    Option::None => r@[k].proxy is None,
                }),
        decreases count - i,
    {
        let apos = n - 1 - skip - i;
        let account = acc_idx[apos];
        let proxy: Option<usize> = if p == 0 {
            None
        } else {
            match mode {
                ProxyMode::Off => None,
                ProxyMode::Repeat => Some(prox_idx[i % p]),
                ProxyMode::Moderate => if i < p {
                    Some(prox_idx[i])
                } else {
                    None
                },
                ProxyMode::Strict => Some(prox_idx[i % p]),
            }
        };
        r.push(Pairing { account, proxy });
        i = i + 1;
    }
    proof {
        assert(forall|k: int|
            0 <= k < r@.len() ==> 0 <= #[trigger] r@[k].account < accounts@.len()
                && accounts@[r@[k].account as int].active) by {
            assert(forall|k: int|
                0 <= k < r@.len() ==> #[trigger] r@[k].account == acc[n - 1 - skip - k]);
        }
    }
    r
}

} // verus!
