//! The task registry: owns the live tasks keyed by a monotonically
//! increasing identifier, creates batches through the assignment
//! policy, and serves the caller's retry and delete actions.

use vstd::prelude::*;
use std::collections::HashMap;
use crate::assign::{actives, assign, proxy_slot, strict_skip, Account, Proxy, ProxyMode};
use crate::engine::Task;
use crate::models::{variant_eqv, size_eqv, ProductCard, Size, Variant, Webhook};

verus! {

/// A task the registry just created: fresh machine state over the
/// batch's product selection, the paired account, and the paired
/// proxy, if any.
pub open spec fn created_task_ok(
    t: Task,
    uid: u64,
    card: ProductCard,
    variant: Variant,
    size: Size,
    webhook: Webhook,
    flags: (bool, bool),
) -> bool {
    &&& t.uid == uid
    &&& t.card.name@ == card.name@
    &&& variant_eqv(variant, t.variant)
    &&& size_eqv(size, t.size)
    &&& t.webhook.id == webhook.id && t.webhook.token@ == webhook.token@
    &&& t.flags == flags
    &&& t.progress is Start
    &&& t.step is Start
    &&& t.substep == 0
    &&& !t.stopped
    &&& t.wf()
}

/// The set of live tasks, keyed by task identifier.
pub struct Registry {
    pub counter: u64,
    pub tasks: HashMap<u64, Task>,
}

impl Registry {
    /// Registry invariant: every live identifier was issued by the
    /// counter, names itself, and holds a well-formed task.
    pub open spec fn wf(self) -> bool {
        forall|k: u64|
            self.tasks@.contains_key(k) ==> 1 <= k <= self.counter && (
            #[trigger] self.tasks@[k]).uid == k && self.tasks@[k].wf()
    }

    /// An empty registry.
    pub fn new() -> (r: Registry)
        ensures
            r.counter == 0,
            r.tasks@ =~= Map::<u64, Task>::empty(),
            r.wf(),
    {
        Registry { counter: 0, tasks: HashMap::new() }
    }

    /// How many tasks are live.
    pub fn len(&self) -> (r: usize)
        ensures
            r == self.tasks@.len(),
    {
        self.tasks.len()
    }

    /// Creates one batch of tasks over the given product selection:
    /// the assignment policy pairs the active accounts with proxies,
    /// and each pairing becomes one fresh task under the next
    /// identifier.  Returns the new identifiers in creation order.
    pub fn create_batch(
        &mut self,
        card: &ProductCard,
        variant: &Variant,
        size: &Size,
        accounts: &Vec<Account>,
        proxies: &Vec<Proxy>,
        mode: ProxyMode,
        webhook: &Webhook,
        flags: (bool, bool),
    ) -> (ids: Vec<u64>)
        requires
            old(self).wf(),
            old(self).counter + accounts@.len() <= u64::MAX,
        ensures
            final (self).wf(),
            ({
                let acc = actives(accounts@.map_values(|a: Account| a.active));
                let prox = actives(proxies@.map_values(|p: Proxy| p.active));
                let skip = strict_skip(mode, acc.len() as int, prox.len() as int);
                &&& ids@.len() == acc.len() - skip
                &&& final (self).counter == old(self).counter + ids@.len()
                &&& (forall|i: int|
                    0 <= i < ids@.len() ==> #[trigger] ids@[i] == old(self).counter + 1 + i)
                &&& (forall|k: u64|
                    old(self).tasks@.contains_key(k) ==> #[trigger] final (self).tasks@.contains_key(k) && final (self).tasks@[k] == old(self).tasks@[k])
                &&& (forall|k: u64|
                    final (self).tasks@.contains_key(k) ==> old(self).tasks@.contains_key(k) || (
                    old(self).counter < k <= final (self).counter))
                &&& (forall|i: int|
                    0 <= i < ids@.len() ==> final (self).tasks@.contains_key(#[trigger] ids@[i])
                        && created_task_ok(
                        final (self).tasks@[ids@[i]],
                        ids@[i],
                        *card,
                        *variant,
                        *size,
                        *webhook,
                        flags,
                    ))
                &&& (forall|i: int|
                    0 <= i < ids@.len() ==> ({
                        let apos = accounts@[acc[acc.len() - 1 - skip - i]];
                        &&& final (self).tasks@[#[trigger] ids@[i]].account.0@ == apos.phone@
                        &&& final (self).tasks@[ids@[i]].account.1@ == apos.token@
                    }))
                &&& (forall|i: int|
                    0 <= i < ids@.len() ==> (match proxy_slot(mode, i, prox.len() as int) {
                        Some(j) => final (self).tasks@[#[trigger] ids@[i]].proxy matches Some(a)
                            && a@ == proxies@[prox[j]].address@,
                        None => final (self).tasks@[#[trigger] ids@[i]].proxy is None,
                    }))
            }),
    {
        let pairings = assign(accounts, proxies, mode);
        let ghost acc = actives(accounts@.map_values(|a: Account| a.active));
        let ghost prox = actives(proxies@.map_values(|p: Proxy| p.active));
        let ghost skip = strict_skip(mode, acc.len() as int, prox.len() as int);
        proof {
            crate::assign::lemma_actives_props(accounts@.map_values(|a: Account| a.active));
            crate::assign::lemma_actives_props(proxies@.map_values(|p: Proxy| p.active));
        }
        let mut ids: Vec<u64> = Vec::new();
        let mut i: usize = 0;
        while i < pairings.len()
            invariant
                old(self).wf(),
                old(self).counter + accounts@.len() <= u64::MAX,
                acc == actives(accounts@.map_values(|a: Account| a.active)),
                prox == actives(proxies@.map_values(|p: Proxy| p.active)),
                skip == strict_skip(mode, acc.len() as int, prox.len() as int),
                pairings@.len() == acc.len() - skip,
                pairings@.len() <= accounts@.len(),
                forall|k: int|
                    0 <= k < pairings@.len() ==> #[trigger] pairings@[k].account == acc[acc.len()
                        - 1 - skip - k],
                forall|k: int|
                    0 <= k < pairings@.len() ==> 0 <= #[trigger] pairings@[k].account
                        < accounts@.len(),
                forall|k: int|
                    0 <= k < pairings@.len() ==> (match proxy_slot(mode, k, prox.len() as int) {
                        Some(j) => #[trigger] pairings@[k].proxy matches Some(u) && u == prox[j]
                            && 0 <= prox[j] < proxies@.len(),
                        None => pairings@[k].proxy is None,
                    }),
                i <= pairings@.len(),
                self.counter == old(self).counter + i,
                ids@.len() == i,
                forall|k: int| 0 <= k < i ==> #[trigger] ids@[k] == old(self).counter + 1 + k,
                forall|k: u64|
                    old(self).tasks@.contains_key(k) ==> #[trigger] self.tasks@.contains_key(k)
                        && self.tasks@[k] == old(self).tasks@[k],
                forall|k: u64|
                    self.tasks@.contains_key(k) ==> old(self).tasks@.contains_key(k) || (old(self).counter < k <= self.counter),
                forall|k: int|
                    0 <= k < i ==> self.tasks@.contains_key(#[trigger] ids@[k])
                        && created_task_ok(
                        self.tasks@[ids@[k]],
                        ids@[k],
                        *card,
                        *variant,
                        *size,
                        *webhook,
                        flags,
                    ),
                forall|k: int|
                    0 <= k < i ==> ({
                        let apos = accounts@[acc[acc.len() - 1 - skip - k]];
                        &&& self.tasks@[#[trigger] ids@[k]].account.0@ == apos.phone@
                        &&& self.tasks@[ids@[k]].account.1@ == apos.token@
                    }),
                forall|k: int|
                    0 <= k < i ==> (match proxy_slot(mode, k, prox.len() as int) {
                        Some(j) => self.tasks@[#[trigger] ids@[k]].proxy matches Some(a) && a@
                            == proxies@[prox[j]].address@,
                        None => self.tasks@[#[trigger] ids@[k]].proxy is None,
                    }),
                self.wf(),
            decreases pairings@.len() - i,
        {
            let pairing = &pairings[i];
            let account = &accounts[pairing.account];
            let proxy: Option<String> = match pairing.proxy {
                Some(pi) => Some(proxies[pi].address.clone()),
                None => None,
            };
            self.counter = self.counter + 1;
            let uid = self.counter;
            let task = Task::new(
                uid,
                proxy,
                card.clone(),
                variant.clone(),
                size.clone(),
                (account.phone.clone(), account.token.clone()),
                webhook.clone(),
                flags,
            );
            self.tasks.insert(uid, task);
            ids.push(uid);
            i = i + 1;
        }
        ids
    }

    /// Removes a task from the registry and hands it to the caller,
    /// for one round of driving; `put` returns it.
    pub fn take(&mut self, id: u64) -> (r: Option<Task>)
        requires
            old(self).wf(),
        ensures
            final (self).wf(),
            final (self).counter == old(self).counter,
            match r {
                Some(t) => old(self).tasks@.contains_key(id) && t == old(self).tasks@[id]
                    && final (self).tasks@ == old(self).tasks@.remove(id),
                None => !old(self).tasks@.contains_key(id) && final (self).tasks@ == old(self).tasks@,
            },
    {
        let r = self.tasks.remove(&id);
        proof {
            if r is None {
                assert(self.tasks@ =~= old(self).tasks@);
            }
        }
        r
    }

    /// Returns a task taken with `take`, under its own identifier.
    pub fn put(&mut self, task: Task)
        requires
            old(self).wf(),
            task.wf(),
            1 <= task.uid <= old(self).counter,
        ensures
            final (self).wf(),
            final (self).counter == old(self).counter,
            final (self).tasks@ == old(self).tasks@.insert(task.uid, task),
    {
        let uid = task.uid;
        self.tasks.insert(uid, task);
    }

    /// Serves the caller's delete action: the task, if live, leaves
    /// the registry.
    pub fn delete(&mut self, id: u64)
        requires
            old(self).wf(),
        ensures
            final (self).wf(),
            final (self).counter == old(self).counter,
            final (self).tasks@ == old(self).tasks@.remove(id),
            !final (self).tasks@.contains_key(id),
    {
        let r = self.tasks.remove(&id);
        proof {
            if r is None {
                assert(self.tasks@ =~= old(self).tasks@.remove(id));
            }
        }
    }

    /// Serves the caller's retry action: a task halted at an error is
    /// retried (per the engine's retry semantics) and `true` comes
    /// back; any other task, or a missing identifier, is untouched.
    pub fn retry(&mut self, id: u64) -> (r: bool)
        requires
            old(self).wf(),
        ensures
            final (self).wf(),
            final (self).counter == old(self).counter,
            r == (old(self).tasks@.contains_key(id) && old(self).tasks@[id].progress is Error),
            !r ==> final (self).tasks@ == old(self).tasks@,
            r ==> ({
                &&& final (self).tasks@.contains_key(id)
                &&& (forall|k: u64|
                    k != id ==> (final (self).tasks@.contains_key(k) <==> old(self).tasks@.contains_key(k)) && (old(self).tasks@.contains_key(k)
                        ==> #[trigger] final (self).tasks@[k] == old(self).tasks@[k]))
                &&& crate::engine::keeps_inputs(old(self).tasks@[id], final (self).tasks@[id])
                &&& (!(old(self).tasks@[id].step is End) ==> final (self).tasks@[id].step
                    is Start && final (self).tasks@[id].substep == 0 && final (self).tasks@[id].progress is Start)
                &&& (old(self).tasks@[id].step is End ==> ({
                    &&& final (self).tasks@[id].step == old(self).tasks@[id].step
                    &&& final (self).tasks@[id].progress matches
                        crate::task::TaskProgress::Completing(m) && m is None
                }))
            }),
    {
        match self.tasks.remove(&id) {
            Some(mut task) => {
                let is_error = matches!(&task.progress, crate::task::TaskProgress::Error(_));
                if is_error {
                    task.retry();
                    let uid = task.uid;
                    self.tasks.insert(uid, task);
                    proof {
                        assert(forall|k: u64|
                            k != id ==> (final (self).tasks@.contains_key(k) <==> old(self).tasks@.contains_key(k)));
                    }
                    true
                } else {
                    let uid = task.uid;
                    self.tasks.insert(uid, task);
                    proof {
                        assert(self.tasks@ =~= old(self).tasks@);
                    }
                    false
                }
            },
            None => {
                proof {
                    assert(self.tasks@ =~= old(self).tasks@);
                }
                false
            },
        }
    }
}

} // verus!
