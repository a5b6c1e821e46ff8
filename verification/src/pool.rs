//! A bounded pool of resources over a lifecycle adapter.
//!
//! A checkout reuses the most recently returned idle resource whose recycle
//! check passes; every idle resource whose check fails is discarded on the
//! spot and can never be handed out again. When no idle resource survives,
//! a replacement is created lazily, up to the configured maximum of
//! simultaneously existing resources. `drain_spec` pins down exactly which
//! idle resources a checkout discards and which one it picks.

use vstd::prelude::*;
use crate::adapter::LifecycleAdapter;
use crate::client::Client;
use crate::errors::{ConnectError, PoolError};
use crate::resource::{Resource, Statement};

verus! {

/// What one checkout does to the idle list: scan from the most recently
/// returned end, discard every resource whose recycle check fails, and stop
/// at the first one that passes. Yields the remaining idle list and the
/// picked resource, if any survived.
pub open spec fn drain_spec<A: LifecycleAdapter>(idle: Seq<Resource>, a: A) -> (Seq<Resource>, Option<
    Resource,
>)
    decreases idle.len(),
{
    if idle.len() == 0 {
        (idle, None)
    } else if a.recycle_ok(idle.last()) {
        (idle.drop_last(), Some(idle.last()))
    } else {
        drain_spec(idle.drop_last(), a)
    }
}

/// Generic bounded pool of resources; it asks the adapter for fresh
/// resources and lets it validate reused ones.
pub struct Pool<A: LifecycleAdapter> {
    adapter: A,
    idle: Vec<Resource>,
    out_ids: Vec<u64>,
    max_size: usize,
    next_id: u64,
}

impl<A: LifecycleAdapter> Pool<A> {
    /// The adapter, as a spec value.
    pub closed spec fn spec_adapter(&self) -> A {
        self.adapter
    }

    /// The idle resources, most recently returned last.
    pub closed spec fn spec_idle(&self) -> Seq<Resource> {
        self.idle@
    }

    /// Identities of the resources currently checked out.
    pub closed spec fn spec_out(&self) -> Seq<u64> {
        self.out_ids@
    }

    /// The configured maximum of simultaneously existing resources.
    pub closed spec fn spec_max(&self) -> usize {
        self.max_size
    }

    /// The identity the next created resource will carry; every identity the
    /// pool has ever issued is below it.
    pub closed spec fn spec_next_id(&self) -> u64 {
        self.next_id
    }

    /// Pool sanity: every resource the pool knows, idle or checked out, has
    /// a distinct identity below `next_id`, and the pool is within its
    /// configured size.
    pub open spec fn wf(&self) -> bool {
        &&& forall|i: int, j: int|
            0 <= i < j < self.spec_idle().len() ==> self.spec_idle()[i].id()
                != self.spec_idle()[j].id()
        &&& forall|i: int, j: int|
            0 <= i < j < self.spec_out().len() ==> self.spec_out()[i] != self.spec_out()[j]
        &&& forall|i: int, j: int|
            0 <= i < self.spec_idle().len() && 0 <= j < self.spec_out().len()
                ==> self.spec_idle()[i].id() != self.spec_out()[j]
        &&& forall|i: int| 0 <= i < self.spec_idle().len() ==> self.spec_idle()[i].id() < self.spec_next_id()
        &&& forall|j: int| 0 <= j < self.spec_out().len() ==> self.spec_out()[j] < self.spec_next_id()
        &&& self.spec_idle().len() + self.spec_out().len() <= self.spec_max()
    }

    /// An empty pool over the given adapter, bounded by `max_size`.
    pub fn new(adapter: A, max_size: usize) -> (p: Pool<A>)
        ensures
            p.wf(),
            p.spec_adapter() == adapter,
            p.spec_max() == max_size,
            p.spec_idle() == Seq::<Resource>::empty(),
            p.spec_out() == Seq::<u64>::empty(),
            p.spec_next_id() == 0,
    {
        Pool { adapter, idle: Vec::new(), out_ids: Vec::new(), max_size, next_id: 0 }
    }

    /// Check one resource out, wrapped in a fresh client with an empty
    /// cache. Idle resources are reused only after their recycle check
    /// passed during this very call; the ones that failed it are discarded.
    /// With no surviving idle resource, a fresh one is created if the pool
    /// is under its maximum.
    pub fn checkout(&mut self) -> (r: Result<Client, PoolError>)
        requires
            old(self).wf(),
            old(self).spec_next_id() < u64::MAX,
        ensures
            final(self).wf(),
            final(self).spec_adapter() == old(self).spec_adapter(),
            final(self).spec_max() == old(self).spec_max(),
            ({
                let (rest, picked) = drain_spec(old(self).spec_idle(), old(self).spec_adapter());
                &&& final(self).spec_idle() == rest
                &&& match picked {
                    Some(res) => {
                        &&& r matches Ok(c) && c.spec_resource() == res && c.wf() && c@.cache
                            == Map::<Seq<char>, Statement>::empty()
                        &&& final(self).spec_out() == old(self).spec_out().push(res.id())
                        &&& final(self).spec_next_id() == old(self).spec_next_id()
                    },
                    None => {
                        if old(self).spec_out().len() < old(self).spec_max() {
                            if old(self).spec_adapter().create_ok() {
                                &&& r matches Ok(c) && c.wf() && c@.cache == Map::<
                                    Seq<char>,
                                    Statement,
                                >::empty() && c.spec_resource().id() == old(self).spec_next_id()
                                    && c.spec_resource().is_live()
                                    && c.spec_resource().next_stmt() == 0
                                &&& final(self).spec_out() == old(self).spec_out().push(
                                    old(self).spec_next_id(),
                                )
                                &&& final(self).spec_next_id() == old(self).spec_next_id() + 1
                            } else {
                                &&& r == Err::<Client, PoolError>(
                                    PoolError::Connect(ConnectError::Unreachable),
                                )
                                &&& final(self).spec_out() == old(self).spec_out()
                                &&& final(self).spec_next_id() == old(self).spec_next_id()
                            }
                        } else {
                            &&& r == Err::<Client, PoolError>(PoolError::Exhausted)
                            &&& final(self).spec_out() == old(self).spec_out()
                            &&& final(self).spec_next_id() == old(self).spec_next_id()
                        }
                    },
                }
            }),
    {
        while self.idle.len() != 0
            invariant
                self.wf(),
                self.spec_adapter() == old(self).spec_adapter(),
                self.spec_out() == old(self).spec_out(),
                self.spec_max() == old(self).spec_max(),
                self.spec_next_id() == old(self).spec_next_id(),
                drain_spec(self.spec_idle(), self.spec_adapter()) == drain_spec(
                    old(self).spec_idle(),
                    old(self).spec_adapter(),
                ),
            decreases self.spec_idle().len(),
        {
            let ghost idle_pre = self.spec_idle();
            let popped = self.idle.pop();
            match popped {
                Some(mut res) => {
                    proof {
                        assert(res == idle_pre.last());
                        assert(self.spec_idle() == idle_pre.drop_last());
                    }
                    match self.adapter.recycle(&mut res) {
                        Ok(u) => {
                            let ghost out_pre = self.spec_out();
                            let id = res.get_id();
                            self.out_ids.push(id);
                            proof {
                                assert(drain_spec(idle_pre, self.spec_adapter()) == (
                                    idle_pre.drop_last(),
                                    Some(res),
                                ));
                                assert(res == idle_pre[idle_pre.len() - 1]);
                                assert(forall|i: int|
                                    0 <= i < self.spec_idle().len() ==> self.spec_idle()[i]
                                        == idle_pre[i]);
                                assert forall|i: int, j: int|
                                    0 <= i < j < self.spec_out().len() implies self.spec_out()[i]
                                    != self.spec_out()[j] by {
                                    if j == self.spec_out().len() - 1 {
                                        assert(self.spec_out()[i] == out_pre[i]);
                                        assert(out_pre[i] < self.spec_next_id());
                                    }
                                }
                                assert forall|i: int, j: int|
                                    0 <= i < self.spec_idle().len() && 0 <= j
                                        < self.spec_out().len() implies self.spec_idle()[i].id()
                                    != self.spec_out()[j] by {
                                    assert(self.spec_idle()[i] == idle_pre[i]);
                                    if j == self.spec_out().len() - 1 {
                                        assert(self.spec_out()[j] == idle_pre[idle_pre.len()
                                            - 1].id());
                                    } else {
                                        assert(self.spec_out()[j] == out_pre[j]);
                                    }
                                }
                            }
                            return Ok(Client::new(res));
                        },
                        Err(e) => {
                            proof {
                                assert(drain_spec(idle_pre, self.spec_adapter()) == drain_spec(
                                    idle_pre.drop_last(),
                                    self.spec_adapter(),
                                ));
                            }
                        },
                    }
                },
                None => {
                    proof {
                        assert(false);
                    }
                },
            }
        }
        if self.out_ids.len() < self.max_size {
            match self.adapter.create(self.next_id) {
                Ok(res) => {
                    let ghost out_pre = self.spec_out();
                    self.out_ids.push(self.next_id);
                    self.next_id = self.next_id + 1;
                    proof {
                        assert forall|i: int, j: int|
                            0 <= i < j < self.spec_out().len() implies self.spec_out()[i]
                            != self.spec_out()[j] by {
                            if j == self.spec_out().len() - 1 {
                                assert(self.spec_out()[i] == out_pre[i]);
                            }
                        }
                    }
                    Ok(Client::new(res))
                },
                Err(e) => Err(PoolError::Connect(e)),
            }
        } else {
            Err(PoolError::Exhausted)
        }
    }

    /// Return a checked-out client's resource to the idle set; the wrapper
    /// and its statement cache end here, since the cached handles die with
    /// the checkout. A client whose resource was not checked out of this
    /// pool is refused and its resource discarded.
    pub fn checkin(&mut self, client: Client) -> (r: Result<(), PoolError>)
        requires
            old(self).wf(),
        ensures
            final(self).wf(),
            final(self).spec_adapter() == old(self).spec_adapter(),
            final(self).spec_max() == old(self).spec_max(),
            final(self).spec_next_id() == old(self).spec_next_id(),
            ({
                let id = client.spec_resource().id();
                if exists|k: int| 0 <= k < old(self).spec_out().len() && old(self).spec_out()[k]
                    == id {
                    &&& r == Ok::<(), PoolError>(())
                    &&& final(self).spec_idle() == old(self).spec_idle().push(
                        client.spec_resource(),
                    )
                    &&& exists|k: int|
                        0 <= k < old(self).spec_out().len() && old(self).spec_out()[k] == id
                            && final(self).spec_out() == old(self).spec_out().remove(k)
                } else {
                    &&& r == Err::<(), PoolError>(PoolError::ForeignResource)
                    &&& final(self).spec_idle() == old(self).spec_idle()
                    &&& final(self).spec_out() == old(self).spec_out()
                }
            }),
    {
        let res = client.into_resource();
        let id = res.get_id();
        let n = self.out_ids.len();
        let mut k: usize = 0;
        while k < n
            invariant
                *self == *old(self),
                self.wf(),
                n == self.spec_out().len(),
                k <= n,
                res == client.spec_resource(),
                id == res.id(),
                forall|j: int| 0 <= j < k ==> self.spec_out()[j] != id,
            decreases n - k,
        {
            if self.out_ids[k] == id {
                let ghost out_pre = self.spec_out();
                let ghost idle_pre = self.spec_idle();
                self.out_ids.remove(k);
                self.idle.push(res);
                proof {
                    assert(out_pre == old(self).spec_out());
                    assert(idle_pre == old(self).spec_idle());
                    assert(out_pre[k as int] == id);
                    assert(res.id() == id);
                    assert(self.spec_out() == out_pre.remove(k as int));
                    out_pre.remove_ensures(k as int);
                    assert(self.spec_idle() == idle_pre.push(res));
                    assert forall|i: int, j: int|
                        0 <= i < j < self.spec_out().len() implies self.spec_out()[i]
                        != self.spec_out()[j] by {
                        let fi: int = if i < k {
                            i
                        } else {
                            i + 1
                        };
                        let fj: int = if j < k {
                            j
                        } else {
                            j + 1
                        };
                        assert(out_pre.remove(k as int)[i] == out_pre[fi]);
                        assert(out_pre.remove(k as int)[j] == out_pre[fj]);
                        assert(old(self).spec_out()[fi] != old(self).spec_out()[fj]);
                    }
                    assert forall|i: int, j: int|
                        0 <= i < self.spec_idle().len() && 0 <= j < self.spec_out().len() implies
                        self.spec_idle()[i].id() != self.spec_out()[j] by {
                        let fj: int = if j < k {
                            j
                        } else {
                            j + 1
                        };
                        assert(out_pre.remove(k as int)[j] == out_pre[fj]);
                        if i < idle_pre.len() {
                            assert(idle_pre.push(res)[i] == idle_pre[i]);
                            assert(old(self).spec_idle()[i].id() != old(self).spec_out()[fj]);
                        } else {
                            assert(idle_pre.push(res)[i] == res);
                            assert(fj != k);
                            assert(old(self).spec_out()[fj] != old(self).spec_out()[k as int]);
                        }
                    }
                    assert forall|i: int, j: int|
                        0 <= i < j < self.spec_idle().len() implies self.spec_idle()[i].id()
                        != self.spec_idle()[j].id() by {
                        assert(idle_pre.push(res)[i] == idle_pre[i]);
                        if j == self.spec_idle().len() - 1 {
                            assert(idle_pre.push(res)[j] == res);
                            assert(old(self).spec_idle()[i].id() != old(self).spec_out()[k as int]);
                        } else {
                            assert(idle_pre.push(res)[j] == idle_pre[j]);
                            assert(old(self).spec_idle()[i].id() != old(self).spec_idle()[j].id());
                        }
                    }
                    assert forall|i: int|
                        0 <= i < self.spec_idle().len() implies self.spec_idle()[i].id()
                        < self.spec_next_id() by {
                        if i < idle_pre.len() {
                            assert(idle_pre.push(res)[i] == idle_pre[i]);
                            assert(old(self).spec_idle()[i].id() < old(self).spec_next_id());
                        } else {
                            assert(idle_pre.push(res)[i] == res);
                            assert(old(self).spec_out()[k as int] < old(self).spec_next_id());
                        }
                    }
                    assert forall|j: int|
                        0 <= j < self.spec_out().len() implies self.spec_out()[j]
                        < self.spec_next_id() by {
                        let fj: int = if j < k {
                            j
                        } else {
                            j + 1
                        };
                        assert(out_pre.remove(k as int)[j] == out_pre[fj]);
                        assert(old(self).spec_out()[fj] < old(self).spec_next_id());
                    }
                    assert((k as int) < old(self).spec_out().len() && old(self).spec_out()[k
                        as int] == client.spec_resource().id() && self.spec_out()
                        == old(self).spec_out().remove(k as int));
                }
                return Ok(());
            }
            k = k + 1;
        }
        Err(PoolError::ForeignResource)
    }
}

/// The exact shape of what a checkout's scan does to the idle list: the
/// survivors are an unbroken prefix of it; the picked resource, if any, is
/// the element right after that prefix and passes the recycle check; and
/// everything beyond the pick — everything the scan actually probed and
/// rejected — fails the check.
pub proof fn lemma_drain_spec_shape<A: LifecycleAdapter>(idle: Seq<Resource>, a: A)
    ensures
        ({
            let (rest, picked) = drain_spec(idle, a);
            &&& rest.len() <= idle.len()
            &&& rest == idle.take(rest.len() as int)
            &&& match picked {
                Some(res) => {
                    &&& rest.len() < idle.len()
                    &&& res == idle[rest.len() as int]
                    &&& a.recycle_ok(res)
                    &&& forall|j: int| rest.len() < j < idle.len() ==> !a.recycle_ok(idle[j])
                },
                None => {
                    &&& rest.len() == 0
                    &&& forall|j: int| 0 <= j < idle.len() ==> !a.recycle_ok(idle[j])
                },
            }
        }),
    decreases idle.len(),
{
    if idle.len() == 0 {
        assert(idle =~= idle.take(0));
    } else if a.recycle_ok(idle.last()) {
        assert(idle.drop_last() =~= idle.take(idle.len() - 1));
    } else {
        lemma_drain_spec_shape(idle.drop_last(), a);
        let (rest, picked) = drain_spec(idle.drop_last(), a);
        assert(idle.drop_last().take(rest.len() as int) =~= idle.take(rest.len() as int));
        assert(forall|j: int|
            0 <= j < idle.drop_last().len() ==> idle.drop_last()[j] == idle[j]);
    }
}

/// A resource on which recycle was attempted and failed during a checkout is
/// discarded for good: it is not the resource handed out by that checkout,
/// and it no longer sits in the idle list, so — identities being unique and
/// never reissued — no later checkout can return it either.
pub proof fn lemma_recycle_failure_discards<A: LifecycleAdapter>(p: Pool<A>, i: int)
    requires
        p.wf(),
        0 <= i < p.spec_idle().len(),
        !p.spec_adapter().recycle_ok(p.spec_idle()[i]),
        // the scan from the end reaches index i: everything after it fails too
        forall|j: int| i < j < p.spec_idle().len() ==> !p.spec_adapter().recycle_ok(
            p.spec_idle()[j],
        ),
    ensures
        ({
            let (rest, picked) = drain_spec(p.spec_idle(), p.spec_adapter());
            &&& forall|k: int| 0 <= k < rest.len() ==> rest[k].id() != p.spec_idle()[i].id()
            &&& match picked {
                Some(res) => res.id() != p.spec_idle()[i].id(),
                None => true,
            }
        }),
{
    lemma_drain_spec_shape(p.spec_idle(), p.spec_adapter());
    let (rest, picked) = drain_spec(p.spec_idle(), p.spec_adapter());
    match picked {
        Some(res) => {
            let m = rest.len() as int;
            assert(res == p.spec_idle()[m]);
            if m >= i {
                assert(!p.spec_adapter().recycle_ok(p.spec_idle()[m]));
                assert(false);
            }
            assert(p.spec_idle()[m].id() != p.spec_idle()[i].id());
        },
        None => {},
    }
    assert forall|k: int| 0 <= k < rest.len() implies rest[k].id() != p.spec_idle()[i].id() by {
        assert(rest[k] == p.spec_idle()[k]);
        assert(k < i);
    }
}

} // verus!
