//! The client wrapper: exclusive owner of one checked-out resource and of
//! the statement cache whose handles were compiled against that resource.
//!
//! `prepare` is check-then-act: a hit returns the stored handle unchanged; a
//! miss asks the resource to compile the text, stores the handle under the
//! exact text, and returns it; on failure the cache is left untouched. The
//! whole transition is pinned by `prepare_model`.

use vstd::prelude::*;
use crate::cache::StatementCache;
use crate::errors::PrepareError;
use crate::resource::{Resource, Statement};

verus! {

/// The mathematical state of a client: the resource's identity, liveness and
/// handle counter, and the cached mapping from query text to handle.
pub ghost struct ClientModel {
    /// Identity of the owned resource.
    pub id: u64,
    /// Whether the backend still answers on the owned resource.
    pub live: bool,
    /// Serial number the next compiled statement will get.
    pub next_stmt: u64,
    /// The statement cache's contents.
    pub cache: Map<Seq<char>, Statement>,
}

impl ClientModel {
    /// Every cached handle was compiled against the owned resource: it
    /// carries the resource's identity and a serial number the resource has
    /// already passed.
    pub open spec fn wf(self) -> bool {
        &&& self.cache.dom().finite()
        &&& forall|k: Seq<char>|
            #[trigger] self.cache.contains_key(k) ==> self.cache[k].resource_id == self.id
                && self.cache[k].stmt_id < self.next_stmt
    }
}

/// What one `prepare` call does to a client: the state after the call and
/// the result handed back.
pub open spec fn prepare_model(m: ClientModel, q: Seq<char>) -> (ClientModel, Result<
    Statement,
    PrepareError,
>) {
    if m.cache.contains_key(q) {
        (m, Ok(m.cache[q]))
    } else if m.live {
        let st = Statement { resource_id: m.id, stmt_id: m.next_stmt };
        (
            ClientModel {
                id: m.id,
                live: m.live,
                next_stmt: (m.next_stmt + 1) as u64,
                cache: m.cache.insert(q, st),
            },
            Ok(st),
        )
    } else {
        (m, Err(PrepareError::ConnectionLost))
    }
}

/// Owns one checked-out resource plus its statement cache; the unit callers
/// interact with, from checkout until the resource goes back to the pool.
pub struct Client {
    resource: Resource,
    statement_cache: StatementCache,
}

impl View for Client {
    type V = ClientModel;

    open spec fn view(&self) -> ClientModel {
        ClientModel {
            id: self.spec_resource().id(),
            live: self.spec_resource().is_live(),
            next_stmt: self.spec_resource().next_stmt(),
            cache: self.spec_cache()@,
        }
    }
}

impl Client {
    /// The owned resource, as a spec value.
    pub closed spec fn spec_resource(&self) -> Resource {
        self.resource
    }

    /// The owned cache, as a spec value.
    pub closed spec fn spec_cache(&self) -> StatementCache {
        self.statement_cache
    }

    /// The cache's entries are unique and its handles belong to the owned
    /// resource.
    pub open spec fn wf(&self) -> bool {
        &&& self.spec_cache().wf()
        &&& self@.wf()
    }

    /// Wrap a checked-out resource; the cache starts empty.
    pub fn new(resource: Resource) -> (r: Client)
        ensures
            r.wf(),
            r@ == (ClientModel {
                id: resource.id(),
                live: resource.is_live(),
                next_stmt: resource.next_stmt(),
                cache: Map::<Seq<char>, Statement>::empty(),
            }),
            r.spec_resource() == resource,
    {
        Client { resource, statement_cache: StatementCache::new() }
    }

    /// Read access to the owned resource (pass-through to its native
    /// surface).
    pub fn resource(&self) -> (r: &Resource)
        ensures
            *r == self.spec_resource(),
    {
        &self.resource
    }

    /// Read access to the statement cache, for diagnostics such as `size`.
    pub fn statement_cache(&self) -> (r: &StatementCache)
        ensures
            *r == self.spec_cache(),
    {
        &self.statement_cache
    }

    /// Exclusive access to the statement cache, e.g. to `clear` it.
    pub fn statement_cache_mut(&mut self) -> (r: &mut StatementCache)
        ensures
            *r == old(self).spec_cache(),
            final(self).spec_cache() == *final(r),
            final(self).spec_resource() == old(self).spec_resource(),
    {
        &mut self.statement_cache
    }

    /// Record a backend event on the owned resource: the connection dropped,
    /// or came back.
    pub fn set_live(&mut self, live: bool)
        ensures
            final(self)@ == (ClientModel { live, ..old(self)@ }),
            final(self).spec_cache() == old(self).spec_cache(),
            old(self).wf() ==> final(self).wf(),
    {
        self.resource.set_live(live);
    }

    /// Hand the resource back, e.g. to return it to the pool; the cache is
    /// dropped with the wrapper, since its handles die with the checkout.
    pub fn into_resource(self) -> (r: Resource)
        ensures
            r == self.spec_resource(),
    {
        self.resource
    }

    /// Return the handle compiled for this exact query text, compiling and
    /// caching it first if the text is not yet cached. The call does exactly
    /// what `prepare_model` says.
    pub fn prepare(&mut self, query: &str) -> (r: Result<Statement, PrepareError>)
        requires
            old(self).wf(),
            old(self)@.next_stmt < u64::MAX,
        ensures
            final(self).wf(),
            final(self)@ == prepare_model(old(self)@, query@).0,
            r == prepare_model(old(self)@, query@).1,
    {
        let q = query.to_owned();
        match self.statement_cache.get(&q) {
            Some(st) => Ok(st),
            None => {
                match self.resource.compile() {
                    Ok(st) => {
                        self.statement_cache.insert(q, st);
                        Ok(st)
                    },
                    Err(e) => Err(e),
                }
            },
        }
    }
}

/// Cache-hit idempotence: preparing the same text twice grows the cache by
/// at most one entry at the first call and not at all at the second, and a
/// second call after a successful first returns the very same handle.
pub proof fn lemma_prepare_idempotent(m: ClientModel, q: Seq<char>)
    requires
        m.wf(),
        m.next_stmt < u64::MAX,
    ensures
        ({
            let (m1, r1) = prepare_model(m, q);
            let (m2, r2) = prepare_model(m1, q);
            &&& m1.cache.dom().len() <= m.cache.dom().len() + 1
            &&& m2 == m1
            &&& (r1 is Ok ==> r2 == r1)
        }),
{
    let (m1, r1) = prepare_model(m, q);
    if !m.cache.contains_key(q) && m.live {
        assert(m1.cache.dom() =~= m.cache.dom().insert(q));
    }
}

/// A cleared cache answers any formerly cached query with a fresh compile:
/// the cache is empty, and the handle returned next is minted anew, never
/// the stale one that was cached before the clear.
pub proof fn lemma_clear_fresh_compile(m: ClientModel, q: Seq<char>)
    requires
        m.wf(),
        m.live,
        m.next_stmt < u64::MAX,
        m.cache.contains_key(q),
    ensures
        ({
            let cleared = ClientModel {
                id: m.id,
                live: m.live,
                next_stmt: m.next_stmt,
                cache: Map::<Seq<char>, Statement>::empty(),
            };
            let (m1, r1) = prepare_model(cleared, q);
            &&& cleared.cache.dom().len() == 0
            &&& r1 == Ok::<Statement, PrepareError>(
                Statement { resource_id: m.id, stmt_id: m.next_stmt },
            )
            &&& r1 != Ok::<Statement, PrepareError>(m.cache[q])
        }),
{
    assert(Map::<Seq<char>, Statement>::empty().dom() =~= Set::<Seq<char>>::empty());
    assert(m.cache[q].stmt_id < m.next_stmt);
}

} // verus!
