//! The transaction scope: an exclusive, time-bounded borrow of a client's
//! resource and statement cache, representing one open backend transaction.
//!
//! The scope is obtained by moving the client in, which makes the parent
//! unusable while the scope is open, and the client is handed back when the
//! scope is done. States go `Open -> {Committed, RolledBack}`, both
//! terminal: any operation attempted after finalization fails with
//! `InvalidScopeState` and changes nothing. Statements prepared inside the
//! scope land in the same cache the parent owns, so they stay cached after
//! commit and after rollback alike.

use vstd::prelude::*;
use crate::client::{prepare_model, Client, ClientModel};
use crate::errors::{ScopeError, TransactionStartError};
use crate::resource::Statement;

verus! {

/// Where a scope stands in its lifecycle.
#[derive(Clone, Copy, Debug, PartialEq, Eq, Structural)]
pub enum ScopeState {
    /// The backend transaction is open; operations are accepted.
    Open,
    /// Finalized by a successful commit.
    Committed,
    /// Finalized by rollback, or by a commit the backend rejected.
    RolledBack,
}

/// The mathematical state of a transaction scope: the borrowed client's
/// state plus the scope's lifecycle state.
pub ghost struct TxnModel {
    /// State of the client the scope borrowed.
    pub client: ClientModel,
    /// Lifecycle state of the scope.
    pub state: ScopeState,
}

/// What one `prepare` call on a scope does: rejected once finalized,
/// otherwise exactly the parent client's prepare, against the same cache.
pub open spec fn txn_prepare_model(t: TxnModel, q: Seq<char>) -> (TxnModel, Result<
    Statement,
    ScopeError,
>) {
    if !(t.state is Open) {
        (t, Err(ScopeError::InvalidScopeState))
    } else {
        let (c1, r) = prepare_model(t.client, q);
        match r {
            Ok(st) => (TxnModel { client: c1, state: t.state }, Ok(st)),
            Err(e) => (TxnModel { client: c1, state: t.state }, Err(ScopeError::Prepare(e))),
        }
    }
}

/// What `commit` does: rejected once finalized; otherwise the scope becomes
/// terminal, `Committed` if the backend accepts, `RolledBack` with a
/// `CommitError` if the connection is gone (no retry is attempted).
pub open spec fn commit_model(t: TxnModel) -> (TxnModel, Result<(), ScopeError>) {
    if !(t.state is Open) {
        (t, Err(ScopeError::InvalidScopeState))
    } else if t.client.live {
        (TxnModel { client: t.client, state: ScopeState::Committed }, Ok(()))
    } else {
        (TxnModel { client: t.client, state: ScopeState::RolledBack }, Err(ScopeError::CommitError))
    }
}

/// What `rollback` does: rejected once finalized; otherwise the transaction's
/// effects are discarded and the scope becomes terminal. The statement cache
/// is not part of the transaction's effects and keeps its entries.
pub open spec fn rollback_model(t: TxnModel) -> (TxnModel, Result<(), ScopeError>) {
    if !(t.state is Open) {
        (t, Err(ScopeError::InvalidScopeState))
    } else {
        (TxnModel { client: t.client, state: ScopeState::RolledBack }, Ok(()))
    }
}

/// One open backend transaction, holding the parent client exclusively until
/// the scope is finalized and the client is taken back.
pub struct Transaction {
    client: Client,
    state: ScopeState,
}

impl View for Transaction {
    type V = TxnModel;

    open spec fn view(&self) -> TxnModel {
        TxnModel { client: self.spec_client()@, state: self.spec_state() }
    }
}

impl Transaction {
    /// The borrowed client, as a spec value.
    pub closed spec fn spec_client(&self) -> Client {
        self.client
    }

    /// The lifecycle state, as a spec value.
    pub closed spec fn spec_state(&self) -> ScopeState {
        self.state
    }

    /// The borrowed client is well-formed.
    pub open spec fn wf(&self) -> bool {
        self.spec_client().wf()
    }

    /// Read the lifecycle state.
    pub fn state(&self) -> (s: ScopeState)
        ensures
            s == self@.state,
    {
        self.state
    }

    /// Read access to the borrowed resource (pass-through to its native
    /// surface).
    pub fn resource(&self) -> (r: &crate::resource::Resource)
        ensures
            *r == self.spec_client().spec_resource(),
    {
        self.client.resource()
    }

    /// Read access to the borrowed statement cache, for diagnostics.
    pub fn statement_cache(&self) -> (r: &crate::cache::StatementCache)
        ensures
            *r == self.spec_client().spec_cache(),
    {
        self.client.statement_cache()
    }

    /// Record a backend event on the borrowed resource: the connection
    /// dropped, or came back.
    pub fn set_live(&mut self, live: bool)
        ensures
            final(self)@.client == (ClientModel { live, ..old(self)@.client }),
            final(self)@.state == old(self)@.state,
            old(self).wf() ==> final(self).wf(),
    {
        self.client.set_live(live);
    }

    /// Same semantics as the client's own `prepare`, against the very cache
    /// the parent owns — once the scope ends, entries made here remain.
    /// Rejected with `InvalidScopeState` after finalization.
    pub fn prepare(&mut self, query: &str) -> (r: Result<Statement, ScopeError>)
        requires
            old(self).wf(),
            old(self)@.client.next_stmt < u64::MAX,
        ensures
            final(self).wf(),
            final(self)@ == txn_prepare_model(old(self)@, query@).0,
            r == txn_prepare_model(old(self)@, query@).1,
    {
        match self.state {
            ScopeState::Open => match self.client.prepare(query) {
                Ok(st) => Ok(st),
                Err(e) => Err(ScopeError::Prepare(e)),
            },
            _ => Err(ScopeError::InvalidScopeState),
        }
    }

    /// Finalize the backend transaction. Fails with `CommitError` if the
    /// backend rejects the commit; the scope is terminated either way.
    /// Rejected with `InvalidScopeState` once already finalized.
    pub fn commit(&mut self) -> (r: Result<(), ScopeError>)
        ensures
            final(self)@ == commit_model(old(self)@).0,
            r == commit_model(old(self)@).1,
            final(self).spec_client() == old(self).spec_client(),
            old(self).wf() ==> final(self).wf(),
    {
        match self.state {
            ScopeState::Open => {
                if self.client.resource().get_live() {
                    self.state = ScopeState::Committed;
                    Ok(())
                } else {
                    self.state = ScopeState::RolledBack;
                    Err(ScopeError::CommitError)
                }
            },
            _ => Err(ScopeError::InvalidScopeState),
        }
    }

    /// Finalize by discarding the transaction's effects. Rejected with
    /// `InvalidScopeState` once already finalized.
    pub fn rollback(&mut self) -> (r: Result<(), ScopeError>)
        ensures
            final(self)@ == rollback_model(old(self)@).0,
            r == rollback_model(old(self)@).1,
            final(self).spec_client() == old(self).spec_client(),
            old(self).wf() ==> final(self).wf(),
    {
        match self.state {
            ScopeState::Open => {
                self.state = ScopeState::RolledBack;
                Ok(())
            },
            _ => Err(ScopeError::InvalidScopeState),
        }
    }

    /// Hand the borrowed resource and cache back to the caller. Taking the
    /// client out of a scope that is still open abandons the backend
    /// transaction to connection-level cleanup — a documented hazard, so
    /// finalize first.
    pub fn into_client(self) -> (c: Client)
        ensures
            c == self.spec_client(),
    {
        self.client
    }
}

impl Client {
    /// Begin a backend transaction on the owned resource, moving the client
    /// into an exclusive scope; on failure the untouched client comes back
    /// beside the error. Succeeds exactly when the connection is live.
    pub fn transaction(self) -> (r: Result<Transaction, (Client, TransactionStartError)>)
        ensures
            self.wf() ==> match r {
                Ok(t) => t.wf(),
                Err(_) => true,
            },
            match r {
                Ok(t) => self@.live && t@ == (TxnModel { client: self@, state: ScopeState::Open })
                    && t.spec_client() == self,
                Err(p) => !self@.live && p.0 == self && p.1
                    == TransactionStartError::ConnectionLost,
            },
    {
        if self.resource().get_live() {
            Ok(Transaction { client: self, state: ScopeState::Open })
        } else {
            Err((self, TransactionStartError::ConnectionLost))
        }
    }
}

/// Cache mutations made inside a scope persist across finalization: after a
/// successful prepare inside the scope, the client handed back after commit,
/// and equally after rollback, still caches that handle under the query
/// text. Rollback discards data effects, not the statement cache.
pub proof fn lemma_scope_cache_persists(t: TxnModel, q: Seq<char>)
    requires
        t.client.wf(),
        t.state is Open,
        t.client.next_stmt < u64::MAX,
    ensures
        ({
            let (t1, r1) = txn_prepare_model(t, q);
            let (tc, _) = commit_model(t1);
            let (tr, _) = rollback_model(t1);
            &&& (r1 matches Ok(st) ==> tc.client.cache.contains_key(q) && tc.client.cache[q] == st)
            &&& (r1 matches Ok(st) ==> tr.client.cache.contains_key(q) && tr.client.cache[q] == st)
        }),
{
}

/// Operations on a finalized scope are rejected: each of prepare, commit and
/// rollback fails with `InvalidScopeState` and leaves the scope unchanged.
pub proof fn lemma_terminal_scope_rejects(t: TxnModel, q: Seq<char>)
    requires
        !(t.state is Open),
    ensures
        txn_prepare_model(t, q) == (t, Err::<Statement, ScopeError>(ScopeError::InvalidScopeState)),
        commit_model(t) == (t, Err::<(), ScopeError>(ScopeError::InvalidScopeState)),
        rollback_model(t) == (t, Err::<(), ScopeError>(ScopeError::InvalidScopeState)),
{
}

/// A scope is consumed by exactly one finalization: after commit the state
/// is terminal and a rollback is rejected, and the other way round.
pub proof fn lemma_finalize_once(t: TxnModel)
    requires
        t.state is Open,
    ensures
        ({
            let (tc, _) = commit_model(t);
            let (tr, _) = rollback_model(t);
            &&& !(tc.state is Open)
            &&& !(tr.state is Open)
            &&& rollback_model(tc) == (tc, Err::<(), ScopeError>(ScopeError::InvalidScopeState))
            &&& commit_model(tr) == (tr, Err::<(), ScopeError>(ScopeError::InvalidScopeState))
        }),
{
}

} // verus!
