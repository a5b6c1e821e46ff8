use connpool::client::Client;
use connpool::errors::{PrepareError, ScopeError, TransactionStartError};
use connpool::resource::Resource;
use connpool::txn::ScopeState;

#[test]
fn prepare_twice_is_idempotent() {
    let mut client = Client::new(Resource::new(7));
    assert_eq!(client.statement_cache().size(), 0);
    let first = client.prepare("SELECT 1").unwrap();
    assert_eq!(client.statement_cache().size(), 1);
    let second = client.prepare("SELECT 1").unwrap();
    assert_eq!(client.statement_cache().size(), 1);
    assert_eq!(first, second);
    assert_eq!(first.resource_id, 7);
    assert_eq!(first.stmt_id, 0);
}

#[test]
fn distinct_queries_get_distinct_handles() {
    let mut client = Client::new(Resource::new(1));
    let a = client.prepare("SELECT 1").unwrap();
    let b = client.prepare("SELECT 2").unwrap();
    assert_eq!(client.statement_cache().size(), 2);
    assert_ne!(a, b);
    assert_eq!(b.stmt_id, 1);
}

#[test]
fn clear_then_fresh_compile() {
    let mut client = Client::new(Resource::new(3));
    let stale = client.prepare("SELECT 1").unwrap();
    client.statement_cache_mut().clear();
    assert_eq!(client.statement_cache().size(), 0);
    let fresh = client.prepare("SELECT 1").unwrap();
    assert_eq!(client.statement_cache().size(), 1);
    assert_ne!(stale, fresh);
    assert_eq!(fresh.stmt_id, 1);
}

#[test]
fn prepare_on_dead_connection_fails_and_cache_is_untouched() {
    let mut client = Client::new(Resource::new(4));
    let cached = client.prepare("SELECT 1").unwrap();
    client.set_live(false);
    let miss = client.prepare("SELECT 2");
    assert_eq!(miss, Err(PrepareError::ConnectionLost));
    assert_eq!(client.statement_cache().size(), 1);
    let hit = client.prepare("SELECT 1");
    assert_eq!(hit, Ok(cached));
}

#[test]
fn transaction_on_dead_connection_fails_and_returns_client() {
    let mut client = Client::new(Resource::new(5));
    client.prepare("SELECT 1").unwrap();
    client.set_live(false);
    match client.transaction() {
        Ok(_) => panic!("transaction began on a dead connection"),
        Err((back, e)) => {
            assert_eq!(e, TransactionStartError::ConnectionLost);
            assert_eq!(back.statement_cache().size(), 1);
        },
    }
}

#[test]
fn scope_prepare_then_commit_persists_cache_entry() {
    let client = Client::new(Resource::new(8));
    let mut scope = client.transaction().ok().unwrap();
    let st = scope.prepare("SELECT $1").unwrap();
    assert_eq!(scope.commit(), Ok(()));
    assert_eq!(scope.state(), ScopeState::Committed);
    let mut parent = scope.into_client();
    assert_eq!(parent.statement_cache().size(), 1);
    assert_eq!(parent.prepare("SELECT $1"), Ok(st));
    assert_eq!(parent.statement_cache().size(), 1);
}

#[test]
fn scope_prepare_then_rollback_keeps_cache_entry() {
    let client = Client::new(Resource::new(9));
    let mut scope = client.transaction().ok().unwrap();
    let st = scope.prepare("SELECT $1").unwrap();
    assert_eq!(scope.rollback(), Ok(()));
    assert_eq!(scope.state(), ScopeState::RolledBack);
    let mut parent = scope.into_client();
    assert_eq!(parent.statement_cache().size(), 1);
    assert_eq!(parent.prepare("SELECT $1"), Ok(st));
}

#[test]
fn scope_sees_and_extends_parent_cache() {
    let mut client = Client::new(Resource::new(10));
    let before = client.prepare("SELECT 1").unwrap();
    let mut scope = client.transaction().ok().unwrap();
    assert_eq!(scope.prepare("SELECT 1"), Ok(before));
    scope.prepare("SELECT 2").unwrap();
    scope.commit().unwrap();
    let parent = scope.into_client();
    assert_eq!(parent.statement_cache().size(), 2);
}

#[test]
fn finalized_scope_rejects_every_operation() {
    let client = Client::new(Resource::new(11));
    let mut scope = client.transaction().ok().unwrap();
    assert_eq!(scope.commit(), Ok(()));
    assert_eq!(scope.rollback(), Err(ScopeError::InvalidScopeState));
    assert_eq!(scope.commit(), Err(ScopeError::InvalidScopeState));
    assert_eq!(scope.prepare("SELECT 1"), Err(ScopeError::InvalidScopeState));
    assert_eq!(scope.state(), ScopeState::Committed);
}

#[test]
fn rollback_is_terminal_too() {
    let client = Client::new(Resource::new(12));
    let mut scope = client.transaction().ok().unwrap();
    assert_eq!(scope.rollback(), Ok(()));
    assert_eq!(scope.commit(), Err(ScopeError::InvalidScopeState));
    assert_eq!(scope.rollback(), Err(ScopeError::InvalidScopeState));
}

#[test]
fn rejected_commit_terminates_the_scope() {
    let client = Client::new(Resource::new(13));
    let mut scope = client.transaction().ok().unwrap();
    scope.prepare("SELECT 1").unwrap();
    scope.set_live(false);
    assert_eq!(scope.commit(), Err(ScopeError::CommitError));
    assert_eq!(scope.state(), ScopeState::RolledBack);
    assert_eq!(scope.commit(), Err(ScopeError::InvalidScopeState));
    let parent = scope.into_client();
    assert_eq!(parent.statement_cache().size(), 1);
}

#[test]
fn prepare_inside_scope_fails_on_dead_connection() {
    let client = Client::new(Resource::new(14));
    let mut scope = client.transaction().ok().unwrap();
    scope.set_live(false);
    assert_eq!(
        scope.prepare("SELECT 1"),
        Err(ScopeError::Prepare(PrepareError::ConnectionLost)),
    );
    assert_eq!(scope.state(), ScopeState::Open);
}
