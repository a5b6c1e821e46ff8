use connpool::client::Client;
use connpool::errors::{ConnectError, PoolError};
use connpool::pool::Pool;
use connpool::resource::Resource;
use connpool::{messaging, sql};

#[test]
fn cache_starts_empty_and_clears() {
    let mut cache = connpool::cache::StatementCache::new();
    assert_eq!(cache.size(), 0);
    cache.clear();
    assert_eq!(cache.size(), 0);
}

#[test]
fn fresh_pool_creates_resources_lazily() {
    let mut pool = Pool::new(sql::Manager::new(String::from("host=localhost")), 2);
    let a = pool.checkout().unwrap();
    let b = pool.checkout().unwrap();
    assert_eq!(a.resource().get_id(), 0);
    assert_eq!(b.resource().get_id(), 1);
    assert_eq!(pool.checkout().err(), Some(PoolError::Exhausted));
    pool.checkin(a).unwrap();
    pool.checkin(b).unwrap();
}

#[test]
fn unreachable_backend_surfaces_connect_error() {
    let mut manager = sql::Manager::new(String::from("host=localhost"));
    manager.reachable = false;
    let mut pool = Pool::new(manager, 2);
    assert_eq!(pool.checkout().err(), Some(PoolError::Connect(ConnectError::Unreachable)));
}

#[test]
fn failed_recycle_discards_the_resource_for_good() {
    let mut pool = Pool::new(sql::Manager::new(String::from("host=localhost")), 1);
    let mut client = pool.checkout().unwrap();
    let dead_id = client.resource().get_id();
    client.set_live(false);
    pool.checkin(client).unwrap();
    let replacement = pool.checkout().unwrap();
    assert_ne!(replacement.resource().get_id(), dead_id);
    assert!(replacement.resource().get_live());
    pool.checkin(replacement).unwrap();
}

#[test]
fn reused_client_passed_recycle_and_starts_with_empty_cache() {
    let mut pool = Pool::new(sql::Manager::new(String::from("host=localhost")), 2);
    let mut a = pool.checkout().unwrap();
    let b = pool.checkout().unwrap();
    let a_id = a.resource().get_id();
    let hit_first = a.prepare("SELECT 1").unwrap();
    let hit_again = a.prepare("SELECT 1").unwrap();
    assert_eq!(hit_first, hit_again);
    assert_eq!(a.statement_cache().size(), 1);
    pool.checkin(b).unwrap();
    pool.checkin(a).unwrap();
    let mut reused = pool.checkout().unwrap();
    // the most recently returned resource comes back first, alive because
    // its recycle check just passed
    assert_eq!(reused.resource().get_id(), a_id);
    assert!(reused.resource().get_live());
    // same query text, but a fresh wrapper: a cache miss compiles anew
    assert_eq!(reused.statement_cache().size(), 0);
    let fresh = reused.prepare("SELECT 1").unwrap();
    assert_eq!(reused.statement_cache().size(), 1);
    assert_ne!(fresh, hit_first);
    pool.checkin(reused).unwrap();
}

#[test]
fn messaging_recycle_is_a_deliberate_no_op() {
    let mut pool = Pool::new(messaging::Manager::new(String::from("amqp://localhost")), 1);
    let mut client = pool.checkout().unwrap();
    let id = client.resource().get_id();
    client.set_live(false);
    pool.checkin(client).unwrap();
    // the no-op health check keeps even a dead connection in the pool
    let reused = pool.checkout().unwrap();
    assert_eq!(reused.resource().get_id(), id);
    assert!(!reused.resource().get_live());
}

#[test]
fn foreign_client_is_refused() {
    let mut pool = Pool::new(sql::Manager::new(String::from("host=localhost")), 2);
    let stray = Client::new(Resource::new(99));
    assert_eq!(pool.checkin(stray), Err(PoolError::ForeignResource));
}

#[test]
fn discarded_slots_free_capacity() {
    let mut pool = Pool::new(sql::Manager::new(String::from("host=localhost")), 2);
    let mut a = pool.checkout().unwrap();
    let b = pool.checkout().unwrap();
    a.set_live(false);
    pool.checkin(a).unwrap();
    pool.checkin(b).unwrap();
    // the dead resource is discarded during this checkout; the live one
    // and a fresh replacement can then coexist
    let first = pool.checkout().unwrap();
    let second = pool.checkout().unwrap();
    assert!(first.resource().get_live());
    assert!(second.resource().get_live());
    assert_ne!(first.resource().get_id(), second.resource().get_id());
}
