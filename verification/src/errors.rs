//! Error taxonomy of the library.
//!
//! Every failure is returned to the immediate caller; no operation retries.

use vstd::prelude::*;

verus! {

/// Opening a fresh backend connection failed.
#[derive(Clone, Copy, Debug, PartialEq, Eq, Structural)]
pub enum ConnectError {
    /// The configured address could not be reached.
    Unreachable,
}

/// A health check on an idle resource failed; the pool must discard it.
#[derive(Clone, Copy, Debug, PartialEq, Eq, Structural)]
pub enum HealthCheckError {
    /// The probe found the connection dead.
    ConnectionLost,
}

/// Compiling a query against a resource failed; the cache is left unchanged.
#[derive(Clone, Copy, Debug, PartialEq, Eq, Structural)]
pub enum PrepareError {
    /// The connection was lost before the statement could be compiled.
    ConnectionLost,
}

/// Beginning a backend transaction failed.
#[derive(Clone, Copy, Debug, PartialEq, Eq, Structural)]
pub enum TransactionStartError {
    /// The connection was lost before the transaction could begin.
    ConnectionLost,
}

/// Failure of an operation on a transaction scope.
#[derive(Clone, Copy, Debug, PartialEq, Eq, Structural)]
pub enum ScopeError {
    /// The scope was already finalized by commit or rollback.
    InvalidScopeState,
    /// Compiling a query inside the transaction failed.
    Prepare(PrepareError),
    /// The backend rejected the commit; the scope is terminated anyway.
    CommitError,
}

/// Failure of a pool operation.
#[derive(Clone, Copy, Debug, PartialEq, Eq, Structural)]
pub enum PoolError {
    /// Every slot is checked out and the pool is at its configured maximum.
    Exhausted,
    /// Creating a replacement resource failed.
    Connect(ConnectError),
    /// The returned client does not hold a resource checked out of this pool.
    ForeignResource,
}

} // verus!
