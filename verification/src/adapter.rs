//! The resource-lifecycle capability a generic pool requires from a backend:
//! produce a fresh resource, and validate a reused one before it is handed
//! back to a caller.

use vstd::prelude::*;
use crate::errors::{ConnectError, HealthCheckError};
use crate::resource::Resource;

verus! {

/// The create / recycle capability, one implementation per backend variant.
///
/// An adapter is read-only configuration: calls are independent and share no
/// mutable state, so whether `create` succeeds and whether `recycle` keeps a
/// given resource are functions of the adapter and the resource alone, named
/// by the two spec functions below.
pub trait LifecycleAdapter: Sized {
    /// Whether `create` succeeds, given this adapter's fixed configuration.
    spec fn create_ok(&self) -> bool;

    /// Whether `recycle` keeps the given resource in the pool.
    spec fn recycle_ok(&self, resource: Resource) -> bool;

    /// Open a new backend connection. The pool supplies the identity the
    /// fresh resource will carry; a fresh resource is live and has compiled
    /// nothing yet.
    fn create(&self, id: u64) -> (r: Result<Resource, ConnectError>)
        ensures
            r is Ok <==> self.create_ok(),
            match r {
                Ok(res) => res.id() == id && res.is_live() && res.next_stmt() == 0,
                Err(e) => e == ConnectError::Unreachable,
            },
    ;

    /// Decide whether a previously created, possibly idle resource is still
    /// usable. Success keeps the resource in the pool; failure tells the
    /// pool to discard it. The check must not touch the resource's
    /// application-visible state at all.
    fn recycle(&self, resource: &mut Resource) -> (r: Result<(), HealthCheckError>)
        ensures
            *final(resource) == *old(resource),
            r is Ok <==> self.recycle_ok(*old(resource)),
            match r {
                Ok(u) => true,
                Err(e) => e == HealthCheckError::ConnectionLost,
            },
    ;
}

} // verus!
