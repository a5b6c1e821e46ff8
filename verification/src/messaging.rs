//! The messaging-backend adapter: its broker offers no cheap liveness probe,
//! so `recycle` is a deliberate no-op that keeps every resource. Callers of
//! this adapter bear the risk of receiving a silently dead connection.

use vstd::prelude::*;
use crate::adapter::LifecycleAdapter;
use crate::errors::{ConnectError, HealthCheckError};
use crate::resource::Resource;

verus! {

/// The manager for creating and recycling messaging connections.
pub struct Manager {
    /// The broker address the adapter connects to; opaque pass-through
    /// configuration.
    pub addr: String,
    /// Whether the configured broker currently answers; the caller records
    /// here what the network lets happen.
    pub reachable: bool,
}

impl Manager {
    /// An adapter for the given broker address, assumed reachable until the
    /// caller records otherwise.
    pub fn new(addr: String) -> (m: Manager)
        ensures
            m.addr@ == addr@,
            m.reachable,
    {
        Manager { addr, reachable: true }
    }
}

impl LifecycleAdapter for Manager {
    open spec fn create_ok(&self) -> bool {
        self.reachable
    }

    /// The no-op health check keeps every resource.
    open spec fn recycle_ok(&self, resource: Resource) -> bool {
        true
    }

    fn create(&self, id: u64) -> (r: Result<Resource, ConnectError>) {
        if self.reachable {
            Ok(Resource::new(id))
        } else {
            Err(ConnectError::Unreachable)
        }
    }

    fn recycle(&self, resource: &mut Resource) -> (r: Result<(), HealthCheckError>) {
        Ok(())
    }
}

} // verus!
