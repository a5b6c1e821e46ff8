//! The SQL-backend adapter: `recycle` issues a trivial round-trip against
//! the backend and treats any error as terminal for that resource, so a
//! silently dropped connection is caught before a caller receives it.

use vstd::prelude::*;
use crate::adapter::LifecycleAdapter;
use crate::errors::{ConnectError, HealthCheckError};
use crate::resource::Resource;

verus! {

/// The manager for creating and recycling SQL connections.
pub struct Manager {
    /// The connection configuration; opaque pass-through.
    pub config: String,
    /// Whether the configured server currently answers; the caller records
    /// here what the network lets happen.
    pub reachable: bool,
}

impl Manager {
    /// An adapter for the given connection configuration, assumed reachable
    /// until the caller records otherwise.
    pub fn new(config: String) -> (m: Manager)
        ensures
            m.config@ == config@,
            m.reachable,
    {
        Manager { config, reachable: true }
    }
}

impl LifecycleAdapter for Manager {
    open spec fn create_ok(&self) -> bool {
        self.reachable
    }

    /// The probe answers exactly when the connection is live.
    open spec fn recycle_ok(&self, resource: Resource) -> bool {
        resource.is_live()
    }

    fn create(&self, id: u64) -> (r: Result<Resource, ConnectError>) {
        if self.reachable {
            Ok(Resource::new(id))
        } else {
            Err(ConnectError::Unreachable)
        }
    }

    fn recycle(&self, resource: &mut Resource) -> (r: Result<(), HealthCheckError>) {
        if resource.get_live() {
            Ok(())
        } else {
            Err(HealthCheckError::ConnectionLost)
        }
    }
}

} // verus!
