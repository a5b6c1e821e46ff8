//! The model of a backend connection and of a compiled statement handle.
//!
//! A `Resource` stands for one live backend connection. The library reads
//! three things of a connection: its identity, whether the backend still
//! answers on it, and how many statements it has compiled so far (the source
//! of fresh handle identifiers). Everything else about a real connection is
//! opaque and stays with the driver that owns it.

use vstd::prelude::*;
use crate::errors::PrepareError;

verus! {

/// A handle to a statement compiled by one specific resource.
///
/// A handle is a cheap reference into backend-side compiled state: it is
/// meaningful only for the resource that produced it, which is recorded in
/// `resource_id`.
#[derive(Clone, Copy, Debug, PartialEq, Eq, Structural)]
pub struct Statement {
    /// Identity of the resource the statement was compiled against.
    pub resource_id: u64,
    /// Per-resource serial number of the compilation.
    pub stmt_id: u64,
}

/// One backend connection, as the library models it.
pub struct Resource {
    id: u64,
    live: bool,
    next_stmt: u64,
}

impl Resource {
    /// Identity of this resource; never changes after creation.
    pub closed spec fn id(&self) -> u64 {
        self.id
    }

    /// Whether the backend still answers on this connection.
    pub closed spec fn is_live(&self) -> bool {
        self.live
    }

    /// Serial number the next compiled statement will get.
    pub closed spec fn next_stmt(&self) -> u64 {
        self.next_stmt
    }

    /// A freshly opened connection: live, with no statements compiled yet.
    pub fn new(id: u64) -> (r: Resource)
        ensures
            r.id() == id,
            r.is_live(),
            r.next_stmt() == 0,
    {
        Resource { id, live: true, next_stmt: 0 }
    }

    /// Read the identity.
    pub fn get_id(&self) -> (r: u64)
        ensures
            r == self.id(),
    {
        self.id
    }

    /// Read the serial number the next compiled statement will get.
    pub fn get_next_stmt(&self) -> (r: u64)
        ensures
            r == self.next_stmt(),
    {
        self.next_stmt
    }

    /// Read the liveness.
    pub fn get_live(&self) -> (r: bool)
        ensures
            r == self.is_live(),
    {
        self.live
    }

    /// Record a backend event: the connection dropped, or came back.
    ///
    /// Callers use this to feed the one piece of outside state the model
    /// depends on; nothing else about the resource changes.
    pub fn set_live(&mut self, live: bool)
        ensures
            final(self).id() == old(self).id(),
            final(self).next_stmt() == old(self).next_stmt(),
            final(self).is_live() == live,
    {
        self.live = live;
    }

    /// Compile one statement: mint the next handle for this resource.
    ///
    /// Succeeds exactly when the connection is live; on failure nothing
    /// changes. The handle carries this resource's identity and the serial
    /// number of the compilation.
    pub fn compile(&mut self) -> (r: Result<Statement, PrepareError>)
        requires
            old(self).next_stmt() < u64::MAX,
        ensures
            final(self).id() == old(self).id(),
            final(self).is_live() == old(self).is_live(),
            old(self).is_live() ==> {
                &&& r == Ok::<Statement, PrepareError>(
                    Statement { resource_id: old(self).id(), stmt_id: old(self).next_stmt() },
                )
                &&& final(self).next_stmt() == old(self).next_stmt() + 1
            },
            !old(self).is_live() ==> {
                &&& r == Err::<Statement, PrepareError>(PrepareError::ConnectionLost)
                &&& final(self).next_stmt() == old(self).next_stmt()
            },
    {
        if self.live {
            let st = Statement { resource_id: self.id, stmt_id: self.next_stmt };
            self.next_stmt = self.next_stmt + 1;
            Ok(st)
        } else {
            Err(PrepareError::ConnectionLost)
        }
    }
}

} // verus!
