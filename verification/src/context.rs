//! The execution context: the session under which wait-sets are allocated.
//!
//! A context hands out a shared session cell.  Shutting a context down
//! invalidates the handle it was called on and raises a stop flag on the
//! session cell, which unblocks any wait in progress on a wait-set of the
//! same session, surfaced there as an interruption.

use crate::graph::GraphState;
use core::sync::atomic::AtomicBool;
use core::sync::atomic::Ordering;
use std::sync::Arc;
use vstd::prelude::*;
use vstd::rwlock::RwLock;
use vstd::rwlock::RwLockPredicate;

verus! {

/// The predicate on the session's shared graph registry: any registry
/// value may be stored.
pub struct GraphPred;

impl RwLockPredicate<GraphState> for GraphPred {
    open spec fn inv(self, v: GraphState) -> bool {
        true
    }
}

/// The shared cell of one session.
///
/// The stop flag may be raised from any thread holding a clone of a
/// context handle of the session, so nothing is promised about its value:
/// a wait states what holds of its outcome whichever way a read goes.
pub struct ContextCell {
    /// Raised when the session is shut down.
    pub stop: AtomicBool,
    /// The graph registry shared by every node of the session.
    pub graph: RwLock<GraphState, GraphPred>,
}

/// Relies on `Arc::clone`: the returned pointer shares the allocation of
/// `cell`, so it carries the very same session cell.
#[verifier::external_body]
pub(crate) fn share_session(cell: &Arc<ContextCell>) -> (r: Arc<ContextCell>)
    ensures
        r == *cell,
{
    Arc::clone(cell)
}

/// A handle on an execution context.
///
/// Allocation of a wait-set demands a handle that is still valid; a handle
/// is valid from its creation until `shutdown` is called on it.  Clones
/// share the session, so a shutdown through any clone interrupts waits of
/// the whole session, but validity is judged per handle.
#[derive(Clone)]
pub struct Context {
    /// The session cell shared with every wait-set allocated from here.
    pub cell: Arc<ContextCell>,
    /// Whether this handle has not been shut down.
    pub valid: bool,
}

impl Context {
    /// Opens a new session.  The arguments are accepted for interface
    /// parity; nothing in the session interprets them.
    pub fn new(args: Vec<String>) -> (r: Result<Context, crate::error::RclrsError>)
        ensures
            r matches Ok(c) && c.valid,
    {
        let _ = args;
        Ok(
            Context {
                cell: Arc::new(
                    ContextCell {
                        stop: AtomicBool::new(false),
                        graph: RwLock::new(GraphState::new(), Ghost(GraphPred)),
                    },
                ),
                valid: true,
            },
        )
    }

    /// Whether this handle is still valid for allocations.
    pub fn ok(&self) -> (r: bool)
        ensures
            r == self.valid,
    {
        self.valid
    }

    /// Shuts the session down: this handle stops being valid, and the
    /// session's stop flag is raised, interrupting a wait in progress on
    /// any wait-set of the session.
    pub fn shutdown(&mut self)
        ensures
            !final(self).valid,
            final(self).cell == old(self).cell,
    {
        self.valid = false;
        self.cell.stop.store(true, Ordering::SeqCst);
    }
}

/// Polls the session's stop flag.  The flag is raised from other threads,
/// so no outcome is promised.
pub(crate) fn stop_requested(cell: &Arc<ContextCell>) -> bool {
    cell.stop.load(Ordering::SeqCst)
}

} // verus!
