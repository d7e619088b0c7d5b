//! Waitable entities and the weak relation the wait-set registers them by.
//!
//! An entity is owned outside the wait-set.  Its owner holds a
//! [`WaitableEntity`]; the wait-set is handed an [`EntityRef`], a non-owning
//! relation that must be resolved at every fill phase.  Resolution fails
//! once the owner has released the entity, and the registration then
//! reports a dropped entity instead of storing anything.

use core::sync::atomic::AtomicBool;
use core::sync::atomic::Ordering;
use std::sync::Arc;
use vstd::prelude::*;

verus! {

/// The shared cell behind one waitable entity.
///
/// `ready` is the readiness signal the wait operation polls; `alive` is
/// cleared when the owner releases the entity, after which the weak
/// relation no longer resolves.  Both flags are read and written from
/// whichever threads hold a handle, so nothing is promised about their
/// values: the wait-set's contracts hold for every outcome of a read.
pub struct EntityCell {
    /// Set while a readiness signal is pending on the entity.
    pub ready: AtomicBool,
    /// Cleared once the owner has released the entity.
    pub alive: AtomicBool,
}

/// Relies on `Arc::clone`: the returned pointer shares the allocation of
/// `cell`, so it carries the very same cell.
#[verifier::external_body]
fn share_cell(cell: &Arc<EntityCell>) -> (r: Arc<EntityCell>)
    ensures
        r == *cell,
{
    Arc::clone(cell)
}

/// The owner-side handle of a waitable entity.
///
/// The entity is a manually triggerable readiness signal, in the manner of
/// a guard condition; the same shape serves every slot category, since a
/// wait cycle reads nothing of an entity but its readiness.
#[derive(Clone)]
pub struct WaitableEntity {
    /// The shared cell; every reference and registered handle points here.
    pub cell: Arc<EntityCell>,
}

impl WaitableEntity {
    /// Creates a new entity, not ready and not released.
    pub fn new() -> (r: WaitableEntity) {
        WaitableEntity {
            cell: Arc::new(
                EntityCell { ready: AtomicBool::new(false), alive: AtomicBool::new(true) },
            ),
        }
    }

    /// Raises the entity's readiness signal, as an out-of-band wakeup
    /// would.  May be called from any thread holding a clone of the owner
    /// handle.
    pub fn trigger(&self) {
        self.cell.ready.store(true, Ordering::SeqCst);
    }

    /// Releases the entity: every weak relation taken from it stops
    /// resolving.  A slot already holding the entity's handle is not
    /// touched; only new registrations are refused.
    pub fn release(&mut self) {
        self.cell.alive.store(false, Ordering::SeqCst);
    }

    /// Takes a weak, non-owning relation to the entity, fit to be handed
    /// to a wait-set registration.
    pub fn downgrade(&self) -> (r: EntityRef)
        ensures
            r.cell == self.cell,
    {
        EntityRef { cell: share_cell(&self.cell) }
    }
}

/// A weak, non-owning relation from the wait-set to an entity.
///
/// Holding it does not keep the entity registrable: the owner may release
/// the entity at any time, and every fill phase must resolve the relation
/// anew.
#[derive(Clone)]
pub struct EntityRef {
    /// The shared cell of the entity the relation points at.
    pub cell: Arc<EntityCell>,
}

impl EntityRef {
    /// Attempts to strengthen the relation into a handle valid for one
    /// wait cycle.  Returns `None` once the owner has released the
    /// entity.  Whether resolution succeeds is decided by the owner, not
    /// by the caller, so nothing more than the identity of a successful
    /// handle is promised.
    pub fn resolve(&self) -> (r: Option<WaitableHandle>)
        ensures
            r matches Some(h) ==> h.cell == self.cell,
    {
        if self.cell.alive.load(Ordering::SeqCst) {
            Some(WaitableHandle { cell: share_cell(&self.cell) })
        } else {
            None
        }
    }
}

/// A resolved handle, held by one slot of the wait-set for one cycle.
pub struct WaitableHandle {
    /// The shared cell of the entity the handle stands for.
    pub cell: Arc<EntityCell>,
}

impl WaitableHandle {
    /// Polls the entity's readiness signal.  The signal is raised from
    /// other threads, so no outcome is promised.
    pub(crate) fn is_ready(&self) -> bool {
        self.cell.ready.load(Ordering::SeqCst)
    }
}

} // verus!
