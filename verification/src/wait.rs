//! The wait-set core: fixed-capacity slot arrays, the
//! allocate/fill/wait/clear lifecycle, the blocking wait and the
//! classification of its results.

use crate::context::share_session;
use crate::context::stop_requested;
use crate::context::Context;
use crate::context::ContextCell;
use crate::entity::EntityRef;
use crate::entity::WaitableHandle;
use crate::error::WaitReturnCode;
use crate::error::WaitSetErrorResponse;
use crate::platform::duration_nanos;
use crate::platform::elapsed_since;
use crate::platform::monotonic_now;
use crate::platform::spin_pause;
use std::sync::Arc;
use vstd::prelude::*;

verus! {

/// The category a waitable entity is registered under.  Each category has
/// its own slot array with its own reserved capacity.
#[derive(Clone, Copy, Debug, PartialEq, Eq, Structural)]
pub enum WaitableCategory {
    Subscription,
    GuardCondition,
    Timer,
    Client,
    Service,
    Event,
}

/// The lifecycle state of a wait-set core.
///
/// Operations are only valid from certain states: filling demands
/// `Allocated` or `Filled`, waiting demands `Filled`, and a core that has
/// been consumed by a wait (`Waited`) must be cleared before it is filled
/// again.  Violating the order yields a state error, never undefined
/// behaviour.
#[derive(Clone, Copy, Debug, PartialEq, Eq, Structural)]
pub enum Phase {
    /// Created zero-initialized; no storage has been allocated.
    Empty,
    /// Allocated, with every slot array empty: ready for a fill cycle.
    Allocated,
    /// At least one slot is populated: ready for one wait.
    Filled,
    /// Consumed by a wait; must be cleared before the next fill.
    Waited,
}

/// One category's storage: a fixed capacity and the slots filled so far.
///
/// A populated slot holds the resolved handle of a registered entity; the
/// wait operation vacates, in place, the slots of entities that did not
/// become ready, so after a wait the array pairs every originally
/// registered entity with a verdict.
pub struct SlotArray {
    /// The slots filled in this cycle, in registration order.
    pub slots: Vec<Option<WaitableHandle>>,
    /// The capacity reserved at allocation time; never resized.
    pub capacity: usize,
}

impl SlotArray {
    /// Capacity is respected by every fill.
    pub open spec fn wf(self) -> bool {
        self.slots@.len() <= self.capacity
    }

    /// What vacating leaves behind: the same capacity and cycle length,
    /// every slot vacant.
    pub open spec fn vacated_of(self, pre: SlotArray) -> bool {
        &&& self.capacity == pre.capacity
        &&& self.slots@.len() == pre.slots@.len()
        &&& forall|i: int| 0 <= i < self.slots@.len() ==> self.slots@[i] is None
    }

    fn with_capacity(capacity: usize) -> (r: SlotArray)
        ensures
            r.capacity == capacity,
            r.slots@.len() == 0,
    {
        SlotArray { slots: Vec::new(), capacity }
    }

    /// Drops every slot of the cycle, ready for a fresh fill.
    fn reset(&mut self)
        ensures
            final(self).capacity == old(self).capacity,
            final(self).slots@.len() == 0,
    {
        self.slots = Vec::new();
    }

    /// Appends a resolved handle to the next free slot, if the reserved
    /// capacity allows one more.
    fn try_insert(&mut self, handle: WaitableHandle) -> (r: Result<(), WaitSetErrorResponse>)
        ensures
            final(self).capacity == old(self).capacity,
            old(self).slots@.len() < old(self).capacity ==> r is Ok && final(self).slots@
                == old(self).slots@.push(Some(handle)),
            old(self).slots@.len() >= old(self).capacity ==> r == Err::<
                (),
                WaitSetErrorResponse,
            >(WaitSetErrorResponse::ReturnCode(WaitReturnCode::CapacityExceeded)) && *final(self)
                == *old(self),
    {
        if self.slots.len() < self.capacity {
            self.slots.push(Some(handle));
            Ok(())
        } else {
            Err(WaitSetErrorResponse::ReturnCode(WaitReturnCode::CapacityExceeded))
        }
    }

    /// Polls every populated slot for readiness.  The flags come from
    /// other threads, so only this much holds of the outcome: a vacant
    /// slot never reads as ready.
    fn poll_ready(&self) -> (r: Vec<bool>)
        ensures
            r@.len() == self.slots@.len(),
            forall|i: int| 0 <= i < r@.len() ==> (r@[i] ==> self.slots@[i] is Some),
    {
        let mut r: Vec<bool> = Vec::new();
        let n = self.slots.len();
        for i in 0..n
            invariant
                n == self.slots@.len(),
                r@.len() == i,
                forall|j: int| 0 <= j < i ==> (r@[j] ==> self.slots@[j] is Some),
        {
            let ready = match &self.slots[i] {
                Some(h) => h.is_ready(),
                None => false,
            };
            r.push(ready);
        }
        r
    }

    /// Keeps the slots marked in `keep` and vacates the rest, in place.
    fn retain_ready(&mut self, keep: &Vec<bool>)
        requires
            keep@.len() == old(self).slots@.len(),
        ensures
            final(self).capacity == old(self).capacity,
            final(self).slots@.len() == old(self).slots@.len(),
            forall|i: int|
                0 <= i < final(self).slots@.len() ==> final(self).slots@[i] == (if keep@[i] {
                    old(self).slots@[i]
                } else {
                    Option::<WaitableHandle>::None
                }),
    {
        let n = self.slots.len();
        for i in 0..n
            invariant
                n == self.slots@.len(),
                keep@.len() == n,
                self.capacity == old(self).capacity,
                self.slots@.len() == old(self).slots@.len(),
                forall|j: int|
                    0 <= j < i ==> self.slots@[j] == (if keep@[j] {
                        old(self).slots@[j]
                    } else {
                        Option::<WaitableHandle>::None
                    }),
                forall|j: int| i <= j < n ==> self.slots@[j] == old(self).slots@[j],
        {
            if !keep[i] {
                self.slots[i] = None;
            }
        }
    }

    /// Vacates every slot in place, keeping the cycle's length.
    fn vacate_all(&mut self)
        ensures
            final(self).capacity == old(self).capacity,
            final(self).slots@.len() == old(self).slots@.len(),
            forall|i: int|
                0 <= i < final(self).slots@.len() ==> final(self).slots@[i]
                    == Option::<WaitableHandle>::None,
    {
        let n = self.slots.len();
        for i in 0..n
            invariant
                n == self.slots@.len(),
                self.capacity == old(self).capacity,
                self.slots@.len() == old(self).slots@.len(),
                forall|j: int|
                    0 <= j < i ==> self.slots@[j] == Option::<WaitableHandle>::None,
        {
            self.slots[i] = None;
        }
    }
}

/// Whether any flag in the vector is set.
fn any_true(v: &Vec<bool>) -> (r: bool)
    ensures
        r == exists|i: int| 0 <= i < v@.len() && v@[i],
{
    let n = v.len();
    for i in 0..n
        invariant
            n == v@.len(),
            forall|j: int| 0 <= j < i ==> !v@[j],
    {
        if v[i] {
            proof {
                assert(0 <= (i as int) && (i as int) < v@.len() && v@[i as int]);
            }
            return true;
        }
    }
    false
}

/// The wait-set core: one fixed-capacity slot array per waitable
/// category, a lifecycle state tag, and the session the core was
/// allocated under.
///
/// Exactly one thread may operate on a given core at a time, and two
/// cores waited on concurrently must not share a registered entity;
/// both are caller obligations, not guarded internally.
pub struct WaitSet {
    pub subscriptions: SlotArray,
    pub guard_conditions: SlotArray,
    pub timers: SlotArray,
    pub clients: SlotArray,
    pub services: SlotArray,
    pub events: SlotArray,
    /// Where in the allocate/fill/wait/clear lifecycle the core stands.
    pub phase: Phase,
    /// The session cell of the context the core was allocated under;
    /// `None` exactly while the core is zero-initialized.
    pub session: Option<Arc<ContextCell>>,
}

impl WaitSet {
    /// The slot array of one category.
    pub open spec fn arr_of(self, c: WaitableCategory) -> SlotArray {
        match c {
            WaitableCategory::Subscription => self.subscriptions,
            WaitableCategory::GuardCondition => self.guard_conditions,
            WaitableCategory::Timer => self.timers,
            WaitableCategory::Client => self.clients,
            WaitableCategory::Service => self.services,
            WaitableCategory::Event => self.events,
        }
    }

    /// The capacity reserved for one category.
    pub open spec fn cap_of(self, c: WaitableCategory) -> nat {
        self.arr_of(c).capacity as nat
    }

    /// The slots of one category, in registration order.
    pub open spec fn slots_of(self, c: WaitableCategory) -> Seq<Option<WaitableHandle>> {
        self.arr_of(c).slots@
    }

    /// Whether a registration is valid from the current state.
    pub open spec fn fill_open(self) -> bool {
        self.phase == Phase::Allocated || self.phase == Phase::Filled
    }

    /// Whether some slot of some category is populated.
    pub open spec fn any_populated(self) -> bool {
        exists|c: WaitableCategory, i: int|
            0 <= i < self.slots_of(c).len() && self.slots_of(c)[i] is Some
    }

    /// Whether every slot of every category is vacant.
    pub open spec fn all_vacant(self) -> bool {
        forall|c: WaitableCategory, i: int|
            0 <= i < self.slots_of(c).len() ==> self.slots_of(c)[i] is None
    }

    /// The classification of one category: one verdict per originally
    /// registered entity, read purely off the slot array.
    pub open spec fn ready_flags(self, c: WaitableCategory) -> Seq<bool> {
        Seq::new(self.slots_of(c).len(), |i: int| self.slots_of(c)[i] is Some)
    }

    /// Well-formedness: capacities are respected, the session is held
    /// exactly from allocation on, a core open for a fresh fill has only
    /// empty slot arrays, and a core ready to wait on has something to
    /// wait for.
    pub open spec fn wf(self) -> bool {
        &&& forall|c: WaitableCategory| #[trigger] self.slots_of(c).len() <= self.cap_of(c)
        &&& (self.session is Some <==> self.phase != Phase::Empty)
        &&& (self.phase == Phase::Empty || self.phase == Phase::Allocated ==> forall|
            c: WaitableCategory,
        |
            #[trigger] self.slots_of(c).len() == 0)
        &&& (self.phase == Phase::Filled ==> self.any_populated())
    }

    /// What `clear` leaves behind: an allocated core of the same session
    /// and the same capacities, every slot array empty.
    pub open spec fn is_cleared_of(self, pre: WaitSet) -> bool {
        &&& self.phase == Phase::Allocated
        &&& self.session == pre.session
        &&& forall|c: WaitableCategory| #[trigger] self.cap_of(c) == pre.cap_of(c)
        &&& forall|c: WaitableCategory| #[trigger] self.slots_of(c).len() == 0
    }

    /// A core in the zero-initialized state: nothing allocated, so every
    /// fill, wait and clear on it reports a state error.
    pub fn zero_initialized() -> (r: WaitSet)
        ensures
            r.wf(),
            r.phase == Phase::Empty,
            r.session is None,
            forall|c: WaitableCategory| #[trigger] r.cap_of(c) == 0,
            forall|c: WaitableCategory| #[trigger] r.slots_of(c).len() == 0,
    {
        WaitSet {
            subscriptions: SlotArray::with_capacity(0),
            guard_conditions: SlotArray::with_capacity(0),
            timers: SlotArray::with_capacity(0),
            clients: SlotArray::with_capacity(0),
            services: SlotArray::with_capacity(0),
            events: SlotArray::with_capacity(0),
            phase: Phase::Empty,
            session: None,
        }
    }

    /// Allocates a core with exactly the requested capacity per
    /// category, under the given context's session.  Fails with
    /// `AllocationFailed` if and only if the context handle has been
    /// shut down.
    pub fn new(
        number_of_subscriptions: usize,
        number_of_guard_conditions: usize,
        number_of_timers: usize,
        number_of_clients: usize,
        number_of_services: usize,
        number_of_events: usize,
        context: &Context,
    ) -> (r: Result<WaitSet, WaitSetErrorResponse>)
        ensures
            context.valid <==> r is Ok,
            r matches Err(e) ==> e == WaitSetErrorResponse::ReturnCode(
                WaitReturnCode::AllocationFailed,
            ),
            r matches Ok(ws) ==> {
                &&& ws.wf()
                &&& ws.phase == Phase::Allocated
                &&& ws.session == Some(context.cell)
                &&& ws.cap_of(WaitableCategory::Subscription) == number_of_subscriptions
                &&& ws.cap_of(WaitableCategory::GuardCondition) == number_of_guard_conditions
                &&& ws.cap_of(WaitableCategory::Timer) == number_of_timers
                &&& ws.cap_of(WaitableCategory::Client) == number_of_clients
                &&& ws.cap_of(WaitableCategory::Service) == number_of_services
                &&& ws.cap_of(WaitableCategory::Event) == number_of_events
                &&& forall|c: WaitableCategory| #[trigger] ws.slots_of(c).len() == 0
            },
    {
        if !context.ok() {
            return Err(WaitSetErrorResponse::ReturnCode(WaitReturnCode::AllocationFailed));
        }
        Ok(
            WaitSet {
                subscriptions: SlotArray::with_capacity(number_of_subscriptions),
                guard_conditions: SlotArray::with_capacity(number_of_guard_conditions),
                timers: SlotArray::with_capacity(number_of_timers),
                clients: SlotArray::with_capacity(number_of_clients),
                services: SlotArray::with_capacity(number_of_services),
                events: SlotArray::with_capacity(number_of_events),
                phase: Phase::Allocated,
                session: Some(share_session(&context.cell)),
            },
        )
    }

    /// Resets every slot array to empty, forcing a fresh fill cycle.
    /// Fails with `NotInitialized` on a core that was never allocated;
    /// on an allocated core it always succeeds, whatever the phase.
    pub fn clear(&mut self) -> (r: Result<(), WaitSetErrorResponse>)
        requires
            old(self).wf(),
        ensures
            final(self).wf(),
            old(self).phase == Phase::Empty ==> r == Err::<(), WaitSetErrorResponse>(
                WaitSetErrorResponse::ReturnCode(WaitReturnCode::NotInitialized),
            ) && *final(self) == *old(self),
            old(self).phase != Phase::Empty ==> r is Ok && final(self).is_cleared_of(*old(self)),
    {
        if let Phase::Empty = self.phase {
            return Err(WaitSetErrorResponse::ReturnCode(WaitReturnCode::NotInitialized));
        }
        self.subscriptions.reset();
        self.guard_conditions.reset();
        self.timers.reset();
        self.clients.reset();
        self.services.reset();
        self.events.reset();
        self.phase = Phase::Allocated;
        Ok(())
    }

    /// Stores an already resolved registration: the deterministic half of
    /// `add_entity`, taking the outcome of the weak-relation resolution
    /// as an argument.
    ///
    /// A `None` resolution reports `DroppedEntity` and alters no slot
    /// array.  A resolved handle goes to the next free slot of its
    /// category, or is refused with `CapacityExceeded` when the category
    /// is full.  Both demand a core open for filling; otherwise
    /// `NotInitialized` is reported and nothing changes.
    pub fn add_resolved(
        &mut self,
        category: WaitableCategory,
        resolved: Option<WaitableHandle>,
    ) -> (r: Result<(), WaitSetErrorResponse>)
        requires
            old(self).wf(),
        ensures
            final(self).wf(),
            final(self).session == old(self).session,
            forall|c: WaitableCategory| #[trigger] final(self).cap_of(c) == old(self).cap_of(c),
            !old(self).fill_open() ==> r == Err::<(), WaitSetErrorResponse>(
                WaitSetErrorResponse::ReturnCode(WaitReturnCode::NotInitialized),
            ) && *final(self) == *old(self),
            old(self).fill_open() && resolved is None ==> r == Err::<(), WaitSetErrorResponse>(
                WaitSetErrorResponse::DroppedEntity,
            ) && *final(self) == *old(self),
            old(self).fill_open() ==> (resolved matches Some(h) ==> {
                if old(self).slots_of(category).len() < old(self).cap_of(category) {
                    &&& r is Ok
                    &&& final(self).phase == Phase::Filled
                    &&& final(self).slots_of(category) == old(self).slots_of(category).push(
                        Some(h),
                    )
                    &&& forall|c: WaitableCategory|
                        c != category ==> #[trigger] final(self).slots_of(c) == old(self).slots_of(c)
                } else {
                    r == Err::<(), WaitSetErrorResponse>(
                        WaitSetErrorResponse::ReturnCode(WaitReturnCode::CapacityExceeded),
                    )
                        && *final(self) == *old(self)
                }
            }),
    {
        match self.phase {
            Phase::Empty | Phase::Waited => {
                return Err(WaitSetErrorResponse::ReturnCode(WaitReturnCode::NotInitialized));
            },
            Phase::Allocated | Phase::Filled => {},
        }
        let handle = match resolved {
            Some(h) => h,
            None => {
                return Err(WaitSetErrorResponse::DroppedEntity);
            },
        };
        let inserted = match category {
            WaitableCategory::Subscription => self.subscriptions.try_insert(handle),
            WaitableCategory::GuardCondition => self.guard_conditions.try_insert(handle),
            WaitableCategory::Timer => self.timers.try_insert(handle),
            WaitableCategory::Client => self.clients.try_insert(handle),
            WaitableCategory::Service => self.services.try_insert(handle),
            WaitableCategory::Event => self.events.try_insert(handle),
        };
        match inserted {
            Ok(()) => {
                self.phase = Phase::Filled;
                proof {
                    let n = self.slots_of(category).len() - 1;
                    assert(self.slots_of(category)[n] is Some);
                    assert forall|c: WaitableCategory| #[trigger] self.slots_of(c).len()
                        <= self.cap_of(c) by {
                        assert(old(self).slots_of(c).len() <= old(self).cap_of(c));
                        if c != category {
                            assert(self.slots_of(c) == old(self).slots_of(c));
                        }
                    }
                }
                Ok(())
            },
            Err(e) => Err(e),
        }
    }

    /// Registers an entity under a category: resolves the weak relation,
    /// then stores the outcome as `add_resolved` does.  An entity whose
    /// owner has already released it yields `DroppedEntity` and alters no
    /// slot array.
    ///
    /// Registering the same entity twice within one fill cycle is
    /// permitted: each registration resolves anew and occupies its own
    /// slot, and each slot is classified on its own.
    pub fn add_entity(&mut self, category: WaitableCategory, entity: &EntityRef) -> (r: Result<
        (),
        WaitSetErrorResponse,
    >)
        requires
            old(self).wf(),
        ensures
            final(self).wf(),
            final(self).session == old(self).session,
            forall|c: WaitableCategory| #[trigger] final(self).cap_of(c) == old(self).cap_of(c),
            !old(self).fill_open() ==> r == Err::<(), WaitSetErrorResponse>(
                WaitSetErrorResponse::ReturnCode(WaitReturnCode::NotInitialized),
            ) && *final(self) == *old(self),
            old(self).fill_open() ==> match r {
                Ok(()) => {
                    &&& old(self).slots_of(category).len() < old(self).cap_of(category)
                    &&& final(self).phase == Phase::Filled
                    &&& final(self).slots_of(category) == old(self).slots_of(category).push(
                        Some((WaitableHandle { cell: entity.cell })),
                    )
                    &&& forall|c: WaitableCategory|
                        c != category ==> #[trigger] final(self).slots_of(c) == old(self).slots_of(c)
                },
                Err(e) => {
                    &&& *final(self) == *old(self)
                    &&& (e == WaitSetErrorResponse::DroppedEntity || e
                        == WaitSetErrorResponse::ReturnCode(WaitReturnCode::CapacityExceeded))
                    &&& (e == WaitSetErrorResponse::ReturnCode(WaitReturnCode::CapacityExceeded)
                        ==> old(self).slots_of(category).len() >= old(self).cap_of(category))
                },
            },
    {
        let resolved = entity.resolve();
        self.add_resolved(category, resolved)
    }

    /// Registers a subscription entity: `add_entity` under the
    /// subscription category.
    pub fn add_subscription(&mut self, subscription: &EntityRef) -> (r: Result<
        (),
        WaitSetErrorResponse,
    >)
        requires
            old(self).wf(),
        ensures
            final(self).wf(),
            final(self).session == old(self).session,
            forall|c: WaitableCategory| #[trigger] final(self).cap_of(c) == old(self).cap_of(c),
            !old(self).fill_open() ==> r == Err::<(), WaitSetErrorResponse>(
                WaitSetErrorResponse::ReturnCode(WaitReturnCode::NotInitialized),
            ) && *final(self) == *old(self),
            old(self).fill_open() ==> match r {
                Ok(()) => {
                    &&& final(self).phase == Phase::Filled
                    &&& final(self).slots_of(WaitableCategory::Subscription) == old(self).slots_of(WaitableCategory::Subscription).push(
                        Some((WaitableHandle { cell: subscription.cell })),
                    )
                    &&& forall|c: WaitableCategory|
                        c != WaitableCategory::Subscription ==> #[trigger] final(self).slots_of(c)
                            == old(self).slots_of(c)
                },
                Err(e) => {
                    &&& *final(self) == *old(self)
                    &&& (e == WaitSetErrorResponse::DroppedEntity || e
                        == WaitSetErrorResponse::ReturnCode(WaitReturnCode::CapacityExceeded))
                    &&& (e == WaitSetErrorResponse::ReturnCode(WaitReturnCode::CapacityExceeded)
                        ==> old(self).slots_of(WaitableCategory::Subscription).len() >= old(
                        self,
                    ).cap_of(WaitableCategory::Subscription))
                },
            },
    {
        self.add_entity(WaitableCategory::Subscription, subscription)
    }

    /// Vacates every slot of every category in place.
    fn vacate_everything(&mut self)
        ensures
            final(self).phase == old(self).phase,
            final(self).session == old(self).session,
            final(self).subscriptions.vacated_of(old(self).subscriptions),
            final(self).guard_conditions.vacated_of(old(self).guard_conditions),
            final(self).timers.vacated_of(old(self).timers),
            final(self).clients.vacated_of(old(self).clients),
            final(self).services.vacated_of(old(self).services),
            final(self).events.vacated_of(old(self).events),
    {
        self.subscriptions.vacate_all();
        self.guard_conditions.vacate_all();
        self.timers.vacate_all();
        self.clients.vacate_all();
        self.services.vacate_all();
        self.events.vacate_all();
    }

    /// Blocks until at least one populated slot becomes ready, the
    /// timeout elapses, or the session is shut down.
    ///
    /// The timeout is a signed count of nanoseconds: negative blocks
    /// indefinitely, zero polls once and returns, positive blocks at most
    /// that long.  `Timeout` is therefore only ever reported for a
    /// non-negative timeout.
    ///
    /// The core must be allocated and filled: a never-allocated or
    /// already-waited core yields `NotInitialized`, an allocated core
    /// with an empty fill yields `Empty` without blocking.  On return
    /// from a filled core the slots of entities that did not become
    /// ready are vacated in place; on success at least one slot is still
    /// populated, and after a timeout or an interruption every slot is
    /// vacant.  The core must then be cleared before the next fill.
    ///
    /// Every loop in this library terminates, so even an indefinite wait
    /// carries a poll budget; it is astronomically large (centuries of
    /// polling), and a wait that somehow exhausts it gives up exactly as
    /// an interruption does.
    pub fn wait(&mut self, timeout: i64) -> (r: Result<(), WaitReturnCode>)
        requires
            old(self).wf(),
        ensures
            final(self).wf(),
            final(self).session == old(self).session,
            forall|c: WaitableCategory| #[trigger] final(self).cap_of(c) == old(self).cap_of(c),
            old(self).phase == Phase::Empty || old(self).phase == Phase::Waited ==> r
                == Err::<(), WaitReturnCode>(WaitReturnCode::NotInitialized) && *final(self)
                == *old(self),
            old(self).phase == Phase::Allocated ==> r == Err::<(), WaitReturnCode>(
                WaitReturnCode::Empty,
            ) && *final(self) == *old(self),
            old(self).phase == Phase::Filled ==> {
                &&& final(self).phase == Phase::Waited
                &&& (r is Ok || r == Err::<(), WaitReturnCode>(WaitReturnCode::Timeout) || r
                    == Err::<(), WaitReturnCode>(WaitReturnCode::Interrupted))
                &&& forall|c: WaitableCategory| #[trigger] final(self).slots_of(c).len() == old(self).slots_of(c).len()
                &&& forall|c: WaitableCategory, i: int|
                    0 <= i < final(self).slots_of(c).len() && #[trigger] final(self).slots_of(
                        c,
                    )[i] is Some ==> final(self).slots_of(c)[i] == old(self).slots_of(c)[i]
                &&& (r is Ok ==> final(self).any_populated())
                &&& (r == Err::<(), WaitReturnCode>(WaitReturnCode::Timeout) ==> timeout >= 0
                    && final(self).all_vacant())
                &&& (r == Err::<(), WaitReturnCode>(WaitReturnCode::Interrupted) ==> final(self).all_vacant())
            },
    {
        match self.phase {
            Phase::Empty | Phase::Waited => {
                return Err(WaitReturnCode::NotInitialized);
            },
            Phase::Allocated => {
                return Err(WaitReturnCode::Empty);
            },
            Phase::Filled => {},
        }
        let session = match &self.session {
            Some(s) => share_session(s),
            None => {
                return Err(WaitReturnCode::NotInitialized);
            },
        };
        let start = monotonic_now();
        let mut budget: u64 = u64::MAX;
        loop
            invariant
                self.wf(),
                *self == *old(self),
                self.phase == Phase::Filled,
            decreases budget,
        {
            if stop_requested(&session) || budget == 0 {
                self.vacate_everything();
                self.phase = Phase::Waited;
                proof {
                    lemma_wf_after_wait(*old(self), *self);
                }
                return Err(WaitReturnCode::Interrupted);
            }
            let k_subscriptions = self.subscriptions.poll_ready();
            let k_guard_conditions = self.guard_conditions.poll_ready();
            let k_timers = self.timers.poll_ready();
            let k_clients = self.clients.poll_ready();
            let k_services = self.services.poll_ready();
            let k_events = self.events.poll_ready();
            let a_subscriptions = any_true(&k_subscriptions);
            let a_guard_conditions = any_true(&k_guard_conditions);
            let a_timers = any_true(&k_timers);
            let a_clients = any_true(&k_clients);
            let a_services = any_true(&k_services);
            let a_events = any_true(&k_events);
            if a_subscriptions || a_guard_conditions || a_timers || a_clients || a_services
                || a_events {
                self.subscriptions.retain_ready(&k_subscriptions);
                self.guard_conditions.retain_ready(&k_guard_conditions);
                self.timers.retain_ready(&k_timers);
                self.clients.retain_ready(&k_clients);
                self.services.retain_ready(&k_services);
                self.events.retain_ready(&k_events);
                self.phase = Phase::Waited;
                proof {
                    lemma_wf_after_wait(*old(self), *self);
                    if a_subscriptions {
                        let i = choose|i: int|
                            0 <= i < k_subscriptions@.len() && k_subscriptions@[i];
                        assert(self.slots_of(WaitableCategory::Subscription)[i] is Some);
                    } else if a_guard_conditions {
                        let i = choose|i: int|
                            0 <= i < k_guard_conditions@.len() && k_guard_conditions@[i];
                        assert(self.slots_of(WaitableCategory::GuardCondition)[i] is Some);
                    } else if a_timers {
                        let i = choose|i: int| 0 <= i < k_timers@.len() && k_timers@[i];
                        assert(self.slots_of(WaitableCategory::Timer)[i] is Some);
                    } else if a_clients {
                        let i = choose|i: int| 0 <= i < k_clients@.len() && k_clients@[i];
                        assert(self.slots_of(WaitableCategory::Client)[i] is Some);
                    } else if a_services {
                        let i = choose|i: int| 0 <= i < k_services@.len() && k_services@[i];
                        assert(self.slots_of(WaitableCategory::Service)[i] is Some);
                    } else {
                        let i = choose|i: int| 0 <= i < k_events@.len() && k_events@[i];
                        assert(self.slots_of(WaitableCategory::Event)[i] is Some);
                    }
                }
                return Ok(());
            }
            if timeout == 0 {
                self.vacate_everything();
                self.phase = Phase::Waited;
                proof {
                    lemma_wf_after_wait(*old(self), *self);
                }
                return Err(WaitReturnCode::Timeout);
            }
            if timeout > 0 {
                let so_far = elapsed_since(&start);
                let waited = duration_nanos(&so_far);
                if waited >= timeout as u128 {
                    self.vacate_everything();
                    self.phase = Phase::Waited;
                    proof {
                        lemma_wf_after_wait(*old(self), *self);
                    }
                    return Err(WaitReturnCode::Timeout);
                }
            }
            budget = budget - 1;
            spin_pause();
        }
    }

    /// Result classification for one category: one verdict per
    /// originally registered entity of the cycle, in registration order,
    /// derived purely from the slot array's contents and recomputed on
    /// every call.
    ///
    /// After a wait, a populated slot reads `true`: its entity had a
    /// readiness signal (for a subscription, that a take may succeed, not
    /// that it must yield data).  A vacated slot reads `false`.
    pub fn readiness(&self, category: WaitableCategory) -> (r: Vec<bool>)
        ensures
            r@ == self.ready_flags(category),
    {
        let arr = match category {
            WaitableCategory::Subscription => &self.subscriptions,
            WaitableCategory::GuardCondition => &self.guard_conditions,
            WaitableCategory::Timer => &self.timers,
            WaitableCategory::Client => &self.clients,
            WaitableCategory::Service => &self.services,
            WaitableCategory::Event => &self.events,
        };
        let mut r: Vec<bool> = Vec::new();
        let n = arr.slots.len();
        for i in 0..n
            invariant
                n == arr.slots@.len(),
                arr == self.arr_of(category),
                r@.len() == i,
                forall|j: int| 0 <= j < i ==> r@[j] == (arr.slots@[j] is Some),
        {
            let populated = match &arr.slots[i] {
                Some(_) => true,
                None => false,
            };
            r.push(populated);
        }
        proof {
            assert(r@ =~= self.ready_flags(category));
        }
        r
    }
}

/// A wait exit keeps the core well-formed: with every capacity and cycle
/// length preserved and the phase moved to `Waited`, well-formedness
/// carries over from the filled core the wait started from.
proof fn lemma_wf_after_wait(pre: WaitSet, post: WaitSet)
    requires
        pre.wf(),
        pre.phase == Phase::Filled,
        post.phase == Phase::Waited,
        post.session == pre.session,
        post.subscriptions.capacity == pre.subscriptions.capacity,
        post.subscriptions.slots@.len() == pre.subscriptions.slots@.len(),
        post.guard_conditions.capacity == pre.guard_conditions.capacity,
        post.guard_conditions.slots@.len() == pre.guard_conditions.slots@.len(),
        post.timers.capacity == pre.timers.capacity,
        post.timers.slots@.len() == pre.timers.slots@.len(),
        post.clients.capacity == pre.clients.capacity,
        post.clients.slots@.len() == pre.clients.slots@.len(),
        post.services.capacity == pre.services.capacity,
        post.services.slots@.len() == pre.services.slots@.len(),
        post.events.capacity == pre.events.capacity,
        post.events.slots@.len() == pre.events.slots@.len(),
    ensures
        post.wf(),
{
    assert forall|c: WaitableCategory| #[trigger] post.slots_of(c).len() <= post.cap_of(c) by {
        assert(pre.slots_of(c).len() <= pre.cap_of(c));
        match c {
            WaitableCategory::Subscription => {},
            WaitableCategory::GuardCondition => {},
            WaitableCategory::Timer => {},
            WaitableCategory::Client => {},
            WaitableCategory::Service => {},
            WaitableCategory::Event => {},
        }
    }
}

/// Law: clearing is idempotent in its postcondition.  Two consecutive
/// successful clears leave the core in the same state: same phase, same
/// session, same capacities, and the same (empty) slot arrays.
pub proof fn lemma_clear_idempotent(s0: WaitSet, s1: WaitSet, s2: WaitSet)
    requires
        s1.is_cleared_of(s0),
        s2.is_cleared_of(s1),
    ensures
        s2.phase == s1.phase,
        s2.session == s1.session,
        forall|c: WaitableCategory| #[trigger] s2.cap_of(c) == s1.cap_of(c),
        forall|c: WaitableCategory| #[trigger] s2.slots_of(c) =~= s1.slots_of(c),
{
}

/// Law: after a wait cycle that vacated every slot (a timeout or an
/// interruption), result classification reads every originally
/// registered entity of every category as not ready; no spurious ready
/// entry can appear.
pub proof fn lemma_vacant_reads_not_ready(ws: WaitSet, category: WaitableCategory)
    requires
        ws.all_vacant(),
    ensures
        forall|i: int|
            0 <= i < ws.ready_flags(category).len() ==> !(#[trigger] ws.ready_flags(category)[i]),
{
    assert forall|i: int|
        0 <= i < ws.ready_flags(category).len() implies !(#[trigger] ws.ready_flags(
        category,
    )[i]) by {
        assert(ws.slots_of(category)[i] is None);
    }
}

} // verus!
