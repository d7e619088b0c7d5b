//! The error taxonomy of the wait-set and of the graph layer.

use vstd::prelude::*;

verus! {

/// Outcome codes of the wait-set lifecycle operations.
///
/// `Timeout` and `Interrupted` are routine outcomes of a wait cycle, not
/// faults; callers are expected to loop on them.  `FinalizationFailed` is
/// reserved for a failure while releasing the underlying storage, which an
/// owning scope must treat as unrecoverable.
#[derive(Clone, Copy, Debug, PartialEq, Eq, Structural)]
pub enum WaitReturnCode {
    /// Reserving the per-category slot storage failed, for instance because
    /// the session the wait-set was allocated under has been shut down.
    AllocationFailed,
    /// The operation needs a core that was allocated (and, for a fill or a
    /// wait, one whose previous cycle was cleared), and got none.
    NotInitialized,
    /// Resetting the slot arrays failed in the resource layer.
    ClearFailed,
    /// A fill would exceed the capacity reserved for its category.
    CapacityExceeded,
    /// A wait was asked of a core with no populated slot in any category.
    Empty,
    /// The timeout elapsed before any registered entity became ready.
    Timeout,
    /// The wait was unblocked early by a session shutdown.
    Interrupted,
    /// Releasing the underlying storage failed at teardown; unrecoverable.
    FinalizationFailed,
}

/// The description each code's `message` returns.
pub open spec fn code_message(code: WaitReturnCode) -> Seq<char> {
    match code {
        WaitReturnCode::AllocationFailed => "allocation failed"@,
        WaitReturnCode::NotInitialized => "wait set not initialized"@,
        WaitReturnCode::ClearFailed => "clear failed"@,
        WaitReturnCode::CapacityExceeded => "capacity exceeded"@,
        WaitReturnCode::Empty => "wait set is empty"@,
        WaitReturnCode::Timeout => "timeout"@,
        WaitReturnCode::Interrupted => "interrupted"@,
        WaitReturnCode::FinalizationFailed => "finalization failed"@,
    }
}

impl WaitReturnCode {
    /// A short description of the code, for operator-facing reports.
    pub fn message(&self) -> (s: String)
        ensures
            s@ == code_message(*self),
    {
        match *self {
            WaitReturnCode::AllocationFailed => String::from_str("allocation failed"),
            WaitReturnCode::NotInitialized => String::from_str("wait set not initialized"),
            WaitReturnCode::ClearFailed => String::from_str("clear failed"),
            WaitReturnCode::CapacityExceeded => String::from_str("capacity exceeded"),
            WaitReturnCode::Empty => String::from_str("wait set is empty"),
            WaitReturnCode::Timeout => String::from_str("timeout"),
            WaitReturnCode::Interrupted => String::from_str("interrupted"),
            WaitReturnCode::FinalizationFailed => String::from_str("finalization failed"),
        }
    }
}

/// What a wait-set operation reports when it cannot complete.
///
/// `DroppedEntity` is expected during normal operation: an owner may
/// legitimately release an entity between cycles, and a registration that
/// finds the entity gone must be distinguishable from a genuine fault.
#[derive(Clone, Copy, Debug, PartialEq, Eq, Structural)]
pub enum WaitSetErrorResponse {
    /// The weak relation handed to a registration could not be resolved:
    /// the owner has already released the entity.
    DroppedEntity,
    /// The operation failed with the wrapped code.
    ReturnCode(WaitReturnCode),
}

impl WaitSetErrorResponse {
    /// A short description of the response, for operator-facing reports.
    pub fn message(&self) -> (s: String)
        ensures
            s@ == match *self {
                WaitSetErrorResponse::DroppedEntity => "attempted to access a dropped entity"@,
                WaitSetErrorResponse::ReturnCode(c) => code_message(c),
            },
    {
        match *self {
            WaitSetErrorResponse::DroppedEntity => {
                String::from_str("attempted to access a dropped entity")
            },
            WaitSetErrorResponse::ReturnCode(c) => c.message(),
        }
    }
}

impl From<WaitReturnCode> for WaitSetErrorResponse {
    fn from(code: WaitReturnCode) -> (r: Self) {
        WaitSetErrorResponse::ReturnCode(code)
    }
}

impl vstd::std_specs::convert::FromSpecImpl<WaitReturnCode> for WaitSetErrorResponse {
    open spec fn obeys_from_spec() -> bool {
        true
    }

    open spec fn from_spec(code: WaitReturnCode) -> Self {
        WaitSetErrorResponse::ReturnCode(code)
    }
}

/// What the node and graph layer reports when an operation cannot complete.
#[derive(Clone, Copy, Debug, PartialEq, Eq, Structural)]
pub enum RclrsError {
    /// The session handle given to the operation has been shut down.
    ContextInvalid,
    /// A graph query did not find the expected names and types.
    GraphMismatch,
}

} // verus!
