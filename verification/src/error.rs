//! The ways an event can fail, kept apart: a payload that does not decode,
//! a store that does not answer, and a transition that the rules refuse.

use crate::payload::DecodeError;
use vstd::prelude::*;

verus! {

/// A fault of the store: it could not run a statement.
#[derive(Debug, Clone, PartialEq, Eq)]
pub struct StoreError {
    /// What the store said of the fault.
    pub message: String,
}

/// What a store answers to a statement: the number of rows that matched,
/// or a fault.
pub type Reply = Result<usize, StoreError>;

/// A transition that the rules refuse in the state the device is in.
#[derive(Debug, Clone, Copy, PartialEq, Eq, Structural)]
pub enum Rejection {
    /// A registration for a device that has a registry row.
    AlreadyRegistered,
    /// A binding or a reading for a device that has no registry row.
    NotRegistered,
    /// A reading for a device that has no binding row.
    NotBound,
}

/// Why an event was not applied.
#[derive(Debug, Clone, PartialEq, Eq)]
pub enum LifecycleError {
    /// The payload did not decode.
    Decode(DecodeError),
    /// The store failed while the transition was under way.
    Store(StoreError),
    /// The device was not in a state that allows the transition.
    PreconditionRejected(Rejection),
}

/// How an event ended.
pub type Outcome = Result<(), LifecycleError>;

impl LifecycleError {
    /// Whether the same event may succeed when it is sent again with the
    /// store as it is: only a fault of the store passes.
    pub open spec fn retryable(self) -> bool {
        self is Store
    }

    /// Whether the same event may succeed when it is sent again with the
    /// store as it is.
    pub fn is_retryable(&self) -> (retry: bool)
        ensures
            retry == self.retryable(),
    {
        match self {
            LifecycleError::Store(_) => true,
            _ => false,
        }
    }
}

/// The status an event handler reports: 0 where the event was applied, -1
/// where it was not, whatever the reason.
pub open spec fn status_of(outcome: Outcome) -> i32 {
    if outcome is Ok {
        0i32
    } else {
        -1i32
    }
}

/// The status an event handler reports for an outcome.
pub fn exit_code(outcome: &Outcome) -> (code: i32)
    ensures
        code == status_of(*outcome),
{
    match outcome {
        Ok(_) => 0,
        Err(_) => -1,
    }
}

} // verus!
