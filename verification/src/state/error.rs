//! Errors of the mission state machine.
use vstd::prelude::*;
use super::mission::Status;

verus! {

/// A status transition that the state machine does not have.
#[derive(Clone, Copy, Debug, PartialEq, Eq, Structural)]
pub enum StateError {
    /// `current` is terminal, or `target` is not.
    InvalidStatusChangeRequest { current: Status, target: Status },
}

} // verus!
