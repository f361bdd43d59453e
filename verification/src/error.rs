//! The error that every operation returns.
use vstd::prelude::*;
use vstd::std_specs::convert::FromSpecImpl;
use crate::contract::error::{ExecuteError, ExecuteErrorView};
use crate::state::error::StateError;

verus! {

/// An error of an operation or of the mission state machine.
#[derive(Debug, PartialEq, Eq)]
pub enum ContractError {
    Execute(ExecuteError),
    State(StateError),
}

/// What a [`ContractError`] stands for in contracts.
pub enum ContractErrorView {
    Execute(ExecuteErrorView),
    State(StateError),
}

impl View for ContractError {
    type V = ContractErrorView;

    open spec fn view(&self) -> ContractErrorView {
        match self {
            ContractError::Execute(error) => ContractErrorView::Execute(error@),
            ContractError::State(error) => ContractErrorView::State(*error),
        }
    }
}

impl From<ExecuteError> for ContractError {
    fn from(error: ExecuteError) -> (result: ContractError) {
        ContractError::Execute(error)
    }
}

impl FromSpecImpl<ExecuteError> for ContractError {
    open spec fn obeys_from_spec() -> bool {
        true
    }

    open spec fn from_spec(error: ExecuteError) -> ContractError {
        ContractError::Execute(error)
    }
}

impl From<StateError> for ContractError {
    fn from(error: StateError) -> (result: ContractError) {
        ContractError::State(error)
    }
}

impl FromSpecImpl<StateError> for ContractError {
    open spec fn obeys_from_spec() -> bool {
        true
    }

    open spec fn from_spec(error: StateError) -> ContractError {
        ContractError::State(error)
    }
}

} // verus!
