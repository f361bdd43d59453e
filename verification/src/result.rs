//! The result type of the operations.
use vstd::prelude::*;
use crate::error::ContractError;

verus! {

pub type ContractResult<T, E = ContractError> = Result<T, E>;

} // verus!
