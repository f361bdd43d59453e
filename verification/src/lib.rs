//! Escrow ledger for bounty missions: a creator locks a coin against a mission
//! with a deadline, and the mission later resolves as successful (the coin is
//! refunded) or failed (the coin stays locked).
pub mod block;
pub mod coin;
pub mod contract;
pub mod msg;
pub mod response;
pub mod state;
pub mod text;

mod error;
mod result;

pub use crate::error::{ContractError, ContractErrorView};
pub use crate::result::ContractResult;
