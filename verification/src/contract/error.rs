//! Errors of the operations.
use vstd::prelude::*;

verus! {

/// Why an operation was refused.
#[derive(Debug, PartialEq, Eq)]
pub enum ExecuteError {
    /// A locked total would exceed the range of its type.
    Overflow,
    /// A locked total would fall below zero.
    Underflow,
    /// `sender` has no mission with identifier `index`.
    NotFoundMission { sender: String, index: u64 },
    /// Nothing of `denom` is locked.
    NotFoundDenom { denom: String },
    /// More was asked for than the `maximum` that is locked.
    LackOfBalance { maximum: u128 },
    /// `addr` is not the administrator.
    Unauthorized { addr: String },
}

/// What an [`ExecuteError`] stands for in contracts.
pub enum ExecuteErrorView {
    Overflow,
    Underflow,
    NotFoundMission { sender: Seq<char>, index: u64 },
    NotFoundDenom { denom: Seq<char> },
    LackOfBalance { maximum: nat },
    Unauthorized { addr: Seq<char> },
}

impl View for ExecuteError {
    type V = ExecuteErrorView;

    open spec fn view(&self) -> ExecuteErrorView {
        match self {
            ExecuteError::Overflow => ExecuteErrorView::Overflow,
            ExecuteError::Underflow => ExecuteErrorView::Underflow,
            ExecuteError::NotFoundMission { sender, index } => ExecuteErrorView::NotFoundMission {
                sender: sender@,
                index: *index,
            },
            ExecuteError::NotFoundDenom { denom } => ExecuteErrorView::NotFoundDenom {
                denom: denom@,
            },
            ExecuteError::LackOfBalance { maximum } => ExecuteErrorView::LackOfBalance {
                maximum: *maximum as nat,
            },
            ExecuteError::Unauthorized { addr } => ExecuteErrorView::Unauthorized { addr: addr@ },
        }
    }
}

} // verus!
