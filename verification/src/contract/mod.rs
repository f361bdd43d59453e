//! The operations of the contract.
use vstd::prelude::*;
use vstd::string::StringExecFns;
use crate::response::{Response, ResponseView};
use crate::state::{State, StateView};

pub mod conservation;
pub mod error;
pub mod execute;
pub mod history;
pub mod lifecycle;
pub mod query;

verus! {

/// Sets up a contract of the version `version` that `sender` administers.
pub fn instantiate(sender: String, version: &str) -> (result: (State, Response))
    ensures
        result.0.wf(),
        result.0@ == StateView::initial(sender@),
        result.1@ == ResponseView::empty().add_attribute("version"@, version@).add_attribute(
            "owner"@,
            sender@,
        ),
{
    let state = State::new(sender.clone());
    let response = Response::default().add_attribute(
        "version",
        String::from_str(version),
    ).add_attribute("owner", sender);
    (state, response)
}

} // verus!
