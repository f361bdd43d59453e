//! The configuration that is set once, when the contract is instantiated.
use vstd::prelude::*;

verus! {

/// Who administers the contract.
#[derive(Debug, PartialEq, Eq)]
pub struct Config {
    pub admin: String,
}

impl Config {
    /// The configuration of a contract that `admin` administers.
    pub fn new(admin: String) -> (config: Config)
        ensures
            config.admin@ == admin@,
    {
        Self { admin }
    }
}

impl AsRef<String> for Config {
    fn as_ref(&self) -> (admin: &String)
        ensures
            admin@ == self.admin@,
    {
        &self.admin
    }
}

impl Clone for Config {
    fn clone(&self) -> (config: Config)
        ensures
            config.admin@ == self.admin@,
    {
        Config { admin: self.admin.clone() }
    }
}

} // verus!
