//! A denomination together with an amount.
use vstd::prelude::*;
use vstd::string::StringExecFns;

verus! {

/// An amount of one denomination.
#[derive(Debug, PartialEq, Eq)]
pub struct Coin {
    pub denom: String,
    pub amount: u128,
}

/// What a [`Coin`] stands for in contracts.
pub struct CoinView {
    pub denom: Seq<char>,
    pub amount: nat,
}

impl View for Coin {
    type V = CoinView;

    open spec fn view(&self) -> CoinView {
        CoinView { denom: self.denom@, amount: self.amount as nat }
    }
}

impl Coin {
    /// A coin of `amount` units of `denom`.
    pub fn new(amount: u128, denom: &str) -> (coin: Coin)
        ensures
            coin@ == (CoinView { denom: denom@, amount: amount as nat }),
    {
        Coin { denom: String::from_str(denom), amount }
    }
}

impl Clone for Coin {
    fn clone(&self) -> (coin: Coin)
        ensures
            coin@ == self@,
    {
        Coin { denom: self.denom.clone(), amount: self.amount }
    }
}

impl Default for Coin {
    /// No units of the empty denomination.
    fn default() -> (coin: Coin)
        ensures
            coin@ == (CoinView { denom: Seq::<char>::empty(), amount: 0 }),
    {
        Coin { denom: String::new(), amount: 0 }
    }
}

} // verus!
