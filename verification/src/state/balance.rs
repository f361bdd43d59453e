//! The balance ledger: for each denomination, the total that is locked.
use vstd::prelude::*;
use cosmwasm_std::{OverflowError, Uint128};
use crate::contract::error::{ExecuteError, ExecuteErrorView};

verus! {

/// `cosmwasm_std`'s error of a checked operation that left the range.
#[verifier::external_type_specification]
#[verifier::external_body]
pub struct ExOverflowError(OverflowError);

/// `Uint128::checked_add` from `cosmwasm_std`: the sum where it fits in 128
/// bits, an error where it does not.
#[verifier::external_body]
fn checked_add(total: u128, amount: u128) -> (result: Result<u128, OverflowError>)
    ensures
        match result {
            Ok(sum) => sum == total + amount,
            Err(_) => total + amount > u128::MAX,
        },
{
    match Uint128::new(total).checked_add(Uint128::new(amount)) {
        Ok(sum) => Ok(sum.u128()),
        Err(error) => Err(error),
    }
}

/// `Uint128::checked_sub` from `cosmwasm_std`: the difference where it is not
/// negative, an error where it is.
#[verifier::external_body]
fn checked_sub(total: u128, amount: u128) -> (result: Result<u128, OverflowError>)
    ensures
        match result {
            Ok(difference) => difference == total - amount,
            Err(_) => total < amount,
        },
{
    match Uint128::new(total).checked_sub(Uint128::new(amount)) {
        Ok(difference) => Ok(difference.u128()),
        Err(error) => Err(error),
    }
}

/// The total that `balances` holds of `denom`: a denomination without an entry
/// has none.
pub open spec fn total_of(balances: Map<Seq<char>, nat>, denom: Seq<char>) -> nat {
    if balances.contains_key(denom) {
        balances[denom]
    } else {
        0
    }
}

/// The total of one denomination.
#[derive(Debug, PartialEq, Eq)]
pub struct BalanceEntry {
    pub denom: String,
    pub amount: u128,
}

/// The locked totals, one entry for each denomination that was ever locked.
/// Entries come lazily and never leave.
pub struct BalanceLedger {
    entries: Vec<BalanceEntry>,
}

/// Whether `entries` has an entry for `denom`.
pub closed spec fn has_entry(entries: Seq<BalanceEntry>, denom: Seq<char>) -> bool {
    exists|i: int| 0 <= i < entries.len() && entries[i].denom@ == denom
}

/// The place of an entry for `denom`.
pub closed spec fn entry_of(entries: Seq<BalanceEntry>, denom: Seq<char>) -> int {
    choose|i: int| 0 <= i < entries.len() && entries[i].denom@ == denom
}

/// Whether no denomination has two entries.
pub closed spec fn distinct_denoms(entries: Seq<BalanceEntry>) -> bool {
    forall|i: int, j: int|
        0 <= i < j < entries.len() ==> entries[i].denom@ != entries[j].denom@
}

proof fn lemma_entry_of(entries: Seq<BalanceEntry>, i: int)
    requires
        distinct_denoms(entries),
        0 <= i < entries.len(),
    ensures
        has_entry(entries, entries[i].denom@),
        entry_of(entries, entries[i].denom@) == i,
{
    let j = entry_of(entries, entries[i].denom@);
    assert(0 <= j < entries.len() && entries[j].denom@ == entries[i].denom@);
    if j < i {
        assert(entries[j].denom@ != entries[i].denom@);
    }
    if i < j {
        assert(entries[i].denom@ != entries[j].denom@);
    }
}

impl View for BalanceLedger {
    type V = Map<Seq<char>, nat>;

    closed spec fn view(&self) -> Map<Seq<char>, nat> {
        Map::new(
            |denom: Seq<char>| has_entry(self.entries@, denom),
            |denom: Seq<char>| self.entries@[entry_of(self.entries@, denom)].amount as nat,
        )
    }
}

impl BalanceLedger {
    /// The invariant of the ledger: each denomination has one entry at most.
    pub closed spec fn wf(&self) -> bool {
        distinct_denoms(self.entries@)
    }

    /// The ledger without entries.
    pub fn new() -> (ledger: BalanceLedger)
        ensures
            ledger.wf(),
            ledger@ == Map::<Seq<char>, nat>::empty(),
    {
        let ledger = BalanceLedger { entries: Vec::new() };
        assert(ledger@ =~= Map::<Seq<char>, nat>::empty());
        ledger
    }

    fn find(&self, denom: &String) -> (place: Option<usize>)
        requires
            self.wf(),
        ensures
            match place {
                Some(i) => i < self.entries@.len() && self.entries@[i as int].denom@ == denom@
                    && self@.contains_key(denom@) && self@[denom@]
                    == self.entries@[i as int].amount,
                None => !self@.contains_key(denom@),
            },
    {
        let mut i: usize = 0;
        while i < self.entries.len()
            invariant
                self.wf(),
                i <= self.entries@.len(),
                forall|j: int| 0 <= j < i ==> self.entries@[j].denom@ != denom@,
            decreases self.entries@.len() - i,
        {
            if self.entries[i].denom == *denom {
                proof {
                    lemma_entry_of(self.entries@, i as int);
                }
                return Some(i);
            }
            i += 1;
        }
        None
    }

    /// The total of `denom`: zero where it has no entry.
    pub fn total(&self, denom: &String) -> (total: u128)
        requires
            self.wf(),
        ensures
            total == total_of(self@, denom@),
    {
        match self.find(denom) {
            Some(i) => self.entries[i].amount,
            None => 0,
        }
    }

    /// The entries of the ledger, one for each denomination that has one.
    pub fn entries(&self) -> (entries: Vec<BalanceEntry>)
        requires
            self.wf(),
        ensures
            forall|i: int, j: int|
                0 <= i < j < entries@.len() ==> entries@[i].denom@ != entries@[j].denom@,
            forall|i: int|
                0 <= i < entries@.len() ==> self@.contains_key(#[trigger] entries@[i].denom@)
                    && self@[entries@[i].denom@] == entries@[i].amount,
            forall|denom: Seq<char>|
                self@.contains_key(denom) ==> exists|i: int|
                    0 <= i < entries@.len() && entries@[i].denom@ == denom,
    {
        let mut entries: Vec<BalanceEntry> = Vec::new();
        for i in 0..self.entries.len()
            invariant
                self.wf(),
                entries@.len() == i,
                forall|j: int|
                    0 <= j < i ==> entries@[j].denom@ == self.entries@[j].denom@
                        && entries@[j].amount == self.entries@[j].amount,
        {
            let entry = &self.entries[i];
            entries.push(BalanceEntry { denom: entry.denom.clone(), amount: entry.amount });
        }
        proof {
            assert forall|i: int| 0 <= i < entries@.len() implies self@.contains_key(
                #[trigger] entries@[i].denom@,
            ) && self@[entries@[i].denom@] == entries@[i].amount by {
                lemma_entry_of(self.entries@, i);
            }
            assert forall|denom: Seq<char>| self@.contains_key(denom) implies exists|i: int|
                0 <= i < entries@.len() && entries@[i].denom@ == denom by {
                let i = entry_of(self.entries@, denom);
                assert(entries@[i].denom@ == denom);
            }
        }
        entries
    }

    fn put(&mut self, denom: &String, amount: u128)
        requires
            old(self).wf(),
        ensures
            final(self).wf(),
            final(self)@ == old(self)@.insert(denom@, amount as nat),
    {
        match self.find(denom) {
            Some(i) => {
                let ghost before = self.entries@;
                self.entries[i].amount = amount;
                proof {
                    let after = self.entries@;
                    assert(after.len() == before.len());
                    assert(forall|j: int|
                        0 <= j < after.len() ==> after[j].denom@ == before[j].denom@);
                    assert(distinct_denoms(after));
                    assert forall|other: Seq<char>|
                        has_entry(after, other) == (other == denom@ || has_entry(
                            before,
                            other,
                        )) by {
                        if has_entry(after, other) {
                            let j = entry_of(after, other);
                            assert(before[j].denom@ == other);
                        }
                        if has_entry(before, other) {
                            let j = entry_of(before, other);
                            assert(after[j].denom@ == other);
                        }
                        if other == denom@ {
                            assert(after[i as int].denom@ == other);
                        }
                    }
                    assert forall|other: Seq<char>| has_entry(after, other) implies after[entry_of(
                        after,
                        other,
                    )].amount as nat == old(self)@.insert(denom@, amount as nat)[other] by {
                        let j = entry_of(after, other);
                        lemma_entry_of(after, j);
                        lemma_entry_of(before, j);
                    }
                    assert(self@ =~= old(self)@.insert(denom@, amount as nat));
                }
            },
            None => {
                let ghost before = self.entries@;
                self.entries.push(BalanceEntry { denom: denom.clone(), amount });
                proof {
                    let after = self.entries@;
                    assert(forall|j: int| 0 <= j < before.len() ==> after[j] == before[j]);
                    assert(after[before.len() as int].denom@ == denom@);
                    assert(!has_entry(before, denom@));
                    assert(distinct_denoms(after));
                    assert forall|other: Seq<char>|
                        has_entry(after, other) == (other == denom@ || has_entry(
                            before,
                            other,
                        )) by {
                        if has_entry(after, other) {
                            let j = entry_of(after, other);
                            if j < before.len() {
                                assert(before[j].denom@ == other);
                            }
                        }
                        if has_entry(before, other) {
                            let j = entry_of(before, other);
                            assert(after[j].denom@ == other);
                        }
                        if other == denom@ {
                            assert(after[before.len() as int].denom@ == other);
                        }
                    }
                    assert forall|other: Seq<char>| has_entry(after, other) implies after[entry_of(
                        after,
                        other,
                    )].amount as nat == old(self)@.insert(denom@, amount as nat)[other] by {
                        let j = entry_of(after, other);
                        lemma_entry_of(after, j);
                        if j < before.len() {
                            lemma_entry_of(before, j);
                        }
                    }
                    assert(self@ =~= old(self)@.insert(denom@, amount as nat));
                }
            },
        }
    }

    /// Adds `amount` to the total of `denom` and returns the new total. Where
    /// the sum leaves the range of 128 bits the ledger stays as it is and the
    /// error is `Overflow`.
    pub fn increase(&mut self, denom: &String, amount: u128) -> (result: Result<
        u128,
        ExecuteError,
    >)
        requires
            old(self).wf(),
        ensures
            final(self).wf(),
            match result {
                Ok(total) => total == total_of(old(self)@, denom@) + amount && final(self)@
                    == old(self)@.insert(denom@, total as nat),
                Err(error) => error@ == ExecuteErrorView::Overflow && total_of(
                    old(self)@,
                    denom@,
                ) + amount > u128::MAX && final(self)@ == old(self)@,
            },
    {
        let current = self.total(denom);
        match checked_add(current, amount) {
            Ok(total) => {
                self.put(denom, total);
                Ok(total)
            },
            Err(_) => Err(ExecuteError::Overflow),
        }
    }

    /// Takes `amount` from the total of `denom` and returns the new total.
    /// Where the total is less than `amount` the ledger stays as it is and the
    /// error is `Underflow`.
    pub fn decrease(&mut self, denom: &String, amount: u128) -> (result: Result<
        u128,
        ExecuteError,
    >)
        requires
            old(self).wf(),
        ensures
            final(self).wf(),
            match result {
                Ok(total) => total == total_of(old(self)@, denom@) - amount && final(self)@
                    == old(self)@.insert(denom@, total as nat),
                Err(error) => error@ == ExecuteErrorView::Underflow && total_of(
                    old(self)@,
                    denom@,
                ) < amount && final(self)@ == old(self)@,
            },
    {
        let current = self.total(denom);
        match checked_sub(current, amount) {
            Ok(total) => {
                self.put(denom, total);
                Ok(total)
            },
            Err(_) => Err(ExecuteError::Underflow),
        }
    }
}

} // verus!
