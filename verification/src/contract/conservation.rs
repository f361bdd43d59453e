//! The ledger reconciles with the missions: the locked total of a
//! denomination is the sum of the coins of that denomination whose missions
//! have not succeeded. A coin enters the sum when its mission is created and
//! leaves it when the mission succeeds; the coin of a failed mission stays.
use vstd::prelude::*;
use crate::block::BlockTime;
use crate::contract::error::ExecuteErrorView;
use crate::error::ContractErrorView;
use crate::msg::{CreateMissionItemView, ExecuteMsgView};
use crate::state::balance::total_of;
use crate::state::mission::Status;
use crate::state::store::{has_mission, mission_of, StoredMissionView};
use crate::state::StateView;
use super::execute::{
    complete_mission_step, create_mission_step, execute_step, failed_mission_step,
};

verus! {

/// What `entry` keeps locked of `denom`: its coin, unless the mission
/// succeeded and the coin went back.
pub open spec fn held(entry: StoredMissionView, denom: Seq<char>) -> nat {
    if entry.mission.coin.denom == denom && entry.mission.status != Status::Success {
        entry.mission.coin.amount
    } else {
        0
    }
}

/// What `missions` keep locked of `denom`.
pub open spec fn held_sum(missions: Seq<StoredMissionView>, denom: Seq<char>) -> nat
    decreases missions.len(),
{
    if missions.len() == 0 {
        0
    } else {
        held_sum(missions.drop_last(), denom) + held(missions.last(), denom)
    }
}

/// What `entry` keeps locked of `denom` while its mission is open.
pub open spec fn open_amount(entry: StoredMissionView, denom: Seq<char>) -> nat {
    if entry.mission.coin.denom == denom && entry.mission.status == Status::Open {
        entry.mission.coin.amount
    } else {
        0
    }
}

/// What the open missions among `missions` keep locked of `denom`.
pub open spec fn open_sum(missions: Seq<StoredMissionView>, denom: Seq<char>) -> nat
    decreases missions.len(),
{
    if missions.len() == 0 {
        0
    } else {
        open_sum(missions.drop_last(), denom) + open_amount(missions.last(), denom)
    }
}

/// Whether none of `missions` has failed.
pub open spec fn none_failed(missions: Seq<StoredMissionView>) -> bool {
    forall|i: int| 0 <= i < missions.len() ==> (#[trigger] missions[i]).mission.status != Status::Failed
}

/// Whether the ledger of `state` holds, for every denomination, what its
/// missions keep locked.
pub open spec fn reconciled(state: StateView) -> bool {
    forall|denom: Seq<char>| #[trigger]
        total_of(state.balances, denom) == held_sum(state.missions, denom)
}

/// One more mission adds what it keeps locked.
pub proof fn lemma_held_sum_push(
    missions: Seq<StoredMissionView>,
    entry: StoredMissionView,
    denom: Seq<char>,
)
    ensures
        held_sum(missions.push(entry), denom) == held_sum(missions, denom) + held(entry, denom),
{
    assert(missions.push(entry).drop_last() =~= missions);
}

/// Another entry in one place changes the sum by the difference of the two.
pub proof fn lemma_held_sum_update(
    missions: Seq<StoredMissionView>,
    place: int,
    entry: StoredMissionView,
    denom: Seq<char>,
)
    requires
        0 <= place < missions.len(),
    ensures
        held_sum(missions.update(place, entry), denom) + held(missions[place], denom) == held_sum(
            missions,
            denom,
        ) + held(entry, denom),
    decreases missions.len(),
{
    let updated = missions.update(place, entry);
    if place == missions.len() - 1 {
        assert(updated.drop_last() =~= missions.drop_last());
    } else {
        lemma_held_sum_update(missions.drop_last(), place, entry, denom);
        assert(updated.drop_last() =~= missions.drop_last().update(place, entry));
    }
}

/// A mission keeps locked no more than the sum of all.
pub proof fn lemma_held_within_sum(missions: Seq<StoredMissionView>, place: int, denom: Seq<char>)
    requires
        0 <= place < missions.len(),
    ensures
        held(missions[place], denom) <= held_sum(missions, denom),
    decreases missions.len(),
{
    if place < missions.len() - 1 {
        lemma_held_within_sum(missions.drop_last(), place, denom);
    }
}

/// Where no mission has failed, what is kept locked is what the open missions
/// lock.
pub proof fn lemma_held_is_open(missions: Seq<StoredMissionView>, denom: Seq<char>)
    requires
        none_failed(missions),
    ensures
        held_sum(missions, denom) == open_sum(missions, denom),
    decreases missions.len(),
{
    if missions.len() > 0 {
        let rest = missions.drop_last();
        assert forall|i: int| 0 <= i < rest.len() implies (#[trigger] rest[i]).mission.status
            != Status::Failed by {
            assert(rest[i] == missions[i]);
        }
        lemma_held_is_open(rest, denom);
        assert(missions.last() == missions[missions.len() - 1]);
    }
}

/// The state without missions and without entries is reconciled.
pub proof fn lemma_initial_reconciled(admin: Seq<char>)
    ensures
        reconciled(StateView::initial(admin)),
{
}

/// The creation of a mission keeps a reconciled state reconciled.
pub proof fn lemma_create_mission_reconciled(
    before: StateView,
    height: u64,
    sender: Seq<char>,
    item: CreateMissionItemView,
)
    requires
        reconciled(before),
    ensures
        match create_mission_step(before, height, sender, item) {
            Ok((after, _)) => reconciled(after),
            Err(_) => true,
        },
{
    match create_mission_step(before, height, sender, item) {
        Ok((after, _)) => {
            let entry = StoredMissionView { creator: sender, mission: item.mission() };
            assert forall|denom: Seq<char>| #[trigger]
                total_of(after.balances, denom) == held_sum(after.missions, denom) by {
                lemma_held_sum_push(before.missions, entry, denom);
                assert(total_of(before.balances, denom) == held_sum(before.missions, denom));
            }
        },
        Err(_) => {},
    }
}

/// The completion of a mission keeps a reconciled state reconciled, and in a
/// reconciled state it never fails for want of balance.
pub proof fn lemma_complete_mission_reconciled(
    before: StateView,
    time: u64,
    sender: Seq<char>,
    mission_id: u64,
    postscript: Seq<char>,
)
    requires
        reconciled(before),
    ensures
        match complete_mission_step(before, time, sender, mission_id, postscript) {
            Ok((after, _)) => reconciled(after),
            Err(error) => error != ContractErrorView::Execute(ExecuteErrorView::Underflow),
        },
{
    if has_mission(before.missions, sender, mission_id) {
        let place = mission_id - 1;
        let mission = mission_of(before.missions, mission_id);
        assert(total_of(before.balances, mission.coin.denom) == held_sum(
            before.missions,
            mission.coin.denom,
        ));
        lemma_held_within_sum(before.missions, place, mission.coin.denom);
        match complete_mission_step(before, time, sender, mission_id, postscript) {
            Ok((after, _)) => {
                assert forall|denom: Seq<char>| #[trigger]
                    total_of(after.balances, denom) == held_sum(after.missions, denom) by {
                    lemma_held_sum_update(before.missions, place, after.missions[place], denom);
                    assert(total_of(before.balances, denom) == held_sum(before.missions, denom));
                }
            },
            Err(_) => {},
        }
    }
}

/// Giving up a mission keeps a reconciled state reconciled.
pub proof fn lemma_failed_mission_reconciled(
    before: StateView,
    sender: Seq<char>,
    mission_id: u64,
)
    requires
        reconciled(before),
    ensures
        match failed_mission_step(before, sender, mission_id) {
            Ok((after, _)) => reconciled(after),
            Err(_) => true,
        },
{
    match failed_mission_step(before, sender, mission_id) {
        Ok((after, _)) => {
            let place = mission_id - 1;
            assert forall|denom: Seq<char>| #[trigger]
                total_of(after.balances, denom) == held_sum(after.missions, denom) by {
                lemma_held_sum_update(before.missions, place, after.missions[place], denom);
                assert(total_of(before.balances, denom) == held_sum(before.missions, denom));
            }
        },
        Err(_) => {},
    }
}

/// Every operation keeps a reconciled state reconciled.
pub proof fn lemma_execute_reconciled(
    before: StateView,
    block_time: BlockTime,
    sender: Seq<char>,
    msg: ExecuteMsgView,
)
    requires
        reconciled(before),
    ensures
        match execute_step(before, block_time, sender, msg) {
            Ok((after, _)) => reconciled(after),
            Err(_) => true,
        },
{
    match msg {
        ExecuteMsgView::Withdraw { denom, amount } => {},
        ExecuteMsgView::CreateMission(item) => {
            lemma_create_mission_reconciled(before, block_time.height, sender, item);
        },
        ExecuteMsgView::CompleteMission { mission_id, postscript } => {
            lemma_complete_mission_reconciled(
                before,
                block_time.time,
                sender,
                mission_id,
                postscript,
            );
        },
        ExecuteMsgView::FailedMission { mission_id } => {
            lemma_failed_mission_reconciled(before, sender, mission_id);
        },
    }
}

} // verus!
