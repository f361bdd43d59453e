//! The life of one mission: open, then succeeded or failed for good.
use vstd::prelude::*;
use crate::block::BlockTime;
use crate::error::ContractErrorView;
use crate::msg::ExecuteMsgView;
use crate::response::TransferView;
use crate::state::balance::total_of;
use crate::state::error::StateError;
use crate::state::mission::Status;
use crate::state::store::{has_mission, mission_of};
use crate::state::StateView;
use super::conservation::{held_sum, lemma_held_within_sum, reconciled};
use super::execute::{
    complete_mission_step, completion_record, execute_step, failed_mission_step,
};

verus! {

/// No operation removes a mission, moves it to another identifier or another
/// creator, or changes anything of it but its status.
pub proof fn lemma_missions_stay(
    before: StateView,
    block_time: BlockTime,
    sender: Seq<char>,
    msg: ExecuteMsgView,
    mission_id: u64,
)
    requires
        1 <= mission_id <= before.missions.len(),
    ensures
        match execute_step(before, block_time, sender, msg) {
            Ok((after, _)) => mission_id <= after.missions.len() && after.missions[mission_id
                - 1].creator == before.missions[mission_id - 1].creator && mission_of(
                after.missions,
                mission_id,
            ).with_status(Status::Open) == mission_of(before.missions, mission_id).with_status(
                Status::Open,
            ),
            Err(_) => true,
        },
{
}

/// A mission that has succeeded or failed stays as it is under every
/// operation.
pub proof fn lemma_ended_mission_stays(
    before: StateView,
    block_time: BlockTime,
    sender: Seq<char>,
    msg: ExecuteMsgView,
    mission_id: u64,
)
    requires
        1 <= mission_id <= before.missions.len(),
        mission_of(before.missions, mission_id).status != Status::Open,
    ensures
        match execute_step(before, block_time, sender, msg) {
            Ok((after, _)) => mission_id <= after.missions.len() && after.missions[mission_id - 1]
                == before.missions[mission_id - 1],
            Err(_) => true,
        },
{
}

/// The completion of a mission that has ended changes nothing: after the
/// deadline it only reports `failed` once more, up to the deadline it is
/// refused as a change of status that does not exist.
pub proof fn lemma_complete_ended_mission(
    before: StateView,
    time: u64,
    sender: Seq<char>,
    mission_id: u64,
    postscript: Seq<char>,
)
    requires
        has_mission(before.missions, sender, mission_id),
        mission_of(before.missions, mission_id).status != Status::Open,
    ensures
        match complete_mission_step(before, time, sender, mission_id, postscript) {
            Ok((after, response)) => mission_of(before.missions, mission_id).expired_at(time)
                && after == before && response.messages.len() == 0,
            Err(error) => !mission_of(before.missions, mission_id).expired_at(time) && error
                == ContractErrorView::State(
                StateError::InvalidStatusChangeRequest {
                    current: mission_of(before.missions, mission_id).status,
                    target: Status::Success,
                },
            ),
        },
{
    match complete_mission_step(before, time, sender, mission_id, postscript) {
        Ok((after, response)) => {
            assert(after.missions =~= before.missions);
        },
        Err(_) => {},
    }
}

/// Giving up a mission that has ended is refused as a change of status that
/// does not exist.
pub proof fn lemma_fail_ended_mission(before: StateView, sender: Seq<char>, mission_id: u64)
    requires
        has_mission(before.missions, sender, mission_id),
        mission_of(before.missions, mission_id).status != Status::Open,
    ensures
        failed_mission_step(before, sender, mission_id) == Err::<
            (StateView, crate::response::ResponseView),
            ContractErrorView,
        >(
            ContractErrorView::State(
                StateError::InvalidStatusChangeRequest {
                    current: mission_of(before.missions, mission_id).status,
                    target: Status::Failed,
                },
            ),
        ),
{
}

/// A completion after the deadline succeeds as an operation, reports the
/// status `failed` and sends nothing, whatever the status of the mission was.
/// An open mission has failed by it; the ledger is untouched.
pub proof fn lemma_late_completion_fails(
    before: StateView,
    time: u64,
    sender: Seq<char>,
    mission_id: u64,
    postscript: Seq<char>,
)
    requires
        has_mission(before.missions, sender, mission_id),
        mission_of(before.missions, mission_id).expired_at(time),
    ensures
        match complete_mission_step(before, time, sender, mission_id, postscript) {
            Ok((after, response)) => {
                &&& response == completion_record(sender, mission_id).add_attribute(
                    "status"@,
                    "failed"@,
                )
                &&& response.messages.len() == 0
                &&& after.balances == before.balances
                &&& has_mission(after.missions, sender, mission_id)
                &&& mission_of(before.missions, mission_id).status != Status::Success
                    ==> mission_of(after.missions, mission_id).status == Status::Failed
                &&& mission_of(before.missions, mission_id).status == Status::Success
                    ==> mission_of(after.missions, mission_id).status == Status::Success
            },
            Err(_) => false,
        },
{
}

/// The completion of an open mission up to its deadline, where the ledger
/// holds at least its coin: the mission has succeeded, its whole coin is sent
/// to its creator in one transfer, and the ledger holds that much less of its
/// denomination and as much as before of every other.
pub proof fn lemma_timely_completion_succeeds(
    before: StateView,
    time: u64,
    sender: Seq<char>,
    mission_id: u64,
    postscript: Seq<char>,
)
    requires
        has_mission(before.missions, sender, mission_id),
        mission_of(before.missions, mission_id).status == Status::Open,
        !mission_of(before.missions, mission_id).expired_at(time),
        total_of(before.balances, mission_of(before.missions, mission_id).coin.denom)
            >= mission_of(before.missions, mission_id).coin.amount,
    ensures
        match complete_mission_step(before, time, sender, mission_id, postscript) {
            Ok((after, response)) => {
                let coin = mission_of(before.missions, mission_id).coin;
                &&& has_mission(after.missions, sender, mission_id)
                &&& mission_of(after.missions, mission_id).status == Status::Success
                &&& response.messages == seq![TransferView { to_address: sender, coin }]
                &&& total_of(after.balances, coin.denom) + coin.amount == total_of(
                    before.balances,
                    coin.denom,
                )
                &&& forall|denom: Seq<char>|
                    denom != coin.denom ==> total_of(after.balances, denom) == total_of(
                        before.balances,
                        denom,
                    )
            },
            Err(_) => false,
        },
{
    let coin = mission_of(before.missions, mission_id).coin;
    match complete_mission_step(before, time, sender, mission_id, postscript) {
        Ok((after, response)) => {
            assert(response.messages =~= seq![TransferView { to_address: sender, coin }]);
        },
        Err(_) => {},
    }
}

/// In a reconciled state the ledger holds at least the coin of every mission
/// that has not succeeded, so that the completion of an open mission up to
/// its deadline always succeeds there.
pub proof fn lemma_reconciled_ledger_covers(before: StateView, mission_id: u64)
    requires
        reconciled(before),
        1 <= mission_id <= before.missions.len(),
        mission_of(before.missions, mission_id).status != Status::Success,
    ensures
        total_of(before.balances, mission_of(before.missions, mission_id).coin.denom)
            >= mission_of(before.missions, mission_id).coin.amount,
{
    let coin = mission_of(before.missions, mission_id).coin;
    lemma_held_within_sum(before.missions, mission_id - 1, coin.denom);
    assert(total_of(before.balances, coin.denom) == held_sum(before.missions, coin.denom));
}

} // verus!
