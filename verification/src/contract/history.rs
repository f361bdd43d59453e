//! What holds after every sequence of operations.
use vstd::prelude::*;
use crate::block::BlockTime;
use crate::msg::ExecuteMsgView;
use crate::state::balance::total_of;
use crate::state::mission::Status;
use crate::state::recent::{newest, SnapshotView, RECENTLY_MISSION_LIMIT};
use crate::response::TransferView;
use crate::state::store::{has_mission, mission_of};
use crate::state::StateView;
use super::conservation::{
    held_sum, lemma_execute_reconciled, lemma_held_is_open, none_failed, open_sum, reconciled,
};
use super::execute::{complete_mission_step, execute_step};
use super::lifecycle::{
    lemma_ended_mission_stays, lemma_reconciled_ledger_covers, lemma_timely_completion_succeeds,
};

verus! {

/// One message with the block and the sender that it came with.
pub struct Call {
    pub block_time: BlockTime,
    pub sender: Seq<char>,
    pub msg: ExecuteMsgView,
}

/// The state after `call`: an operation that is refused leaves the state as it
/// was.
pub open spec fn state_after(before: StateView, call: Call) -> StateView {
    match execute_step(before, call.block_time, call.sender, call.msg) {
        Ok((after, _)) => after,
        Err(_) => before,
    }
}

/// The state after `calls`, one after the other, from `start`.
pub open spec fn run(start: StateView, calls: Seq<Call>) -> StateView
    decreases calls.len(),
{
    if calls.len() == 0 {
        start
    } else {
        state_after(run(start, calls.drop_last()), calls.last())
    }
}

/// The mission that `call` creates in `before`, as the log of recent missions
/// records it; nothing where the call creates none.
pub open spec fn created_by(before: StateView, call: Call) -> Seq<SnapshotView> {
    match call.msg {
        ExecuteMsgView::CreateMission(item) => {
            if execute_step(before, call.block_time, call.sender, call.msg) is Ok {
                seq![SnapshotView { height: call.block_time.height, mission: item.mission() }]
            } else {
                Seq::empty()
            }
        },
        _ => Seq::empty(),
    }
}

/// All missions that `calls` create from `start`, in the order of their
/// creation.
pub open spec fn creations(start: StateView, calls: Seq<Call>) -> Seq<SnapshotView>
    decreases calls.len(),
{
    if calls.len() == 0 {
        Seq::empty()
    } else {
        creations(start, calls.drop_last()) + created_by(
            run(start, calls.drop_last()),
            calls.last(),
        )
    }
}

/// After every sequence of operations on a reconciled state the ledger holds,
/// for every denomination, what the missions keep locked.
pub proof fn lemma_run_reconciled(start: StateView, calls: Seq<Call>)
    requires
        reconciled(start),
    ensures
        reconciled(run(start, calls)),
    decreases calls.len(),
{
    if calls.len() > 0 {
        lemma_run_reconciled(start, calls.drop_last());
        let call = calls.last();
        lemma_execute_reconciled(
            run(start, calls.drop_last()),
            call.block_time,
            call.sender,
            call.msg,
        );
    }
}

/// After every sequence of operations on a new contract, and as long as no
/// mission has failed, the locked total of every denomination is the sum of the
/// coins of the open missions of that denomination.
pub proof fn lemma_ledger_holds_open_missions(
    admin: Seq<char>,
    calls: Seq<Call>,
    denom: Seq<char>,
)
    requires
        none_failed(run(StateView::initial(admin), calls).missions),
    ensures
        total_of(run(StateView::initial(admin), calls).balances, denom) == open_sum(
            run(StateView::initial(admin), calls).missions,
            denom,
        ),
{
    let state = run(StateView::initial(admin), calls);
    lemma_run_reconciled(StateView::initial(admin), calls);
    lemma_held_is_open(state.missions, denom);
    assert(total_of(state.balances, denom) == held_sum(state.missions, denom));
}

/// A mission that has succeeded or failed stays as it is under every sequence
/// of operations.
pub proof fn lemma_ended_mission_is_final(start: StateView, calls: Seq<Call>, mission_id: u64)
    requires
        1 <= mission_id <= start.missions.len(),
        mission_of(start.missions, mission_id).status != Status::Open,
    ensures
        mission_id <= run(start, calls).missions.len(),
        run(start, calls).missions[mission_id - 1] == start.missions[mission_id - 1],
    decreases calls.len(),
{
    if calls.len() > 0 {
        lemma_ended_mission_is_final(start, calls.drop_last(), mission_id);
        let call = calls.last();
        lemma_ended_mission_stays(
            run(start, calls.drop_last()),
            call.block_time,
            call.sender,
            call.msg,
            mission_id,
        );
    }
}

/// After every sequence of operations on a new contract, the completion of an
/// open mission up to its deadline succeeds: the mission has succeeded, its
/// coin is sent back in one transfer, and the ledger holds that much less.
pub proof fn lemma_timely_completion_after_run(
    admin: Seq<char>,
    calls: Seq<Call>,
    time: u64,
    sender: Seq<char>,
    mission_id: u64,
    postscript: Seq<char>,
)
    requires
        has_mission(run(StateView::initial(admin), calls).missions, sender, mission_id),
        mission_of(run(StateView::initial(admin), calls).missions, mission_id).status
            == Status::Open,
        !mission_of(run(StateView::initial(admin), calls).missions, mission_id).expired_at(time),
    ensures
        match complete_mission_step(
            run(StateView::initial(admin), calls),
            time,
            sender,
            mission_id,
            postscript,
        ) {
            Ok((after, response)) => {
                let before = run(StateView::initial(admin), calls);
                let coin = mission_of(before.missions, mission_id).coin;
                &&& mission_of(after.missions, mission_id).status == Status::Success
                &&& response.messages == seq![TransferView { to_address: sender, coin }]
                &&& total_of(after.balances, coin.denom) + coin.amount == total_of(
                    before.balances,
                    coin.denom,
                )
            },
            Err(_) => false,
        },
{
    let before = run(StateView::initial(admin), calls);
    lemma_run_reconciled(StateView::initial(admin), calls);
    lemma_reconciled_ledger_covers(before, mission_id);
    lemma_timely_completion_succeeds(before, time, sender, mission_id, postscript);
}

/// The newest of a log that was cut to its newest before the last entry came
/// are the newest of the whole history.
pub proof fn lemma_newest_push(history: Seq<SnapshotView>, entry: SnapshotView, limit: nat)
    ensures
        newest(newest(history, limit).push(entry), limit) == newest(history.push(entry), limit),
{
    assert(newest(newest(history, limit).push(entry), limit) =~= newest(
        history.push(entry),
        limit,
    ));
}

/// After every sequence of operations on a new contract the log of recent
/// missions retains no more than the limit, and what it retains are the
/// missions created last, in the order of their creation.
pub proof fn lemma_recent_are_newest(admin: Seq<char>, calls: Seq<Call>)
    ensures
        run(StateView::initial(admin), calls).recent.len() <= RECENTLY_MISSION_LIMIT,
        run(StateView::initial(admin), calls).recent == newest(
            creations(StateView::initial(admin), calls),
            RECENTLY_MISSION_LIMIT as nat,
        ),
    decreases calls.len(),
{
    let start = StateView::initial(admin);
    if calls.len() > 0 {
        let earlier = calls.drop_last();
        let call = calls.last();
        lemma_recent_are_newest(admin, earlier);
        let before = run(start, earlier);
        match call.msg {
            ExecuteMsgView::CreateMission(item) => {
                if execute_step(before, call.block_time, call.sender, call.msg) is Ok {
                    let entry = SnapshotView {
                        height: call.block_time.height,
                        mission: item.mission(),
                    };
                    lemma_newest_push(
                        creations(start, earlier),
                        entry,
                        RECENTLY_MISSION_LIMIT as nat,
                    );
                    assert(creations(start, calls) =~= creations(start, earlier).push(entry));
                } else {
                    assert(creations(start, calls) =~= creations(start, earlier));
                }
            },
            _ => {
                assert(creations(start, calls) =~= creations(start, earlier));
            },
        }
    }
}

/// After every sequence of operations on a new contract the store holds the
/// missions that were created, in the order of their creation, and nothing of
/// them has changed but the status.
pub proof fn lemma_store_holds_creations(admin: Seq<char>, calls: Seq<Call>)
    ensures
        run(StateView::initial(admin), calls).missions.len() == creations(
            StateView::initial(admin),
            calls,
        ).len(),
        forall|i: int|
            0 <= i < creations(StateView::initial(admin), calls).len() ==> (#[trigger] run(
                StateView::initial(admin),
                calls,
            ).missions[i]).mission.with_status(Status::Open) == creations(
                StateView::initial(admin),
                calls,
            )[i].mission,
    decreases calls.len(),
{
    let start = StateView::initial(admin);
    if calls.len() > 0 {
        let earlier = calls.drop_last();
        let call = calls.last();
        lemma_store_holds_creations(admin, earlier);
        let before = run(start, earlier);
        let after = run(start, calls);
        match call.msg {
            ExecuteMsgView::CreateMission(item) => {
                if execute_step(before, call.block_time, call.sender, call.msg) is Ok {
                    let entry = SnapshotView {
                        height: call.block_time.height,
                        mission: item.mission(),
                    };
                    assert(creations(start, calls) =~= creations(start, earlier).push(entry));
                } else {
                    assert(creations(start, calls) =~= creations(start, earlier));
                }
            },
            _ => {
                assert(creations(start, calls) =~= creations(start, earlier));
            },
        }
        assert forall|i: int| 0 <= i < creations(start, calls).len() implies (
        #[trigger] after.missions[i]).mission.with_status(Status::Open) == creations(
            start,
            calls,
        )[i].mission by {
            if i < before.missions.len() {
                assert(before.missions[i].mission.with_status(Status::Open) == creations(
                    start,
                    earlier,
                )[i].mission);
            }
        }
    }
}

} // verus!
