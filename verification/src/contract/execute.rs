//! The operations that change the state.
//!
//! Each operation is stated twice: as a spec function from the state before it
//! and its arguments to what it comes to, and as the executable function that
//! is proved to do just that.
use vstd::prelude::*;
use vstd::string::StringExecFns;
use crate::block::BlockTime;
use crate::coin::{Coin, CoinView};
use crate::contract::error::{ExecuteError, ExecuteErrorView};
use crate::error::{ContractError, ContractErrorView};
use crate::msg::{CreateMissionItem, CreateMissionItemView, ExecuteMsg, ExecuteMsgView};
use crate::response::{Response, ResponseView, Transfer, TransferView};
use crate::result::ContractResult;
use crate::state::balance::total_of;
use crate::state::error::StateError;
use crate::state::mission::{Mission, Status};
use crate::state::recent::{newest, SnapshotView, RECENTLY_MISSION_LIMIT};
use crate::state::store::{has_mission, mission_of, with_mission, StoredMissionView};
use crate::state::{State, StateView};
use crate::text::{amount_text, decimal_text, id_text};

verus! {

/// What an operation comes to: the state after it with the record for the
/// host, or the error that left the state as it was.
pub type Outcome = Result<(StateView, ResponseView), ContractErrorView>;

/// Whether an operation that began in `before`, ended in `after` and returned
/// `result` came to `outcome`.
pub open spec fn agrees(
    outcome: Outcome,
    before: StateView,
    after: StateView,
    result: ContractResult<Response>,
) -> bool {
    match outcome {
        Ok((state, response)) => result is Ok && result->Ok_0@ == response && after == state,
        Err(error) => result is Err && result->Err_0@ == error && after == before,
    }
}

/// The error of an operation, as an outcome.
pub open spec fn refused(error: ExecuteErrorView) -> Outcome {
    Err(ContractErrorView::Execute(error))
}

/// What a withdrawal comes to. Only the administrator may withdraw, only of a
/// denomination of which something is locked, and no more than is locked;
/// without an amount, all of it. The ledger stays as it is.
pub open spec fn withdraw_step(
    before: StateView,
    sender: Seq<char>,
    denom: Seq<char>,
    amount: Option<u128>,
) -> Outcome {
    let balance = total_of(before.balances, denom);
    let sent = match amount {
        Some(amount) => amount as nat,
        None => balance,
    };
    if sender != before.admin {
        refused(ExecuteErrorView::Unauthorized { addr: sender })
    } else if balance == 0 {
        refused(ExecuteErrorView::NotFoundDenom { denom })
    } else if balance < sent {
        refused(ExecuteErrorView::LackOfBalance { maximum: balance })
    } else {
        Ok(
            (
                before,
                ResponseView::empty().add_message(
                    TransferView { to_address: sender, coin: CoinView { denom, amount: sent } },
                ).add_attribute("method"@, "try_withdraw"@).add_attribute(
                    "amount"@,
                    decimal_text(sent),
                ),
            ),
        )
    }
}

/// What the creation of a mission comes to. The mission is stored open under
/// the next identifier, its coin is added to the locked total of its
/// denomination, and it enters the log of recent missions at `height`. Where
/// the total would leave the range of 128 bits the error is `Overflow`.
pub open spec fn create_mission_step(
    before: StateView,
    height: u64,
    sender: Seq<char>,
    item: CreateMissionItemView,
) -> Outcome {
    let mission = item.mission();
    let total = total_of(before.balances, item.coin.denom) + item.coin.amount;
    let id = before.missions.len() + 1;
    if total > u128::MAX {
        refused(ExecuteErrorView::Overflow)
    } else {
        Ok(
            (
                StateView {
                    admin: before.admin,
                    missions: before.missions.push(StoredMissionView { creator: sender, mission }),
                    balances: before.balances.insert(item.coin.denom, total),
                    recent: newest(
                        before.recent.push(SnapshotView { height, mission }),
                        RECENTLY_MISSION_LIMIT as nat,
                    ),
                },
                ResponseView::empty().add_attribute("method"@, "try_create_mission"@).add_attribute(
                    "sender"@,
                    sender,
                ).add_attribute("title"@, item.title).add_attribute(
                    "denom"@,
                    item.coin.denom,
                ).add_attribute("amount"@, decimal_text(item.coin.amount)).add_attribute(
                    "mission_id"@,
                    decimal_text(id),
                ),
            ),
        )
    }
}

/// The attributes with which the record of a completion begins.
pub open spec fn completion_record(sender: Seq<char>, mission_id: u64) -> ResponseView {
    ResponseView::empty().add_attribute("method"@, "try_complete_mission"@).add_attribute(
        "sender"@,
        sender,
    ).add_attribute("mission_id"@, decimal_text(mission_id as nat))
}

/// What the completion of the mission `mission_id` of `sender` at `time` comes
/// to.
///
/// After the deadline the completion reports the status `failed` and sends
/// nothing: an open mission fails, its coin stays in the ledger, and a mission
/// that had ended before stays as it ended. Up to the deadline an open mission
/// succeeds: its coin leaves the ledger and is sent back to `sender`. A mission
/// that had ended before is then an error, and so is a ledger that holds less
/// than the coin.
pub open spec fn complete_mission_step(
    before: StateView,
    time: u64,
    sender: Seq<char>,
    mission_id: u64,
    postscript: Seq<char>,
) -> Outcome {
    let mission = mission_of(before.missions, mission_id);
    let total = total_of(before.balances, mission.coin.denom);
    if !has_mission(before.missions, sender, mission_id) {
        refused(ExecuteErrorView::NotFoundMission { sender, index: mission_id })
    } else if mission.expired_at(time) {
        Ok(
            (
                StateView {
                    missions: with_mission(before.missions, mission_id, mission.settled_at(time)),
                    ..before
                },
                completion_record(sender, mission_id).add_attribute(
                    "status"@,
                    Status::Failed.text(),
                ),
            ),
        )
    } else if !mission.can_become(Status::Success) {
        Err(
            ContractErrorView::State(
                StateError::InvalidStatusChangeRequest {
                    current: mission.status,
                    target: Status::Success,
                },
            ),
        )
    } else if total < mission.coin.amount {
        refused(ExecuteErrorView::Underflow)
    } else {
        Ok(
            (
                StateView {
                    missions: with_mission(
                        before.missions,
                        mission_id,
                        mission.with_status(Status::Success),
                    ),
                    balances: before.balances.insert(
                        mission.coin.denom,
                        (total - mission.coin.amount) as nat,
                    ),
                    ..before
                },
                completion_record(sender, mission_id).add_message(
                    TransferView { to_address: sender, coin: mission.coin },
                ).add_attribute("postscript"@, postscript),
            ),
        )
    }
}

/// What giving up the mission `mission_id` of `sender` comes to: an open
/// mission fails and its coin stays in the ledger; a mission that had ended
/// before is an error.
pub open spec fn failed_mission_step(
    before: StateView,
    sender: Seq<char>,
    mission_id: u64,
) -> Outcome {
    let mission = mission_of(before.missions, mission_id);
    if !has_mission(before.missions, sender, mission_id) {
        refused(ExecuteErrorView::NotFoundMission { sender, index: mission_id })
    } else if !mission.can_become(Status::Failed) {
        Err(
            ContractErrorView::State(
                StateError::InvalidStatusChangeRequest {
                    current: mission.status,
                    target: Status::Failed,
                },
            ),
        )
    } else {
        Ok(
            (
                StateView {
                    missions: with_mission(
                        before.missions,
                        mission_id,
                        mission.with_status(Status::Failed),
                    ),
                    ..before
                },
                ResponseView::empty().add_attribute("method"@, "try_failed_mission"@).add_attribute(
                    "sender"@,
                    sender,
                ).add_attribute("mission_id"@, decimal_text(mission_id as nat)),
            ),
        )
    }
}

/// What the message `msg` of `sender` in the block `block_time` comes to.
pub open spec fn execute_step(
    before: StateView,
    block_time: BlockTime,
    sender: Seq<char>,
    msg: ExecuteMsgView,
) -> Outcome {
    match msg {
        ExecuteMsgView::Withdraw { denom, amount } => withdraw_step(before, sender, denom, amount),
        ExecuteMsgView::CreateMission(item) => create_mission_step(
            before,
            block_time.height,
            sender,
            item,
        ),
        ExecuteMsgView::CompleteMission { mission_id, postscript } => complete_mission_step(
            before,
            block_time.time,
            sender,
            mission_id,
            postscript,
        ),
        ExecuteMsgView::FailedMission { mission_id } => failed_mission_step(
            before,
            sender,
            mission_id,
        ),
    }
}

/// Carries out the message `msg` of `sender` in the block `block_time`.
pub fn execute(state: &mut State, block_time: BlockTime, sender: String, msg: ExecuteMsg) -> (result:
    ContractResult<Response>)
    requires
        old(state).wf(),
        msg is CreateMission ==> old(state)@.missions.len() < u64::MAX,
    ensures
        final(state).wf(),
        agrees(
            execute_step(old(state)@, block_time, sender@, msg@),
            old(state)@,
            final(state)@,
            result,
        ),
{
    match msg {
        ExecuteMsg::Withdraw { denom, amount } => try_withdraw(state, sender, denom, amount),
        ExecuteMsg::CreateMission(item) => try_create_mission(
            state,
            block_time.height,
            sender,
            item,
        ),
        ExecuteMsg::CompleteMission { mission_id, postscript } => try_complete_mission(
            state,
            block_time,
            sender,
            mission_id,
            postscript,
        ),
        ExecuteMsg::FailedMission { mission_id } => try_failed_mission(state, sender, mission_id),
    }
}

/// The administrator draws `amount` of `denom` from what is locked, or all of
/// it where no amount is given.
pub fn try_withdraw(state: &mut State, sender: String, denom: String, amount: Option<u128>) -> (result:
    ContractResult<Response>)
    requires
        old(state).wf(),
    ensures
        final(state).wf(),
        agrees(
            withdraw_step(old(state)@, sender@, denom@, amount),
            old(state)@,
            final(state)@,
            result,
        ),
{
    let admin: &String = state.config.as_ref();
    if !(sender == *admin) {
        return Err(ContractError::from(ExecuteError::Unauthorized { addr: sender }));
    }
    let balance = state.balances.total(&denom);
    if balance == 0 {
        return Err(ContractError::from(ExecuteError::NotFoundDenom { denom }));
    }
    let amount = match amount {
        Some(amount) => {
            if balance < amount {
                return Err(ContractError::from(ExecuteError::LackOfBalance { maximum: balance }));
            }
            amount
        },
        None => balance,
    };
    let bank_msg = Transfer { to_address: sender, coin: Coin { denom, amount } };
    Ok(
        Response::default().add_message(bank_msg).add_attribute(
            "method",
            String::from_str("try_withdraw"),
        ).add_attribute("amount", amount_text(amount)),
    )
}

/// `sender` creates the mission that `mission_item` describes, in the block at
/// `height`.
pub fn try_create_mission(
    state: &mut State,
    height: u64,
    sender: String,
    mission_item: CreateMissionItem,
) -> (result: ContractResult<Response>)
    requires
        old(state).wf(),
        old(state)@.missions.len() < u64::MAX,
    ensures
        final(state).wf(),
        agrees(
            create_mission_step(old(state)@, height, sender@, mission_item@),
            old(state)@,
            final(state)@,
            result,
        ),
{
    let mission = Mission::from(mission_item);
    let title = mission.title.clone();
    let coin = mission.coin.clone();
    match state.balances.increase(&coin.denom, coin.amount) {
        Ok(_) => {},
        Err(error) => {
            return Err(ContractError::from(error));
        },
    }
    let mission_id = state.missions.put(sender.clone(), mission.clone());
    state.recent.record(height, mission);
    Ok(
        Response::default().add_attribute(
            "method",
            String::from_str("try_create_mission"),
        ).add_attribute("sender", sender).add_attribute("title", title).add_attribute(
            "denom",
            coin.denom,
        ).add_attribute("amount", amount_text(coin.amount)).add_attribute(
            "mission_id",
            id_text(mission_id),
        ),
    )
}

/// `sender` completes its mission `mission_id` in the block `block_time`, with
/// the note `postscript`.
pub fn try_complete_mission(
    state: &mut State,
    block_time: BlockTime,
    sender: String,
    mission_id: u64,
    postscript: String,
) -> (result: ContractResult<Response>)
    requires
        old(state).wf(),
    ensures
        final(state).wf(),
        agrees(
            complete_mission_step(old(state)@, block_time.time, sender@, mission_id, postscript@),
            old(state)@,
            final(state)@,
            result,
        ),
{
    let response = Response::default().add_attribute(
        "method",
        String::from_str("try_complete_mission"),
    ).add_attribute("sender", sender.clone()).add_attribute("mission_id", id_text(mission_id));
    let mut mission = match state.missions.get(&sender, mission_id) {
        Ok(mission) => mission,
        Err(error) => {
            return Err(ContractError::from(error));
        },
    };
    if mission.is_expired(&block_time) {
        match state.missions.update(&sender, mission_id, mission) {
            Ok(_) => {},
            Err(error) => {
                return Err(ContractError::from(error));
            },
        }
        return Ok(response.add_attribute("status", Status::Failed.to_string()));
    }
    match mission.new_status(Status::Success) {
        Ok(_) => {},
        Err(error) => {
            return Err(ContractError::from(error));
        },
    }
    let refund_message = Transfer { to_address: sender.clone(), coin: mission.coin.clone() };
    match state.balances.decrease(&mission.coin.denom, mission.coin.amount) {
        Ok(_) => {},
        Err(error) => {
            return Err(ContractError::from(error));
        },
    }
    match state.missions.update(&sender, mission_id, mission) {
        Ok(_) => {},
        Err(error) => {
            return Err(ContractError::from(error));
        },
    }
    Ok(response.add_message(refund_message).add_attribute("postscript", postscript))
}

/// `sender` gives up its mission `mission_id`.
pub fn try_failed_mission(state: &mut State, sender: String, mission_id: u64) -> (result:
    ContractResult<Response>)
    requires
        old(state).wf(),
    ensures
        final(state).wf(),
        agrees(
            failed_mission_step(old(state)@, sender@, mission_id),
            old(state)@,
            final(state)@,
            result,
        ),
{
    let mut mission = match state.missions.get(&sender, mission_id) {
        Ok(mission) => mission,
        Err(error) => {
            return Err(ContractError::from(error));
        },
    };
    match mission.new_status(Status::Failed) {
        Ok(_) => {},
        Err(error) => {
            return Err(ContractError::from(error));
        },
    }
    match state.missions.update(&sender, mission_id, mission) {
        Ok(_) => {},
        Err(error) => {
            return Err(ContractError::from(error));
        },
    }
    Ok(
        Response::default().add_attribute(
            "method",
            String::from_str("try_failed_mission"),
        ).add_attribute("sender", sender).add_attribute("mission_id", id_text(mission_id)),
    )
}

} // verus!
