//! The messages that the contract takes and answers.
use vstd::prelude::*;
use crate::coin::{Coin, CoinView};
use crate::state::mission::{MissionView, Status};

verus! {

/// A request that changes the state.
#[derive(Debug, PartialEq, Eq)]
pub enum ExecuteMsg {
    /// The administrator draws `amount` of `denom`, or all of it.
    Withdraw { denom: String, amount: Option<u128> },
    /// The sender creates a mission.
    CreateMission(CreateMissionItem),
    /// The sender completes its mission `mission_id`.
    CompleteMission { mission_id: u64, postscript: String },
    /// The sender gives up its mission `mission_id`.
    FailedMission { mission_id: u64 },
}

/// What a new mission is made of.
#[derive(Debug, PartialEq, Eq)]
pub struct CreateMissionItem {
    pub title: String,
    pub coin: Coin,
    pub ends_at: u64,
}

/// A request that reads the state.
#[derive(Debug, PartialEq, Eq)]
pub enum QueryMsg {
    GetBalanceList { denom: Option<Vec<String>> },
    GetMissionList {
        address: Option<Vec<String>>,
        status: Option<Vec<Status>>,
        denom: Option<Vec<String>>,
        limit: Option<usize>,
        offset: Option<usize>,
    },
    GetRecentlyMissionList { limit: Option<usize> },
}

/// How many missions were created.
#[derive(Clone, Copy, Debug, PartialEq, Eq, Structural)]
pub struct CountResponse {
    pub count: u64,
}

/// What a [`CreateMissionItem`] stands for in contracts.
pub struct CreateMissionItemView {
    pub title: Seq<char>,
    pub coin: CoinView,
    pub ends_at: u64,
}

impl CreateMissionItemView {
    /// The open mission that is made of this item.
    pub open spec fn mission(self) -> MissionView {
        MissionView {
            title: self.title,
            coin: self.coin,
            status: Status::Open,
            ends_at: self.ends_at,
            postscript: None,
        }
    }
}

impl View for CreateMissionItem {
    type V = CreateMissionItemView;

    open spec fn view(&self) -> CreateMissionItemView {
        CreateMissionItemView { title: self.title@, coin: self.coin@, ends_at: self.ends_at }
    }
}

impl Clone for CreateMissionItem {
    fn clone(&self) -> (item: CreateMissionItem)
        ensures
            item@ == self@,
    {
        CreateMissionItem {
            title: self.title.clone(),
            coin: self.coin.clone(),
            ends_at: self.ends_at,
        }
    }
}

/// What an [`ExecuteMsg`] stands for in contracts.
pub enum ExecuteMsgView {
    Withdraw { denom: Seq<char>, amount: Option<u128> },
    CreateMission(CreateMissionItemView),
    CompleteMission { mission_id: u64, postscript: Seq<char> },
    FailedMission { mission_id: u64 },
}

impl View for ExecuteMsg {
    type V = ExecuteMsgView;

    open spec fn view(&self) -> ExecuteMsgView {
        match self {
            ExecuteMsg::Withdraw { denom, amount } => ExecuteMsgView::Withdraw {
                denom: denom@,
                amount: *amount,
            },
            ExecuteMsg::CreateMission(item) => ExecuteMsgView::CreateMission(item@),
            ExecuteMsg::CompleteMission { mission_id, postscript } => {
                ExecuteMsgView::CompleteMission {
                    mission_id: *mission_id,
                    postscript: postscript@,
                }
            },
            ExecuteMsg::FailedMission { mission_id } => ExecuteMsgView::FailedMission {
                mission_id: *mission_id,
            },
        }
    }
}

impl Clone for ExecuteMsg {
    fn clone(&self) -> (msg: ExecuteMsg)
        ensures
            msg@ == self@,
    {
        match self {
            ExecuteMsg::Withdraw { denom, amount } => ExecuteMsg::Withdraw {
                denom: denom.clone(),
                amount: *amount,
            },
            ExecuteMsg::CreateMission(item) => ExecuteMsg::CreateMission(item.clone()),
            ExecuteMsg::CompleteMission { mission_id, postscript } => {
                ExecuteMsg::CompleteMission {
                    mission_id: *mission_id,
                    postscript: postscript.clone(),
                }
            },
            ExecuteMsg::FailedMission { mission_id } => ExecuteMsg::FailedMission {
                mission_id: *mission_id,
            },
        }
    }
}

impl Clone for QueryMsg {
    fn clone(&self) -> (msg: QueryMsg) {
        match self {
            QueryMsg::GetBalanceList { denom } => QueryMsg::GetBalanceList { denom: denom.clone() },
            QueryMsg::GetMissionList { address, status, denom, limit, offset } => {
                QueryMsg::GetMissionList {
                    address: address.clone(),
                    status: status.clone(),
                    denom: denom.clone(),
                    limit: *limit,
                    offset: *offset,
                }
            },
            QueryMsg::GetRecentlyMissionList { limit } => QueryMsg::GetRecentlyMissionList {
                limit: *limit,
            },
        }
    }
}

} // verus!
