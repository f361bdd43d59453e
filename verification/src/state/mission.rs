//! A mission and its status.
use vstd::prelude::*;
use vstd::std_specs::convert::FromSpecImpl;
use vstd::string::StringExecFns;
use crate::block::BlockTime;
use crate::coin::{Coin, CoinView};
use crate::msg::CreateMissionItem;
use super::error::StateError;

verus! {

/// Where a mission stands. `Open` is the initial status; the other two are
/// terminal.
#[derive(Clone, Copy, Debug, PartialEq, Eq, Structural)]
pub enum Status {
    /// The coin is locked.
    Open,
    /// The coin was refunded to the creator.
    Success,
    /// The coin is kept.
    Failed,
}

impl Status {
    /// The name of the status in lower case.
    pub open spec fn text(self) -> Seq<char> {
        match self {
            Status::Open => "open"@,
            Status::Success => "success"@,
            Status::Failed => "failed"@,
        }
    }

    /// The number that stands for the status where it is stored or sent.
    pub open spec fn code(self) -> u8 {
        match self {
            Status::Open => 0,
            Status::Success => 1,
            Status::Failed => 2,
        }
    }

    /// The name of the status in lower case.
    pub fn as_str(&self) -> (text: &'static str)
        ensures
            text@ == self.text(),
    {
        match self {
            Status::Open => "open",
            Status::Success => "success",
            Status::Failed => "failed",
        }
    }

    /// The name of the status in lower case.
    pub fn to_string(&self) -> (text: String)
        ensures
            text@ == self.text(),
    {
        String::from_str(self.as_str())
    }

    /// The number that stands for the status where it is stored or sent.
    pub fn repr(&self) -> (code: u8)
        ensures
            code == self.code(),
    {
        match self {
            Status::Open => 0,
            Status::Success => 1,
            Status::Failed => 2,
        }
    }

    /// The status that `code` stands for, if it stands for one.
    pub fn from_repr(code: u8) -> (status: Option<Status>)
        ensures
            match status {
                Some(status) => status.code() == code,
                None => code > 2,
            },
    {
        if code == 0 {
            Some(Status::Open)
        } else if code == 1 {
            Some(Status::Success)
        } else if code == 2 {
            Some(Status::Failed)
        } else {
            None
        }
    }
}

impl Default for Status {
    fn default() -> (status: Status)
        ensures
            status == Status::Open,
    {
        Status::Open
    }
}

/// A bounty: a coin locked until the deadline `ends_at`.
#[derive(Debug, PartialEq, Eq)]
pub struct Mission {
    pub title: String,
    pub coin: Coin,
    pub status: Status,
    /// Deadline in seconds. A mission that is completed after it counts as
    /// `Status::Failed`.
    pub ends_at: u64,
    pub postscript: Option<String>,
}

/// What a [`Mission`] stands for in contracts.
pub struct MissionView {
    pub title: Seq<char>,
    pub coin: CoinView,
    pub status: Status,
    pub ends_at: u64,
    pub postscript: Option<Seq<char>>,
}

impl View for Mission {
    type V = MissionView;

    open spec fn view(&self) -> MissionView {
        MissionView {
            title: self.title@,
            coin: self.coin@,
            status: self.status,
            ends_at: self.ends_at,
            postscript: match self.postscript {
                Some(text) => Some(text@),
                None => None,
            },
        }
    }
}

impl Clone for Mission {
    fn clone(&self) -> (mission: Mission)
        ensures
            mission@ == self@,
    {
        Mission {
            title: self.title.clone(),
            coin: self.coin.clone(),
            status: self.status,
            ends_at: self.ends_at,
            postscript: match &self.postscript {
                Some(text) => Some(text.clone()),
                None => None,
            },
        }
    }
}

impl MissionView {
    /// Whether the deadline lies strictly before `time`.
    pub open spec fn expired_at(self, time: u64) -> bool {
        self.ends_at < time
    }

    /// Whether the state machine has the transition from this mission's status
    /// to `target`.
    pub open spec fn can_become(self, target: Status) -> bool {
        self.status == Status::Open && target != Status::Open
    }

    /// This mission with status `status`.
    pub open spec fn with_status(self, status: Status) -> MissionView {
        MissionView { status, ..self }
    }

    /// This mission after an evaluation of its deadline at `time`: an open mission
    /// whose deadline has passed has failed.
    pub open spec fn settled_at(self, time: u64) -> MissionView {
        if self.expired_at(time) && self.status == Status::Open {
            self.with_status(Status::Failed)
        } else {
            self
        }
    }
}

impl Mission {
    /// An open mission without a postscript.
    pub fn new(title: String, coin: Coin, ends_at: u64) -> (mission: Mission)
        ensures
            mission == (Mission { title, coin, status: Status::Open, ends_at, postscript: None }),
            mission@ == (MissionView {
                title: title@,
                coin: coin@,
                status: Status::Open,
                ends_at,
                postscript: None,
            }),
    {
        Mission { title, coin, status: Status::Open, ends_at, postscript: None }
    }

    /// Moves the mission to `new_status`. Only an open mission moves, and only to
    /// a terminal status; any other request is an error and changes nothing.
    pub fn new_status(&mut self, new_status: Status) -> (result: Result<&mut Self, StateError>)
        ensures
            match result {
                Ok(mission) => old(self)@.can_become(new_status)
                    && mission@ == old(self)@.with_status(new_status)
                    && *final(self) == *final(mission),
                Err(error) => !old(self)@.can_become(new_status)
                    && error == (StateError::InvalidStatusChangeRequest {
                        current: old(self).status,
                        target: new_status,
                    })
                    && *final(self) == *old(self),
            },
    {
        if self.status != Status::Open {
            return Err(
                StateError::InvalidStatusChangeRequest { current: self.status, target: new_status },
            );
        }
        match new_status {
            Status::Success | Status::Failed => {
                self.status = new_status;
            },
            Status::Open => {
                return Err(
                    StateError::InvalidStatusChangeRequest {
                        current: self.status,
                        target: new_status,
                    },
                );
            },
        }
        Ok(self)
    }

    /// Whether the deadline lies strictly before the block's time. If it does,
    /// an open mission fails.
    pub fn is_expired(&mut self, block_time: &BlockTime) -> (expired: bool)
        ensures
            expired == old(self)@.expired_at(block_time.time),
            final(self)@ == old(self)@.settled_at(block_time.time),
    {
        let is_expired = self.ends_at < block_time.time;
        if is_expired {
            let _ = self.new_status(Status::Failed);
        }
        is_expired
    }
}

impl From<CreateMissionItem> for Mission {
    fn from(item: CreateMissionItem) -> (mission: Mission) {
        Mission::new(item.title, item.coin, item.ends_at)
    }
}

impl FromSpecImpl<CreateMissionItem> for Mission {
    open spec fn obeys_from_spec() -> bool {
        true
    }

    open spec fn from_spec(item: CreateMissionItem) -> Mission {
        Mission {
            title: item.title,
            coin: item.coin,
            status: Status::Open,
            ends_at: item.ends_at,
            postscript: None,
        }
    }
}

} // verus!
