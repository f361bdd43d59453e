//! The durable state: missions, locked balances, recent missions, configuration.
use vstd::prelude::*;
use self::balance::BalanceLedger;
use self::config::Config;
use self::recent::{RecentlyMissionList, SnapshotView};
use self::store::{MissionStore, StoredMissionView};

pub mod balance;
pub mod config;
pub mod error;
pub mod mission;
pub mod recent;
pub mod store;

verus! {

/// Everything that the contract keeps between operations.
pub struct State {
    pub config: Config,
    pub missions: MissionStore,
    pub balances: BalanceLedger,
    pub recent: RecentlyMissionList,
}

/// What a [`State`] stands for in contracts.
pub struct StateView {
    /// The address of the administrator.
    pub admin: Seq<char>,
    /// The missions in the order of their creation; the mission at place `i`
    /// has the identifier `i + 1`.
    pub missions: Seq<StoredMissionView>,
    /// The locked total of each denomination that has an entry.
    pub balances: Map<Seq<char>, nat>,
    /// The recently created missions in the order of their creation.
    pub recent: Seq<SnapshotView>,
}

impl View for State {
    type V = StateView;

    open spec fn view(&self) -> StateView {
        StateView {
            admin: self.config.admin@,
            missions: self.missions@,
            balances: self.balances@,
            recent: self.recent@,
        }
    }
}

impl StateView {
    /// The state of a contract that `admin` administers and that has seen no
    /// operation yet.
    pub open spec fn initial(admin: Seq<char>) -> StateView {
        StateView { admin, missions: Seq::empty(), balances: Map::empty(), recent: Seq::empty() }
    }
}

impl State {
    /// The invariant of the state: that of the ledger and that of the log.
    pub open spec fn wf(&self) -> bool {
        self.balances.wf() && self.recent.wf()
    }

    /// The state of a contract that `admin` administers and that has seen no
    /// operation yet.
    pub fn new(admin: String) -> (state: State)
        ensures
            state.wf(),
            state@ == StateView::initial(admin@),
    {
        State {
            config: Config::new(admin),
            missions: MissionStore::new(),
            balances: BalanceLedger::new(),
            recent: RecentlyMissionList::new(),
        }
    }
}

} // verus!
