//! The mission store: every mission that was ever created, under the
//! identifier it was given and the address of its creator.
use vstd::prelude::*;
use crate::contract::error::{ExecuteError, ExecuteErrorView};
use super::mission::{Mission, MissionView};

verus! {

/// A mission with the address that created it.
#[derive(Debug, PartialEq, Eq)]
pub struct StoredMission {
    pub creator: String,
    pub mission: Mission,
}

/// What a [`StoredMission`] stands for in contracts.
pub struct StoredMissionView {
    pub creator: Seq<char>,
    pub mission: MissionView,
}

impl View for StoredMission {
    type V = StoredMissionView;

    open spec fn view(&self) -> StoredMissionView {
        StoredMissionView { creator: self.creator@, mission: self.mission@ }
    }
}

impl Clone for StoredMission {
    fn clone(&self) -> (entry: StoredMission)
        ensures
            entry@ == self@,
    {
        StoredMission { creator: self.creator.clone(), mission: self.mission.clone() }
    }
}

/// Whether `missions` holds a mission under the key of `creator` and `id`.
/// Identifiers count from one, in the order of creation, over all creators.
pub open spec fn has_mission(missions: Seq<StoredMissionView>, creator: Seq<char>, id: u64) -> bool {
    1 <= id <= missions.len() && missions[id - 1].creator == creator
}

/// The mission that `missions` holds under the identifier `id`.
pub open spec fn mission_of(missions: Seq<StoredMissionView>, id: u64) -> MissionView
    recommends
        1 <= id <= missions.len(),
{
    missions[id - 1].mission
}

/// `missions` with `mission` in place of the one under the identifier `id`.
pub open spec fn with_mission(
    missions: Seq<StoredMissionView>,
    id: u64,
    mission: MissionView,
) -> Seq<StoredMissionView>
    recommends
        1 <= id <= missions.len(),
{
    missions.update(id - 1, StoredMissionView { creator: missions[id - 1].creator, mission })
}

/// The missions in the order of their creation. Nothing is ever removed.
pub struct MissionStore {
    entries: Vec<StoredMission>,
}

impl View for MissionStore {
    type V = Seq<StoredMissionView>;

    closed spec fn view(&self) -> Seq<StoredMissionView> {
        self.entries@.map_values(|entry: StoredMission| entry@)
    }
}

impl MissionStore {
    /// The store without missions.
    pub fn new() -> (store: MissionStore)
        ensures
            store@ == Seq::<StoredMissionView>::empty(),
    {
        let store = MissionStore { entries: Vec::new() };
        assert(store@ =~= Seq::<StoredMissionView>::empty());
        store
    }

    /// How many missions were created, which is the identifier that was given
    /// last.
    pub fn count(&self) -> (count: u64)
        ensures
            count == self@.len(),
    {
        self.entries.len() as u64
    }

    /// The missions with their creators, in the order of their creation.
    pub fn entries(&self) -> (entries: Vec<StoredMission>)
        ensures
            entries@.map_values(|entry: StoredMission| entry@) == self@,
    {
        let mut entries: Vec<StoredMission> = Vec::new();
        for i in 0..self.entries.len()
            invariant
                entries@.len() == i,
                forall|j: int| 0 <= j < i ==> entries@[j]@ == self.entries@[j]@,
        {
            entries.push(self.entries[i].clone());
        }
        assert(entries@.map_values(|entry: StoredMission| entry@) =~= self@);
        entries
    }

    /// Stores `mission` for `creator` under the next identifier, and returns
    /// that identifier.
    pub fn put(&mut self, creator: String, mission: Mission) -> (id: u64)
        requires
            old(self)@.len() < u64::MAX,
        ensures
            id == old(self)@.len() + 1,
            final(self)@ == old(self)@.push(
                StoredMissionView { creator: creator@, mission: mission@ },
            ),
    {
        let id = self.entries.len() as u64 + 1;
        self.entries.push(StoredMission { creator, mission });
        assert(self@ =~= old(self)@.push(
            StoredMissionView { creator: creator@, mission: mission@ },
        ));
        id
    }

    /// The mission of `creator` with the identifier `id`.
    pub fn get(&self, creator: &String, id: u64) -> (result: Result<Mission, ExecuteError>)
        ensures
            match result {
                Ok(mission) => has_mission(self@, creator@, id) && mission@ == mission_of(
                    self@,
                    id,
                ),
                Err(error) => !has_mission(self@, creator@, id) && error@
                    == (ExecuteErrorView::NotFoundMission { sender: creator@, index: id }),
            },
    {
        if 1 <= id && id - 1 < self.entries.len() as u64 {
            let entry = &self.entries[(id - 1) as usize];
            if entry.creator == *creator {
                return Ok(entry.mission.clone());
            }
        }
        Err(ExecuteError::NotFoundMission { sender: creator.clone(), index: id })
    }

    /// Puts `mission` in place of the mission of `creator` with the identifier
    /// `id`. Where there is none the store stays as it is.
    pub fn update(&mut self, creator: &String, id: u64, mission: Mission) -> (result: Result<
        (),
        ExecuteError,
    >)
        ensures
            match result {
                Ok(_) => has_mission(old(self)@, creator@, id) && final(self)@ == with_mission(
                    old(self)@,
                    id,
                    mission@,
                ),
                Err(error) => !has_mission(old(self)@, creator@, id) && error@
                    == (ExecuteErrorView::NotFoundMission { sender: creator@, index: id })
                    && final(self)@ == old(self)@,
            },
    {
        if 1 <= id && id - 1 < self.entries.len() as u64 {
            let place = (id - 1) as usize;
            if self.entries[place].creator == *creator {
                self.entries[place].mission = mission;
                assert(self@ =~= with_mission(old(self)@, id, mission@));
                return Ok(());
            }
        }
        Err(ExecuteError::NotFoundMission { sender: creator.clone(), index: id })
    }
}

} // verus!
