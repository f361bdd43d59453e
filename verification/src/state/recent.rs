//! The recently created missions: a bounded log of the missions as they were
//! created, each with the height of its block.
use vstd::prelude::*;
use super::mission::{Mission, MissionView};

verus! {

/// How many missions the log retains.
pub const RECENTLY_MISSION_LIMIT: usize = 100;

/// A mission as it was created, with the height of the block that created it.
#[derive(Debug, PartialEq, Eq)]
pub struct Snapshot {
    pub height: u64,
    pub mission: Mission,
}

/// What a [`Snapshot`] stands for in contracts.
pub struct SnapshotView {
    pub height: u64,
    pub mission: MissionView,
}

impl View for Snapshot {
    type V = SnapshotView;

    open spec fn view(&self) -> SnapshotView {
        SnapshotView { height: self.height, mission: self.mission@ }
    }
}

impl Clone for Snapshot {
    fn clone(&self) -> (entry: Snapshot)
        ensures
            entry@ == self@,
    {
        Snapshot { height: self.height, mission: self.mission.clone() }
    }
}

/// The `limit` entries of `history` that came last, in the order in which
/// they came; all of `history` where it has no more than `limit`.
pub open spec fn newest(history: Seq<SnapshotView>, limit: nat) -> Seq<SnapshotView> {
    if history.len() > limit {
        history.subrange(history.len() - limit, history.len() as int)
    } else {
        history
    }
}

/// The missions of `log` that were created at `height`, the one created last
/// first.
pub open spec fn missions_at(log: Seq<SnapshotView>, height: u64) -> Seq<MissionView>
    decreases log.len(),
{
    if log.len() == 0 {
        Seq::empty()
    } else if log[0].height == height {
        missions_at(log.drop_first(), height).push(log[0].mission)
    } else {
        missions_at(log.drop_first(), height)
    }
}

/// A mission that is recorded last comes first among those of its height.
pub proof fn lemma_missions_at_push(log: Seq<SnapshotView>, entry: SnapshotView, height: u64)
    ensures
        missions_at(log.push(entry), height) == if entry.height == height {
            seq![entry.mission] + missions_at(log, height)
        } else {
            missions_at(log, height)
        },
    decreases log.len(),
{
    let longer = log.push(entry);
    if log.len() == 0 {
        assert(longer.drop_first() =~= Seq::empty());
        assert(missions_at(longer.drop_first(), height) =~= Seq::empty());
        assert(missions_at(log, height) =~= Seq::empty());
        assert(missions_at(longer, height) =~= if entry.height == height {
            seq![entry.mission] + missions_at(log, height)
        } else {
            missions_at(log, height)
        });
    } else {
        lemma_missions_at_push(log.drop_first(), entry, height);
        assert(longer.drop_first() =~= log.drop_first().push(entry));
        assert(missions_at(longer, height) =~= if entry.height == height {
            seq![entry.mission] + missions_at(log, height)
        } else {
            missions_at(log, height)
        });
    }
}

/// The log of recently created missions, in the order of their creation.
pub struct RecentlyMissionList {
    entries: Vec<Snapshot>,
}

impl View for RecentlyMissionList {
    type V = Seq<SnapshotView>;

    closed spec fn view(&self) -> Seq<SnapshotView> {
        self.entries@.map_values(|entry: Snapshot| entry@)
    }
}

impl RecentlyMissionList {
    /// The invariant of the log: it retains no more than the limit.
    pub open spec fn wf(&self) -> bool {
        self@.len() <= RECENTLY_MISSION_LIMIT
    }

    /// The log without entries.
    pub fn new() -> (log: RecentlyMissionList)
        ensures
            log.wf(),
            log@ == Seq::<SnapshotView>::empty(),
    {
        let log = RecentlyMissionList { entries: Vec::new() };
        assert(log@ =~= Seq::<SnapshotView>::empty());
        log
    }

    /// How many missions the log retains.
    pub fn len(&self) -> (len: usize)
        ensures
            len == self@.len(),
    {
        self.entries.len()
    }

    /// The retained missions with their heights, in the order of their
    /// creation.
    pub fn entries(&self) -> (entries: Vec<Snapshot>)
        ensures
            entries@.map_values(|entry: Snapshot| entry@) == self@,
    {
        let mut entries: Vec<Snapshot> = Vec::new();
        for i in 0..self.entries.len()
            invariant
                entries@.len() == i,
                forall|j: int| 0 <= j < i ==> entries@[j]@ == self.entries@[j]@,
        {
            entries.push(self.entries[i].clone());
        }
        assert(entries@.map_values(|entry: Snapshot| entry@) =~= self@);
        entries
    }

    /// Records `mission` as created at `height`, and drops the oldest entries
    /// until no more than the limit are left.
    pub fn record(&mut self, height: u64, mission: Mission)
        ensures
            final(self).wf(),
            final(self)@ == newest(
                old(self)@.push(SnapshotView { height, mission: mission@ }),
                RECENTLY_MISSION_LIMIT as nat,
            ),
    {
        self.entries.push(Snapshot { height, mission });
        let ghost history = self@;
        assert(history =~= old(self)@.push(SnapshotView { height, mission: mission@ }));
        while self.entries.len() > RECENTLY_MISSION_LIMIT
            invariant
                self@.len() == self.entries@.len(),
                self@.len() <= history.len(),
                self@.len() >= RECENTLY_MISSION_LIMIT || self@.len() == history.len(),
                self@ == history.subrange(history.len() - self@.len(), history.len() as int),
            decreases self.entries@.len(),
        {
            let ghost before = self@;
            self.entries.remove(0);
            assert(self@ =~= before.drop_first());
            assert(self@ =~= history.subrange(
                history.len() - self@.len(),
                history.len() as int,
            ));
        }
        assert(history.subrange(0, history.len() as int) =~= history);
    }

    /// The missions that the log retains of those created at `height`, the one
    /// created last first.
    pub fn at_height(&self, height: u64) -> (missions: Vec<Mission>)
        ensures
            missions@.map_values(|mission: Mission| mission@) == missions_at(self@, height),
    {
        let mut missions: Vec<Mission> = Vec::new();
        let mut i: usize = self.entries.len();
        assert(self@.subrange(i as int, self@.len() as int) =~= Seq::empty());
        assert(missions@.map_values(|mission: Mission| mission@) =~= Seq::empty());
        while i > 0
            invariant
                i <= self@.len(),
                self@.len() == self.entries@.len(),
                missions@.map_values(|mission: Mission| mission@) == missions_at(
                    self@.subrange(i as int, self@.len() as int),
                    height,
                ),
            decreases i,
        {
            i -= 1;
            let ghost tail = self@.subrange(i as int, self@.len() as int);
            assert(tail.drop_first() =~= self@.subrange(i + 1, self@.len() as int));
            assert(tail[0] == self.entries@[i as int]@);
            if self.entries[i].height == height {
                let ghost before = missions@;
                missions.push(self.entries[i].mission.clone());
                assert(missions@.map_values(|mission: Mission| mission@)
                    =~= before.map_values(|mission: Mission| mission@).push(
                    self.entries@[i as int].mission@,
                ));
            }
        }
        assert(self@.subrange(0, self@.len() as int) =~= self@);
        missions
    }
}

} // verus!
