//! The operations that read the state.
use vstd::prelude::*;
use crate::coin::{Coin, CoinView};
use crate::msg::{CountResponse, QueryMsg};
use crate::state::balance::total_of;
use crate::state::mission::{Mission, MissionView, Status};
use crate::state::recent::SnapshotView;
use crate::state::store::{StoredMission, StoredMissionView};
use crate::state::State;

verus! {

/// A mission with its key, as the list of missions shows it.
#[derive(Debug, PartialEq, Eq)]
pub struct MissionListItem {
    pub mission_id: u64,
    pub creator: String,
    pub mission: Mission,
}

/// What a [`MissionListItem`] stands for in contracts.
pub struct MissionListItemView {
    pub mission_id: nat,
    pub creator: Seq<char>,
    pub mission: MissionView,
}

impl View for MissionListItem {
    type V = MissionListItemView;

    open spec fn view(&self) -> MissionListItemView {
        MissionListItemView {
            mission_id: self.mission_id as nat,
            creator: self.creator@,
            mission: self.mission@,
        }
    }
}

/// The answer to a query.
#[derive(Debug, PartialEq, Eq)]
pub enum QueryResponse {
    BalanceList(Vec<Coin>),
    MissionList(Vec<MissionListItem>),
    RecentlyMissionList(Vec<Mission>),
}

/// The texts of `list`.
pub open spec fn texts(list: Vec<String>) -> Seq<Seq<char>> {
    list@.map_values(|text: String| text@)
}

/// The texts of `list`, where there is a list.
pub open spec fn optional_texts(list: Option<Vec<String>>) -> Option<Seq<Seq<char>>> {
    match list {
        Some(list) => Some(texts(list)),
        None => None,
    }
}

/// The statuses of `list`, where there is a list.
pub open spec fn optional_statuses(list: Option<Vec<Status>>) -> Option<Seq<Status>> {
    match list {
        Some(list) => Some(list@),
        None => None,
    }
}

/// Which missions a list of missions shows: a filter that is absent lets
/// every mission pass.
pub struct MissionFilter {
    pub address: Option<Seq<Seq<char>>>,
    pub status: Option<Seq<Status>>,
    pub denom: Option<Seq<Seq<char>>>,
}

impl MissionFilter {
    /// Whether `entry` passes each filter that is present: its creator is
    /// among the addresses, its status among the statuses, the denomination
    /// of its coin among the denominations.
    pub open spec fn passes(self, entry: StoredMissionView) -> bool {
        &&& self.address matches Some(addresses) ==> addresses.contains(entry.creator)
        &&& self.status matches Some(statuses) ==> statuses.contains(entry.mission.status)
        &&& self.denom matches Some(denoms) ==> denoms.contains(entry.mission.coin.denom)
    }
}

/// The missions of `missions` that pass `filter`, each with its identifier,
/// in the order of their creation.
pub open spec fn selected(missions: Seq<StoredMissionView>, filter: MissionFilter) -> Seq<
    MissionListItemView,
>
    decreases missions.len(),
{
    if missions.len() == 0 {
        Seq::empty()
    } else if filter.passes(missions.last()) {
        selected(missions.drop_last(), filter).push(
            MissionListItemView {
                mission_id: missions.len(),
                creator: missions.last().creator,
                mission: missions.last().mission,
            },
        )
    } else {
        selected(missions.drop_last(), filter)
    }
}

/// The part of `items` that begins after the first `offset` of them (after
/// none, without an offset) and has no more than `limit` (all that follow,
/// without a limit).
pub open spec fn page<T>(items: Seq<T>, offset: Option<usize>, limit: Option<usize>) -> Seq<T> {
    let start = match offset {
        Some(offset) if offset < items.len() => offset as int,
        Some(_) => items.len() as int,
        None => 0,
    };
    let end = match limit {
        Some(limit) if start + limit < items.len() => start + limit,
        _ => items.len() as int,
    };
    items.subrange(start, end)
}

/// The missions of `recent` from the one created last backwards, no more than
/// `limit` of them (all, without a limit).
pub open spec fn newest_first(recent: Seq<SnapshotView>, limit: Option<usize>) -> Seq<
    MissionView,
> {
    let count = match limit {
        Some(limit) if limit < recent.len() => limit as nat,
        _ => recent.len(),
    };
    Seq::new(count, |i: int| recent[recent.len() - 1 - i].mission)
}

/// The locked total of each denomination of `denoms`, in their order.
pub open spec fn totals_of(balances: Map<Seq<char>, nat>, denoms: Seq<Seq<char>>) -> Seq<
    CoinView,
> {
    Seq::new(
        denoms.len(),
        |i: int| CoinView { denom: denoms[i], amount: total_of(balances, denoms[i]) },
    )
}

/// Whether `coins` answer a query for the locked totals: the totals of
/// `denoms` in their order, or, without such a list, the entries of the
/// ledger, each once.
pub open spec fn is_balance_list(
    coins: Seq<CoinView>,
    balances: Map<Seq<char>, nat>,
    denoms: Option<Seq<Seq<char>>>,
) -> bool {
    match denoms {
        Some(denoms) => coins == totals_of(balances, denoms),
        None => {
            &&& forall|i: int, j: int| 0 <= i < j < coins.len() ==> coins[i].denom != coins[j].denom
            &&& forall|i: int|
                0 <= i < coins.len() ==> balances.contains_key(#[trigger] coins[i].denom)
                    && balances[coins[i].denom] == coins[i].amount
            &&& forall|text: Seq<char>|
                balances.contains_key(text) ==> exists|i: int|
                    0 <= i < coins.len() && coins[i].denom == text
        },
    }
}

/// How many missions were created so far.
pub fn query_count(state: &State) -> (response: CountResponse)
    ensures
        response.count == state@.missions.len(),
{
    CountResponse { count: state.missions.count() }
}

/// The locked totals: of the denominations of `denom` in their order, or,
/// without such a list, of every denomination that has an entry in the
/// ledger, each once.
pub fn query_balance_list(state: &State, denom: Option<Vec<String>>) -> (coins: Vec<Coin>)
    requires
        state.wf(),
    ensures
        is_balance_list(
            coins@.map_values(|coin: Coin| coin@),
            state@.balances,
            optional_texts(denom),
        ),
{
    let mut coins: Vec<Coin> = Vec::new();
    match denom {
        Some(denoms) => {
            for i in 0..denoms.len()
                invariant
                    state.wf(),
                    coins@.len() == i,
                    forall|j: int|
                        0 <= j < i ==> coins@[j]@ == (CoinView {
                            denom: denoms@[j]@,
                            amount: total_of(state@.balances, denoms@[j]@),
                        }),
            {
                let amount = state.balances.total(&denoms[i]);
                coins.push(Coin { denom: denoms[i].clone(), amount });
            }
            assert(coins@.map_values(|coin: Coin| coin@) =~= totals_of(
                state@.balances,
                texts(denoms),
            ));
        },
        None => {
            let entries = state.balances.entries();
            for i in 0..entries.len()
                invariant
                    coins@.len() == i,
                    forall|j: int|
                        0 <= j < i ==> coins@[j].denom@ == entries@[j].denom@ && coins@[j].amount
                            == entries@[j].amount,
            {
                coins.push(Coin { denom: entries[i].denom.clone(), amount: entries[i].amount });
            }
            proof {
                assert forall|i: int| 0 <= i < coins@.len() implies state@.balances.contains_key(
                    #[trigger] coins@[i].denom@,
                ) && state@.balances[coins@[i].denom@] == coins@[i].amount by {
                    assert(state@.balances.contains_key(entries@[i].denom@));
                }
                assert forall|text: Seq<char>|
                    state@.balances.contains_key(text) implies exists|i: int|
                    0 <= i < coins@.len() && coins@[i].denom@ == text by {
                    let i = choose|i: int| 0 <= i < entries@.len() && entries@[i].denom@ == text;
                    assert(coins@[i].denom@ == text);
                }
                let views = coins@.map_values(|coin: Coin| coin@);
                assert forall|i: int| 0 <= i < views.len() implies state@.balances.contains_key(
                    #[trigger] views[i].denom,
                ) && state@.balances[views[i].denom] == views[i].amount by {
                    assert(state@.balances.contains_key(coins@[i].denom@));
                }
                assert forall|text: Seq<char>|
                    state@.balances.contains_key(text) implies exists|i: int|
                    0 <= i < views.len() && views[i].denom == text by {
                    let i = choose|i: int| 0 <= i < coins@.len() && coins@[i].denom@ == text;
                    assert(views[i].denom == text);
                }
            }
        },
    }
    coins
}

fn has_text(list: &Vec<String>, text: &String) -> (found: bool)
    ensures
        found == texts(*list).contains(text@),
{
    for i in 0..list.len()
        invariant
            forall|j: int| 0 <= j < i ==> list@[j]@ != text@,
    {
        if list[i] == *text {
            assert(texts(*list)[i as int] == text@);
            return true;
        }
    }
    assert forall|j: int| 0 <= j < texts(*list).len() implies texts(*list)[j] != text@ by {
        assert(texts(*list)[j] == list@[j]@);
    }
    false
}

fn has_status(list: &Vec<Status>, status: Status) -> (found: bool)
    ensures
        found == list@.contains(status),
{
    for i in 0..list.len()
        invariant
            forall|j: int| 0 <= j < i ==> list@[j] != status,
    {
        if list[i] == status {
            return true;
        }
    }
    false
}

fn passes_filter(
    entry: &StoredMission,
    address: &Option<Vec<String>>,
    status: &Option<Vec<Status>>,
    denom: &Option<Vec<String>>,
) -> (passes: bool)
    ensures
        passes == (MissionFilter {
            address: optional_texts(*address),
            status: optional_statuses(*status),
            denom: optional_texts(*denom),
        }).passes(entry@),
{
    let by_address = match address {
        Some(addresses) => has_text(addresses, &entry.creator),
        None => true,
    };
    let by_status = match status {
        Some(statuses) => has_status(statuses, entry.mission.status),
        None => true,
    };
    let by_denom = match denom {
        Some(denoms) => has_text(denoms, &entry.mission.coin.denom),
        None => true,
    };
    by_address && by_status && by_denom
}

/// The missions that pass the filters `address`, `status` and `denom`, in the
/// order of their creation: those after the first `offset` of them, and no
/// more than `limit`.
pub fn query_mission_list(
    state: &State,
    address: Option<Vec<String>>,
    status: Option<Vec<Status>>,
    denom: Option<Vec<String>>,
    limit: Option<usize>,
    offset: Option<usize>,
) -> (items: Vec<MissionListItem>)
    ensures
        items@.map_values(|item: MissionListItem| item@) == page(
            selected(
                state@.missions,
                MissionFilter {
                    address: optional_texts(address),
                    status: optional_statuses(status),
                    denom: optional_texts(denom),
                },
            ),
            offset,
            limit,
        ),
{
    let ghost filter = MissionFilter {
        address: optional_texts(address),
        status: optional_statuses(status),
        denom: optional_texts(denom),
    };
    let entries = state.missions.entries();
    let ghost missions = state@.missions;
    assert(missions.len() == entries@.len());
    let mut matches: Vec<MissionListItem> = Vec::new();
    assert(missions.take(0) =~= Seq::empty());
    assert(matches@.map_values(|item: MissionListItem| item@) =~= Seq::empty());
    for i in 0..entries.len()
        invariant
            missions == entries@.map_values(|entry: StoredMission| entry@),
            filter == (MissionFilter {
                address: optional_texts(address),
                status: optional_statuses(status),
                denom: optional_texts(denom),
            }),
            matches@.map_values(|item: MissionListItem| item@) == selected(
                missions.take(i as int),
                filter,
            ),
    {
        let ghost before = matches@;
        let ghost longer = missions.take(i + 1);
        assert(longer.drop_last() =~= missions.take(i as int));
        assert(longer.last() == entries@[i as int]@);
        if passes_filter(&entries[i], &address, &status, &denom) {
            matches.push(
                MissionListItem {
                    mission_id: i as u64 + 1,
                    creator: entries[i].creator.clone(),
                    mission: entries[i].mission.clone(),
                },
            );
            assert(matches@.map_values(|item: MissionListItem| item@) =~= before.map_values(
                |item: MissionListItem| item@,
            ).push(
                MissionListItemView {
                    mission_id: longer.len(),
                    creator: longer.last().creator,
                    mission: longer.last().mission,
                },
            ));
        }
    }
    assert(missions.take(entries@.len() as int) =~= missions);
    let start = match offset {
        Some(offset) => if offset < matches.len() {
            offset
        } else {
            matches.len()
        },
        None => 0,
    };
    let end = match limit {
        Some(limit) => if limit < matches.len() - start {
            start + limit
        } else {
            matches.len()
        },
        None => matches.len(),
    };
    let mut items: Vec<MissionListItem> = Vec::new();
    for i in start..end
        invariant
            start <= end <= matches@.len(),
            items@.len() == i - start,
            forall|j: int| 0 <= j < i - start ==> items@[j]@ == matches@[start + j]@,
    {
        items.push(
            MissionListItem {
                mission_id: matches[i].mission_id,
                creator: matches[i].creator.clone(),
                mission: matches[i].mission.clone(),
            },
        );
    }
    assert(items@.map_values(|item: MissionListItem| item@) =~= page(
        matches@.map_values(|item: MissionListItem| item@),
        offset,
        limit,
    ));
    items
}

/// The recently created missions from the one created last backwards, no more
/// than `limit` of them.
pub fn query_recently_mission_list(state: &State, limit: Option<usize>) -> (missions: Vec<Mission>)
    ensures
        missions@.map_values(|mission: Mission| mission@) == newest_first(state@.recent, limit),
{
    let entries = state.recent.entries();
    let count = match limit {
        Some(limit) => if limit < entries.len() {
            limit
        } else {
            entries.len()
        },
        None => entries.len(),
    };
    let mut missions: Vec<Mission> = Vec::new();
    for i in 0..count
        invariant
            count <= entries@.len(),
            missions@.len() == i,
            forall|j: int| 0 <= j < i ==> missions@[j]@ == entries@[entries@.len() - 1 - j]@.mission,
    {
        missions.push(entries[entries.len() - 1 - i].mission.clone());
    }
    assert(missions@.map_values(|mission: Mission| mission@) =~= newest_first(
        state@.recent,
        limit,
    ));
    missions
}

/// Answers the query `msg`.
pub fn query(state: &State, msg: QueryMsg) -> (response: QueryResponse)
    requires
        state.wf(),
    ensures
        match msg {
            QueryMsg::GetBalanceList { denom } => response matches QueryResponse::BalanceList(coins)
                && is_balance_list(
                coins@.map_values(|coin: Coin| coin@),
                state@.balances,
                optional_texts(denom),
            ),
            QueryMsg::GetMissionList {
                address,
                status,
                denom,
                limit,
                offset,
            } => response matches QueryResponse::MissionList(items) && items@.map_values(
                |item: MissionListItem| item@,
            ) == page(
                selected(
                    state@.missions,
                    MissionFilter {
                        address: optional_texts(address),
                        status: optional_statuses(status),
                        denom: optional_texts(denom),
                    },
                ),
                offset,
                limit,
            ),
            QueryMsg::GetRecentlyMissionList {
                limit,
            } => response matches QueryResponse::RecentlyMissionList(missions)
                && missions@.map_values(|mission: Mission| mission@) == newest_first(
                state@.recent,
                limit,
            ),
        },
{
    match msg {
        QueryMsg::GetBalanceList { denom } => QueryResponse::BalanceList(
            query_balance_list(state, denom),
        ),
        QueryMsg::GetMissionList { address, status, denom, limit, offset } => {
            QueryResponse::MissionList(
                query_mission_list(state, address, status, denom, limit, offset),
            )
        },
        QueryMsg::GetRecentlyMissionList { limit } => QueryResponse::RecentlyMissionList(
            query_recently_mission_list(state, limit),
        ),
    }
}

} // verus!
