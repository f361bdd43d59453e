use mission_contract::coin::Coin;
use mission_contract::state::mission::Mission;
use mission_contract::state::recent::{RecentlyMissionList, Snapshot, RECENTLY_MISSION_LIMIT};

fn mission(number: u64) -> Mission {
    Mission::new(format!("mission {}", number), Coin::new(1, "token"), number)
}

#[test]
fn limit_is_one_hundred() {
    assert_eq!(RECENTLY_MISSION_LIMIT, 100);
}

#[test]
fn record_prepends_at_height() {
    let mut log = RecentlyMissionList::new();
    log.record(7, mission(1));
    log.record(8, mission(2));
    log.record(7, mission(3));
    assert_eq!(log.len(), 3);
    assert_eq!(log.at_height(7), vec![mission(3), mission(1)]);
    assert_eq!(log.at_height(8), vec![mission(2)]);
    assert_eq!(log.at_height(9), Vec::<Mission>::new());
}

#[test]
fn entries_are_in_creation_order() {
    let mut log = RecentlyMissionList::new();
    log.record(7, mission(1));
    log.record(8, mission(2));
    assert_eq!(
        log.entries(),
        vec![
            Snapshot { height: 7, mission: mission(1) },
            Snapshot { height: 8, mission: mission(2) },
        ]
    );
}

#[test]
fn holds_exactly_the_limit() {
    let mut log = RecentlyMissionList::new();
    for number in 1..=100 {
        log.record(number, mission(number));
    }
    assert_eq!(log.len(), 100);
    assert_eq!(log.entries()[0], Snapshot { height: 1, mission: mission(1) });
    assert_eq!(log.entries()[99], Snapshot { height: 100, mission: mission(100) });
}

#[test]
fn evicts_oldest_beyond_the_limit() {
    let mut log = RecentlyMissionList::new();
    for number in 1..=101 {
        log.record(number / 2, mission(number));
    }
    assert_eq!(log.len(), 100);
    let entries = log.entries();
    for (place, entry) in entries.iter().enumerate() {
        let number = place as u64 + 2;
        assert_eq!(entry, &Snapshot { height: number / 2, mission: mission(number) });
    }
    assert_eq!(log.at_height(0), Vec::<Mission>::new());
    assert_eq!(log.at_height(1), vec![mission(3), mission(2)]);
}

#[test]
fn retains_the_newest_after_many_records() {
    let mut log = RecentlyMissionList::new();
    for number in 1..=250 {
        log.record(number, mission(number));
        assert!(log.len() <= 100);
    }
    let entries = log.entries();
    assert_eq!(entries.len(), 100);
    for (place, entry) in entries.iter().enumerate() {
        let number = place as u64 + 151;
        assert_eq!(entry, &Snapshot { height: number, mission: mission(number) });
    }
}
