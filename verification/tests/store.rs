use mission_contract::coin::Coin;
use mission_contract::contract::error::ExecuteError;
use mission_contract::state::mission::{Mission, Status};
use mission_contract::state::store::{MissionStore, StoredMission};

fn mission(title: &str, amount: u128) -> Mission {
    Mission::new(title.to_owned(), Coin::new(amount, "token"), 10)
}

#[test]
fn identifiers_count_from_one() {
    let mut store = MissionStore::new();
    assert_eq!(store.count(), 0);
    assert_eq!(store.put("maker".to_owned(), mission("first", 1)), 1);
    assert_eq!(store.put("other".to_owned(), mission("second", 2)), 2);
    assert_eq!(store.put("maker".to_owned(), mission("third", 3)), 3);
    assert_eq!(store.count(), 3);
}

#[test]
fn get_returns_what_was_put() {
    let mut store = MissionStore::new();
    store.put("maker".to_owned(), mission("first", 1));
    store.put("other".to_owned(), mission("second", 2));
    assert_eq!(store.get(&"maker".to_owned(), 1), Ok(mission("first", 1)));
    assert_eq!(store.get(&"other".to_owned(), 2), Ok(mission("second", 2)));
}

#[test]
fn get_on_absent_key_is_not_found() {
    let mut store = MissionStore::new();
    store.put("maker".to_owned(), mission("first", 1));
    assert_eq!(
        store.get(&"maker".to_owned(), 0),
        Err(ExecuteError::NotFoundMission { sender: "maker".to_owned(), index: 0 })
    );
    assert_eq!(
        store.get(&"maker".to_owned(), 2),
        Err(ExecuteError::NotFoundMission { sender: "maker".to_owned(), index: 2 })
    );
    assert_eq!(
        store.get(&"other".to_owned(), 1),
        Err(ExecuteError::NotFoundMission { sender: "other".to_owned(), index: 1 })
    );
    assert_eq!(
        store.get(&"maker".to_owned(), u64::MAX),
        Err(ExecuteError::NotFoundMission { sender: "maker".to_owned(), index: u64::MAX })
    );
}

#[test]
fn update_replaces_in_place() {
    let mut store = MissionStore::new();
    store.put("maker".to_owned(), mission("first", 1));
    store.put("maker".to_owned(), mission("second", 2));
    let mut changed = mission("first", 1);
    changed.new_status(Status::Success).unwrap();
    assert_eq!(store.update(&"maker".to_owned(), 1, changed.clone()), Ok(()));
    assert_eq!(store.get(&"maker".to_owned(), 1), Ok(changed.clone()));
    assert_eq!(store.get(&"maker".to_owned(), 2), Ok(mission("second", 2)));
    assert_eq!(
        store.entries(),
        vec![
            StoredMission { creator: "maker".to_owned(), mission: changed },
            StoredMission { creator: "maker".to_owned(), mission: mission("second", 2) },
        ]
    );
}

#[test]
fn update_on_absent_key_is_not_found() {
    let mut store = MissionStore::new();
    store.put("maker".to_owned(), mission("first", 1));
    assert_eq!(
        store.update(&"other".to_owned(), 1, mission("changed", 9)),
        Err(ExecuteError::NotFoundMission { sender: "other".to_owned(), index: 1 })
    );
    assert_eq!(
        store.update(&"maker".to_owned(), 5, mission("changed", 9)),
        Err(ExecuteError::NotFoundMission { sender: "maker".to_owned(), index: 5 })
    );
    assert_eq!(store.get(&"maker".to_owned(), 1), Ok(mission("first", 1)));
    assert_eq!(store.count(), 1);
}
