use mission_contract::block::BlockTime;
use mission_contract::coin::Coin;
use mission_contract::contract::error::ExecuteError;
use mission_contract::contract::execute;
use mission_contract::contract::instantiate;
use mission_contract::contract::query::query_count;
use mission_contract::msg::{CountResponse, CreateMissionItem, ExecuteMsg};
use mission_contract::response::{Attribute, Transfer};
use mission_contract::state::config::Config;
use mission_contract::state::error::StateError;
use mission_contract::state::mission::{Mission, Status};
use mission_contract::state::State;
use mission_contract::ContractError;

fn assert_eq_balance(state: &State, denom: &str, expected: u128) {
    let amount = state.balances.total(&denom.to_owned());

    assert_eq!(amount, expected);
}

fn create_mission(state: &mut State, sender: String) -> Mission {
    let mission_item = CreateMissionItem {
        title: "title".to_owned(),
        coin: Coin::new(2, "token"),
        ends_at: 10,
    };
    execute::try_create_mission(state, 0, sender, mission_item.clone()).unwrap();

    mission_item.into()
}

#[test]
fn try_create_mission() {
    let mut state = State::new("admin".to_owned());

    let title = "title";
    let denom = "token";
    let mission_item = CreateMissionItem {
        title: title.to_owned(),
        coin: Coin::new(2, denom),
        ends_at: 0,
    };

    let sender = "maker";
    let sender_addr = sender.to_owned();
    let resp = execute::try_create_mission(&mut state, 0, sender_addr, mission_item).unwrap();
    assert_eq!(resp.attributes.len(), 6);
    assert_eq!(resp.messages.len(), 0);

    let assert_eq_attr = |index: usize, key: &str, value: &str| {
        let item = &resp.attributes[index];
        assert_eq!(item.key, key);
        assert_eq!(item.value, value);
    };

    assert_eq_attr(0, "method", "try_create_mission");
    assert_eq_attr(1, "sender", sender);
    assert_eq_attr(2, "title", title);
    assert_eq_attr(3, "denom", denom);
    assert_eq_attr(4, "amount", "2");
    assert_eq_attr(5, "mission_id", "1");

    assert_eq_balance(&state, "token", 2);
}

#[test]
fn try_complete_mission() {
    let mut state = State::new("admin".to_owned());
    let addr = "maker".to_owned();
    let postscript = "DONE!";

    let _ = create_mission(&mut state, addr.clone());
    let mission_id = 1;

    let block_time = BlockTime { height: 0, time: 0 };

    let resp = execute::try_complete_mission(
        &mut state,
        block_time,
        addr.clone(),
        mission_id,
        postscript.to_owned(),
    )
    .unwrap();
    assert_eq!(resp.attributes.len(), 4);
    assert_eq!(resp.messages.len(), 1);

    let assert_eq_attr = |index: usize, key: &str, value: &str| {
        let item = &resp.attributes[index];
        assert_eq!(item.key, key);
        assert_eq!(item.value, value);
    };

    assert_eq_attr(0, "method", "try_complete_mission");
    assert_eq_attr(1, "sender", addr.as_ref());
    assert_eq_attr(2, "mission_id", &mission_id.to_string());
    assert_eq_attr(3, "postscript", postscript);

    let assert_eq_bank_msg = |index: usize, address: &str, coin: Coin| {
        let bank_msg = &resp.messages[index];
        assert_eq!(bank_msg.to_address, address);
        assert_eq!(bank_msg.coin, coin);
    };

    assert_eq_bank_msg(0, addr.as_ref(), Coin::new(2, "token"));

    assert_eq_balance(&state, "token", 0);
}

#[test]
fn try_complete_mission_expired_case() {
    let mut state = State::new("admin".to_owned());
    let addr = "maker".to_owned();
    let postscript = "DONE!";

    let _ = create_mission(&mut state, addr.clone());
    let mission_id = 1;

    let block_time = BlockTime {
        height: 20,
        time: 20,
    };

    let resp = execute::try_complete_mission(
        &mut state,
        block_time,
        addr.clone(),
        mission_id,
        postscript.to_owned(),
    )
    .unwrap();
    assert_eq!(resp.attributes.len(), 4);
    assert_eq!(resp.messages.len(), 0);

    let assert_eq_attr = |index: usize, key: &str, value: &str| {
        let item = &resp.attributes[index];
        assert_eq!(item.key, key);
        assert_eq!(item.value, value);
    };

    assert_eq_attr(0, "method", "try_complete_mission");
    assert_eq_attr(1, "sender", addr.as_ref());
    assert_eq_attr(2, "mission_id", &mission_id.to_string());
    assert_eq_attr(3, "status", "failed");

    assert_eq_balance(&state, "token", 2);
}

#[test]
fn try_failed_mission() {
    let mut state = State::new("admin".to_owned());
    let addr = "maker".to_owned();

    let _ = create_mission(&mut state, addr.clone());
    let mission_id = 1;

    let resp = execute::try_failed_mission(&mut state, addr.clone(), mission_id).unwrap();
    assert_eq!(resp.attributes.len(), 3);
    assert_eq!(resp.messages.len(), 0);

    let assert_eq_attr = |index: usize, key: &str, value: &str| {
        let item = &resp.attributes[index];
        assert_eq!(item.key, key);
        assert_eq!(item.value, value);
    };

    assert_eq_attr(0, "method", "try_failed_mission");
    assert_eq_attr(1, "sender", addr.as_ref());
    assert_eq_attr(2, "mission_id", &mission_id.to_string());

    assert_eq_balance(&state, "token", 2);
}

#[test]
fn create_records_mission_in_store_and_log() {
    let mut state = State::new("admin".to_owned());
    let created = create_mission(&mut state, "maker".to_owned());

    assert_eq!(created, Mission::new("title".to_owned(), Coin::new(2, "token"), 10));
    assert_eq!(state.missions.get(&"maker".to_owned(), 1), Ok(created.clone()));
    assert_eq!(state.recent.at_height(0), vec![created]);
    assert_eq!(state.recent.len(), 1);
}

#[test]
fn create_assigns_identifiers_over_all_creators() {
    let mut state = State::new("admin".to_owned());
    create_mission(&mut state, "maker".to_owned());
    let item = CreateMissionItem {
        title: "second".to_owned(),
        coin: Coin::new(12345678901234567890123456789, "coin"),
        ends_at: 99,
    };
    let resp = execute::try_create_mission(&mut state, 3, "other".to_owned(), item).unwrap();
    assert_eq!(resp.attributes[4].key, "amount");
    assert_eq!(resp.attributes[4].value, "12345678901234567890123456789");
    assert_eq!(resp.attributes[5].key, "mission_id");
    assert_eq!(resp.attributes[5].value, "2");
    assert_eq_balance(&state, "coin", 12345678901234567890123456789);
    assert_eq_balance(&state, "token", 2);
}

#[test]
fn create_with_overflowing_total_changes_nothing() {
    let mut state = State::new("admin".to_owned());
    let big = CreateMissionItem {
        title: "big".to_owned(),
        coin: Coin::new(u128::MAX, "token"),
        ends_at: 10,
    };
    execute::try_create_mission(&mut state, 0, "maker".to_owned(), big).unwrap();
    let one_more = CreateMissionItem {
        title: "one more".to_owned(),
        coin: Coin::new(1, "token"),
        ends_at: 10,
    };
    assert_eq!(
        execute::try_create_mission(&mut state, 1, "maker".to_owned(), one_more),
        Err(ContractError::Execute(ExecuteError::Overflow))
    );
    assert_eq_balance(&state, "token", u128::MAX);
    assert_eq!(state.missions.count(), 1);
    assert_eq!(state.recent.len(), 1);
}

#[test]
fn complete_at_the_deadline_is_not_expired() {
    let mut state = State::new("admin".to_owned());
    create_mission(&mut state, "maker".to_owned());
    let block_time = BlockTime { height: 5, time: 10 };
    let resp = execute::try_complete_mission(
        &mut state,
        block_time,
        "maker".to_owned(),
        1,
        "in time".to_owned(),
    )
    .unwrap();
    assert_eq!(resp.messages.len(), 1);
    assert_eq!(state.missions.get(&"maker".to_owned(), 1).unwrap().status, Status::Success);
    assert_eq_balance(&state, "token", 0);
}

#[test]
fn complete_one_second_late_fails() {
    let mut state = State::new("admin".to_owned());
    create_mission(&mut state, "maker".to_owned());
    let block_time = BlockTime { height: 5, time: 11 };
    let resp = execute::try_complete_mission(
        &mut state,
        block_time,
        "maker".to_owned(),
        1,
        "late".to_owned(),
    )
    .unwrap();
    assert_eq!(resp.messages.len(), 0);
    assert_eq!(state.missions.get(&"maker".to_owned(), 1).unwrap().status, Status::Failed);
    assert_eq_balance(&state, "token", 2);
}

#[test]
fn complete_does_not_store_postscript() {
    let mut state = State::new("admin".to_owned());
    create_mission(&mut state, "maker".to_owned());
    let block_time = BlockTime { height: 0, time: 0 };
    execute::try_complete_mission(&mut state, block_time, "maker".to_owned(), 1, "note".to_owned())
        .unwrap();
    let mission = state.missions.get(&"maker".to_owned(), 1).unwrap();
    assert_eq!(mission.postscript, None);
    assert_eq!(mission.title, "title");
    assert_eq!(mission.coin, Coin::new(2, "token"));
    assert_eq!(mission.ends_at, 10);
}

#[test]
fn complete_unknown_mission_is_not_found() {
    let mut state = State::new("admin".to_owned());
    create_mission(&mut state, "maker".to_owned());
    let block_time = BlockTime { height: 0, time: 0 };
    assert_eq!(
        execute::try_complete_mission(&mut state, block_time, "maker".to_owned(), 2, "".to_owned()),
        Err(ContractError::Execute(ExecuteError::NotFoundMission {
            sender: "maker".to_owned(),
            index: 2
        }))
    );
    assert_eq!(
        execute::try_complete_mission(&mut state, block_time, "thief".to_owned(), 1, "".to_owned()),
        Err(ContractError::Execute(ExecuteError::NotFoundMission {
            sender: "thief".to_owned(),
            index: 1
        }))
    );
    assert_eq_balance(&state, "token", 2);
    assert_eq!(state.missions.get(&"maker".to_owned(), 1).unwrap().status, Status::Open);
}

#[test]
fn complete_with_inconsistent_ledger_is_underflow() {
    let mut state = State::new("admin".to_owned());
    state.missions.put(
        "maker".to_owned(),
        Mission::new("title".to_owned(), Coin::new(2, "token"), 10),
    );
    state.balances.increase(&"token".to_owned(), 1).unwrap();
    let block_time = BlockTime { height: 0, time: 0 };
    assert_eq!(
        execute::try_complete_mission(&mut state, block_time, "maker".to_owned(), 1, "".to_owned()),
        Err(ContractError::Execute(ExecuteError::Underflow))
    );
    assert_eq_balance(&state, "token", 1);
    assert_eq!(state.missions.get(&"maker".to_owned(), 1).unwrap().status, Status::Open);
}

#[test]
fn failed_mission_twice_is_invalid_status_change() {
    let mut state = State::new("admin".to_owned());
    create_mission(&mut state, "maker".to_owned());
    execute::try_failed_mission(&mut state, "maker".to_owned(), 1).unwrap();
    assert_eq!(state.missions.get(&"maker".to_owned(), 1).unwrap().status, Status::Failed);
    assert_eq!(
        execute::try_failed_mission(&mut state, "maker".to_owned(), 1),
        Err(ContractError::State(StateError::InvalidStatusChangeRequest {
            current: Status::Failed,
            target: Status::Failed
        }))
    );
    assert_eq_balance(&state, "token", 2);
}

#[test]
fn failed_mission_unknown_is_not_found() {
    let mut state = State::new("admin".to_owned());
    assert_eq!(
        execute::try_failed_mission(&mut state, "maker".to_owned(), 1),
        Err(ContractError::Execute(ExecuteError::NotFoundMission {
            sender: "maker".to_owned(),
            index: 1
        }))
    );
}

#[test]
fn complete_after_failed_before_deadline_is_invalid_status_change() {
    let mut state = State::new("admin".to_owned());
    create_mission(&mut state, "maker".to_owned());
    execute::try_failed_mission(&mut state, "maker".to_owned(), 1).unwrap();
    let block_time = BlockTime { height: 0, time: 5 };
    assert_eq!(
        execute::try_complete_mission(&mut state, block_time, "maker".to_owned(), 1, "".to_owned()),
        Err(ContractError::State(StateError::InvalidStatusChangeRequest {
            current: Status::Failed,
            target: Status::Success
        }))
    );
    assert_eq!(state.missions.get(&"maker".to_owned(), 1).unwrap().status, Status::Failed);
    assert_eq_balance(&state, "token", 2);
}

#[test]
fn late_complete_of_succeeded_mission_reports_failed_and_keeps_success() {
    let mut state = State::new("admin".to_owned());
    create_mission(&mut state, "maker".to_owned());
    execute::try_complete_mission(
        &mut state,
        BlockTime { height: 0, time: 0 },
        "maker".to_owned(),
        1,
        "".to_owned(),
    )
    .unwrap();
    let resp = execute::try_complete_mission(
        &mut state,
        BlockTime { height: 9, time: 30 },
        "maker".to_owned(),
        1,
        "".to_owned(),
    )
    .unwrap();
    assert_eq!(resp.messages.len(), 0);
    assert_eq!(resp.attributes[3].key, "status");
    assert_eq!(resp.attributes[3].value, "failed");
    assert_eq!(state.missions.get(&"maker".to_owned(), 1).unwrap().status, Status::Success);
    assert_eq_balance(&state, "token", 0);
}

#[test]
fn withdraw_by_stranger_is_unauthorized() {
    let mut state = State::new("admin".to_owned());
    create_mission(&mut state, "maker".to_owned());
    assert_eq!(
        execute::try_withdraw(&mut state, "maker".to_owned(), "token".to_owned(), None),
        Err(ContractError::Execute(ExecuteError::Unauthorized { addr: "maker".to_owned() }))
    );
}

#[test]
fn withdraw_of_unlocked_denom_is_not_found() {
    let mut state = State::new("admin".to_owned());
    create_mission(&mut state, "maker".to_owned());
    assert_eq!(
        execute::try_withdraw(&mut state, "admin".to_owned(), "coin".to_owned(), None),
        Err(ContractError::Execute(ExecuteError::NotFoundDenom { denom: "coin".to_owned() }))
    );
    execute::try_complete_mission(
        &mut state,
        BlockTime { height: 0, time: 0 },
        "maker".to_owned(),
        1,
        "".to_owned(),
    )
    .unwrap();
    assert_eq!(
        execute::try_withdraw(&mut state, "admin".to_owned(), "token".to_owned(), Some(0)),
        Err(ContractError::Execute(ExecuteError::NotFoundDenom { denom: "token".to_owned() }))
    );
}

#[test]
fn withdraw_of_too_much_is_lack_of_balance() {
    let mut state = State::new("admin".to_owned());
    create_mission(&mut state, "maker".to_owned());
    assert_eq!(
        execute::try_withdraw(&mut state, "admin".to_owned(), "token".to_owned(), Some(3)),
        Err(ContractError::Execute(ExecuteError::LackOfBalance { maximum: 2 }))
    );
}

#[test]
fn withdraw_sends_requested_amount_and_keeps_ledger() {
    let mut state = State::new("admin".to_owned());
    create_mission(&mut state, "maker".to_owned());
    let resp =
        execute::try_withdraw(&mut state, "admin".to_owned(), "token".to_owned(), Some(1)).unwrap();
    assert_eq!(
        resp.messages,
        vec![Transfer { to_address: "admin".to_owned(), coin: Coin::new(1, "token") }]
    );
    assert_eq!(
        resp.attributes,
        vec![
            Attribute { key: "method".to_owned(), value: "try_withdraw".to_owned() },
            Attribute { key: "amount".to_owned(), value: "1".to_owned() },
        ]
    );
    assert_eq_balance(&state, "token", 2);
}

#[test]
fn withdraw_without_amount_sends_all() {
    let mut state = State::new("admin".to_owned());
    let item = CreateMissionItem {
        title: "big".to_owned(),
        coin: Coin::new(u128::MAX, "token"),
        ends_at: 10,
    };
    execute::try_create_mission(&mut state, 0, "maker".to_owned(), item).unwrap();
    let resp =
        execute::try_withdraw(&mut state, "admin".to_owned(), "token".to_owned(), None).unwrap();
    assert_eq!(
        resp.messages,
        vec![Transfer { to_address: "admin".to_owned(), coin: Coin::new(u128::MAX, "token") }]
    );
    assert_eq!(resp.attributes[1].key, "amount");
    assert_eq!(resp.attributes[1].value, "340282366920938463463374607431768211455");
    assert_eq_balance(&state, "token", u128::MAX);
}

#[test]
fn execute_dispatches_each_message() {
    let mut state = State::new("admin".to_owned());
    let block_time = BlockTime { height: 4, time: 5 };
    let item = CreateMissionItem {
        title: "title".to_owned(),
        coin: Coin::new(2, "token"),
        ends_at: 10,
    };
    let created = execute::execute(
        &mut state,
        block_time,
        "maker".to_owned(),
        ExecuteMsg::CreateMission(item.clone()),
    )
    .unwrap();
    assert_eq!(created.attributes[0].value, "try_create_mission");
    assert_eq!(state.recent.at_height(4), vec![Mission::from(item.clone())]);

    execute::execute(&mut state, block_time, "maker".to_owned(), ExecuteMsg::CreateMission(item))
        .unwrap();

    let withdrawn = execute::execute(
        &mut state,
        block_time,
        "admin".to_owned(),
        ExecuteMsg::Withdraw { denom: "token".to_owned(), amount: None },
    )
    .unwrap();
    assert_eq!(withdrawn.attributes[0].value, "try_withdraw");
    assert_eq!(withdrawn.attributes[1].value, "4");

    let completed = execute::execute(
        &mut state,
        block_time,
        "maker".to_owned(),
        ExecuteMsg::CompleteMission { mission_id: 1, postscript: "done".to_owned() },
    )
    .unwrap();
    assert_eq!(completed.attributes[0].value, "try_complete_mission");
    assert_eq!(completed.attributes[3].value, "done");

    let failed = execute::execute(
        &mut state,
        block_time,
        "maker".to_owned(),
        ExecuteMsg::FailedMission { mission_id: 2 },
    )
    .unwrap();
    assert_eq!(failed.attributes[0].value, "try_failed_mission");
    assert_eq!(failed.attributes[2].value, "2");
    assert_eq_balance(&state, "token", 2);
}

#[test]
fn instantiate_sets_owner() {
    let (state, resp) = instantiate("owner".to_owned(), "0.1.0");
    assert_eq!(state.config, Config::new("owner".to_owned()));
    assert_eq!(state.missions.count(), 0);
    assert_eq!(state.recent.len(), 0);
    assert!(state.balances.entries().is_empty());
    assert_eq!(resp.messages.len(), 0);
    assert_eq!(
        resp.attributes,
        vec![
            Attribute { key: "version".to_owned(), value: "0.1.0".to_owned() },
            Attribute { key: "owner".to_owned(), value: "owner".to_owned() },
        ]
    );
}

#[test]
fn query_count_counts_created_missions() {
    let mut state = State::new("admin".to_owned());
    assert_eq!(query_count(&state), CountResponse { count: 0 });
    create_mission(&mut state, "maker".to_owned());
    create_mission(&mut state, "other".to_owned());
    execute::try_failed_mission(&mut state, "maker".to_owned(), 1).unwrap();
    assert_eq!(query_count(&state), CountResponse { count: 2 });
}
