use mission_contract::coin::Coin;
use mission_contract::state::error::StateError;
use mission_contract::state::mission::{Mission, Status};

fn default_mission() -> Mission {
    Mission::new("".to_owned(), Coin::default(), 0)
}

fn assert_serialized(status: Status, expected: &str) {
    let status = serde_json::to_string(&status.repr()).unwrap();
    assert_eq!(status, expected);
}

fn assert_deserialized(text: &str, expected: Status) {
    let code: u8 = serde_json::from_str(text).unwrap();
    let status = Status::from_repr(code).unwrap();
    assert_eq!(status, expected);
}

#[test]
fn display() {
    assert_eq!(format!("{}", Status::Open.to_string()), "open");
    assert_eq!(format!("{}", Status::Success.to_string()), "success");
    assert_eq!(format!("{}", Status::Failed.to_string()), "failed");
}

#[test]
fn serialize() {
    assert_serialized(Status::Open, "0");
    assert_serialized(Status::Success, "1");
    assert_serialized(Status::Failed, "2");
}

#[test]
fn deserialize() {
    assert_deserialized("0", Status::Open);
    assert_deserialized("1", Status::Success);
    assert_deserialized("2", Status::Failed);
}

#[test]
fn mission_default() {
    let mission = default_mission();

    assert_eq!(mission.status, Status::Open);
    assert_eq!(mission.postscript, None);
}

#[test]
fn new_status() {
    let mut mission = default_mission();

    assert_eq!(
        mission.new_status(Status::Open),
        Err(StateError::InvalidStatusChangeRequest {
            current: Status::Open,
            target: Status::Open,
        })
    );
    assert!(
        mission.new_status(Status::Failed).is_ok(),
        "failed change request open to failed"
    );
    assert_eq!(
        mission.new_status(Status::Open),
        Err(StateError::InvalidStatusChangeRequest {
            current: Status::Failed,
            target: Status::Open
        })
    );
}

#[test]
fn status_as_str_matches_to_string() {
    assert_eq!(Status::Open.as_str(), "open");
    assert_eq!(Status::Success.as_str(), "success");
    assert_eq!(Status::Failed.as_str(), "failed");
    assert_eq!(Status::default(), Status::Open);
}

#[test]
fn status_from_repr_rejects_unknown_codes() {
    assert_eq!(Status::from_repr(3), None);
    assert_eq!(Status::from_repr(255), None);
}
