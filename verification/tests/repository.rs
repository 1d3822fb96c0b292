use notifications::ident::{KIND_MASK, RANDOM_KIND};
use notifications::model::{
    CreateParams, ErrorKind, Notification, NotificationCreateRequest,
    NotificationUpdateRequest, Timestamp,
};
use notifications::protocol::{Answer, Operation};
use notifications::table::Table;

const OWNER: &str = "a1a2a3a4-b1b2-c1c2-d1d2-d3d4d5d6d7d8";
const OWNER_ID: u128 = 0xa1a2a3a4b1b2c1c2d1d2d3d4d5d6d7d8;

fn at(secs: i64) -> Timestamp {
    Timestamp { secs, nanos: 0 }
}

fn params(description: &str) -> CreateParams {
    CreateParams { user_id: OWNER_ID, description: description.to_string() }
}

fn request(description: &str) -> NotificationCreateRequest {
    NotificationCreateRequest { user_id: OWNER.to_string(), description: description.to_string() }
}

fn record(id: u128, description: &str, secs: i64) -> Notification {
    Notification {
        id,
        user_id: OWNER_ID,
        description: description.to_string(),
        read_at: None,
        created_at: at(secs),
    }
}

#[test]
fn empty_store_lists_nothing() {
    let mut store = Table::new();
    assert_eq!(Notification::find_all(&mut store), Ok(vec![]));
    assert_eq!(store.len(), 0);
}

#[test]
fn create_returns_the_stored_record() {
    let mut store = Table::new();
    let created = Notification::create_with(params("ping"), 5, at(100), &mut store);
    assert_eq!(created, Ok(record(5, "ping", 100)));
    assert_eq!(store.len(), 1);
}

#[test]
fn created_record_is_found_by_its_id() {
    let mut store = Table::new();
    let created = Notification::create(request("ping"), &mut store).unwrap();
    let found = Notification::find_by_id(created.id, &mut store).unwrap();
    assert_eq!(found, created);
    assert_eq!(found.user_id, OWNER_ID);
    assert_eq!(found.description, "ping");
    assert_eq!(found.read_at, None);
}

#[test]
fn create_draws_a_random_version_four_identifier() {
    let mut store = Table::new();
    let first = Notification::create(request("one"), &mut store).unwrap();
    let second = Notification::create(request("two"), &mut store).unwrap();
    assert_eq!(first.id & KIND_MASK, RANDOM_KIND);
    assert_eq!(second.id & KIND_MASK, RANDOM_KIND);
    assert_ne!(first.id, second.id);
    assert_eq!(store.len(), 2);
}

#[test]
fn create_stamps_the_current_time() {
    let mut store = Table::new();
    let created = Notification::create(request("ping"), &mut store).unwrap();
    // Later than the first of January 2020, and a whole number of nanoseconds below a second.
    assert!(created.created_at.secs > 1_577_836_800);
    assert!(created.created_at.nanos < 1_000_000_000);
}

#[test]
fn create_refuses_an_empty_description() {
    let mut store = Table::new();
    assert_eq!(Notification::create(request(""), &mut store), Err(ErrorKind::Validation));
    assert_eq!(store.len(), 0);
}

#[test]
fn create_refuses_a_malformed_owner() {
    let mut store = Table::new();
    let bad = NotificationCreateRequest {
        user_id: "not-a-uuid".to_string(),
        description: "ping".to_string(),
    };
    assert_eq!(Notification::create(bad, &mut store), Err(ErrorKind::Validation));
    assert_eq!(store.len(), 0);
}

#[test]
fn validation_does_not_touch_the_link() {
    let mut store = Table::new();
    store.disconnect_after(1);
    assert_eq!(Notification::create(request(""), &mut store), Err(ErrorKind::Validation));
    let empty = NotificationUpdateRequest { description: String::new() };
    assert_eq!(Notification::update(1, empty, &mut store), Err(ErrorKind::Validation));
    // The one action that the link still carries is still there for a read.
    assert_eq!(Notification::find_all(&mut store), Ok(vec![]));
    assert_eq!(Notification::find_all(&mut store), Err(ErrorKind::Store));
}

#[test]
fn create_under_a_taken_identifier_fails() {
    let mut store = Table::new();
    Notification::create_with(params("first"), 9, at(1), &mut store).unwrap();
    let again = Notification::create_with(params("second"), 9, at(2), &mut store);
    assert_eq!(again, Err(ErrorKind::Store));
    assert_eq!(Notification::find_all(&mut store), Ok(vec![record(9, "first", 1)]));
}

#[test]
fn listing_is_ordered_by_identifier_whatever_the_insertion_order() {
    let mut store = Table::new();
    for id in [30u128, 10, 50, 20, 40] {
        Notification::create_with(params("n"), id, at(id as i64), &mut store).unwrap();
    }
    let listed = Notification::find_all(&mut store).unwrap();
    let ids: Vec<u128> = listed.iter().map(|n| n.id).collect();
    assert_eq!(ids, vec![10, 20, 30, 40, 50]);

    let mut other = Table::new();
    for id in [50u128, 40, 30, 20, 10] {
        Notification::create_with(params("n"), id, at(id as i64), &mut other).unwrap();
    }
    assert_eq!(Notification::find_all(&mut other).unwrap(), listed);
}

#[test]
fn find_by_id_reports_a_missing_record() {
    let mut store = Table::new();
    Notification::create_with(params("ping"), 5, at(1), &mut store).unwrap();
    assert_eq!(Notification::find_by_id(6, &mut store), Err(ErrorKind::NotFound));
    assert_eq!(Notification::find_by_id(4, &mut store), Err(ErrorKind::NotFound));
    assert_eq!(Notification::find_by_id(5, &mut store), Ok(record(5, "ping", 1)));
}

#[test]
fn update_changes_only_the_description() {
    let mut store = Table::new();
    Notification::create_with(params("ping"), 5, at(100), &mut store).unwrap();
    Notification::create_with(params("other"), 7, at(200), &mut store).unwrap();
    let change = NotificationUpdateRequest { description: "pong".to_string() };
    let updated = Notification::update(5, change, &mut store);
    assert_eq!(updated, Ok(record(5, "pong", 100)));
    assert_eq!(
        Notification::find_all(&mut store),
        Ok(vec![record(5, "pong", 100), record(7, "other", 200)])
    );
}

#[test]
fn update_keeps_the_time_of_reading() {
    let mut store = Table::new();
    Notification::create_with(params("ping"), 5, at(100), &mut store).unwrap();
    let change = NotificationUpdateRequest { description: "pong".to_string() };
    let updated = Notification::update(5, change, &mut store).unwrap();
    assert_eq!(updated.read_at, None);
    assert_eq!(updated.created_at, at(100));
    assert_eq!(updated.user_id, OWNER_ID);
}

#[test]
fn update_of_a_missing_record_leaves_the_store_unchanged() {
    let mut store = Table::new();
    Notification::create_with(params("ping"), 5, at(100), &mut store).unwrap();
    let before = Notification::find_all(&mut store).unwrap();
    let change = NotificationUpdateRequest { description: "pong".to_string() };
    assert_eq!(Notification::update(6, change, &mut store), Err(ErrorKind::NotFound));
    assert_eq!(Notification::find_all(&mut store).unwrap(), before);
}

#[test]
fn update_refuses_an_empty_description() {
    let mut store = Table::new();
    Notification::create_with(params("ping"), 5, at(100), &mut store).unwrap();
    let change = NotificationUpdateRequest { description: String::new() };
    assert_eq!(Notification::update(5, change, &mut store), Err(ErrorKind::Validation));
    assert_eq!(Notification::find_by_id(5, &mut store), Ok(record(5, "ping", 100)));
}

#[test]
fn delete_counts_what_it_removed() {
    let mut store = Table::new();
    Notification::create_with(params("a"), 1, at(1), &mut store).unwrap();
    Notification::create_with(params("b"), 2, at(2), &mut store).unwrap();
    Notification::create_with(params("c"), 3, at(3), &mut store).unwrap();
    assert_eq!(Notification::delete(4, &mut store), Ok(0));
    assert_eq!(store.len(), 3);
    assert_eq!(Notification::delete(2, &mut store), Ok(1));
    assert_eq!(
        Notification::find_all(&mut store),
        Ok(vec![record(1, "a", 1), record(3, "c", 3)])
    );
    assert_eq!(Notification::delete(2, &mut store), Ok(0));
    assert_eq!(store.len(), 2);
}

#[test]
fn failed_update_leaves_the_description_unchanged() {
    let mut store = Table::new();
    Notification::create_with(params("ping"), 5, at(100), &mut store).unwrap();
    // The link carries the opening of the transaction and the statement, and drops before
    // the commit.
    store.disconnect_after(2);
    let change = NotificationUpdateRequest { description: "pong".to_string() };
    assert_eq!(Notification::update(5, change, &mut store), Err(ErrorKind::Store));
    store.reconnect();
    assert_eq!(Notification::find_by_id(5, &mut store), Ok(record(5, "ping", 100)));
}

#[test]
fn link_that_drops_at_any_point_fails_the_write_and_changes_nothing() {
    for carried in 0u64..3 {
        let mut store = Table::new();
        Notification::create_with(params("kept"), 1, at(1), &mut store).unwrap();
        store.disconnect_after(carried);
        assert_eq!(
            Notification::create_with(params("lost"), 2, at(2), &mut store),
            Err(ErrorKind::Store)
        );
        store.reconnect();
        store.disconnect_after(carried);
        assert_eq!(Notification::delete(1, &mut store), Err(ErrorKind::Store));
        store.reconnect();
        assert_eq!(Notification::find_all(&mut store), Ok(vec![record(1, "kept", 1)]));
    }
}

#[test]
fn link_that_carries_three_actions_carries_one_write() {
    let mut store = Table::new();
    store.disconnect_after(3);
    assert_eq!(
        Notification::create_with(params("ping"), 1, at(1), &mut store),
        Ok(record(1, "ping", 1))
    );
    assert_eq!(Notification::find_by_id(1, &mut store), Err(ErrorKind::Store));
    store.reconnect();
    assert_eq!(Notification::find_by_id(1, &mut store), Ok(record(1, "ping", 1)));
}

#[test]
fn missing_record_is_reported_before_the_commit_is_tried() {
    let mut store = Table::new();
    store.disconnect_after(2);
    let change = NotificationUpdateRequest { description: "pong".to_string() };
    assert_eq!(Notification::update(1, change, &mut store), Err(ErrorKind::NotFound));
}

#[test]
fn run_answers_each_operation_in_its_own_form() {
    let mut store = Table::new();
    let create = Operation::Create {
        id: 3,
        user_id: OWNER_ID,
        description: "ping".to_string(),
        created_at: at(7),
    };
    assert_eq!(store.run(create), Ok(Answer::One(record(3, "ping", 7))));
    assert_eq!(store.run(Operation::FindAll), Ok(Answer::Many(vec![record(3, "ping", 7)])));
    assert_eq!(store.run(Operation::FindById { id: 3 }), Ok(Answer::One(record(3, "ping", 7))));
    let update = Operation::Update { id: 3, description: "pong".to_string() };
    assert_eq!(store.run(update), Ok(Answer::One(record(3, "pong", 7))));
    assert_eq!(store.run(Operation::Delete { id: 3 }), Ok(Answer::Count(1)));
    assert_eq!(store.run(Operation::FindAll), Ok(Answer::Many(vec![])));
}

#[test]
fn duplicate_copies_every_field() {
    let first = Notification {
        id: 1,
        user_id: 2,
        description: "ping".to_string(),
        read_at: Some(Timestamp { secs: 3, nanos: 4 }),
        created_at: at(5),
    };
    assert_eq!(first.duplicate(), first);
}

#[test]
fn records_that_stay_keep_everything_but_the_description() {
    let mut store = Table::new();
    Notification::create_with(params("a"), 1, at(1), &mut store).unwrap();
    Notification::create_with(params("b"), 2, at(2), &mut store).unwrap();
    let change = NotificationUpdateRequest { description: "c".to_string() };
    Notification::update(2, change, &mut store).unwrap();
    Notification::create_with(params("d"), 0, at(3), &mut store).unwrap();
    assert_eq!(Notification::delete(0, &mut store), Ok(1));
    assert_eq!(
        Notification::find_all(&mut store),
        Ok(vec![record(1, "a", 1), record(2, "c", 2)])
    );
}
