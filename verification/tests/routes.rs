use notifications::mapper::id_from_text;
use notifications::model::{
    ErrorKind, Notification, NotificationCreateRequest, NotificationUpdateRequest, Timestamp,
};
use notifications::routes::{
    create, decimal_text, delete, find, find_all, update, Body, Reply, BAD_REQUEST, OK,
};
use notifications::table::Table;

fn record(id: u128, description: &str) -> Notification {
    Notification {
        id,
        user_id: 1,
        description: description.to_string(),
        read_at: None,
        created_at: Timestamp { secs: 10, nanos: 20 },
    }
}

fn refusal(message: &str) -> Reply {
    Reply { status: 400, body: Body::Text(message.to_string()) }
}

#[test]
fn statuses_are_ok_and_bad_request() {
    assert_eq!(OK, 200);
    assert_eq!(BAD_REQUEST, 400);
}

#[test]
fn numbers_are_written_in_decimal() {
    assert_eq!(decimal_text(0), "0");
    assert_eq!(decimal_text(7), "7");
    assert_eq!(decimal_text(10), "10");
    assert_eq!(decimal_text(1234567890), "1234567890");
    assert_eq!(decimal_text(u64::MAX), "18446744073709551615");
}

#[test]
fn listing_is_answered_with_the_list() {
    let list = vec![record(1, "a"), record(2, "b")];
    assert_eq!(find_all(Ok(list.clone())), Reply { status: 200, body: Body::List(list) });
    assert_eq!(find_all(Ok(vec![])), Reply { status: 200, body: Body::List(vec![]) });
}

#[test]
fn failed_listing_is_a_bad_request() {
    assert_eq!(
        find_all(Err(ErrorKind::Store)),
        refusal("Error trying to read all notifications from database")
    );
}

#[test]
fn lookup_is_answered_with_the_record_or_refused() {
    assert_eq!(find(Ok(record(1, "a"))), Reply { status: 200, body: Body::Entity(record(1, "a")) });
    assert_eq!(find(Err(ErrorKind::NotFound)), refusal("Todo not found"));
    assert_eq!(find(Err(ErrorKind::Validation)), refusal("Todo not found"));
}

#[test]
fn create_is_answered_with_the_record_or_refused() {
    assert_eq!(
        create(Ok(record(1, "a"))),
        Reply { status: 200, body: Body::Entity(record(1, "a")) }
    );
    for kind in [ErrorKind::Validation, ErrorKind::Mapping, ErrorKind::Store] {
        assert_eq!(create(Err(kind)), refusal("Error trying to create new notification"));
    }
}

#[test]
fn update_is_answered_with_the_record_or_refused() {
    assert_eq!(
        update(Ok(record(1, "b"))),
        Reply { status: 200, body: Body::Entity(record(1, "b")) }
    );
    for kind in [ErrorKind::Validation, ErrorKind::NotFound, ErrorKind::Store] {
        assert_eq!(update(Err(kind)), refusal("Notification not found"));
    }
}

#[test]
fn delete_is_answered_with_its_count() {
    assert_eq!(
        delete(Ok(1)),
        Reply { status: 200, body: Body::Text("Successfully deleted 1 record(s)".to_string()) }
    );
    assert_eq!(
        delete(Ok(12)),
        Reply { status: 200, body: Body::Text("Successfully deleted 12 record(s)".to_string()) }
    );
}

#[test]
fn delete_of_nothing_is_a_bad_request() {
    assert_eq!(delete(Ok(0)), refusal("Notification not found"));
    assert_eq!(delete(Err(ErrorKind::Store)), refusal("Notification not found"));
}

#[test]
fn notification_is_created_changed_deleted_and_gone() {
    let owner = "6f1c0f0e-3b1a-4c59-9d43-0a6a4f4b8e21";
    let mut store = Table::new();

    let posted = NotificationCreateRequest {
        user_id: owner.to_string(),
        description: "ping".to_string(),
    };
    let reply = create(Notification::create(posted, &mut store));
    assert_eq!(reply.status, 200);
    let created = match reply.body {
        Body::Entity(notification) => notification,
        other => panic!("unexpected body {:?}", other),
    };
    assert_eq!(Ok(created.user_id), id_from_text(owner));
    assert_eq!(created.description, "ping");
    assert_eq!(created.read_at, None);

    let put = NotificationUpdateRequest { description: "pong".to_string() };
    let reply = update(Notification::update(created.id, put, &mut store));
    let expected = Notification { description: "pong".to_string(), ..created.clone() };
    assert_eq!(reply, Reply { status: 200, body: Body::Entity(expected) });

    let reply = delete(Notification::delete(created.id, &mut store));
    assert_eq!(
        reply,
        Reply { status: 200, body: Body::Text("Successfully deleted 1 record(s)".to_string()) }
    );

    let reply = find(Notification::find_by_id(created.id, &mut store));
    assert_eq!(reply.status, 400);
    assert_eq!(Notification::find_by_id(created.id, &mut store), Err(ErrorKind::NotFound));
}
