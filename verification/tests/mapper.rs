use notifications::mapper::{
    from_create_request, from_update_request, id_from_text, to_entity, to_row, Row, Value,
};
use notifications::model::{
    CreateParams, ErrorKind, Notification, NotificationCreateRequest,
    NotificationUpdateRequest, Timestamp, UpdateParams,
};

fn sample() -> Notification {
    Notification {
        id: 0x11,
        user_id: 0x22,
        description: "ping".to_string(),
        read_at: Some(Timestamp { secs: 5, nanos: 6 }),
        created_at: Timestamp { secs: 3, nanos: 4 },
    }
}

fn sample_columns() -> Vec<Value> {
    vec![
        Value::Id(0x11),
        Value::Id(0x22),
        Value::Text("ping".to_string()),
        Value::Time(Timestamp { secs: 5, nanos: 6 }),
        Value::Time(Timestamp { secs: 3, nanos: 4 }),
    ]
}

#[test]
fn row_maps_to_entity_column_by_column() {
    assert_eq!(to_entity(&Row { columns: sample_columns() }), Ok(sample()));
}

#[test]
fn null_read_at_maps_to_none() {
    let mut columns = sample_columns();
    columns[3] = Value::Null;
    let mut expected = sample();
    expected.read_at = None;
    assert_eq!(to_entity(&Row { columns }), Ok(expected));
}

#[test]
fn columns_beyond_the_fifth_are_ignored() {
    let mut columns = sample_columns();
    columns.push(Value::Text("extra".to_string()));
    assert_eq!(to_entity(&Row { columns }), Ok(sample()));
}

#[test]
fn missing_column_is_a_mapping_error() {
    let mut columns = sample_columns();
    columns.pop();
    assert_eq!(to_entity(&Row { columns }), Err(ErrorKind::Mapping));
    assert_eq!(to_entity(&Row { columns: vec![] }), Err(ErrorKind::Mapping));
}

#[test]
fn column_of_the_wrong_type_is_a_mapping_error() {
    let replacements = [
        (0, Value::Text("id".to_string())),
        (1, Value::Null),
        (2, Value::Id(1)),
        (2, Value::Null),
        (3, Value::Id(1)),
        (4, Value::Null),
        (4, Value::Text("now".to_string())),
    ];
    for (place, value) in replacements {
        let mut columns = sample_columns();
        columns[place] = value;
        assert_eq!(to_entity(&Row { columns }), Err(ErrorKind::Mapping));
    }
}

#[test]
fn entity_is_spelled_as_its_row() {
    assert_eq!(to_row(&sample()), Row { columns: sample_columns() });
    let mut unread = sample();
    unread.read_at = None;
    assert_eq!(to_row(&unread).columns[3], Value::Null);
}

#[test]
fn row_of_an_entity_maps_back_to_it() {
    let mut unread = sample();
    unread.read_at = None;
    assert_eq!(to_entity(&to_row(&sample())), Ok(sample()));
    assert_eq!(to_entity(&to_row(&unread)), Ok(unread));
}

#[test]
fn create_request_with_a_hyphenated_owner_is_accepted() {
    let request = NotificationCreateRequest {
        user_id: "a1a2a3a4-b1b2-c1c2-d1d2-d3d4d5d6d7d8".to_string(),
        description: "ping".to_string(),
    };
    assert_eq!(
        from_create_request(request),
        Ok(CreateParams {
            user_id: 0xa1a2a3a4b1b2c1c2d1d2d3d4d5d6d7d8,
            description: "ping".to_string(),
        })
    );
}

#[test]
fn create_request_without_a_description_is_refused() {
    let request = NotificationCreateRequest {
        user_id: "a1a2a3a4-b1b2-c1c2-d1d2-d3d4d5d6d7d8".to_string(),
        description: String::new(),
    };
    assert_eq!(from_create_request(request), Err(ErrorKind::Validation));
}

#[test]
fn create_request_with_a_malformed_owner_is_refused() {
    for owner in ["", "42", "a1a2a3a4-b1b2-c1c2-d1d2-d3d4d5d6d7dz", "a1a2a3a4b1b2-c1c2-d1d2-d3d4d5d6d7d8"] {
        let request = NotificationCreateRequest {
            user_id: owner.to_string(),
            description: "ping".to_string(),
        };
        assert_eq!(from_create_request(request), Err(ErrorKind::Validation));
    }
}

#[test]
fn checked_parameters_need_an_owner_and_a_description() {
    assert_eq!(
        CreateParams::checked(Some(7), "ping".to_string()),
        Ok(CreateParams { user_id: 7, description: "ping".to_string() })
    );
    assert_eq!(CreateParams::checked(None, "ping".to_string()), Err(ErrorKind::Validation));
    assert_eq!(CreateParams::checked(Some(7), String::new()), Err(ErrorKind::Validation));
    assert_eq!(CreateParams::checked(None, String::new()), Err(ErrorKind::Validation));
}

#[test]
fn update_request_needs_a_description() {
    let request = NotificationUpdateRequest { description: "pong".to_string() };
    assert_eq!(from_update_request(request), Ok(UpdateParams { description: "pong".to_string() }));
    let empty = NotificationUpdateRequest { description: String::new() };
    assert_eq!(from_update_request(empty), Err(ErrorKind::Validation));
}

#[test]
fn identifier_is_read_from_every_spelling() {
    let value: u128 = 0xa1a2a3a4b1b2c1c2d1d2d3d4d5d6d7d8;
    assert_eq!(id_from_text("a1a2a3a4-b1b2-c1c2-d1d2-d3d4d5d6d7d8"), Ok(value));
    assert_eq!(id_from_text("A1A2A3A4-B1B2-C1C2-D1D2-D3D4D5D6D7D8"), Ok(value));
    assert_eq!(id_from_text("a1a2a3a4b1b2c1c2d1d2d3d4d5d6d7d8"), Ok(value));
    assert_eq!(id_from_text("{a1a2a3a4-b1b2-c1c2-d1d2-d3d4d5d6d7d8}"), Ok(value));
    assert_eq!(id_from_text("urn:uuid:a1a2a3a4-b1b2-c1c2-d1d2-d3d4d5d6d7d8"), Ok(value));
    assert_eq!(id_from_text("00000000-0000-0000-0000-000000000000"), Ok(0));
}

#[test]
fn text_that_is_no_identifier_is_refused() {
    assert_eq!(id_from_text("17"), Err(ErrorKind::Validation));
    assert_eq!(id_from_text(""), Err(ErrorKind::Validation));
    assert_eq!(id_from_text("a1a2a3a4-b1b2-c1c2-d1d2-d3d4d5d6d7d"), Err(ErrorKind::Validation));
}
