//! The record mapper: from a row of the store to a record and back, and from
//! an inbound payload to the parameters of a repository call.

use vstd::prelude::*;
use crate::ident::{parse_uuid, uuid_of_text};
use crate::model::{
    lifted, CreateParams, ErrorKind, Notification, NotificationCreateRequest,
    NotificationUpdateRequest, Record, Timestamp, UpdateParams,
};

verus! {

/// One column of a row, as the store hands it over.
#[derive(Clone, Debug, PartialEq, Eq)]
pub enum Value {
    Null,
    Id(u128),
    Text(String),
    Time(Timestamp),
}

/// What a column holds, as a mathematical value.
pub ghost enum Cell {
    Null,
    Id(u128),
    Text(Seq<char>),
    Time(Timestamp),
}

impl View for Value {
    type V = Cell;

    open spec fn view(&self) -> Cell {
        match *self {
            Value::Null => Cell::Null,
            Value::Id(id) => Cell::Id(id),
            Value::Text(text) => Cell::Text(text@),
            Value::Time(at) => Cell::Time(at),
        }
    }
}

/// A row of the notifications table: its columns in the order `id`,
/// `user_id`, `description`, `read_at`, `created_at`.
#[derive(Clone, Debug, PartialEq, Eq)]
pub struct Row {
    pub columns: Vec<Value>,
}

impl View for Row {
    type V = Seq<Cell>;

    open spec fn view(&self) -> Seq<Cell> {
        Seq::new(self.columns@.len(), |i: int| self.columns@[i]@)
    }
}

/// A row has the shape of a notification: the five columns are there, each
/// of its type, and only `read_at` may be null. Columns beyond the fifth are
/// not looked at.
pub open spec fn shaped(row: Seq<Cell>) -> bool {
    &&& row.len() >= 5
    &&& row[0] is Id
    &&& row[1] is Id
    &&& row[2] is Text
    &&& (row[3] is Null || row[3] is Time)
    &&& row[4] is Time
}

/// The record that a shaped row spells.
pub open spec fn entity_of(row: Seq<Cell>) -> Record {
    Record {
        id: row[0]->Id_0,
        user_id: row[1]->Id_0,
        description: row[2]->Text_0,
        read_at: match row[3] {
            Cell::Time(at) => Some(at),
            _ => None,
        },
        created_at: row[4]->Time_0,
    }
}

/// The row that spells a record.
pub open spec fn row_of(record: Record) -> Seq<Cell> {
    seq![
        Cell::Id(record.id),
        Cell::Id(record.user_id),
        Cell::Text(record.description),
        match record.read_at {
            Some(at) => Cell::Time(at),
            None => Cell::Null,
        },
        Cell::Time(record.created_at),
    ]
}

/// What mapping a row gives: its record where the row is shaped, a mapping
/// error where it is not.
pub open spec fn mapped(row: Seq<Cell>) -> Result<Record, ErrorKind> {
    if shaped(row) {
        Ok(entity_of(row))
    } else {
        Err(ErrorKind::Mapping)
    }
}

/// Reading back the row of a record gives the record.
pub proof fn row_round_trip(record: Record)
    ensures
        shaped(row_of(record)),
        entity_of(row_of(record)) == record,
        mapped(row_of(record)) == Ok::<Record, ErrorKind>(record),
{
}

/// Maps a row of the store to a notification, column by column.
pub fn to_entity(row: &Row) -> (result: Result<Notification, ErrorKind>)
    ensures
        lifted(result) == mapped(row@),
{
    if row.columns.len() < 5 {
        return Err(ErrorKind::Mapping);
    }
    let id: u128 = match &row.columns[0] {
        Value::Id(id) => *id,
        _ => {
            return Err(ErrorKind::Mapping);
        },
    };
    let user_id: u128 = match &row.columns[1] {
        Value::Id(id) => *id,
        _ => {
            return Err(ErrorKind::Mapping);
        },
    };
    let description = match &row.columns[2] {
        Value::Text(text) => text.clone(),
        _ => {
            return Err(ErrorKind::Mapping);
        },
    };
    let read_at = match &row.columns[3] {
        Value::Time(at) => Some(*at),
        Value::Null => None,
        _ => {
            return Err(ErrorKind::Mapping);
        },
    };
    let created_at = match &row.columns[4] {
        Value::Time(at) => *at,
        _ => {
            return Err(ErrorKind::Mapping);
        },
    };
    Ok(Notification { id, user_id, description, read_at, created_at })
}

/// Spells a notification as a row of the store.
pub fn to_row(notification: &Notification) -> (row: Row)
    ensures
        row@ == row_of(notification@),
{
    let mut columns: Vec<Value> = Vec::new();
    columns.push(Value::Id(notification.id));
    columns.push(Value::Id(notification.user_id));
    columns.push(Value::Text(notification.description.clone()));
    columns.push(
        match notification.read_at {
            Some(at) => Value::Time(at),
            None => Value::Null,
        },
    );
    columns.push(Value::Time(notification.created_at));
    let row = Row { columns };
    assert(row@ =~= row_of(notification@));
    row
}

/// What validating a create payload gives, once its owner has been read:
/// the parameters where the owner is an identifier and the description is
/// not empty, a validation error otherwise.
pub open spec fn checked_create(owner: Option<u128>, description: Seq<char>) -> Result<
    (u128, Seq<char>),
    ErrorKind,
> {
    if owner is Some && description.len() > 0 {
        Ok((owner->Some_0, description))
    } else {
        Err(ErrorKind::Validation)
    }
}

/// What validating an update payload gives.
pub open spec fn checked_update(description: Seq<char>) -> Result<Seq<char>, ErrorKind> {
    if description.len() > 0 {
        Ok(description)
    } else {
        Err(ErrorKind::Validation)
    }
}

impl CreateParams {
    /// Builds the parameters of a create call from the owner as it was read
    /// from the payload and the payload's description.
    pub fn checked(owner: Option<u128>, description: String) -> (result: Result<
        CreateParams,
        ErrorKind,
    >)
        ensures
            lifted(result) == checked_create(owner, description@),
    {
        match owner {
            Some(user_id) => {
                if description.as_str().is_empty() {
                    Err(ErrorKind::Validation)
                } else {
                    Ok(CreateParams { user_id, description })
                }
            },
            None => Err(ErrorKind::Validation),
        }
    }
}

/// Validates a create payload: the owner must spell an identifier and the
/// description must not be empty.
pub fn from_create_request(payload: NotificationCreateRequest) -> (result: Result<
    CreateParams,
    ErrorKind,
>)
    ensures
        lifted(result) == checked_create(uuid_of_text(payload.user_id@), payload.description@),
{
    let owner = parse_uuid(payload.user_id.as_str());
    CreateParams::checked(owner, payload.description)
}

/// Validates an update payload: the description must not be empty.
pub fn from_update_request(payload: NotificationUpdateRequest) -> (result: Result<
    UpdateParams,
    ErrorKind,
>)
    ensures
        lifted(result) == checked_update(payload.description@),
{
    if payload.description.as_str().is_empty() {
        Err(ErrorKind::Validation)
    } else {
        Ok(UpdateParams { description: payload.description })
    }
}

/// What reading an identifier from a path or a payload gives.
pub open spec fn checked_id(id: Option<u128>) -> Result<u128, ErrorKind> {
    match id {
        Some(id) => Ok(id),
        None => Err(ErrorKind::Validation),
    }
}

/// Reads the identifier that a request names in its path.
pub fn id_from_text(text: &str) -> (result: Result<u128, ErrorKind>)
    ensures
        result == checked_id(uuid_of_text(text@)),
{
    match parse_uuid(text) {
        Some(id) => Ok(id),
        None => Err(ErrorKind::Validation),
    }
}

} // verus!
