//! The notification record, the payloads that create and change it, and the
//! kinds of failure that the repository reports.

use vstd::prelude::*;

verus! {

/// A point in time: whole seconds since the Unix epoch and the nanoseconds
/// past that second.
#[derive(Clone, Copy, Debug, PartialEq, Eq, Structural)]
pub struct Timestamp {
    pub secs: i64,
    pub nanos: u32,
}

/// Why an operation failed.
#[derive(Clone, Copy, Debug, PartialEq, Eq, Structural)]
pub enum ErrorKind {
    /// A required field of the input is missing or malformed.
    Validation,
    /// A row that the store returned does not have the expected shape.
    Mapping,
    /// No record has the requested identifier.
    NotFound,
    /// The store could not be reached, refused the statement, or the
    /// transaction failed.
    Store,
}

/// A persisted notification.
#[derive(Clone, Debug, PartialEq, Eq)]
pub struct Notification {
    pub id: u128,
    pub user_id: u128,
    pub description: String,
    pub read_at: Option<Timestamp>,
    pub created_at: Timestamp,
}

/// What a notification is, as a mathematical value.
pub ghost struct Record {
    pub id: u128,
    pub user_id: u128,
    pub description: Seq<char>,
    pub read_at: Option<Timestamp>,
    pub created_at: Timestamp,
}

impl View for Notification {
    type V = Record;

    open spec fn view(&self) -> Record {
        Record {
            id: self.id,
            user_id: self.user_id,
            description: self.description@,
            read_at: self.read_at,
            created_at: self.created_at,
        }
    }
}

impl Notification {
    /// A copy of this record with the same contents.
    pub fn duplicate(&self) -> (copy: Notification)
        ensures
            copy@ == self@,
    {
        Notification {
            id: self.id,
            user_id: self.user_id,
            description: self.description.clone(),
            read_at: self.read_at,
            created_at: self.created_at,
        }
    }
}

/// The records of a list, in the list's order.
pub open spec fn records(list: Seq<Notification>) -> Seq<Record> {
    Seq::new(list.len(), |i: int| list[i]@)
}

/// What a result of the library is, as a mathematical value: the view of
/// what it carries, or its failure.
pub open spec fn lifted<T: View>(result: Result<T, ErrorKind>) -> Result<T::V, ErrorKind> {
    match result {
        Ok(value) => Ok(value@),
        Err(kind) => Err(kind),
    }
}

/// The payload of a request to create a notification, as it arrives.
#[derive(Clone, Debug, PartialEq, Eq)]
pub struct NotificationCreateRequest {
    pub user_id: String,
    pub description: String,
}

/// The payload of a request to change a notification, as it arrives.
#[derive(Clone, Debug, PartialEq, Eq)]
pub struct NotificationUpdateRequest {
    pub description: String,
}

/// A create payload that passed validation.
#[derive(Clone, Debug, PartialEq, Eq)]
pub struct CreateParams {
    pub user_id: u128,
    pub description: String,
}

/// An update payload that passed validation.
#[derive(Clone, Debug, PartialEq, Eq)]
pub struct UpdateParams {
    pub description: String,
}

impl View for CreateParams {
    type V = (u128, Seq<char>);

    open spec fn view(&self) -> (u128, Seq<char>) {
        (self.user_id, self.description@)
    }
}

impl View for UpdateParams {
    type V = Seq<char>;

    open spec fn view(&self) -> Seq<char> {
        self.description@
    }
}

} // verus!
