//! The replies of the service: what each route answers to the result of its
//! repository call. Every failure is answered as a bad request.

use vstd::prelude::*;
use vstd::string::StringExecFns;
use crate::model::{records, ErrorKind, Notification, Record};

verus! {

/// The status of a reply to a request that succeeded.
pub const OK: u16 = 200u16;

/// The status of a reply to a request that failed.
pub const BAD_REQUEST: u16 = 400u16;

/// What a reply carries.
#[derive(Debug, PartialEq, Eq)]
pub enum Body {
    /// A list of notifications, to be sent as a JSON array.
    List(Vec<Notification>),
    /// One notification, to be sent as a JSON object.
    Entity(Notification),
    /// A plain message.
    Text(String),
}

/// What a body is, as a mathematical value.
pub ghost enum BodyView {
    List(Seq<Record>),
    Entity(Record),
    Text(Seq<char>),
}

impl View for Body {
    type V = BodyView;

    open spec fn view(&self) -> BodyView {
        match *self {
            Body::List(list) => BodyView::List(records(list@)),
            Body::Entity(notification) => BodyView::Entity(notification@),
            Body::Text(text) => BodyView::Text(text@),
        }
    }
}

/// A reply: a status and a body.
#[derive(Debug, PartialEq, Eq)]
pub struct Reply {
    pub status: u16,
    pub body: Body,
}

/// What a reply is, as a mathematical value.
pub ghost struct ReplyView {
    pub status: u16,
    pub body: BodyView,
}

impl View for Reply {
    type V = ReplyView;

    open spec fn view(&self) -> ReplyView {
        ReplyView { status: self.status, body: self.body@ }
    }
}

/// The reply that refuses a request with a message.
pub open spec fn refused(message: Seq<char>) -> ReplyView {
    ReplyView { status: BAD_REQUEST, body: BodyView::Text(message) }
}

/// The character of a decimal digit.
pub open spec fn digit(value: nat) -> char
    recommends
        value < 10,
{
    if value == 0 {
        '0'
    } else if value == 1 {
        '1'
    } else if value == 2 {
        '2'
    } else if value == 3 {
        '3'
    } else if value == 4 {
        '4'
    } else if value == 5 {
        '5'
    } else if value == 6 {
        '6'
    } else if value == 7 {
        '7'
    } else if value == 8 {
        '8'
    } else {
        '9'
    }
}

/// A number in decimal, without leading zeros.
pub open spec fn decimal(value: nat) -> Seq<char>
    decreases value,
{
    if value < 10 {
        seq![digit(value)]
    } else {
        decimal(value / 10) + seq![digit(value % 10)]
    }
}

/// The message that reports how many records a delete removed.
pub open spec fn deleted_message(count: nat) -> Seq<char> {
    "Successfully deleted "@ + decimal(count) + " record(s)"@
}

/// The text of a decimal digit.
fn digit_text(value: u64) -> (text: &'static str)
    requires
        value < 10,
    ensures
        text@ == seq![digit(value as nat)],
{
    proof {
        reveal_strlit("0");
        reveal_strlit("1");
        reveal_strlit("2");
        reveal_strlit("3");
        reveal_strlit("4");
        reveal_strlit("5");
        reveal_strlit("6");
        reveal_strlit("7");
        reveal_strlit("8");
        reveal_strlit("9");
    }
    let text = if value == 0 {
        "0"
    } else if value == 1 {
        "1"
    } else if value == 2 {
        "2"
    } else if value == 3 {
        "3"
    } else if value == 4 {
        "4"
    } else if value == 5 {
        "5"
    } else if value == 6 {
        "6"
    } else if value == 7 {
        "7"
    } else if value == 8 {
        "8"
    } else {
        "9"
    };
    assert(text@ =~= seq![digit(value as nat)]);
    text
}

/// Writes a number in decimal.
pub fn decimal_text(value: u64) -> (text: String)
    ensures
        text@ == decimal(value as nat),
    decreases value,
{
    if value < 10 {
        String::from_str(digit_text(value))
    } else {
        let mut text = decimal_text(value / 10);
        text.append(digit_text(value % 10));
        text
    }
}

/// The reply that refuses a request with a message.
fn refuse(message: &str) -> (reply: Reply)
    ensures
        reply@ == refused(message@),
{
    Reply { status: BAD_REQUEST, body: Body::Text(String::from_str(message)) }
}

/// The reply to a request for every notification.
pub fn find_all(result: Result<Vec<Notification>, ErrorKind>) -> (reply: Reply)
    ensures
        reply@ == match result {
            Ok(list) => ReplyView { status: OK, body: BodyView::List(records(list@)) },
            Err(_) => refused("Error trying to read all notifications from database"@),
        },
{
    match result {
        Ok(list) => Reply { status: OK, body: Body::List(list) },
        Err(_) => refuse("Error trying to read all notifications from database"),
    }
}

/// The reply to a request for one notification.
pub fn find(result: Result<Notification, ErrorKind>) -> (reply: Reply)
    ensures
        reply@ == match result {
            Ok(notification) => ReplyView { status: OK, body: BodyView::Entity(notification@) },
            Err(_) => refused("Todo not found"@),
        },
{
    match result {
        Ok(notification) => Reply { status: OK, body: Body::Entity(notification) },
        Err(_) => refuse("Todo not found"),
    }
}

/// The reply to a request to create a notification.
pub fn create(result: Result<Notification, ErrorKind>) -> (reply: Reply)
    ensures
        reply@ == match result {
            Ok(notification) => ReplyView { status: OK, body: BodyView::Entity(notification@) },
            Err(_) => refused("Error trying to create new notification"@),
        },
{
    match result {
        Ok(notification) => Reply { status: OK, body: Body::Entity(notification) },
        Err(_) => refuse("Error trying to create new notification"),
    }
}

/// The reply to a request to change a notification.
pub fn update(result: Result<Notification, ErrorKind>) -> (reply: Reply)
    ensures
        reply@ == match result {
            Ok(notification) => ReplyView { status: OK, body: BodyView::Entity(notification@) },
            Err(_) => refused("Notification not found"@),
        },
{
    match result {
        Ok(notification) => Reply { status: OK, body: Body::Entity(notification) },
        Err(_) => refuse("Notification not found"),
    }
}

/// The reply to a request to delete a notification: the count in a message
/// where a record went, a refusal where none did or the delete failed.
pub fn delete(result: Result<u64, ErrorKind>) -> (reply: Reply)
    ensures
        reply@ == match result {
            Ok(count) if count > 0 => ReplyView {
                status: OK,
                body: BodyView::Text(deleted_message(count as nat)),
            },
            _ => refused("Notification not found"@),
        },
{
    match result {
        Ok(count) if count > 0 => {
            let mut message = String::from_str("Successfully deleted ");
            message.append(decimal_text(count).as_str());
            message.append(" record(s)");
            Reply { status: OK, body: Body::Text(message) }
        },
        _ => refuse("Notification not found"),
    }
}

} // verus!
