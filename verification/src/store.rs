//! What the store is to the repository: the records of the notifications
//! table, listed by rising identifier, behind a link that may go down.
//!
//! Everything here is mathematics. It says what each statement does to the
//! table and what a whole operation leaves behind, and it is what the
//! contracts of the repository are stated over.

use vstd::prelude::*;
use crate::model::{ErrorKind, Record};
use crate::protocol::{AnswerView, OperationView};

verus! {

/// The records are listed by strictly rising identifier, so no identifier
/// occurs twice.
pub open spec fn ordered(rows: Seq<Record>) -> bool {
    forall|i: int, j: int| 0 <= i < j < rows.len() ==> rows[i].id < rows[j].id
}

/// How many records at the head of the list have an identifier below `id`.
/// In an ordered list this is the place of the record with that identifier,
/// or the place where it would go.
pub open spec fn slot(rows: Seq<Record>, id: u128) -> int
    decreases rows.len(),
{
    if rows.len() == 0 || rows[0].id >= id {
        0
    } else {
        1 + slot(rows.drop_first(), id)
    }
}

/// Whether the record at the slot of `id` has that identifier.
pub open spec fn found(rows: Seq<Record>, id: u128) -> bool {
    slot(rows, id) < rows.len() && rows[slot(rows, id)].id == id
}

/// The record with the given identifier, if the table has one.
pub open spec fn lookup(rows: Seq<Record>, id: u128) -> Option<Record> {
    if found(rows, id) {
        Some(rows[slot(rows, id)])
    } else {
        None
    }
}

/// The slot lies within the list; every record before it has a smaller
/// identifier, and the record at it, if there is one, has not.
pub proof fn slot_bounds(rows: Seq<Record>, id: u128)
    ensures
        0 <= slot(rows, id) <= rows.len(),
        forall|i: int| 0 <= i < slot(rows, id) ==> (#[trigger] rows[i]).id < id,
        slot(rows, id) < rows.len() ==> rows[slot(rows, id)].id >= id,
    decreases rows.len(),
{
    if rows.len() == 0 || rows[0].id >= id {
    } else {
        let rest = rows.drop_first();
        slot_bounds(rest, id);
        assert forall|i: int| 0 <= i < slot(rows, id) implies (#[trigger] rows[i]).id < id by {
            if i > 0 {
                assert(rows[i] == rest[i - 1]);
            }
        }
        if slot(rows, id) < rows.len() {
            assert(rows[slot(rows, id)] == rest[slot(rest, id)]);
        }
    }
}

/// A place with smaller identifiers before it and none at it is the slot.
pub proof fn slot_unique(rows: Seq<Record>, id: u128, place: int)
    requires
        0 <= place <= rows.len(),
        forall|i: int| 0 <= i < place ==> (#[trigger] rows[i]).id < id,
        place < rows.len() ==> rows[place].id >= id,
    ensures
        slot(rows, id) == place,
    decreases rows.len(),
{
    if rows.len() == 0 {
    } else if rows[0].id >= id {
        if place > 0 {
            assert(rows[0].id < id);
        }
    } else {
        let rest = rows.drop_first();
        assert forall|i: int| 0 <= i < place - 1 implies (#[trigger] rest[i]).id < id by {
            assert(rest[i] == rows[i + 1]);
        }
        if place - 1 < rest.len() {
            assert(rest[place - 1] == rows[place]);
        }
        slot_unique(rest, id, place - 1);
    }
}

/// In an ordered table, a record is found under an identifier exactly when
/// some record of the table has it, and the one found is that record.
pub proof fn found_means_present(rows: Seq<Record>, id: u128)
    requires
        ordered(rows),
    ensures
        found(rows, id) <==> exists|i: int| 0 <= i < rows.len() && (#[trigger] rows[i]).id == id,
        forall|i: int|
            0 <= i < rows.len() && (#[trigger] rows[i]).id == id ==> lookup(rows, id) == Some(
                rows[i],
            ),
{
    slot_bounds(rows, id);
    assert forall|i: int| 0 <= i < rows.len() && (#[trigger] rows[i]).id == id implies slot(
        rows,
        id,
    ) == i by {
        slot_unique(rows, id, i);
    }
}

/// The record that an insert stores: as bound by the statement, and not yet
/// read.
pub open spec fn fresh_record(operation: OperationView) -> Record
    recommends
        operation is Create,
{
    Record {
        id: operation->Create_id,
        user_id: operation->Create_user_id,
        description: operation->Create_description,
        read_at: None,
        created_at: operation->Create_created_at,
    }
}

/// A record with its description replaced and nothing else touched.
pub open spec fn redescribed(record: Record, description: Seq<char>) -> Record {
    Record { description, ..record }
}

/// What the statement of an operation does to the table, and what the
/// operation then answers.
///
/// Listing and lookup leave the table as it is. An insert fails on an
/// identifier that the table already has. An update that finds no record
/// fails and changes nothing. A delete that finds no record succeeds with a
/// count of zero.
pub open spec fn applied(rows: Seq<Record>, operation: OperationView) -> Result<
    (Seq<Record>, AnswerView),
    ErrorKind,
> {
    match operation {
        OperationView::FindAll => Ok((rows, AnswerView::Many(rows))),
        OperationView::FindById { id } => {
            if found(rows, id) {
                Ok((rows, AnswerView::One(rows[slot(rows, id)])))
            } else {
                Err(ErrorKind::NotFound)
            }
        },
        OperationView::Create { id, .. } => {
            if found(rows, id) {
                Err(ErrorKind::Store)
            } else {
                let record = fresh_record(operation);
                Ok((rows.insert(slot(rows, id), record), AnswerView::One(record)))
            }
        },
        OperationView::Update { id, description } => {
            if found(rows, id) {
                let record = redescribed(rows[slot(rows, id)], description);
                Ok((rows.update(slot(rows, id), record), AnswerView::One(record)))
            } else {
                Err(ErrorKind::NotFound)
            }
        },
        OperationView::Delete { id } => {
            if found(rows, id) {
                Ok((rows.remove(slot(rows, id)), AnswerView::Count(1)))
            } else {
                Ok((rows, AnswerView::Count(0)))
            }
        },
    }
}

/// A statement leaves an ordered table ordered.
pub proof fn applied_keeps_order(rows: Seq<Record>, operation: OperationView)
    requires
        ordered(rows),
    ensures
        applied(rows, operation) is Ok ==> ordered(applied(rows, operation)->Ok_0.0),
{
    match operation {
        OperationView::Create { id, .. } => {
            slot_bounds(rows, id);
        },
        OperationView::Update { id, .. } => {
            slot_bounds(rows, id);
        },
        OperationView::Delete { id } => {
            slot_bounds(rows, id);
        },
        _ => {},
    }
}

/// The link to the store: `None` where it stays up, else the number of
/// actions that it will still carry before it goes down for good.
pub open spec fn lasts(link: Option<u64>, actions: int) -> bool {
    link is None || link->Some_0 >= actions
}

/// The link after that many actions were tried on it.
pub open spec fn drained(link: Option<u64>, actions: int) -> Option<u64>
    recommends
        actions >= 0,
{
    match link {
        None => None,
        Some(left) => if left >= actions {
            Some((left - actions) as u64)
        } else {
            Some(0)
        },
    }
}

/// The store as the repository knows it between two operations.
pub ghost struct Store {
    /// The committed records, by rising identifier.
    pub rows: Seq<Record>,
    /// How long the link will last.
    pub link: Option<u64>,
}

/// How many actions an operation asks of the store up to its statement:
/// one for a read; two for a write, which opens a transaction first.
pub open spec fn reach(operation: OperationView) -> int {
    if operation.writes() {
        2
    } else {
        1
    }
}

/// How many actions an operation asks of the store in all: a write follows
/// its statement with a commit or a rollback.
pub open spec fn cost(operation: OperationView) -> int {
    if operation.writes() {
        3
    } else {
        1
    }
}

/// What a whole operation answers.
///
/// The link has to carry the operation up to its statement. The operation
/// then fails as its statement fails; a write succeeds only if the link
/// carries the commit as well. Whatever the link does not carry is a
/// failure of the store.
pub open spec fn answered(store: Store, operation: OperationView) -> Result<
    AnswerView,
    ErrorKind,
> {
    if !lasts(store.link, reach(operation)) {
        Err(ErrorKind::Store)
    } else {
        match applied(store.rows, operation) {
            Err(kind) => Err(kind),
            Ok((_, answer)) => if lasts(store.link, cost(operation)) {
                Ok(answer)
            } else {
                Err(ErrorKind::Store)
            },
        }
    }
}

/// What a whole operation leaves behind: the link drained by what was
/// asked of it, and the table changed by the statement if the operation
/// succeeded, untouched if it failed.
pub open spec fn settled(store: Store, operation: OperationView) -> Store {
    Store {
        rows: if answered(store, operation) is Ok {
            applied(store.rows, operation)->Ok_0.0
        } else {
            store.rows
        },
        link: drained(store.link, cost(operation)),
    }
}

} // verus!
