//! What holds of the repository whatever it is asked, stated over the
//! store as the contracts of the operations see it.

use vstd::prelude::*;
use crate::model::{ErrorKind, Record};
use crate::protocol::{AnswerView, OperationView};
use crate::repo::revision;
use crate::store::{
    answered, applied, applied_keeps_order, found, fresh_record, lasts, lookup, ordered,
    redescribed, settled, slot, slot_bounds, slot_unique, Store,
};

verus! {

/// The record that a statement leaves under an identifier: an insert puts
/// its record under its own identifier, an update puts the redescribed
/// record there, a delete leaves nothing there, and every other identifier
/// keeps what it had.
pub open spec fn kept(rows: Seq<Record>, operation: OperationView, id: u128) -> Option<Record> {
    match operation {
        OperationView::Create { id: target, .. } => if id == target {
            Some(fresh_record(operation))
        } else {
            lookup(rows, id)
        },
        OperationView::Update { id: target, description } => if id == target {
            Some(redescribed(lookup(rows, target)->Some_0, description))
        } else {
            lookup(rows, id)
        },
        OperationView::Delete { id: target } => if id == target {
            None
        } else {
            lookup(rows, id)
        },
        _ => lookup(rows, id),
    }
}

/// The table behaves as a map from identifier to record: after a statement
/// that succeeded, looking up any identifier gives what the statement left
/// under it.
pub proof fn statement_acts_on_one_record(rows: Seq<Record>, operation: OperationView, id: u128)
    requires
        ordered(rows),
        applied(rows, operation) is Ok,
    ensures
        lookup(applied(rows, operation)->Ok_0.0, id) == kept(rows, operation, id),
{
    let after = applied(rows, operation)->Ok_0.0;
    applied_keeps_order(rows, operation);
    slot_bounds(rows, id);
    let place = slot(rows, id);
    match operation {
        OperationView::Create { id: target, .. } => {
            slot_bounds(rows, target);
            let at = slot(rows, target);
            if id == target {
                slot_unique(after, id, at);
            } else if id < target {
                slot_unique(after, id, place);
            } else {
                slot_unique(after, id, place + 1);
            }
        },
        OperationView::Update { id: target, .. } => {
            slot_bounds(rows, target);
            slot_unique(after, id, place);
        },
        OperationView::Delete { id: target } => {
            slot_bounds(rows, target);
            let at = slot(rows, target);
            if found(rows, target) {
                if id <= target {
                    slot_unique(after, id, place);
                } else {
                    slot_unique(after, id, place - 1);
                }
            }
        },
        _ => {},
    }
}

/// Whatever operation runs, a record that is there before and after it has
/// kept its identifier, its owner, its time of creation and its time of
/// reading: only the description can change.
pub proof fn only_the_description_changes(store: Store, operation: OperationView, id: u128)
    requires
        ordered(store.rows),
        lookup(store.rows, id) is Some,
        lookup(settled(store, operation).rows, id) is Some,
    ensures
        ({
            let before = lookup(store.rows, id)->Some_0;
            let after = lookup(settled(store, operation).rows, id)->Some_0;
            &&& after.id == before.id
            &&& after.user_id == before.user_id
            &&& after.created_at == before.created_at
            &&& after.read_at == before.read_at
            &&& !(operation is Update) ==> after == before
        }),
{
    if answered(store, operation) is Ok {
        statement_acts_on_one_record(store.rows, operation, id);
    }
}

/// A record that was created is found under the identifier it was given,
/// and is the record that the create returned.
pub proof fn created_is_found(store: Store, operation: OperationView)
    requires
        ordered(store.rows),
        operation is Create,
        answered(store, operation) is Ok,
        lasts(settled(store, operation).link, 1),
    ensures
        answered(
            settled(store, operation),
            OperationView::FindById { id: operation->Create_id },
        ) == answered(store, operation),
{
    statement_acts_on_one_record(store.rows, operation, operation->Create_id);
}

/// Whatever operations have run, the table lists its records by rising
/// identifier, and a listing returns exactly that list.
pub proof fn listing_is_ordered(store: Store, operation: OperationView)
    requires
        ordered(store.rows),
    ensures
        ordered(settled(store, operation).rows),
        lasts(store.link, 1) ==> answered(store, OperationView::FindAll) == Ok::<
            AnswerView,
            ErrorKind,
        >(AnswerView::Many(store.rows)),
{
    applied_keeps_order(store.rows, operation);
}

/// Where an identifier's slot lies once another record has been put in: one
/// further on if the new record goes before it, else where it was.
proof fn slot_after_insert(rows: Seq<Record>, record: Record, id: u128)
    requires
        ordered(rows),
        !found(rows, record.id),
        id != record.id,
    ensures
        slot(rows.insert(slot(rows, record.id), record), id) == slot(rows, id) + if record.id
            < id {
            1int
        } else {
            0int
        },
        found(rows.insert(slot(rows, record.id), record), id) == found(rows, id),
{
    let after = rows.insert(slot(rows, record.id), record);
    slot_bounds(rows, record.id);
    slot_bounds(rows, id);
    if record.id < id {
        slot_unique(after, id, slot(rows, id) + 1);
    } else {
        slot_unique(after, id, slot(rows, id));
    }
}

/// The order in which two records are inserted does not show in the table.
pub proof fn insertion_order_is_immaterial(
    rows: Seq<Record>,
    first: OperationView,
    second: OperationView,
)
    requires
        ordered(rows),
        first is Create,
        second is Create,
        first->Create_id != second->Create_id,
        applied(rows, first) is Ok,
        applied(rows, second) is Ok,
    ensures
        applied(applied(rows, first)->Ok_0.0, second) is Ok,
        applied(applied(rows, second)->Ok_0.0, first) is Ok,
        applied(applied(rows, first)->Ok_0.0, second)->Ok_0.0 == applied(
            applied(rows, second)->Ok_0.0,
            first,
        )->Ok_0.0,
{
    let one = fresh_record(first);
    let two = fresh_record(second);
    let at_one = slot(rows, one.id);
    let at_two = slot(rows, two.id);
    let with_one = rows.insert(at_one, one);
    let with_two = rows.insert(at_two, two);
    assert(applied(rows, first)->Ok_0.0 == with_one);
    assert(applied(rows, second)->Ok_0.0 == with_two);
    slot_after_insert(rows, one, two.id);
    slot_after_insert(rows, two, one.id);
    slot_bounds(rows, one.id);
    slot_bounds(rows, two.id);
    let both = applied(with_one, second)->Ok_0.0;
    let other = applied(with_two, first)->Ok_0.0;
    if one.id < two.id {
        assert(at_one <= at_two) by {
            if at_two < at_one {
                assert(rows[at_two].id < one.id);
            }
        }
        assert(both == with_one.insert(at_two + 1, two));
        assert(other == with_two.insert(at_one, one));
        assert(both =~= other);
    } else {
        assert(at_two <= at_one) by {
            if at_one < at_two {
                assert(rows[at_one].id < two.id);
            }
        }
        assert(both == with_one.insert(at_two, two));
        assert(other == with_two.insert(at_one + 1, one));
        assert(both =~= other);
    }
}

/// An update of a record that the store does not have reports that nothing
/// was found, and a listing shows the table as it was.
pub proof fn update_of_missing_changes_nothing(store: Store, id: u128, description: Seq<char>)
    requires
        ordered(store.rows),
        lookup(store.rows, id) is None,
        lasts(store.link, 2),
    ensures
        answered(store, revision(id, description)) == Err::<AnswerView, ErrorKind>(
            ErrorKind::NotFound,
        ),
        settled(store, revision(id, description)).rows == store.rows,
        lasts(store.link, 4) ==> answered(
            settled(store, revision(id, description)),
            OperationView::FindAll,
        ) == Ok::<AnswerView, ErrorKind>(AnswerView::Many(store.rows)),
{
}

/// A delete of a record that the store does not have removes nothing and
/// counts zero.
pub proof fn delete_of_missing_counts_zero(store: Store, id: u128)
    requires
        ordered(store.rows),
        lookup(store.rows, id) is None,
        lasts(store.link, 3),
    ensures
        answered(store, OperationView::Delete { id }) == Ok::<AnswerView, ErrorKind>(
            AnswerView::Count(0),
        ),
        settled(store, OperationView::Delete { id }).rows == store.rows,
{
}

/// A delete of a record that the store has removes that row and no other,
/// and counts one.
pub proof fn delete_of_present_removes_one(store: Store, id: u128, other: u128)
    requires
        ordered(store.rows),
        lookup(store.rows, id) is Some,
        lasts(store.link, 3),
    ensures
        answered(store, OperationView::Delete { id }) == Ok::<AnswerView, ErrorKind>(
            AnswerView::Count(1),
        ),
        settled(store, OperationView::Delete { id }).rows.len() == store.rows.len() - 1,
        lookup(settled(store, OperationView::Delete { id }).rows, id) is None,
        other != id ==> lookup(settled(store, OperationView::Delete { id }).rows, other)
            == lookup(store.rows, other),
{
    let operation = OperationView::Delete { id };
    slot_bounds(store.rows, id);
    statement_acts_on_one_record(store.rows, operation, id);
    statement_acts_on_one_record(store.rows, operation, other);
}

/// A second delete under the same identifier counts zero.
pub proof fn second_delete_counts_zero(store: Store, id: u128)
    requires
        ordered(store.rows),
        answered(store, OperationView::Delete { id }) is Ok,
        lasts(settled(store, OperationView::Delete { id }).link, 3),
    ensures
        answered(settled(store, OperationView::Delete { id }), OperationView::Delete { id })
            == Ok::<AnswerView, ErrorKind>(AnswerView::Count(0)),
{
    let operation = OperationView::Delete { id };
    slot_bounds(store.rows, id);
    if found(store.rows, id) {
        statement_acts_on_one_record(store.rows, operation, id);
    }
}

/// No two records of the store ever share an identifier: a create under an
/// identifier that is taken fails and changes nothing, and whatever an
/// operation leaves behind holds each identifier once.
pub proof fn identifiers_stay_distinct(store: Store, operation: OperationView)
    requires
        ordered(store.rows),
    ensures
        forall|i: int, j: int|
            0 <= i < j < settled(store, operation).rows.len() ==> settled(
                store,
                operation,
            ).rows[i].id != settled(store, operation).rows[j].id,
        operation is Create && lookup(store.rows, operation->Create_id) is Some ==> {
            &&& answered(store, operation) == Err::<AnswerView, ErrorKind>(ErrorKind::Store)
            &&& settled(store, operation).rows == store.rows
        },
{
    applied_keeps_order(store.rows, operation);
}

/// An operation that fails, at whatever point, leaves every record as it
/// was: an update that failed has not changed the description.
pub proof fn failure_changes_nothing(store: Store, operation: OperationView, id: u128)
    requires
        answered(store, operation) is Err,
    ensures
        settled(store, operation).rows == store.rows,
        lookup(settled(store, operation).rows, id) == lookup(store.rows, id),
{
}

} // verus!
