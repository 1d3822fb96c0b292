//! The notification repository: the five operations, each carried through
//! the transaction protocol against a table.

use vstd::prelude::*;
use crate::clock::current_time;
use crate::ident::{random_uuid, uuid_of_text, KIND_MASK, RANDOM_KIND};
use crate::mapper::{checked_create, checked_update, from_create_request, from_update_request};
use crate::model::{
    lifted, records, CreateParams, ErrorKind, Notification, NotificationCreateRequest,
    NotificationUpdateRequest, Timestamp, UpdateParams,
};
use crate::protocol::{
    count_of, counted, list_of, many, one, record_of, AnswerView, Operation, OperationView,
};
use crate::store::{answered, ordered, settled, Store};
use crate::table::Table;

verus! {

/// The insert of a record with these values.
pub open spec fn insertion(
    id: u128,
    user_id: u128,
    description: Seq<char>,
    created_at: Timestamp,
) -> OperationView {
    OperationView::Create { id, user_id, description, created_at }
}

/// The store went from `before` to `after`, and the answer came, by the
/// insert of a record with the given owner and description under some
/// random identifier and some reading of the clock.
pub open spec fn inserted_afresh(
    before: Store,
    after: Store,
    answer: Result<AnswerView, ErrorKind>,
    user_id: u128,
    description: Seq<char>,
) -> bool {
    exists|id: u128, created_at: Timestamp|
        {
            &&& id & KIND_MASK == RANDOM_KIND
            &&& created_at.secs >= 0
            &&& created_at.nanos < 1_000_000_000
            &&& answer == answered(
                before,
                #[trigger] insertion(id, user_id, description, created_at),
            )
            &&& after == settled(before, insertion(id, user_id, description, created_at))
        }
}

/// The change of a record's description.
pub open spec fn revision(id: u128, description: Seq<char>) -> OperationView {
    OperationView::Update { id, description }
}

/// The operation that inserts a record with the given parameters under the
/// given identifier and creation time.
pub fn plan_create_with(params: CreateParams, id: u128, created_at: Timestamp) -> (operation:
    Operation)
    ensures
        operation@ == insertion(id, params.user_id, params.description@, created_at),
{
    Operation::Create { id, user_id: params.user_id, description: params.description, created_at }
}

/// Validates a create payload and plans the insert: under a fresh random
/// identifier, stamped with the current time.
///
/// Which identifier and which time, the contract cannot say; it states what
/// holds of each of them.
pub fn plan_create(request: NotificationCreateRequest) -> (plan: Result<Operation, ErrorKind>)
    ensures
        match checked_create(uuid_of_text(request.user_id@), request.description@) {
            Err(kind) => plan is Err && plan->Err_0 == kind,
            Ok((user_id, description)) => {
                &&& plan is Ok
                &&& plan->Ok_0@ is Create
                &&& plan->Ok_0@->Create_user_id == user_id
                &&& plan->Ok_0@->Create_description == description
                &&& plan->Ok_0@->Create_id & KIND_MASK == RANDOM_KIND
                &&& plan->Ok_0@->Create_created_at.secs >= 0
                &&& plan->Ok_0@->Create_created_at.nanos < 1_000_000_000
            },
        },
{
    match from_create_request(request) {
        Err(kind) => Err(kind),
        Ok(params) => {
            let id = random_uuid();
            let created_at = current_time();
            Ok(plan_create_with(params, id, created_at))
        },
    }
}

/// The operation that replaces a record's description.
pub fn plan_update_with(id: u128, params: UpdateParams) -> (operation: Operation)
    ensures
        operation@ == revision(id, params.description@),
{
    Operation::Update { id, description: params.description }
}

/// Validates an update payload and plans the update.
pub fn plan_update(id: u128, request: NotificationUpdateRequest) -> (plan: Result<
    Operation,
    ErrorKind,
>)
    ensures
        lifted(plan) == match checked_update(request.description@) {
            Err(kind) => Err(kind),
            Ok(description) => Ok(revision(id, description)),
        },
{
    match from_update_request(request) {
        Err(kind) => Err(kind),
        Ok(params) => Ok(plan_update_with(id, params)),
    }
}

impl Notification {
    /// Every record of the store, by rising identifier. An empty store gives
    /// an empty list.
    pub fn find_all(store: &mut Table) -> (result: Result<Vec<Notification>, ErrorKind>)
        requires
            old(store).wf(),
        ensures
            final(store).wf(),
            many(result) == answered(old(store)@, OperationView::FindAll),
            final(store)@ == settled(old(store)@, OperationView::FindAll),
            result is Ok ==> ordered(records(result->Ok_0@)),
    {
        list_of(store.run(Operation::FindAll))
    }

    /// The record with the given identifier.
    pub fn find_by_id(id: u128, store: &mut Table) -> (result: Result<Notification, ErrorKind>)
        requires
            old(store).wf(),
        ensures
            final(store).wf(),
            one(result) == answered(old(store)@, OperationView::FindById { id }),
            final(store)@ == settled(old(store)@, OperationView::FindById { id }),
    {
        record_of(store.run(Operation::FindById { id }))
    }

    /// Inserts a record under the given identifier and creation time, and
    /// returns it as the store holds it.
    pub fn create_with(
        params: CreateParams,
        id: u128,
        created_at: Timestamp,
        store: &mut Table,
    ) -> (result: Result<Notification, ErrorKind>)
        requires
            old(store).wf(),
        ensures
            final(store).wf(),
            one(result) == answered(
                old(store)@,
                insertion(id, params.user_id, params.description@, created_at),
            ),
            final(store)@ == settled(
                old(store)@,
                insertion(id, params.user_id, params.description@, created_at),
            ),
    {
        record_of(store.run(plan_create_with(params, id, created_at)))
    }

    /// Validates the payload, draws an identifier, reads the clock, inserts
    /// the record, and returns it as the store holds it.
    ///
    /// A payload that fails validation is refused before the store is
    /// asked. Otherwise the call is an insert under some random identifier
    /// and some reading of the clock: which ones, the contract cannot say.
    pub fn create(request: NotificationCreateRequest, store: &mut Table) -> (result: Result<
        Notification,
        ErrorKind,
    >)
        requires
            old(store).wf(),
        ensures
            final(store).wf(),
            match checked_create(uuid_of_text(request.user_id@), request.description@) {
                Err(kind) => {
                    &&& result is Err
                    &&& result->Err_0 == kind
                    &&& final(store)@ == old(store)@
                },
                Ok((user_id, description)) => inserted_afresh(
                    old(store)@,
                    final(store)@,
                    one(result),
                    user_id,
                    description,
                ),
            },
    {
        match plan_create(request) {
            Err(kind) => Err(kind),
            Ok(operation) => {
                let ghost plan = operation@;
                let result = record_of(store.run(operation));
                assert(plan == insertion(
                    plan->Create_id,
                    plan->Create_user_id,
                    plan->Create_description,
                    plan->Create_created_at,
                ));
                result
            },
        }
    }

    /// Validates the payload and replaces the description of the record
    /// with the given identifier; returns the record as the store holds it.
    pub fn update(id: u128, request: NotificationUpdateRequest, store: &mut Table) -> (result:
        Result<Notification, ErrorKind>)
        requires
            old(store).wf(),
        ensures
            final(store).wf(),
            match checked_update(request.description@) {
                Err(kind) => {
                    &&& result is Err
                    &&& result->Err_0 == kind
                    &&& final(store)@ == old(store)@
                },
                Ok(description) => {
                    &&& one(result) == answered(old(store)@, revision(id, description))
                    &&& final(store)@ == settled(old(store)@, revision(id, description))
                },
            },
    {
        match plan_update(id, request) {
            Err(kind) => Err(kind),
            Ok(operation) => record_of(store.run(operation)),
        }
    }

    /// Removes the record with the given identifier and returns how many
    /// rows went: one, or none where the store has no such record.
    pub fn delete(id: u128, store: &mut Table) -> (result: Result<u64, ErrorKind>)
        requires
            old(store).wf(),
        ensures
            final(store).wf(),
            counted(result) == answered(old(store)@, OperationView::Delete { id }),
            final(store)@ == settled(old(store)@, OperationView::Delete { id }),
    {
        count_of(store.run(Operation::Delete { id }))
    }
}

} // verus!
