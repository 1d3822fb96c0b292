//! The transaction protocol of the repository.
//!
//! One operation is one conversation with the store. The repository decides,
//! the store is asked: each decision is an [`Action`] that the caller carries
//! out, and what the store answered comes back as an [`Event`]. A read sends
//! its statement and finishes. A write opens a transaction, sends its
//! statement, and commits if the statement succeeded or rolls back if it did
//! not; it finishes only when the store has answered the commit or the
//! rollback.

use vstd::prelude::*;
use crate::mapper::{entity_of, shaped, to_entity, Cell, Row};
use crate::model::{lifted, records, ErrorKind, Notification, Record, Timestamp};

verus! {

/// An operation of the repository, with everything that its statement
/// binds.
#[derive(Debug, PartialEq, Eq)]
pub enum Operation {
    /// Every record, ordered by identifier.
    FindAll,
    /// The record with this identifier.
    FindById { id: u128 },
    /// Insert a record and return it as stored.
    Create { id: u128, user_id: u128, description: String, created_at: Timestamp },
    /// Replace the description of a record and return the record as stored.
    Update { id: u128, description: String },
    /// Remove a record and return how many rows went.
    Delete { id: u128 },
}

/// What an operation is, as a mathematical value.
pub ghost enum OperationView {
    FindAll,
    FindById { id: u128 },
    Create { id: u128, user_id: u128, description: Seq<char>, created_at: Timestamp },
    Update { id: u128, description: Seq<char> },
    Delete { id: u128 },
}

impl OperationView {
    /// Whether the operation changes the store, and so runs in a
    /// transaction.
    pub open spec fn writes(self) -> bool {
        !(self is FindAll || self is FindById)
    }
}

impl View for Operation {
    type V = OperationView;

    open spec fn view(&self) -> OperationView {
        match *self {
            Operation::FindAll => OperationView::FindAll,
            Operation::FindById { id } => OperationView::FindById { id },
            Operation::Create { id, user_id, description, created_at } => OperationView::Create {
                id,
                user_id,
                description: description@,
                created_at,
            },
            Operation::Update { id, description } => OperationView::Update {
                id,
                description: description@,
            },
            Operation::Delete { id } => OperationView::Delete { id },
        }
    }
}

impl Operation {
    /// Whether the operation changes the store.
    pub fn writes(&self) -> (yes: bool)
        ensures
            yes == self@.writes(),
    {
        match self {
            Operation::FindAll => false,
            Operation::FindById { .. } => false,
            _ => true,
        }
    }
}

/// What a successful operation returns.
#[derive(Debug, PartialEq, Eq)]
pub enum Answer {
    Many(Vec<Notification>),
    One(Notification),
    Count(u64),
}

/// What an answer is, as a mathematical value.
pub ghost enum AnswerView {
    Many(Seq<Record>),
    One(Record),
    Count(u64),
}

impl View for Answer {
    type V = AnswerView;

    open spec fn view(&self) -> AnswerView {
        match *self {
            Answer::Many(list) => AnswerView::Many(records(list@)),
            Answer::One(notification) => AnswerView::One(notification@),
            Answer::Count(count) => AnswerView::Count(count),
        }
    }
}

/// A result that carries a list of notifications, as the result of an
/// operation.
pub open spec fn many(result: Result<Vec<Notification>, ErrorKind>) -> Result<
    AnswerView,
    ErrorKind,
> {
    match result {
        Ok(list) => Ok(AnswerView::Many(records(list@))),
        Err(kind) => Err(kind),
    }
}

/// A result that carries one notification, as the result of an operation.
pub open spec fn one(result: Result<Notification, ErrorKind>) -> Result<AnswerView, ErrorKind> {
    match result {
        Ok(notification) => Ok(AnswerView::One(notification@)),
        Err(kind) => Err(kind),
    }
}

/// A result that carries a count, as the result of an operation.
pub open spec fn counted(result: Result<u64, ErrorKind>) -> Result<AnswerView, ErrorKind> {
    match result {
        Ok(count) => Ok(AnswerView::Count(count)),
        Err(kind) => Err(kind),
    }
}

/// The result of an operation that answers with a list: a result of
/// another form is a failure of the store.
pub open spec fn as_many(result: Result<AnswerView, ErrorKind>) -> Result<AnswerView, ErrorKind> {
    if result is Ok && !(result->Ok_0 is Many) {
        Err(ErrorKind::Store)
    } else {
        result
    }
}

/// The result of an operation that answers with one record.
pub open spec fn as_one(result: Result<AnswerView, ErrorKind>) -> Result<AnswerView, ErrorKind> {
    if result is Ok && !(result->Ok_0 is One) {
        Err(ErrorKind::Store)
    } else {
        result
    }
}

/// The result of an operation that answers with a count.
pub open spec fn as_count(result: Result<AnswerView, ErrorKind>) -> Result<AnswerView, ErrorKind> {
    if result is Ok && !(result->Ok_0 is Count) {
        Err(ErrorKind::Store)
    } else {
        result
    }
}

/// Takes the list out of the result of a listing.
pub fn list_of(result: Result<Answer, ErrorKind>) -> (list: Result<Vec<Notification>, ErrorKind>)
    ensures
        many(list) == as_many(lifted(result)),
{
    match result {
        Ok(Answer::Many(list)) => Ok(list),
        Ok(_) => Err(ErrorKind::Store),
        Err(kind) => Err(kind),
    }
}

/// Takes the record out of the result of a lookup, an insert or an update.
pub fn record_of(result: Result<Answer, ErrorKind>) -> (record: Result<Notification, ErrorKind>)
    ensures
        one(record) == as_one(lifted(result)),
{
    match result {
        Ok(Answer::One(notification)) => Ok(notification),
        Ok(_) => Err(ErrorKind::Store),
        Err(kind) => Err(kind),
    }
}

/// Takes the count out of the result of a delete.
pub fn count_of(result: Result<Answer, ErrorKind>) -> (count: Result<u64, ErrorKind>)
    ensures
        counted(count) == as_count(lifted(result)),
{
    match result {
        Ok(Answer::Count(count)) => Ok(count),
        Ok(_) => Err(ErrorKind::Store),
        Err(kind) => Err(kind),
    }
}

/// What the store answered to the last action.
#[derive(Debug, PartialEq, Eq)]
pub enum Event {
    /// The transaction was opened, committed or rolled back as asked.
    Ack,
    /// The statement ran and returned these rows.
    Rows(Vec<Row>),
    /// The statement ran and touched this many rows.
    Affected(u64),
    /// The store could not be reached or refused what was asked.
    Failed,
}

/// What an event is, as a mathematical value.
pub ghost enum EventView {
    Ack,
    Rows(Seq<Seq<Cell>>),
    Affected(u64),
    Failed,
}

/// The rows of a list, each as a mathematical value.
pub open spec fn tabulated(rows: Seq<Row>) -> Seq<Seq<Cell>> {
    Seq::new(rows.len(), |i: int| rows[i]@)
}

impl View for Event {
    type V = EventView;

    open spec fn view(&self) -> EventView {
        match *self {
            Event::Ack => EventView::Ack,
            Event::Rows(rows) => EventView::Rows(tabulated(rows@)),
            Event::Affected(count) => EventView::Affected(count),
            Event::Failed => EventView::Failed,
        }
    }
}

/// What the caller is to do next.
#[derive(Debug, PartialEq, Eq)]
pub enum Action {
    /// Open a transaction.
    Begin,
    /// Send the operation's statement.
    Execute,
    /// Commit the open transaction.
    Commit,
    /// Roll the open transaction back.
    Rollback,
    /// Nothing more: the operation ends with this result.
    Finish(Result<Answer, ErrorKind>),
}

/// What an action is, as a mathematical value.
pub ghost enum ActionView {
    Begin,
    Execute,
    Commit,
    Rollback,
    Finish(Result<AnswerView, ErrorKind>),
}

impl View for Action {
    type V = ActionView;

    open spec fn view(&self) -> ActionView {
        match *self {
            Action::Begin => ActionView::Begin,
            Action::Execute => ActionView::Execute,
            Action::Commit => ActionView::Commit,
            Action::Rollback => ActionView::Rollback,
            Action::Finish(result) => ActionView::Finish(lifted(result)),
        }
    }
}

/// How far an operation has come.
#[derive(Debug, PartialEq, Eq)]
pub enum Phase {
    /// The request to open a transaction is out.
    Opening,
    /// The statement is out, inside a transaction or not.
    Executing { in_transaction: bool },
    /// The commit is out; the answer waits for it.
    Committing(Answer),
    /// The rollback is out; the failure waits for it.
    Aborting(ErrorKind),
    /// The operation has ended.
    Closed,
}

/// What a phase is, as a mathematical value.
pub ghost enum PhaseView {
    Opening,
    Executing { in_transaction: bool },
    Committing(AnswerView),
    Aborting(ErrorKind),
    Closed,
}

impl PhaseView {
    /// Whether the store holds an open transaction for the operation while
    /// it is in this phase.
    pub open spec fn holds_transaction(self) -> bool {
        match self {
            PhaseView::Executing { in_transaction } => in_transaction,
            PhaseView::Committing(_) => true,
            PhaseView::Aborting(_) => true,
            _ => false,
        }
    }

    /// An upper bound on the actions that are still to come.
    pub open spec fn remaining(self) -> nat {
        match self {
            PhaseView::Opening => 3,
            PhaseView::Executing { .. } => 2,
            PhaseView::Committing(_) => 1,
            PhaseView::Aborting(_) => 1,
            PhaseView::Closed => 0,
        }
    }
}

impl View for Phase {
    type V = PhaseView;

    open spec fn view(&self) -> PhaseView {
        match *self {
            Phase::Opening => PhaseView::Opening,
            Phase::Executing { in_transaction } => PhaseView::Executing { in_transaction },
            Phase::Committing(answer) => PhaseView::Committing(answer@),
            Phase::Aborting(kind) => PhaseView::Aborting(kind),
            Phase::Closed => PhaseView::Closed,
        }
    }
}

/// An operation under way.
#[derive(Debug, PartialEq, Eq)]
pub struct Machine {
    pub operation: Operation,
    pub phase: Phase,
}

/// What an operation under way is, as a mathematical value.
pub ghost struct MachineView {
    pub operation: OperationView,
    pub phase: PhaseView,
}

impl View for Machine {
    type V = MachineView;

    open spec fn view(&self) -> MachineView {
        MachineView { operation: self.operation@, phase: self.phase@ }
    }
}

/// What the first returned row spells: the record, a failure of the given
/// kind where no row came, a mapping error where the row is not shaped.
pub open spec fn first_row(rows: Seq<Seq<Cell>>, none: ErrorKind) -> Result<
    AnswerView,
    ErrorKind,
> {
    if rows.len() == 0 {
        Err(none)
    } else if shaped(rows[0]) {
        Ok(AnswerView::One(entity_of(rows[0])))
    } else {
        Err(ErrorKind::Mapping)
    }
}

/// What every returned row spells together.
pub open spec fn all_rows(rows: Seq<Seq<Cell>>) -> Result<AnswerView, ErrorKind> {
    if forall|i: int| 0 <= i < rows.len() ==> shaped(#[trigger] rows[i]) {
        Ok(AnswerView::Many(Seq::new(rows.len(), |i: int| entity_of(rows[i]))))
    } else {
        Err(ErrorKind::Mapping)
    }
}

/// The result that the store's answer to the statement stands for.
///
/// Rows are mapped to records. A lookup or an update that returns no row
/// found nothing; an insert that returns no row failed. A delete reports its
/// count, zero included. Any answer of another form is a failure of the
/// store.
pub open spec fn interpreted(operation: OperationView, event: EventView) -> Result<
    AnswerView,
    ErrorKind,
> {
    match operation {
        OperationView::FindAll => match event {
            EventView::Rows(rows) => all_rows(rows),
            _ => Err(ErrorKind::Store),
        },
        OperationView::FindById { .. } => match event {
            EventView::Rows(rows) => first_row(rows, ErrorKind::NotFound),
            _ => Err(ErrorKind::Store),
        },
        OperationView::Create { .. } => match event {
            EventView::Rows(rows) => first_row(rows, ErrorKind::Store),
            _ => Err(ErrorKind::Store),
        },
        OperationView::Update { .. } => match event {
            EventView::Rows(rows) => first_row(rows, ErrorKind::NotFound),
            _ => Err(ErrorKind::Store),
        },
        OperationView::Delete { .. } => match event {
            EventView::Affected(count) => Ok(AnswerView::Count(count)),
            _ => Err(ErrorKind::Store),
        },
    }
}

/// The first decision: a write opens a transaction, a read sends its
/// statement at once.
pub open spec fn started(operation: OperationView) -> (MachineView, ActionView) {
    if operation.writes() {
        (MachineView { operation, phase: PhaseView::Opening }, ActionView::Begin)
    } else {
        (
            MachineView { operation, phase: PhaseView::Executing { in_transaction: false } },
            ActionView::Execute,
        )
    }
}

/// The decision that follows an answer of the store.
pub open spec fn stepped(machine: MachineView, event: EventView) -> (MachineView, ActionView) {
    let operation = machine.operation;
    let closed = MachineView { operation, phase: PhaseView::Closed };
    match machine.phase {
        PhaseView::Opening => match event {
            EventView::Ack => (
                MachineView { operation, phase: PhaseView::Executing { in_transaction: true } },
                ActionView::Execute,
            ),
            _ => (closed, ActionView::Finish(Err(ErrorKind::Store))),
        },
        PhaseView::Executing { in_transaction } => {
            let result = interpreted(operation, event);
            if !in_transaction {
                (closed, ActionView::Finish(result))
            } else {
                match result {
                    Ok(answer) => (
                        MachineView { operation, phase: PhaseView::Committing(answer) },
                        ActionView::Commit,
                    ),
                    Err(kind) => (
                        MachineView { operation, phase: PhaseView::Aborting(kind) },
                        ActionView::Rollback,
                    ),
                }
            }
        },
        PhaseView::Committing(answer) => match event {
            EventView::Ack => (closed, ActionView::Finish(Ok(answer))),
            _ => (closed, ActionView::Finish(Err(ErrorKind::Store))),
        },
        PhaseView::Aborting(kind) => (closed, ActionView::Finish(Err(kind))),
        PhaseView::Closed => (closed, ActionView::Finish(Err(ErrorKind::Store))),
    }
}

/// Maps the first returned row, or reports `none` where no row came.
fn map_first(rows: &Vec<Row>, none: ErrorKind) -> (result: Result<Answer, ErrorKind>)
    ensures
        lifted(result) == first_row(tabulated(rows@), none),
{
    if rows.len() == 0 {
        Err(none)
    } else {
        match to_entity(&rows[0]) {
            Ok(notification) => Ok(Answer::One(notification)),
            Err(_) => Err(ErrorKind::Mapping),
        }
    }
}

/// Maps every returned row.
fn map_all(rows: &Vec<Row>) -> (result: Result<Answer, ErrorKind>)
    ensures
        lifted(result) == all_rows(tabulated(rows@)),
{
    let ghost table = tabulated(rows@);
    let mut list: Vec<Notification> = Vec::new();
    let mut i: usize = 0;
    while i < rows.len()
        invariant
            i <= rows.len(),
            table == tabulated(rows@),
            list@.len() == i,
            forall|k: int| 0 <= k < i ==> shaped(#[trigger] table[k]),
            forall|k: int| 0 <= k < i ==> (#[trigger] list@[k])@ == entity_of(table[k]),
        decreases rows.len() - i,
    {
        match to_entity(&rows[i]) {
            Ok(notification) => {
                list.push(notification);
            },
            Err(_) => {
                assert(!shaped(table[i as int]));
                return Err(ErrorKind::Mapping);
            },
        }
        i += 1;
    }
    assert(records(list@) =~= Seq::new(table.len(), |i: int| entity_of(table[i])));
    Ok(Answer::Many(list))
}

/// Reads the store's answer to the statement of an operation.
pub fn interpret(operation: &Operation, event: &Event) -> (result: Result<Answer, ErrorKind>)
    ensures
        lifted(result) == interpreted(operation@, event@),
{
    match operation {
        Operation::FindAll => match event {
            Event::Rows(rows) => map_all(rows),
            _ => Err(ErrorKind::Store),
        },
        Operation::FindById { .. } => match event {
            Event::Rows(rows) => map_first(rows, ErrorKind::NotFound),
            _ => Err(ErrorKind::Store),
        },
        Operation::Create { .. } => match event {
            Event::Rows(rows) => map_first(rows, ErrorKind::Store),
            _ => Err(ErrorKind::Store),
        },
        Operation::Update { .. } => match event {
            Event::Rows(rows) => map_first(rows, ErrorKind::NotFound),
            _ => Err(ErrorKind::Store),
        },
        Operation::Delete { .. } => match event {
            Event::Affected(count) => Ok(Answer::Count(*count)),
            _ => Err(ErrorKind::Store),
        },
    }
}

impl Machine {
    /// Takes up an operation and says what to ask the store first.
    pub fn start(operation: Operation) -> (next: (Machine, Action))
        ensures
            (next.0@, next.1@) == started(operation@),
    {
        if operation.writes() {
            (Machine { operation, phase: Phase::Opening }, Action::Begin)
        } else {
            (
                Machine { operation, phase: Phase::Executing { in_transaction: false } },
                Action::Execute,
            )
        }
    }

    /// Takes the store's answer to the last action and says what to do
    /// next.
    pub fn step(self, event: Event) -> (next: (Machine, Action))
        ensures
            (next.0@, next.1@) == stepped(self@, event@),
    {
        let Machine { operation, phase } = self;
        match phase {
            Phase::Opening => match event {
                Event::Ack => (
                    Machine { operation, phase: Phase::Executing { in_transaction: true } },
                    Action::Execute,
                ),
                _ => (
                    Machine { operation, phase: Phase::Closed },
                    Action::Finish(Err(ErrorKind::Store)),
                ),
            },
            Phase::Executing { in_transaction } => {
                let result = interpret(&operation, &event);
                if !in_transaction {
                    (Machine { operation, phase: Phase::Closed }, Action::Finish(result))
                } else {
                    match result {
                        Ok(answer) => (
                            Machine { operation, phase: Phase::Committing(answer) },
                            Action::Commit,
                        ),
                        Err(kind) => (
                            Machine { operation, phase: Phase::Aborting(kind) },
                            Action::Rollback,
                        ),
                    }
                }
            },
            Phase::Committing(answer) => match event {
                Event::Ack => (
                    Machine { operation, phase: Phase::Closed },
                    Action::Finish(Ok(answer)),
                ),
                _ => (
                    Machine { operation, phase: Phase::Closed },
                    Action::Finish(Err(ErrorKind::Store)),
                ),
            },
            Phase::Aborting(kind) => (
                Machine { operation, phase: Phase::Closed },
                Action::Finish(Err(kind)),
            ),
            Phase::Closed => (
                Machine { operation, phase: Phase::Closed },
                Action::Finish(Err(ErrorKind::Store)),
            ),
        }
    }
}

/// Whatever the store answers, the result read from it has the form that
/// the operation calls for: a list for a listing, a count for a delete, one
/// record for the others.
pub proof fn answer_fits_operation(operation: OperationView, event: EventView)
    ensures
        match operation {
            OperationView::FindAll => as_many(interpreted(operation, event)),
            OperationView::Delete { .. } => as_count(interpreted(operation, event)),
            _ => as_one(interpreted(operation, event)),
        } == interpreted(operation, event),
{
}

/// A commit is asked for only when the statement of a transaction has
/// succeeded.
pub proof fn commit_follows_success(machine: MachineView, event: EventView)
    requires
        stepped(machine, event).1 is Commit,
    ensures
        machine.phase == (PhaseView::Executing { in_transaction: true }),
        interpreted(machine.operation, event) is Ok,
        stepped(machine, event).0.phase == PhaseView::Committing(
            interpreted(machine.operation, event)->Ok_0,
        ),
{
}

/// An operation never finishes on the answer to a statement that ran inside
/// a transaction: the commit or the rollback comes first, and after it the
/// store holds no transaction for the operation.
pub proof fn finish_leaves_no_transaction(machine: MachineView, event: EventView)
    requires
        stepped(machine, event).1 is Finish,
    ensures
        machine.phase != (PhaseView::Executing { in_transaction: true }),
        !stepped(machine, event).0.phase.holds_transaction(),
{
}

/// A failed statement inside a transaction is followed by a rollback, and
/// the operation then ends with that failure.
pub proof fn failure_rolls_back(machine: MachineView, event: EventView, later: EventView)
    requires
        machine.phase == (PhaseView::Executing { in_transaction: true }),
        interpreted(machine.operation, event) is Err,
    ensures
        stepped(machine, event).1 is Rollback,
        stepped(stepped(machine, event).0, later).1 == ActionView::Finish(
            Err(interpreted(machine.operation, event)->Err_0),
        ),
{
}

/// Every decision brings the operation closer to its end, which it reaches
/// after at most four actions.
pub proof fn step_makes_progress(machine: MachineView, event: EventView)
    requires
        !(machine.phase is Closed),
    ensures
        stepped(machine, event).0.phase.remaining() < machine.phase.remaining(),
        stepped(machine, event).0.phase is Closed <==> stepped(machine, event).1 is Finish,
        stepped(machine, event).0.operation == machine.operation,
{
}

} // verus!
