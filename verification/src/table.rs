//! A table in memory that stands in for the store.
//!
//! It keeps the committed records by rising identifier, answers the actions
//! of the protocol as a transactional store does, and can be told to drop
//! its link after a number of actions, so that the repository can be run
//! without a database, failures included.

use vstd::prelude::*;
use crate::mapper::{entity_of, row_of, row_round_trip, shaped, to_row, Cell, Row};
use crate::model::{lifted, records, ErrorKind, Notification, Record};
use crate::protocol::{
    interpreted, tabulated, Action, ActionView, Answer, AnswerView, Event, EventView, Machine,
    MachineView, Operation, OperationView, PhaseView,
};
use crate::store::{
    answered, applied, applied_keeps_order, drained, lasts, ordered, settled, slot, slot_unique,
    Store,
};

verus! {

/// An in-memory notifications table behind a link that can be cut.
#[derive(Debug)]
pub struct Table {
    rows: Vec<Notification>,
    staged: Option<Vec<Notification>>,
    link: Option<u64>,
}

/// The table with everything that a transaction in progress adds to it.
pub ghost struct Session {
    pub rows: Seq<Record>,
    pub staged: Option<Seq<Record>>,
    pub link: Option<u64>,
}

/// The event by which the store reports an answer: a list as its rows, a
/// record as one row, a count as a count.
pub open spec fn reported(answer: AnswerView) -> EventView {
    match answer {
        AnswerView::Many(list) => EventView::Rows(Seq::new(list.len(), |i: int| row_of(list[i]))),
        AnswerView::One(record) => EventView::Rows(seq![row_of(record)]),
        AnswerView::Count(count) => EventView::Affected(count),
    }
}

/// What a statement does to the rows that it runs on, and the event that
/// reports it. A statement that finds nothing returns no row; one that the
/// table refuses fails.
pub open spec fn executed(rows: Seq<Record>, operation: OperationView) -> (Seq<Record>, EventView) {
    match applied(rows, operation) {
        Ok((after, answer)) => (after, reported(answer)),
        Err(ErrorKind::NotFound) => (rows, EventView::Rows(Seq::empty())),
        Err(_) => (rows, EventView::Failed),
    }
}

/// What one action does to the table, and the event that answers it.
///
/// When the link is down, every action fails and an open transaction is
/// lost. Otherwise a transaction starts from the committed rows, a statement
/// runs on the transaction's rows if one is open and on the committed rows
/// if none is, a commit puts the transaction's rows in place of the
/// committed ones, and a rollback drops them. To finish is nothing that the
/// store could do: it fails and touches nothing.
pub open spec fn performed(session: Session, operation: OperationView, action: ActionView) -> (
    Session,
    EventView,
) {
    if action is Finish {
        (session, EventView::Failed)
    } else if session.link == Some(0u64) {
        (Session { staged: None, ..session }, EventView::Failed)
    } else {
        let link = drained(session.link, 1);
        match action {
            ActionView::Begin => (
                Session { staged: Some(session.rows), link, ..session },
                EventView::Ack,
            ),
            ActionView::Execute => match session.staged {
                Some(rows) => (
                    Session { staged: Some(executed(rows, operation).0), link, ..session },
                    executed(rows, operation).1,
                ),
                None => (
                    Session { rows: executed(session.rows, operation).0, link, ..session },
                    executed(session.rows, operation).1,
                ),
            },
            ActionView::Commit => match session.staged {
                Some(rows) => (Session { rows, staged: None, link }, EventView::Ack),
                None => (Session { link, ..session }, EventView::Failed),
            },
            _ => (Session { staged: None, link, ..session }, EventView::Ack),
        }
    }
}

/// The repository reads from the event that reports a statement exactly
/// what the statement answered.
pub proof fn report_is_read_back(rows: Seq<Record>, operation: OperationView)
    ensures
        interpreted(operation, executed(rows, operation).1) == match applied(rows, operation) {
            Ok((_, answer)) => Ok::<AnswerView, ErrorKind>(answer),
            Err(kind) => Err(kind),
        },
{
    match applied(rows, operation) {
        Ok((_, AnswerView::Many(list))) => {
            let table = Seq::new(list.len(), |i: int| row_of(list[i]));
            assert forall|i: int| 0 <= i < table.len() implies shaped(
                #[trigger] table[i],
            ) by {
                row_round_trip(list[i]);
            }
            assert(Seq::new(table.len(), |i: int| entity_of(table[i])) =~= list) by {
                assert forall|i: int| 0 <= i < list.len() implies entity_of(
                    table[i],
                ) == list[i] by {
                    row_round_trip(list[i]);
                }
            }
        },
        Ok((_, AnswerView::One(record))) => {
            row_round_trip(record);
        },
        _ => {},
    }
}

/// Finds the slot of an identifier.
fn locate(rows: &Vec<Notification>, id: u128) -> (place: usize)
    ensures
        place == slot(records(rows@), id),
        place <= rows@.len(),
{
    let mut place: usize = 0;
    while place < rows.len() && rows[place].id < id
        invariant
            place <= rows@.len(),
            forall|k: int| 0 <= k < place ==> (#[trigger] records(rows@)[k]).id < id,
        decreases rows@.len() - place,
    {
        place += 1;
    }
    proof {
        slot_unique(records(rows@), id, place as int);
    }
    place
}

/// Copies a list of records.
fn copy_all(rows: &Vec<Notification>) -> (copy: Vec<Notification>)
    ensures
        records(copy@) == records(rows@),
{
    let mut copy: Vec<Notification> = Vec::new();
    let mut i: usize = 0;
    while i < rows.len()
        invariant
            i <= rows@.len(),
            copy@.len() == i,
            forall|k: int| 0 <= k < i ==> (#[trigger] copy@[k])@ == rows@[k]@,
        decreases rows@.len() - i,
    {
        copy.push(rows[i].duplicate());
        i += 1;
    }
    assert(records(copy@) =~= records(rows@));
    copy
}

/// Spells every record of a list as a row.
fn rows_of(list: &Vec<Notification>) -> (rows: Vec<Row>)
    ensures
        tabulated(rows@) == Seq::new(records(list@).len(), |i: int| row_of(records(list@)[i])),
{
    let mut rows: Vec<Row> = Vec::new();
    let mut i: usize = 0;
    while i < list.len()
        invariant
            i <= list@.len(),
            rows@.len() == i,
            forall|k: int| 0 <= k < i ==> (#[trigger] rows@[k])@ == row_of(list@[k]@),
        decreases list@.len() - i,
    {
        rows.push(to_row(&list[i]));
        i += 1;
    }
    assert(tabulated(rows@) =~= Seq::new(
        records(list@).len(),
        |i: int| row_of(records(list@)[i]),
    ));
    rows
}

/// One row, as the rows of an event.
fn single(row: Row) -> (rows: Vec<Row>)
    ensures
        tabulated(rows@) == seq![row@],
{
    let mut rows: Vec<Row> = Vec::new();
    rows.push(row);
    assert(tabulated(rows@) =~= seq![row@]);
    rows
}

/// No rows, as the rows of an event.
fn no_rows() -> (rows: Vec<Row>)
    ensures
        rows@ == Seq::<Row>::empty(),
        tabulated(rows@) == Seq::<Seq<Cell>>::empty(),
{
    let rows: Vec<Row> = Vec::new();
    assert(tabulated(rows@) =~= Seq::<Seq<Cell>>::empty());
    rows
}

/// Runs the statement of an operation on a list of records.
fn execute(rows: &mut Vec<Notification>, operation: &Operation) -> (event: Event)
    requires
        ordered(records(old(rows)@)),
    ensures
        (records(final(rows)@), event@) == executed(records(old(rows)@), operation@),
        ordered(records(final(rows)@)),
{
    let ghost before = records(rows@);
    proof {
        applied_keeps_order(before, operation@);
    }
    match operation {
        Operation::FindAll => Event::Rows(rows_of(rows)),
        Operation::FindById { id } => {
            let place = locate(rows, *id);
            if place < rows.len() && rows[place].id == *id {
                Event::Rows(single(to_row(&rows[place])))
            } else {
                Event::Rows(no_rows())
            }
        },
        Operation::Create { id, user_id, description, created_at } => {
            let place = locate(rows, *id);
            if place < rows.len() && rows[place].id == *id {
                Event::Failed
            } else {
                let notification = Notification {
                    id: *id,
                    user_id: *user_id,
                    description: description.clone(),
                    read_at: None,
                    created_at: *created_at,
                };
                let row = to_row(&notification);
                rows.insert(place, notification);
                assert(records(rows@) =~= before.insert(place as int, notification@));
                Event::Rows(single(row))
            }
        },
        Operation::Update { id, description } => {
            let place = locate(rows, *id);
            if place < rows.len() && rows[place].id == *id {
                let notification = Notification {
                    id: rows[place].id,
                    user_id: rows[place].user_id,
                    description: description.clone(),
                    read_at: rows[place].read_at,
                    created_at: rows[place].created_at,
                };
                let row = to_row(&notification);
                rows.set(place, notification);
                assert(records(rows@) =~= before.update(place as int, notification@));
                Event::Rows(single(row))
            } else {
                Event::Rows(no_rows())
            }
        },
        Operation::Delete { id } => {
            let place = locate(rows, *id);
            if place < rows.len() && rows[place].id == *id {
                let _ = rows.remove(place);
                assert(records(rows@) =~= before.remove(place as int));
                Event::Affected(1)
            } else {
                Event::Affected(0)
            }
        },
    }
}

/// Where an operation stands against the table while it runs: for each
/// action that may be pending, the phase that the operation is in and what
/// the table holds, told from the store as it was when the operation began.
spec fn on_track(
    before: Store,
    machine: MachineView,
    action: ActionView,
    session: Session,
) -> bool {
    let operation = machine.operation;
    match action {
        ActionView::Begin => {
            &&& operation.writes()
            &&& machine.phase is Opening
            &&& session == Session { rows: before.rows, staged: None, link: before.link }
        },
        ActionView::Execute => if operation.writes() {
            &&& machine.phase == PhaseView::Executing { in_transaction: true }
            &&& lasts(before.link, 1)
            &&& session == Session {
                rows: before.rows,
                staged: Some(before.rows),
                link: drained(before.link, 1),
            }
        } else {
            &&& machine.phase == PhaseView::Executing { in_transaction: false }
            &&& session == Session { rows: before.rows, staged: None, link: before.link }
        },
        ActionView::Commit => {
            &&& operation.writes()
            &&& lasts(before.link, 2)
            &&& applied(before.rows, operation) is Ok
            &&& machine.phase == PhaseView::Committing(applied(before.rows, operation)->Ok_0.1)
            &&& session == Session {
                rows: before.rows,
                staged: Some(applied(before.rows, operation)->Ok_0.0),
                link: drained(before.link, 2),
            }
        },
        ActionView::Rollback => {
            &&& operation.writes()
            &&& answered(before, operation) is Err
            &&& machine.phase == PhaseView::Aborting(answered(before, operation)->Err_0)
            &&& session.rows == before.rows
            &&& session.link == drained(before.link, 2)
        },
        ActionView::Finish(result) => {
            &&& machine.phase is Closed
            &&& result == answered(before, operation)
            &&& session == Session {
                rows: settled(before, operation).rows,
                staged: None,
                link: settled(before, operation).link,
            }
        },
    }
}

impl View for Table {
    type V = Store;

    open spec fn view(&self) -> Store {
        Store { rows: self.session().rows, link: self.session().link }
    }
}

impl Table {
    /// The table with its transaction.
    pub closed spec fn session(&self) -> Session {
        Session {
            rows: records(self.rows@),
            staged: match self.staged {
                Some(rows) => Some(records(rows@)),
                None => None,
            },
            link: self.link,
        }
    }

    /// The committed rows are ordered, and so are those of the transaction.
    pub open spec fn sound(&self) -> bool {
        &&& ordered(self.session().rows)
        &&& self.session().staged is Some ==> ordered(self.session().staged->Some_0)
    }

    /// The table is as every operation leaves it: sound, and with no
    /// transaction open.
    pub open spec fn wf(&self) -> bool {
        self.sound() && self.session().staged is None
    }

    /// An empty table whose link stays up.
    pub fn new() -> (table: Table)
        ensures
            table.wf(),
            table@ == (Store { rows: Seq::empty(), link: None }),
    {
        let table = Table { rows: Vec::new(), staged: None, link: None };
        assert(table@.rows =~= Seq::empty());
        table
    }

    /// Lets the link carry this many more actions and then go down.
    pub fn disconnect_after(&mut self, actions: u64)
        ensures
            final(self).session() == (Session { link: Some(actions), ..old(self).session() }),
    {
        self.link = Some(actions);
    }

    /// Brings the link up for good.
    pub fn reconnect(&mut self)
        ensures
            final(self).session() == (Session { link: None, ..old(self).session() }),
    {
        self.link = None;
    }

    /// How many records are committed.
    pub fn len(&self) -> (count: usize)
        ensures
            count == self@.rows.len(),
    {
        self.rows.len()
    }

    /// Carries out one action of the protocol and answers it.
    pub fn perform(&mut self, operation: &Operation, action: &Action) -> (event: Event)
        requires
            old(self).sound(),
        ensures
            final(self).sound(),
            (final(self).session(), event@) == performed(
                old(self).session(),
                operation@,
                action@,
            ),
    {
        if let Action::Finish(_) = action {
            return Event::Failed;
        }
        match self.link {
            Some(left) => {
                if left == 0 {
                    self.staged = None;
                    return Event::Failed;
                }
                self.link = Some(left - 1);
            },
            None => {},
        }
        match action {
            Action::Begin => {
                self.staged = Some(copy_all(&self.rows));
                Event::Ack
            },
            Action::Execute => {
                let staged = self.staged.take();
                match staged {
                    Some(mut rows) => {
                        let event = execute(&mut rows, operation);
                        self.staged = Some(rows);
                        event
                    },
                    None => execute(&mut self.rows, operation),
                }
            },
            Action::Commit => {
                let staged = self.staged.take();
                match staged {
                    Some(rows) => {
                        self.rows = rows;
                        Event::Ack
                    },
                    None => Event::Failed,
                }
            },
            _ => {
                self.staged = None;
                Event::Ack
            },
        }
    }

    /// Carries an operation through against this table: asks the protocol
    /// what to do, does it, and hands the answer back, until the protocol
    /// says that the operation has ended.
    pub fn run(&mut self, operation: Operation) -> (result: Result<Answer, ErrorKind>)
        requires
            old(self).wf(),
        ensures
            final(self).wf(),
            lifted(result) == answered(old(self)@, operation@),
            final(self)@ == settled(old(self)@, operation@),
    {
        let ghost before = self@;
        let ghost plan = operation@;
        let (mut machine, mut action) = Machine::start(operation);
        loop
            invariant
                self.sound(),
                before == old(self)@,
                plan == operation@,
                ordered(before.rows),
                machine@.operation == plan,
                on_track(before, machine@, action@, self.session()),
            decreases machine@.phase.remaining(),
        {
            match action {
                Action::Finish(result) => {
                    proof {
                        applied_keeps_order(before.rows, plan);
                    }
                    return result;
                },
                pending => {
                    proof {
                        report_is_read_back(before.rows, plan);
                        applied_keeps_order(before.rows, plan);
                    }
                    let event = self.perform(&machine.operation, &pending);
                    let next = machine.step(event);
                    machine = next.0;
                    action = next.1;
                },
            }
        }
    }
}

} // verus!
