//! The setup orchestrator: the steps of a registration, and what follows
//! from the way each of them ends.
//!
//! A registration is a fixed line of steps: count the columns, open a scope,
//! remove what an earlier registration of the table left, write the master
//! record, write the property records, create the trigger, create the views
//! for moving rows, commit the scope. A step that fails after the scope was
//! opened, the commit among them, is followed by one more step, which
//! aborts the scope, so that a registration ends in one of two ways only:
//! everything is in place and committed, or nothing is.
//!
//! The orchestrator does not talk to the engine. [`as_ordered`] starts a
//! registration; [`Setup::action`] says what to do next; [`Setup::step`]
//! takes the way it ended and moves on:
//!
//! ```text
//! let mut setup = as_ordered("todos", "pos", columns);
//! while let Some(action) = setup.action() {
//!     let event = perform(action);
//!     setup = setup.step(event);
//! }
//! setup.outcome()
//! ```

use crate::catalog::{
    earlier_master_delete, earlier_master_delete_statement, earlier_properties_delete,
    earlier_properties_delete_statement, master_insert, master_insert_statement, property_insert,
    property_insert_statement, property_row, PropertyRecord, PropertyRow, MAX_COLLECTION_COLUMNS,
};
use crate::collection::{Collection, OrderedCollection};
use crate::error::SetupError;
use crate::statement::{Statement, StatementText};
use crate::trigger::{create_pend_trigger, pend_trigger_sql};
use crate::validator::{column_count_query, column_count_statement, table_has_all_columns};
use vstd::prelude::*;

verus! {

/// How the engine, or the generator of the views, ended a step.
#[derive(Clone, Copy, Debug, PartialEq, Eq, Structural)]
pub enum Event {
    /// The step failed.
    Failed,
    /// The step was carried out and yielded no row.
    Done,
    /// The step was carried out, and its first row begins with this integer.
    Row(i64),
}

/// Where a registration stands. In every phase but the last two, one step is
/// under way, and the registration waits for the way it ends.
#[derive(Clone, Copy, Debug, PartialEq, Eq, Structural)]
pub enum Phase {
    /// The columns of the table that the declaration names are being counted.
    CheckingColumns,
    /// The scope that holds all writes is being opened.
    OpeningScope,
    /// The property records of an earlier registration of the table are
    /// being removed.
    ClearingProperties,
    /// The master records of an earlier registration of the table are being
    /// removed.
    ClearingMaster,
    /// The master record is being written.
    WritingMaster,
    /// The property record at `position` is being written.
    WritingProperty { master_id: i64, position: usize },
    /// The trigger for prepended and appended rows is being created.
    CreatingTrigger { master_id: i64 },
    /// The views and triggers for moving rows are being created.
    CreatingViews { master_id: i64 },
    /// The scope is being committed.
    Committing { master_id: i64 },
    /// The scope is being aborted, after a step failed with `error`.
    Aborting { error: SetupError },
    /// The table is an ordered collection, under the master record `master_id`.
    Registered { master_id: i64 },
    /// The table is as it was.
    Failed { error: SetupError },
}

/// A step of a registration: what the caller is to have done.
#[derive(Clone, Debug, PartialEq, Eq)]
pub enum Action {
    /// Count the columns of `table` whose name is among `columns`, and
    /// report the count as a row.
    CountColumns { table: String, columns: Vec<String> },
    /// Open the scope that holds the writes of the registration.
    OpenScope,
    /// Remove the property records of the master records that register
    /// `table`.
    RemoveProperties { table: String },
    /// Remove the master records that register `table`.
    RemoveMaster { table: String },
    /// Write the master record of `table`, and report its id as a row.
    InsertMaster { table: String },
    /// Write `record`.
    InsertProperty { record: PropertyRecord },
    /// Create the trigger that places the prepended and appended rows of
    /// `collection`, unless it exists.
    CreatePendTrigger { collection: OrderedCollection },
    /// Have the views and triggers for moving the rows of `collection`
    /// created. They are the work of another component.
    CreateViews { collection: OrderedCollection },
    /// Commit the scope.
    CommitScope,
    /// Abort the scope: undo every write since it was opened.
    AbortScope,
}

/// What an [`Action`] holds, as mathematical values.
pub enum Operation {
    CountColumns { table: Seq<char>, columns: Seq<Seq<char>> },
    OpenScope,
    RemoveProperties { table: Seq<char> },
    RemoveMaster { table: Seq<char> },
    InsertMaster { table: Seq<char> },
    InsertProperty { row: PropertyRow },
    CreatePendTrigger { collection: Collection },
    CreateViews { collection: Collection },
    CommitScope,
    AbortScope,
}

impl View for Action {
    type V = Operation;

    open spec fn view(&self) -> Operation {
        match self {
            Action::CountColumns { table, columns } => Operation::CountColumns {
                table: table@,
                columns: columns.deep_view(),
            },
            Action::OpenScope => Operation::OpenScope,
            Action::RemoveProperties { table } => Operation::RemoveProperties { table: table@ },
            Action::RemoveMaster { table } => Operation::RemoveMaster { table: table@ },
            Action::InsertMaster { table } => Operation::InsertMaster { table: table@ },
            Action::InsertProperty { record } => Operation::InsertProperty { row: record@ },
            Action::CreatePendTrigger { collection } => Operation::CreatePendTrigger {
                collection: collection@,
            },
            Action::CreateViews { collection } => Operation::CreateViews {
                collection: collection@,
            },
            Action::CommitScope => Operation::CommitScope,
            Action::AbortScope => Operation::AbortScope,
        }
    }
}

/// The statement that opens the scope of a registration.
pub open spec fn open_scope_sql() -> Seq<char> {
    "SAVEPOINT record_schema_information;"@
}

/// The statement that commits the scope of a registration.
pub open spec fn commit_scope_sql() -> Seq<char> {
    "RELEASE record_schema_information;"@
}

/// The statements that abort the scope of a registration: the first undoes
/// the writes, the second closes the scope.
pub open spec fn abort_scope_sql() -> Seq<char> {
    "ROLLBACK TO record_schema_information; RELEASE record_schema_information;"@
}

impl Operation {
    /// The statement that carries the operation out. The creation of the
    /// views has none: it is the work of another component.
    pub open spec fn statement(self) -> Option<StatementText> {
        match self {
            Operation::CountColumns { table, columns } => Some(
                column_count_statement(table, columns),
            ),
            Operation::OpenScope => Some(
                StatementText { sql: open_scope_sql(), bindings: Seq::empty() },
            ),
            Operation::RemoveProperties { table } => Some(
                earlier_properties_delete_statement(table),
            ),
            Operation::RemoveMaster { table } => Some(earlier_master_delete_statement(table)),
            Operation::InsertMaster { table } => Some(master_insert_statement(table)),
            Operation::InsertProperty { row } => Some(property_insert_statement(row)),
            Operation::CreatePendTrigger { collection } => Some(
                StatementText { sql: pend_trigger_sql(collection), bindings: Seq::empty() },
            ),
            Operation::CreateViews { .. } => None,
            Operation::CommitScope => Some(
                StatementText { sql: commit_scope_sql(), bindings: Seq::empty() },
            ),
            Operation::AbortScope => Some(
                StatementText { sql: abort_scope_sql(), bindings: Seq::empty() },
            ),
        }
    }
}

impl Action {
    /// The statement to run for this action. `None` for the creation of the
    /// views, which the caller hands to the component that writes them.
    pub fn statement(&self) -> (statement: Option<Statement>)
        ensures
            match statement {
                Some(built) => self@.statement() == Some(built@),
                None => self@.statement() is None,
            },
    {
        match self {
            Action::CountColumns { table, columns } => Some(
                column_count_query(table.as_str(), columns),
            ),
            Action::OpenScope => Some(Statement::plain("SAVEPOINT record_schema_information;")),
            Action::RemoveProperties { table } => Some(earlier_properties_delete(table.as_str())),
            Action::RemoveMaster { table } => Some(earlier_master_delete(table.as_str())),
            Action::InsertMaster { table } => Some(master_insert(table.as_str())),
            Action::InsertProperty { record } => Some(property_insert(record)),
            Action::CreatePendTrigger { collection } => {
                let text = create_pend_trigger(collection);
                Some(Statement::plain(text.as_str()))
            },
            Action::CreateViews { .. } => None,
            Action::CommitScope => Some(Statement::plain("RELEASE record_schema_information;")),
            Action::AbortScope => Some(
                Statement::plain(
                    "ROLLBACK TO record_schema_information; RELEASE record_schema_information;",
                ),
            ),
        }
    }
}

/// The phase in which the registration of `collection` starts. A
/// declaration with more than [`MAX_COLLECTION_COLUMNS`] collection columns
/// is turned down at once: its columns cannot be counted.
pub open spec fn first_phase(collection: Collection) -> Phase {
    if collection.collection_columns.len() <= MAX_COLLECTION_COLUMNS {
        Phase::CheckingColumns
    } else {
        Phase::Failed { error: SetupError::ColumnCheckFailed }
    }
}

/// The operation that is under way in `phase`. There is none once the
/// registration has ended.
pub open spec fn operation(collection: Collection, phase: Phase) -> Option<Operation> {
    match phase {
        Phase::CheckingColumns => Some(
            Operation::CountColumns {
                table: collection.table,
                columns: collection.validated_columns(),
            },
        ),
        Phase::OpeningScope => Some(Operation::OpenScope),
        Phase::ClearingProperties => Some(
            Operation::RemoveProperties { table: collection.table },
        ),
        Phase::ClearingMaster => Some(Operation::RemoveMaster { table: collection.table }),
        Phase::WritingMaster => Some(Operation::InsertMaster { table: collection.table }),
        Phase::WritingProperty { master_id, position } => Some(
            Operation::InsertProperty { row: property_row(master_id, collection, position as int) },
        ),
        Phase::CreatingTrigger { .. } => Some(Operation::CreatePendTrigger { collection }),
        Phase::CreatingViews { .. } => Some(Operation::CreateViews { collection }),
        Phase::Committing { .. } => Some(Operation::CommitScope),
        Phase::Aborting { .. } => Some(Operation::AbortScope),
        Phase::Registered { .. } => None,
        Phase::Failed { .. } => None,
    }
}

/// The phase that follows `phase` when its operation ends with `event`.
///
/// Before the scope is open, a failure ends the registration. Once it is
/// open, a failure leads to the abort of the scope, and the registration
/// ends after that with the error of the step that failed. That holds of
/// the commit too: the table is registered only when the engine has
/// committed the scope. The way the abort ends is not looked at.
///
/// The count must come as a row: a count that ends without one has not
/// told whether the columns are there, and the registration ends. The
/// master record counts as written only when its id comes back. Everywhere
/// else a row is as good as none.
pub open spec fn next_phase(collection: Collection, phase: Phase, event: Event) -> Phase {
    match phase {
        Phase::CheckingColumns => match event {
            Event::Failed => Phase::Failed { error: SetupError::ColumnCheckFailed },
            Event::Row(count) => if count == collection.validated_columns().len() {
                Phase::OpeningScope
            } else {
                Phase::Failed { error: SetupError::ColumnsMissing }
            },
            Event::Done => Phase::Failed { error: SetupError::ColumnCheckFailed },
        },
        Phase::OpeningScope => match event {
            Event::Failed => Phase::Failed { error: SetupError::ScopeOpenFailed },
            _ => Phase::ClearingProperties,
        },
        Phase::ClearingProperties => match event {
            Event::Failed => Phase::Aborting { error: SetupError::MetadataWriteFailed },
            _ => Phase::ClearingMaster,
        },
        Phase::ClearingMaster => match event {
            Event::Failed => Phase::Aborting { error: SetupError::MetadataWriteFailed },
            _ => Phase::WritingMaster,
        },
        Phase::WritingMaster => match event {
            Event::Row(master_id) => Phase::WritingProperty { master_id, position: 0 },
            _ => Phase::Aborting { error: SetupError::MetadataWriteFailed },
        },
        Phase::WritingProperty { master_id, position } => match event {
            Event::Failed => Phase::Aborting { error: SetupError::MetadataWriteFailed },
            _ => if position < collection.collection_columns.len() {
                Phase::WritingProperty { master_id, position: (position + 1) as usize }
            } else {
                Phase::CreatingTrigger { master_id }
            },
        },
        Phase::CreatingTrigger { master_id } => match event {
            Event::Failed => Phase::Aborting { error: SetupError::TriggerCreationFailed },
            _ => Phase::CreatingViews { master_id },
        },
        Phase::CreatingViews { master_id } => match event {
            Event::Failed => Phase::Aborting { error: SetupError::ViewCreationFailed },
            _ => Phase::Committing { master_id },
        },
        Phase::Committing { master_id } => match event {
            Event::Failed => Phase::Aborting { error: SetupError::CommitFailed },
            _ => Phase::Registered { master_id },
        },
        Phase::Aborting { error } => Phase::Failed { error },
        Phase::Registered { .. } => phase,
        Phase::Failed { .. } => phase,
    }
}

/// A registration: the declaration and the phase it is in.
#[derive(Debug)]
pub struct Setup {
    collection: OrderedCollection,
    phase: Phase,
}

/// What a [`Setup`] holds, as mathematical values.
pub struct SetupState {
    pub collection: Collection,
    pub phase: Phase,
}

impl View for Setup {
    type V = SetupState;

    closed spec fn view(&self) -> SetupState {
        SetupState { collection: self.collection@, phase: self.phase }
    }
}

impl Setup {
    /// While a step is under way the declaration is within the limit, and
    /// the property record being written is one of the declaration's.
    #[verifier::type_invariant]
    spec fn well_formed(self) -> bool {
        &&& operation(self.collection@, self.phase) is Some
                ==> self.collection@.collection_columns.len() <= MAX_COLLECTION_COLUMNS
        &&& self.phase matches Phase::WritingProperty { master_id, position }
                ==> position <= self.collection@.collection_columns.len()
    }

    /// The declaration that is being registered.
    pub fn collection(&self) -> (collection: &OrderedCollection)
        ensures
            collection@ == self@.collection,
    {
        &self.collection
    }

    /// The phase that the registration is in.
    pub fn phase(&self) -> (phase: Phase)
        ensures
            phase == self@.phase,
    {
        self.phase
    }

    /// The step to carry out next, or `None` when the registration has ended.
    pub fn action(&self) -> (action: Option<Action>)
        ensures
            match action {
                Some(step) => operation(self@.collection, self@.phase) == Some(step@),
                None => operation(self@.collection, self@.phase) is None,
            },
    {
        proof {
            use_type_invariant(self);
        }
        match self.phase {
            Phase::CheckingColumns => Some(
                Action::CountColumns {
                    table: self.collection.table.clone(),
                    columns: self.collection.validated_columns(),
                },
            ),
            Phase::OpeningScope => Some(Action::OpenScope),
            Phase::ClearingProperties => Some(
                Action::RemoveProperties { table: self.collection.table.clone() },
            ),
            Phase::ClearingMaster => Some(
                Action::RemoveMaster { table: self.collection.table.clone() },
            ),
            Phase::WritingMaster => Some(
                Action::InsertMaster { table: self.collection.table.clone() },
            ),
            Phase::WritingProperty { master_id, position } => Some(
                Action::InsertProperty {
                    record: self.collection.property_record(master_id, position),
                },
            ),
            Phase::CreatingTrigger { .. } => Some(
                Action::CreatePendTrigger { collection: self.collection.duplicate() },
            ),
            Phase::CreatingViews { .. } => Some(
                Action::CreateViews { collection: self.collection.duplicate() },
            ),
            Phase::Committing { .. } => Some(Action::CommitScope),
            Phase::Aborting { .. } => Some(Action::AbortScope),
            Phase::Registered { .. } => None,
            Phase::Failed { .. } => None,
        }
    }

    /// Moves on after the step of [`Setup::action`] ended with `event`. A
    /// registration that has ended stays as it is.
    pub fn step(self, event: Event) -> (next: Setup)
        ensures
            next@.collection == self@.collection,
            next@.phase == next_phase(self@.collection, self@.phase, event),
    {
        proof {
            use_type_invariant(&self);
        }
        let count = self.collection.collection_columns.len();
        let phase = match self.phase {
            Phase::CheckingColumns => match event {
                Event::Failed => Phase::Failed { error: SetupError::ColumnCheckFailed },
                Event::Row(found) => if table_has_all_columns(found, count + 1) {
                    Phase::OpeningScope
                } else {
                    Phase::Failed { error: SetupError::ColumnsMissing }
                },
                Event::Done => Phase::Failed { error: SetupError::ColumnCheckFailed },
            },
            Phase::OpeningScope => match event {
                Event::Failed => Phase::Failed { error: SetupError::ScopeOpenFailed },
                _ => Phase::ClearingProperties,
            },
            Phase::ClearingProperties => match event {
                Event::Failed => Phase::Aborting { error: SetupError::MetadataWriteFailed },
                _ => Phase::ClearingMaster,
            },
            Phase::ClearingMaster => match event {
                Event::Failed => Phase::Aborting { error: SetupError::MetadataWriteFailed },
                _ => Phase::WritingMaster,
            },
            Phase::WritingMaster => match event {
                Event::Row(master_id) => Phase::WritingProperty { master_id, position: 0 },
                _ => Phase::Aborting { error: SetupError::MetadataWriteFailed },
            },
            Phase::WritingProperty { master_id, position } => match event {
                Event::Failed => Phase::Aborting { error: SetupError::MetadataWriteFailed },
                _ => if position < count {
                    Phase::WritingProperty { master_id, position: position + 1 }
                } else {
                    Phase::CreatingTrigger { master_id }
                },
            },
            Phase::CreatingTrigger { master_id } => match event {
                Event::Failed => Phase::Aborting { error: SetupError::TriggerCreationFailed },
                _ => Phase::CreatingViews { master_id },
            },
            Phase::CreatingViews { master_id } => match event {
                Event::Failed => Phase::Aborting { error: SetupError::ViewCreationFailed },
                _ => Phase::Committing { master_id },
            },
            Phase::Committing { master_id } => match event {
                Event::Failed => Phase::Aborting { error: SetupError::CommitFailed },
                _ => Phase::Registered { master_id },
            },
            Phase::Aborting { error } => Phase::Failed { error },
            Phase::Registered { master_id } => Phase::Registered { master_id },
            Phase::Failed { error } => Phase::Failed { error },
        };
        Setup { collection: self.collection, phase }
    }

    /// How the registration ended: the id of the master record, or the
    /// error. `None` while a step is under way.
    pub fn outcome(&self) -> (outcome: Option<Result<i64, SetupError>>)
        ensures
            outcome == match self@.phase {
                Phase::Registered { master_id } => Some(Ok::<i64, SetupError>(master_id)),
                Phase::Failed { error } => Some(Err::<i64, SetupError>(error)),
                _ => None,
            },
    {
        match self.phase {
            Phase::Registered { master_id } => Some(Ok(master_id)),
            Phase::Failed { error } => Some(Err(error)),
            _ => None,
        }
    }
}

/// Starts the registration of `table` as a collection ordered by
/// `order_by_column` within the rows that agree on `collection_columns`.
pub fn as_ordered(table: &str, order_by_column: &str, collection_columns: Vec<String>) -> (setup:
    Setup)
    ensures
        setup@.collection == (Collection {
            table: table@,
            order_by_column: order_by_column@,
            collection_columns: collection_columns.deep_view(),
        }),
        setup@.phase == first_phase(setup@.collection),
{
    let phase = if collection_columns.len() <= MAX_COLLECTION_COLUMNS {
        Phase::CheckingColumns
    } else {
        Phase::Failed { error: SetupError::ColumnCheckFailed }
    };
    Setup { collection: OrderedCollection::new(table, order_by_column, collection_columns), phase }
}

} // verus!
