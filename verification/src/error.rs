//! The ways in which a registration can fail.

use vstd::prelude::*;

verus! {

/// Why a table was not registered as an ordered collection.
///
/// Every failure is final for the call that met it: nothing is retried, and
/// whatever the call had written by then is rolled back before the failure
/// is reported.
#[derive(Clone, Copy, Debug, PartialEq, Eq, Structural)]
pub enum SetupError {
    /// The entry point was called without a table name and an order column.
    ArgumentCountError,
    /// The engine could not say which of the named columns the table has.
    ColumnCheckFailed,
    /// The table lacks one of the named columns, or a column is named twice.
    ColumnsMissing,
    /// The engine refused to open the scope that the registration is written in.
    ScopeOpenFailed,
    /// A catalog record could not be written.
    MetadataWriteFailed,
    /// The trigger that places prepended and appended rows could not be created.
    TriggerCreationFailed,
    /// The views and triggers for moving rows could not be created.
    ViewCreationFailed,
    /// The engine refused to commit the scope that the registration was
    /// written in.
    CommitFailed,
}

impl SetupError {
    /// The message that a caller is shown for this failure.
    pub open spec fn message_text(self) -> Seq<char> {
        match self {
            SetupError::ArgumentCountError => "expected at least 2 arguments: the table and the column to order by"@,
            SetupError::ColumnCheckFailed => "Failed determining if all columns are present in the base table"@,
            SetupError::ColumnsMissing => "all columns are not present in the base table"@,
            SetupError::ScopeOpenFailed => "Failed opening a savepoint for the base table"@,
            SetupError::MetadataWriteFailed => "Failed recording schema information for the base table"@,
            SetupError::TriggerCreationFailed => "Failed creating triggers for the base table"@,
            SetupError::ViewCreationFailed => "Failed creating view for the base table"@,
            SetupError::CommitFailed => "Failed committing the registration of the base table"@,
        }
    }

    /// The message that a caller is shown for this failure.
    pub fn message(&self) -> (text: &'static str)
        ensures
            text@ == self.message_text(),
    {
        match self {
            SetupError::ArgumentCountError => "expected at least 2 arguments: the table and the column to order by",
            SetupError::ColumnCheckFailed => "Failed determining if all columns are present in the base table",
            SetupError::ColumnsMissing => "all columns are not present in the base table",
            SetupError::ScopeOpenFailed => "Failed opening a savepoint for the base table",
            SetupError::MetadataWriteFailed => "Failed recording schema information for the base table",
            SetupError::TriggerCreationFailed => "Failed creating triggers for the base table",
            SetupError::ViewCreationFailed => "Failed creating view for the base table",
            SetupError::CommitFailed => "Failed committing the registration of the base table",
        }
    }
}

/// Each failure has a message of its own: the message tells the caller
/// which step failed.
pub proof fn lemma_messages_differ(a: SetupError, b: SetupError)
    requires
        a != b,
    ensures
        a.message_text() != b.message_text(),
{
    reveal_strlit("expected at least 2 arguments: the table and the column to order by");
    reveal_strlit("Failed determining if all columns are present in the base table");
    reveal_strlit("all columns are not present in the base table");
    reveal_strlit("Failed opening a savepoint for the base table");
    reveal_strlit("Failed recording schema information for the base table");
    reveal_strlit("Failed creating triggers for the base table");
    reveal_strlit("Failed creating view for the base table");
    reveal_strlit("Failed committing the registration of the base table");
    if a.message_text().len() == b.message_text().len() {
        assert(a.message_text()[0] != b.message_text()[0]);
    }
}

} // verus!
