//! The column validator: does the table have every column that a declaration
//! names?
//!
//! The validator asks the engine one question, how many columns of the table
//! carry one of the given names, and compares the answer with the number of
//! names. A name that is absent lowers the answer. So does a name that is
//! given twice, since a column is counted once: such a declaration is turned
//! down as well.

use crate::statement::{bound_values, text_values, Binding, BoundValue, Statement, StatementText};
use vstd::prelude::*;

verus! {

/// `count` placeholders, separated by commas.
pub open spec fn placeholders(count: nat) -> Seq<char>
    decreases count,
{
    if count == 0 {
        Seq::empty()
    } else if count == 1 {
        "?"@
    } else {
        placeholders((count - 1) as nat) + ", ?"@
    }
}

/// The text of the query that counts the columns of a table whose name is
/// one of `count` given names. Its first placeholder is the table.
pub open spec fn column_count_sql(count: nat) -> Seq<char> {
    "SELECT count(*) FROM pragma_table_info(?) WHERE \"name\" in ("@ + placeholders(count) + ")"@
}

/// The query that counts the columns of `table` named in `columns`.
pub open spec fn column_count_statement(
    table: Seq<char>,
    columns: Seq<Seq<char>>,
) -> StatementText {
    StatementText {
        sql: column_count_sql(columns.len()),
        bindings: seq![BoundValue::Text(table)] + text_values(columns),
    }
}

/// Builds the query that counts the columns of `table` named in `columns`.
/// The engine answers it with one row of one integer.
pub fn column_count_query(table: &str, columns: &Vec<String>) -> (query: Statement)
    ensures
        query@ == column_count_statement(table@, columns.deep_view()),
{
    let mut sql = String::from_str("SELECT count(*) FROM pragma_table_info(?) WHERE \"name\" in (");
    let mut bindings: Vec<Binding> = Vec::new();
    bindings.push(Binding::Text(String::from_str(table)));
    let ghost head = sql@;
    let mut i: usize = 0;
    while i < columns.len()
        invariant
            i <= columns.len(),
            sql@ == head + placeholders(i as nat),
            bound_values(bindings@) == seq![BoundValue::Text(table@)] + text_values(
                columns.deep_view().take(i as int),
            ),
        decreases columns.len() - i,
    {
        if i == 0 {
            sql.append("?");
        } else {
            sql.append(", ?");
        }
        let ghost before = bound_values(bindings@);
        bindings.push(Binding::Text(columns[i].clone()));
        assert(bound_values(bindings@) =~= before.push(BoundValue::Text(columns[i as int]@)));
        i += 1;
    }
    assert(columns.deep_view().take(i as int) == columns.deep_view());
    sql.append(")");
    Statement { sql, bindings }
}

/// Decides from the engine's answer whether the table has all the columns:
/// it has them when `count`, the number of its columns that carry one of the
/// names, is the number of names.
pub fn table_has_all_columns(count: i64, names: usize) -> (present: bool)
    ensures
        present == (count == names),
{
    count >= 0 && count as u64 == names as u64
}

} // verus!
