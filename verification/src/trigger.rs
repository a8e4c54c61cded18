//! The scoped queries and the trigger that places prepended and appended
//! rows.
//!
//! An insert may carry a sentinel in the order column instead of a key: `0`
//! asks for a place before every row of the collection, `1` for a place after
//! every row. The trigger written here fires on such an insert and replaces
//! the sentinel by a key that the key allocator `crsql_fract_key_between`
//! computes from the smallest or the largest key among the other rows of the
//! same collection.

use crate::collection::{Collection, OrderedCollection};
use crate::ident::{quote_identifier, quoted};
use vstd::prelude::*;

verus! {

/// The condition that selects, in the body of a trigger on the table, the
/// rows that the inserted row `NEW` is ordered against: every other row that
/// agrees with `NEW` on each of `columns`. Without columns these are all the
/// other rows of the table.
pub open spec fn scope_condition(columns: Seq<Seq<char>>) -> Seq<char>
    decreases columns.len(),
{
    if columns.len() == 0 {
        "_rowid_ != NEW._rowid_"@
    } else {
        scope_condition(columns.drop_last()) + " AND "@ + quoted(columns.last()) + " IS NEW."@
            + quoted(columns.last())
    }
}

/// The query that applies `aggregate` to the keys of the rows that `NEW` is
/// ordered against.
pub open spec fn scoped_select(
    aggregate: Seq<char>,
    table: Seq<char>,
    order_by_column: Seq<char>,
    collection_columns: Seq<Seq<char>>,
) -> Seq<char> {
    "SELECT "@ + aggregate + "("@ + quoted(order_by_column) + ") FROM "@ + quoted(table)
        + " WHERE "@ + scope_condition(collection_columns)
}

/// The query for the smallest key among the rows that `NEW` is ordered
/// against. It yields NULL when there is no such row.
pub open spec fn min_select(
    table: Seq<char>,
    order_by_column: Seq<char>,
    collection_columns: Seq<Seq<char>>,
) -> Seq<char> {
    scoped_select("MIN"@, table, order_by_column, collection_columns)
}

/// The query for the largest key among the rows that `NEW` is ordered
/// against. It yields NULL when there is no such row.
pub open spec fn max_select(
    table: Seq<char>,
    order_by_column: Seq<char>,
    collection_columns: Seq<Seq<char>>,
) -> Seq<char> {
    scoped_select("MAX"@, table, order_by_column, collection_columns)
}

/// The name of the trigger. It is the same for every table, so an engine
/// holds one such trigger: that of the table that was registered first.
pub open spec fn pend_trigger_name_text() -> Seq<char> {
    "__crsql_fractindex_pend_trig"@
}

/// The statement that creates the trigger, unless a trigger of its name
/// exists already.
///
/// The trigger fires after an insert whose order column holds a sentinel. It
/// gives the inserted row the key between nothing and the smallest key of
/// its collection for the sentinel `0`, and the key between the largest key
/// of its collection and nothing for the sentinel `1`.
pub open spec fn pend_trigger_sql(collection: Collection) -> Seq<char> {
    let table = quoted(collection.table);
    let order = quoted(collection.order_by_column);
    "CREATE TRIGGER IF NOT EXISTS "@ + pend_trigger_name_text() + " AFTER INSERT ON "@ + table
        + "\nWHEN NEW."@ + order + " = 0 OR NEW."@ + order + " = 1 BEGIN\n    UPDATE "@ + table
        + " SET "@ + order + " = CASE NEW."@ + order
        + "\n        WHEN 0 THEN crsql_fract_key_between(NULL, ("@ + min_select(
        collection.table,
        collection.order_by_column,
        collection.collection_columns,
    ) + "))\n        WHEN 1 THEN crsql_fract_key_between(("@ + max_select(
        collection.table,
        collection.order_by_column,
        collection.collection_columns,
    ) + "), NULL)\n    END\n    WHERE _rowid_ = NEW._rowid_;\nEND;"@
}

/// The name of the trigger. It is the same for every table.
pub fn pend_trigger_name() -> (name: &'static str)
    ensures
        name@ == pend_trigger_name_text(),
{
    "__crsql_fractindex_pend_trig"
}

/// Writes the condition that selects the rows that `NEW` is ordered against.
fn scope_condition_text(columns: &Vec<String>) -> (text: String)
    ensures
        text@ == scope_condition(columns.deep_view()),
{
    let mut text = String::from_str("_rowid_ != NEW._rowid_");
    let mut i: usize = 0;
    while i < columns.len()
        invariant
            i <= columns.len(),
            text@ == scope_condition(columns.deep_view().take(i as int)),
        decreases columns.len() - i,
    {
        let name = quote_identifier(columns[i].as_str());
        proof {
            let upto = columns.deep_view().take(i + 1);
            assert(upto.drop_last() == columns.deep_view().take(i as int));
        }
        text.append(" AND ");
        text.append(name.as_str());
        text.append(" IS NEW.");
        text.append(name.as_str());
        i += 1;
    }
    assert(columns.deep_view().take(i as int) == columns.deep_view());
    text
}

/// Writes the query that applies `aggregate` to the keys of the rows that
/// `NEW` is ordered against.
fn scoped_select_text(
    aggregate: &str,
    table: &str,
    order_by_column: &str,
    collection_columns: &Vec<String>,
) -> (text: String)
    ensures
        text@ == scoped_select(
            aggregate@,
            table@,
            order_by_column@,
            collection_columns.deep_view(),
        ),
{
    let mut text = String::from_str("SELECT ");
    text.append(aggregate);
    text.append("(");
    text.append(quote_identifier(order_by_column).as_str());
    text.append(") FROM ");
    text.append(quote_identifier(table).as_str());
    text.append(" WHERE ");
    text.append(scope_condition_text(collection_columns).as_str());
    text
}

/// Writes the query for the smallest key among the rows of `table` that the
/// inserted row of a trigger is ordered against.
pub fn collection_min_select(
    table: &str,
    order_by_column: &str,
    collection_columns: &Vec<String>,
) -> (text: String)
    ensures
        text@ == min_select(table@, order_by_column@, collection_columns.deep_view()),
{
    scoped_select_text("MIN", table, order_by_column, collection_columns)
}

/// Writes the query for the largest key among the rows of `table` that the
/// inserted row of a trigger is ordered against.
pub fn collection_max_select(
    table: &str,
    order_by_column: &str,
    collection_columns: &Vec<String>,
) -> (text: String)
    ensures
        text@ == max_select(table@, order_by_column@, collection_columns.deep_view()),
{
    scoped_select_text("MAX", table, order_by_column, collection_columns)
}

/// Writes the statement that creates the trigger for `collection`, unless a
/// trigger of its name exists already.
pub fn create_pend_trigger(collection: &OrderedCollection) -> (text: String)
    ensures
        text@ == pend_trigger_sql(collection@),
        "CREATE TRIGGER IF NOT EXISTS "@.is_prefix_of(text@),
{
    let table = quote_identifier(collection.table.as_str());
    let order = quote_identifier(collection.order_by_column.as_str());
    let smallest = collection_min_select(
        collection.table.as_str(),
        collection.order_by_column.as_str(),
        &collection.collection_columns,
    );
    let largest = collection_max_select(
        collection.table.as_str(),
        collection.order_by_column.as_str(),
        &collection.collection_columns,
    );
    let mut text = String::from_str("CREATE TRIGGER IF NOT EXISTS ");
    text.append(pend_trigger_name());
    text.append(" AFTER INSERT ON ");
    text.append(table.as_str());
    text.append("\nWHEN NEW.");
    text.append(order.as_str());
    text.append(" = 0 OR NEW.");
    text.append(order.as_str());
    text.append(" = 1 BEGIN\n    UPDATE ");
    text.append(table.as_str());
    text.append(" SET ");
    text.append(order.as_str());
    text.append(" = CASE NEW.");
    text.append(order.as_str());
    text.append("\n        WHEN 0 THEN crsql_fract_key_between(NULL, (");
    text.append(smallest.as_str());
    text.append("))\n        WHEN 1 THEN crsql_fract_key_between((");
    text.append(largest.as_str());
    text.append("), NULL)\n    END\n    WHERE _rowid_ = NEW._rowid_;\nEND;");
    text
}

} // verus!
