//! The catalog registrar: the records that persist a declaration.
//!
//! A registered collection is one master record, which names the table, and
//! one property record for the order column and for each collection column.
//! The property records of the collection columns are numbered from zero in
//! the order of the declaration, which is the order of the partition key.
//!
//! A table has one registration at a time. Before the records of a
//! registration are written, the master records that an earlier
//! registration of the same table left, and their property records, are
//! removed: a registration replaces the one before it.

use crate::collection::{Collection, OrderedCollection};
use crate::statement::{bound_values, Binding, BoundValue, Statement, StatementText};
use vstd::prelude::*;

verus! {

/// The most collection columns that a declaration may name. With more, the
/// placeholders of the column count could no longer be numbered.
pub const MAX_COLLECTION_COLUMNS: usize = 2147483645;

/// What a property record says of its value.
#[derive(Clone, Copy, Debug, PartialEq, Eq, Structural)]
pub enum PropertyKey {
    /// The value is the column that holds the fractional keys.
    OrderBy,
    /// The value is a column of the partition key.
    Collection,
}

impl PropertyKey {
    /// The key as the catalog stores it.
    pub open spec fn name_text(self) -> Seq<char> {
        match self {
            PropertyKey::OrderBy => "order_by"@,
            PropertyKey::Collection => "collection"@,
        }
    }

    /// The key as the catalog stores it.
    pub fn name(&self) -> (text: &'static str)
        ensures
            text@ == self.name_text(),
    {
        match self {
            PropertyKey::OrderBy => "order_by",
            PropertyKey::Collection => "collection",
        }
    }
}

/// A property record: one column of a registered collection.
#[derive(Clone, Debug, PartialEq, Eq)]
pub struct PropertyRecord {
    /// The id of the master record that the property belongs to.
    pub master_id: i64,
    /// What the record says of the column.
    pub key: PropertyKey,
    /// The position of the column among those of the same key, from zero.
    pub ord: i64,
    /// The name of the column.
    pub value: String,
}

/// What a [`PropertyRecord`] holds, as mathematical values.
pub struct PropertyRow {
    pub master_id: i64,
    pub key: PropertyKey,
    pub ord: int,
    pub value: Seq<char>,
}

impl View for PropertyRecord {
    type V = PropertyRow;

    open spec fn view(&self) -> PropertyRow {
        PropertyRow {
            master_id: self.master_id,
            key: self.key,
            ord: self.ord as int,
            value: self.value@,
        }
    }
}

/// What `records` hold, in the same order.
pub open spec fn recorded(records: Seq<PropertyRecord>) -> Seq<PropertyRow> {
    records.map_values(|record: PropertyRecord| record@)
}

/// A master record: one registered collection.
pub struct MasterRow {
    pub id: i64,
    pub kind: Seq<char>,
    pub name: Seq<char>,
    pub augments: Seq<char>,
}

/// The master record of the collection on `table` under the id that the
/// catalog gave it.
pub open spec fn master_row(id: i64, table: Seq<char>) -> MasterRow {
    MasterRow { id, kind: "fract_index"@, name: table, augments: table }
}

/// The property record at `position` among those of `collection`: the order
/// column at position zero, then the collection columns in their order.
pub open spec fn property_row(
    master_id: i64,
    collection: Collection,
    position: int,
) -> PropertyRow {
    if position == 0 {
        PropertyRow {
            master_id,
            key: PropertyKey::OrderBy,
            ord: 0,
            value: collection.order_by_column,
        }
    } else {
        PropertyRow {
            master_id,
            key: PropertyKey::Collection,
            ord: position - 1,
            value: collection.collection_columns[position - 1],
        }
    }
}

/// The property records of `collection`, in the order in which they are
/// written: one more than it has collection columns.
pub open spec fn property_rows(master_id: i64, collection: Collection) -> Seq<PropertyRow> {
    Seq::new(
        collection.collection_columns.len() + 1,
        |position: int| property_row(master_id, collection, position),
    )
}

/// The statement that removes the property records of every master record
/// that registers `table`.
pub open spec fn earlier_properties_delete_statement(table: Seq<char>) -> StatementText {
    StatementText {
        sql: "DELETE FROM __crsql_master_prop WHERE master_id IN (SELECT id FROM __crsql_master WHERE type = ? AND name = ?)"@,
        bindings: seq![BoundValue::Text("fract_index"@), BoundValue::Text(table)],
    }
}

/// The statement that removes every master record that registers `table`.
pub open spec fn earlier_master_delete_statement(table: Seq<char>) -> StatementText {
    StatementText {
        sql: "DELETE FROM __crsql_master WHERE type = ? AND name = ?"@,
        bindings: seq![BoundValue::Text("fract_index"@), BoundValue::Text(table)],
    }
}

/// The statement that writes the master record of the collection on `table`
/// and yields the id of the record.
pub open spec fn master_insert_statement(table: Seq<char>) -> StatementText {
    StatementText {
        sql: "INSERT OR REPLACE INTO __crsql_master (type, name, augments) VALUES (?, ?, ?) RETURNING id"@,
        bindings: seq![
            BoundValue::Text("fract_index"@),
            BoundValue::Text(table),
            BoundValue::Text(table),
        ],
    }
}

/// The statement that writes the property record `row`.
pub open spec fn property_insert_statement(row: PropertyRow) -> StatementText
    recommends
        i64::MIN <= row.ord <= i64::MAX,
{
    StatementText {
        sql: "INSERT OR REPLACE INTO __crsql_master_prop (master_id, key, ord, value) VALUES (?, ?, ?, ?)"@,
        bindings: seq![
            BoundValue::Integer(row.master_id),
            BoundValue::Text(row.key.name_text()),
            BoundValue::Integer(row.ord as i64),
            BoundValue::Text(row.value),
        ],
    }
}

/// Builds the statement that removes the property records which an
/// earlier registration of `table` left.
pub fn earlier_properties_delete(table: &str) -> (statement: Statement)
    ensures
        statement@ == earlier_properties_delete_statement(table@),
{
    let mut bindings: Vec<Binding> = Vec::new();
    bindings.push(Binding::Text(String::from_str("fract_index")));
    bindings.push(Binding::Text(String::from_str(table)));
    assert(bound_values(bindings@) =~= earlier_properties_delete_statement(table@).bindings);
    Statement {
        sql: String::from_str(
            "DELETE FROM __crsql_master_prop WHERE master_id IN (SELECT id FROM __crsql_master WHERE type = ? AND name = ?)",
        ),
        bindings,
    }
}

/// Builds the statement that removes the master records which an earlier
/// registration of `table` left.
pub fn earlier_master_delete(table: &str) -> (statement: Statement)
    ensures
        statement@ == earlier_master_delete_statement(table@),
{
    let mut bindings: Vec<Binding> = Vec::new();
    bindings.push(Binding::Text(String::from_str("fract_index")));
    bindings.push(Binding::Text(String::from_str(table)));
    assert(bound_values(bindings@) =~= earlier_master_delete_statement(table@).bindings);
    Statement {
        sql: String::from_str("DELETE FROM __crsql_master WHERE type = ? AND name = ?"),
        bindings,
    }
}

/// Builds the statement that writes the master record of the collection on
/// `table`. The engine answers it with one row that holds the new id.
pub fn master_insert(table: &str) -> (statement: Statement)
    ensures
        statement@ == master_insert_statement(table@),
{
    let mut bindings: Vec<Binding> = Vec::new();
    bindings.push(Binding::Text(String::from_str("fract_index")));
    bindings.push(Binding::Text(String::from_str(table)));
    bindings.push(Binding::Text(String::from_str(table)));
    assert(bound_values(bindings@) =~= master_insert_statement(table@).bindings);
    Statement {
        sql: String::from_str(
            "INSERT OR REPLACE INTO __crsql_master (type, name, augments) VALUES (?, ?, ?) RETURNING id",
        ),
        bindings,
    }
}

/// Builds the statement that writes `record`.
pub fn property_insert(record: &PropertyRecord) -> (statement: Statement)
    ensures
        statement@ == property_insert_statement(record@),
{
    let mut bindings: Vec<Binding> = Vec::new();
    bindings.push(Binding::Integer(record.master_id));
    bindings.push(Binding::Text(String::from_str(record.key.name())));
    bindings.push(Binding::Integer(record.ord));
    bindings.push(Binding::Text(record.value.clone()));
    assert(bound_values(bindings@) =~= property_insert_statement(record@).bindings);
    Statement {
        sql: String::from_str(
            "INSERT OR REPLACE INTO __crsql_master_prop (master_id, key, ord, value) VALUES (?, ?, ?, ?)",
        ),
        bindings,
    }
}

impl OrderedCollection {
    /// The property record at `position` among those of the collection, for
    /// the master record `master_id`.
    pub fn property_record(&self, master_id: i64, position: usize) -> (record: PropertyRecord)
        requires
            position <= self.collection_columns.len() <= MAX_COLLECTION_COLUMNS,
        ensures
            record@ == property_row(master_id, self@, position as int),
    {
        if position == 0 {
            PropertyRecord {
                master_id,
                key: PropertyKey::OrderBy,
                ord: 0,
                value: self.order_by_column.clone(),
            }
        } else {
            PropertyRecord {
                master_id,
                key: PropertyKey::Collection,
                ord: (position - 1) as i64,
                value: self.collection_columns[position - 1].clone(),
            }
        }
    }
}

/// Lists what persists `collection` beside its master record `master_id`:
/// the property records in the order in which they are to be written. The
/// caller wraps the writes in a scope of the engine and rolls it back when
/// one of them fails. `None` when the collection has more columns than
/// [`MAX_COLLECTION_COLUMNS`].
pub fn record_schema_information(collection: &OrderedCollection, master_id: i64) -> (records:
    Option<Vec<PropertyRecord>>)
    ensures
        records is Some <==> collection@.collection_columns.len() <= MAX_COLLECTION_COLUMNS,
        records matches Some(list) ==> recorded(list@) == property_rows(master_id, collection@),
{
    let count = collection.collection_columns.len();
    if count > MAX_COLLECTION_COLUMNS {
        return None;
    }
    let mut list: Vec<PropertyRecord> = Vec::new();
    let mut position: usize = 0;
    while position <= count
        invariant
            count == collection.collection_columns.len(),
            count <= MAX_COLLECTION_COLUMNS,
            position <= count + 1,
            recorded(list@) == property_rows(master_id, collection@).take(position as int),
        decreases count + 1 - position,
    {
        let ghost before = recorded(list@);
        let record = collection.property_record(master_id, position);
        list.push(record);
        assert(recorded(list@) =~= before.push(
            property_row(master_id, collection@, position as int),
        ));
        position += 1;
    }
    Some(list)
}

} // verus!
