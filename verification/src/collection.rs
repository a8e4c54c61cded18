//! The declaration of an ordered collection: a table, the column that holds
//! the fractional key of each row, and the columns that partition the rows.

use crate::error::SetupError;
use vstd::prelude::*;

verus! {

/// A table declared as an ordered collection.
///
/// The order of `collection_columns` matters: it is the order in which the
/// columns make up the partition key, and the catalog records it.
#[derive(Clone, Debug, PartialEq, Eq)]
pub struct OrderedCollection {
    /// The table whose rows are ordered.
    pub table: String,
    /// The column that holds each row's fractional key.
    pub order_by_column: String,
    /// The columns whose values say which rows are ordered against each other.
    pub collection_columns: Vec<String>,
}

/// What an [`OrderedCollection`] holds, as mathematical values.
pub struct Collection {
    pub table: Seq<char>,
    pub order_by_column: Seq<char>,
    pub collection_columns: Seq<Seq<char>>,
}

impl Collection {
    /// The names that must be columns of the table: the collection columns
    /// in their order, then the order column.
    pub open spec fn validated_columns(self) -> Seq<Seq<char>> {
        self.collection_columns.push(self.order_by_column)
    }
}

impl View for OrderedCollection {
    type V = Collection;

    open spec fn view(&self) -> Collection {
        Collection {
            table: self.table@,
            order_by_column: self.order_by_column@,
            collection_columns: self.collection_columns.deep_view(),
        }
    }
}

/// Copies the names of `names` from position `from` on.
fn copy_names(names: &Vec<String>, from: usize) -> (copy: Vec<String>)
    requires
        from <= names.len(),
    ensures
        copy.deep_view() == names.deep_view().skip(from as int),
{
    let mut copy: Vec<String> = Vec::new();
    let mut i: usize = from;
    while i < names.len()
        invariant
            from <= i <= names.len(),
            copy.deep_view() == names.deep_view().subrange(from as int, i as int),
        decreases names.len() - i,
    {
        let ghost before = copy.deep_view();
        copy.push(names[i].clone());
        assert(copy.deep_view() =~= before.push(names[i as int]@));
        i += 1;
    }
    copy
}

impl OrderedCollection {
    /// Declares `table` as ordered by `order_by_column` within the rows that
    /// agree on `collection_columns`.
    pub fn new(table: &str, order_by_column: &str, collection_columns: Vec<String>) -> (declared:
        OrderedCollection)
        ensures
            declared@ == (Collection {
                table: table@,
                order_by_column: order_by_column@,
                collection_columns: collection_columns.deep_view(),
            }),
    {
        OrderedCollection {
            table: String::from_str(table),
            order_by_column: String::from_str(order_by_column),
            collection_columns,
        }
    }

    /// Reads a declaration from the positional arguments of the entry point:
    /// the table, the order column, then any number of collection columns.
    pub fn from_arguments(arguments: &Vec<String>) -> (declared: Result<
        OrderedCollection,
        SetupError,
    >)
        ensures
            arguments.len() < 2 <==> declared == Err::<OrderedCollection, SetupError>(
                SetupError::ArgumentCountError,
            ),
            arguments.len() >= 2 ==> declared is Ok && declared->Ok_0@ == (Collection {
                table: arguments[0]@,
                order_by_column: arguments[1]@,
                collection_columns: arguments.deep_view().skip(2),
            }),
    {
        if arguments.len() < 2 {
            return Err(SetupError::ArgumentCountError);
        }
        Ok(
            OrderedCollection {
                table: arguments[0].clone(),
                order_by_column: arguments[1].clone(),
                collection_columns: copy_names(arguments, 2),
            },
        )
    }

    /// A second value that holds the same declaration.
    pub fn duplicate(&self) -> (copy: OrderedCollection)
        ensures
            copy@ == self@,
    {
        let columns = copy_names(&self.collection_columns, 0);
        assert(self.collection_columns.deep_view().skip(0) == self.collection_columns.deep_view());
        OrderedCollection {
            table: self.table.clone(),
            order_by_column: self.order_by_column.clone(),
            collection_columns: columns,
        }
    }

    /// The names to look for on the table: the collection columns in their
    /// order, then the order column.
    pub fn validated_columns(&self) -> (names: Vec<String>)
        ensures
            names.deep_view() == self@.validated_columns(),
    {
        let mut names = copy_names(&self.collection_columns, 0);
        assert(self.collection_columns.deep_view().skip(0) == self.collection_columns.deep_view());
        names.push(self.order_by_column.clone());
        names
    }
}

} // verus!
