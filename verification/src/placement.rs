//! What the trigger asks of the engine, and what follows for the keys.
//!
//! The trigger of [`crate::trigger`] is a text, and the engine gives it its
//! meaning. This module writes that meaning down: which rows an inserted row
//! is ordered against, what the two scoped queries yield, and which key the
//! row is given. The laws of this module hold of the keys that an engine
//! computes when it reads the trigger in this way, together with a key
//! allocator that keeps its promise.

use crate::collection::Collection;
use vstd::prelude::*;

verus! {

/// The sentinel that an insert carries in the order column to ask for a
/// place before every row of its collection.
pub const PREPEND_SENTINEL: i64 = 0;

/// The sentinel that an insert carries in the order column to ask for a
/// place after every row of its collection.
pub const APPEND_SENTINEL: i64 = 1;

/// The place that an insert asks for by a sentinel.
#[derive(Clone, Copy, Debug, PartialEq, Eq, Structural)]
pub enum Intent {
    /// Before every row of the collection.
    Prepend,
    /// After every row of the collection.
    Append,
}

impl Intent {
    /// The intent that `value` stands for in the order column of an insert.
    /// Any value but the two sentinels is a key, and stands for none.
    pub open spec fn of(value: i64) -> Option<Intent> {
        if value == PREPEND_SENTINEL {
            Some(Intent::Prepend)
        } else if value == APPEND_SENTINEL {
            Some(Intent::Append)
        } else {
            None
        }
    }

    /// Reads the intent that `value` stands for in the order column of an
    /// insert. Any value but the two sentinels is a key, and stands for none.
    pub fn of_sentinel(value: i64) -> (intent: Option<Intent>)
        ensures
            intent == Intent::of(value),
    {
        if value == PREPEND_SENTINEL {
            Some(Intent::Prepend)
        } else if value == APPEND_SENTINEL {
            Some(Intent::Append)
        } else {
            None
        }
    }

    /// The sentinel to insert in the order column to ask for this place.
    pub fn sentinel(&self) -> (value: i64)
        ensures
            value == match self {
                Intent::Prepend => PREPEND_SENTINEL,
                Intent::Append => APPEND_SENTINEL,
            },
            Intent::of(value) == Some(*self),
    {
        match self {
            Intent::Prepend => PREPEND_SENTINEL,
            Intent::Append => APPEND_SENTINEL,
        }
    }
}

/// A row of an ordered table that has its key. `K` is the type of the keys,
/// `V` that of the values of the other columns.
pub struct Row<K, V> {
    /// The row identifier.
    pub rowid: int,
    /// The key in the order column.
    pub key: K,
    /// The values of the other columns, by the name of the column.
    pub values: Map<Seq<char>, V>,
}

/// A row that was inserted with a sentinel in the order column.
pub struct Inserted<V> {
    /// The row identifier.
    pub rowid: int,
    /// The place that the sentinel asks for.
    pub intent: Intent,
    /// The values of the other columns, by the name of the column.
    pub values: Map<Seq<char>, V>,
}

/// Whether `row` is one that `inserted` is ordered against: another row
/// that holds the same value as `inserted` in each collection column. These
/// are the rows that the condition of [`crate::trigger::scope_condition`]
/// selects.
pub open spec fn ordered_against<K, V>(
    collection: Collection,
    inserted: Inserted<V>,
    row: Row<K, V>,
) -> bool {
    &&& row.rowid != inserted.rowid
    &&& forall|i: int|
        0 <= i < collection.collection_columns.len() ==> {
            let column = #[trigger] collection.collection_columns[i];
            row.values[column] == inserted.values[column]
        }
}

/// The keys of the rows among `rows` that `inserted` is ordered against.
pub open spec fn scope_keys<K, V>(
    collection: Collection,
    rows: Set<Row<K, V>>,
    inserted: Inserted<V>,
) -> Set<K> {
    Set::new(
        |key: K|
            exists|row: Row<K, V>|
                rows.contains(row) && ordered_against(collection, inserted, row) && row.key == key,
    )
}

/// Whether `smallest` is what the query for the smallest key yields over
/// `keys`: nothing where there is no key, else a key that no other is below.
pub open spec fn is_smallest<K>(
    below: spec_fn(K, K) -> bool,
    keys: Set<K>,
    smallest: Option<K>,
) -> bool {
    match smallest {
        None => forall|key: K| !keys.contains(key),
        Some(found) => keys.contains(found) && forall|key: K|
            keys.contains(key) ==> key == found || below(found, key),
    }
}

/// Whether `largest` is what the query for the largest key yields over
/// `keys`: nothing where there is no key, else a key that is below no other.
pub open spec fn is_largest<K>(
    below: spec_fn(K, K) -> bool,
    keys: Set<K>,
    largest: Option<K>,
) -> bool {
    match largest {
        None => forall|key: K| !keys.contains(key),
        Some(found) => keys.contains(found) && forall|key: K|
            keys.contains(key) ==> key == found || below(key, found),
    }
}

/// The key that the trigger gives a row that was inserted with `intent`:
/// the key between nothing and the smallest key of its scope for a prepend,
/// the key between the largest key of its scope and nothing for an append.
pub open spec fn placed<K>(
    key_between: spec_fn(Option<K>, Option<K>) -> K,
    intent: Intent,
    smallest: Option<K>,
    largest: Option<K>,
) -> K {
    match intent {
        Intent::Prepend => key_between(None, smallest),
        Intent::Append => key_between(largest, None),
    }
}

/// Whether `below`, the order in which the engine compares the keys, puts
/// them one after the other.
pub open spec fn orders<K>(below: spec_fn(K, K) -> bool) -> bool {
    forall|a: K, b: K, c: K| #[trigger] below(a, b) && #[trigger] below(b, c) ==> below(a, c)
}

/// Whether `key_between` keeps the promise of a key allocator: its key is
/// below the upper bound and above the lower bound, where there is one.
pub open spec fn allocates<K>(
    below: spec_fn(K, K) -> bool,
    key_between: spec_fn(Option<K>, Option<K>) -> K,
) -> bool {
    &&& forall|upper: K| below(#[trigger] key_between(None, Some(upper)), upper)
    &&& forall|lower: K| below(lower, #[trigger] key_between(Some(lower), None))
    &&& forall|lower: K, upper: K|
        below(lower, upper) ==> below(lower, #[trigger] key_between(Some(lower), Some(upper)))
            && below(key_between(Some(lower), Some(upper)), upper)
}

/// Collections do not touch each other. A row that differs from the
/// inserted row in one collection column is not among the rows that the
/// inserted row is ordered against: with it or without it, the keys in
/// scope are the same, and so are the smallest and the largest of them.
pub proof fn lemma_other_collections_stay_out<K, V>(
    collection: Collection,
    rows: Set<Row<K, V>>,
    inserted: Inserted<V>,
    other: Row<K, V>,
    column: int,
)
    requires
        0 <= column < collection.collection_columns.len(),
        other.values[collection.collection_columns[column]]
            != inserted.values[collection.collection_columns[column]],
    ensures
        !ordered_against(collection, inserted, other),
        scope_keys(collection, rows.insert(other), inserted) == scope_keys(
            collection,
            rows,
            inserted,
        ),
        scope_keys(collection, rows.remove(other), inserted) == scope_keys(
            collection,
            rows,
            inserted,
        ),
{
    let with = scope_keys(collection, rows.insert(other), inserted);
    let without = scope_keys(collection, rows.remove(other), inserted);
    let plain = scope_keys(collection, rows, inserted);
    assert forall|key: K| with.contains(key) == plain.contains(key) by {
        if with.contains(key) {
            let row = choose|row: Row<K, V>|
                rows.insert(other).contains(row) && ordered_against(collection, inserted, row)
                    && row.key == key;
        }
        if plain.contains(key) {
            let row = choose|row: Row<K, V>|
                rows.contains(row) && ordered_against(collection, inserted, row) && row.key == key;
            assert(rows.insert(other).contains(row));
        }
    }
    assert forall|key: K| without.contains(key) == plain.contains(key) by {
        if without.contains(key) {
            let row = choose|row: Row<K, V>|
                rows.remove(other).contains(row) && ordered_against(collection, inserted, row)
                    && row.key == key;
        }
        if plain.contains(key) {
            let row = choose|row: Row<K, V>|
                rows.contains(row) && ordered_against(collection, inserted, row) && row.key == key;
            assert(rows.remove(other).contains(row));
        }
    }
}

/// The sentinels are rewritten into keys beyond the scope. With an order of
/// the keys and an allocator that keeps its promise, an appended row is
/// given a key above the key of every row it is ordered against, and a
/// prepended row a key below the key of each. Where it is ordered against
/// no row, it is given the key between nothing and nothing.
pub proof fn lemma_placed_beyond_scope<K, V>(
    below: spec_fn(K, K) -> bool,
    key_between: spec_fn(Option<K>, Option<K>) -> K,
    collection: Collection,
    rows: Set<Row<K, V>>,
    inserted: Inserted<V>,
    smallest: Option<K>,
    largest: Option<K>,
)
    requires
        orders(below),
        allocates(below, key_between),
        is_smallest(below, scope_keys(collection, rows, inserted), smallest),
        is_largest(below, scope_keys(collection, rows, inserted), largest),
    ensures
        ({
            let key = placed(key_between, inserted.intent, smallest, largest);
            &&& forall|row: Row<K, V>|
                #![trigger rows.contains(row)]
                rows.contains(row) && ordered_against(collection, inserted, row) ==> match inserted.intent {
                    Intent::Prepend => below(key, row.key),
                    Intent::Append => below(row.key, key),
                }
            &&& (forall|row: Row<K, V>|
                #![trigger rows.contains(row)]
                rows.contains(row) ==> !ordered_against(collection, inserted, row)) ==> key
                == key_between(None, None)
        }),
{
    let keys = scope_keys(collection, rows, inserted);
    let key = placed(key_between, inserted.intent, smallest, largest);
    assert forall|row: Row<K, V>|
        #![trigger rows.contains(row)]
        rows.contains(row) && ordered_against(collection, inserted, row) implies match inserted.intent {
        Intent::Prepend => below(key, row.key),
        Intent::Append => below(row.key, key),
    } by {
        assert(keys.contains(row.key));
    }
}

} // verus!
