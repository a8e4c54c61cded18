//! What a registration leaves behind, stated over a model of the engine.
//!
//! The engine is not part of this crate, so what it does with the steps of
//! a registration is written down here as a model: which tables it has, what
//! its catalog holds, which scopes are open, and how an operation that ended
//! in a given way changes these. The laws of this module hold of every
//! registration that runs against an engine that behaves as the model says.
//!
//! The model takes two things for granted. The count of columns, when the
//! engine gives one, is right. And a scope that is open can be aborted. A
//! write that fails may leave anything behind in the catalog. An insert
//! adds a row and removes none: what an earlier registration of the table
//! left is removed by the two steps of the registration that are there for
//! it, not by the insert.

use crate::catalog::{
    master_row, property_row, property_rows, MasterRow, PropertyRow, MAX_COLLECTION_COLUMNS,
};
use crate::collection::Collection;
use crate::error::SetupError;
use crate::setup::{first_phase, next_phase, operation, Event, Operation, Phase};
use crate::trigger::pend_trigger_name_text;
use vstd::prelude::*;

verus! {

/// What the engine holds on behalf of ordered collections.
pub struct Catalog {
    /// The master records, oldest first.
    pub masters: Seq<MasterRow>,
    /// The property records, oldest first.
    pub properties: Seq<PropertyRow>,
    /// The triggers by name, each with the collection it was created for.
    pub triggers: Map<Seq<char>, Collection>,
    /// The collections whose views and triggers for moving rows exist.
    pub views: Set<Collection>,
}

/// The engine, as far as a registration can tell.
pub struct Engine {
    /// The columns of each table.
    pub tables: Map<Seq<char>, Set<Seq<char>>>,
    /// The catalog as it stands.
    pub catalog: Catalog,
    /// For each open scope, outermost first, the catalog as it stood when
    /// the scope was opened.
    pub scopes: Seq<Catalog>,
}

impl Engine {
    /// The columns of `table`; none when there is no such table.
    pub open spec fn columns_of(self, table: Seq<char>) -> Set<Seq<char>> {
        if self.tables.dom().contains(table) {
            self.tables[table]
        } else {
            Set::empty()
        }
    }

    /// The number of columns of `table` whose name is among `names`.
    pub open spec fn count_present(self, table: Seq<char>, names: Seq<Seq<char>>) -> nat {
        names.to_set().intersect(self.columns_of(table)).len()
    }

    /// Whether `table` has a column for each of `names`.
    pub open spec fn has_all(self, table: Seq<char>, names: Seq<Seq<char>>) -> bool {
        forall|i: int| 0 <= i < names.len() ==> self.columns_of(table).contains(#[trigger] names[i])
    }
}

/// The triggers after the trigger of `collection` was created unless one of
/// its name existed.
pub open spec fn with_pend_trigger(
    triggers: Map<Seq<char>, Collection>,
    collection: Collection,
) -> Map<Seq<char>, Collection> {
    if triggers.dom().contains(pend_trigger_name_text()) {
        triggers
    } else {
        triggers.insert(pend_trigger_name_text(), collection)
    }
}

/// Whether `row` is the master record of a registration of `table`.
pub open spec fn registers(row: MasterRow, table: Seq<char>) -> bool {
    row.kind == "fract_index"@ && row.name == table
}

/// Whether one of `masters` is the master record of a registration of
/// `table` and has the id `id`.
pub open spec fn is_earlier_id(masters: Seq<MasterRow>, table: Seq<char>, id: i64) -> bool {
    exists|i: int|
        0 <= i < masters.len() && registers(#[trigger] masters[i], table) && masters[i].id == id
}

/// `masters` without the master records of the registrations of `table`.
pub open spec fn without_masters(masters: Seq<MasterRow>, table: Seq<char>) -> Seq<MasterRow>
    decreases masters.len(),
{
    if masters.len() == 0 {
        masters
    } else if registers(masters.last(), table) {
        without_masters(masters.drop_last(), table)
    } else {
        without_masters(masters.drop_last(), table).push(masters.last())
    }
}

/// `properties` without the property records that belong to a master
/// record, among `masters`, of a registration of `table`.
pub open spec fn without_properties(
    properties: Seq<PropertyRow>,
    masters: Seq<MasterRow>,
    table: Seq<char>,
) -> Seq<PropertyRow>
    decreases properties.len(),
{
    if properties.len() == 0 {
        properties
    } else if is_earlier_id(masters, table, properties.last().master_id) {
        without_properties(properties.drop_last(), masters, table)
    } else {
        without_properties(properties.drop_last(), masters, table).push(properties.last())
    }
}

/// The catalog without what the registrations of `table` have written to
/// it: their master records and the property records of these.
pub open spec fn cleared(catalog: Catalog, table: Seq<char>) -> Catalog {
    Catalog {
        masters: without_masters(catalog.masters, table),
        properties: without_properties(catalog.properties, catalog.masters, table),
        ..catalog
    }
}

/// The catalog after `collection` was registered under `master_id`. The
/// records of an earlier registration of its table are gone; there is one
/// master record of the table, one property record for the order column
/// and for each collection column, the trigger, and the views.
pub open spec fn registered(catalog: Catalog, collection: Collection, master_id: i64) -> Catalog {
    let base = cleared(catalog, collection.table);
    Catalog {
        masters: base.masters.push(master_row(master_id, collection.table)),
        properties: base.properties + property_rows(master_id, collection),
        triggers: with_pend_trigger(catalog.triggers, collection),
        views: catalog.views.insert(collection),
    }
}

/// How the engine ended a step.
pub struct Ending {
    /// What the engine reported.
    pub event: Event,
    /// What the catalog held afterwards, where the step was a write that
    /// did not end well.
    pub left: Catalog,
}

impl Operation {
    /// Whether the operation writes to the catalog.
    pub open spec fn writes(self) -> bool {
        self is RemoveProperties || self is RemoveMaster || self is InsertMaster
            || self is InsertProperty || self is CreatePendTrigger || self is CreateViews
    }

    /// Whether `event` says that the operation was carried out. The master
    /// record is written only when its id comes back.
    pub open spec fn ended_well(self, event: Event) -> bool {
        if self is InsertMaster {
            event is Row
        } else {
            !(event is Failed)
        }
    }
}

/// Whether the engine may end `operation` with `event`.
pub open spec fn admits(engine: Engine, operation: Operation, event: Event) -> bool {
    match operation {
        Operation::CountColumns { table, columns } => event is Failed || (event matches Event::Row(
            count,
        ) && count == engine.count_present(table, columns)),
        Operation::AbortScope => engine.scopes.len() > 0 ==> !(event is Failed),
        _ => true,
    }
}

/// The engine after `operation` ended as `ending` says. An operation that
/// ended well has done its work. One that did not has changed nothing,
/// unless it is a write: a write that did not end well may have left
/// anything in the catalog.
pub open spec fn effect(engine: Engine, operation: Operation, ending: Ending) -> Engine {
    if !operation.ended_well(ending.event) {
        if operation.writes() {
            Engine { catalog: ending.left, ..engine }
        } else {
            engine
        }
    } else {
        match operation {
            Operation::CountColumns { .. } => engine,
            Operation::OpenScope => Engine {
                scopes: engine.scopes.push(engine.catalog),
                ..engine
            },
            Operation::RemoveProperties { table } => Engine {
                catalog: Catalog {
                    properties: without_properties(
                        engine.catalog.properties,
                        engine.catalog.masters,
                        table,
                    ),
                    ..engine.catalog
                },
                ..engine
            },
            Operation::RemoveMaster { table } => Engine {
                catalog: Catalog {
                    masters: without_masters(engine.catalog.masters, table),
                    ..engine.catalog
                },
                ..engine
            },
            Operation::InsertMaster { table } => Engine {
                catalog: Catalog {
                    masters: engine.catalog.masters.push(master_row(ending.event->Row_0, table)),
                    ..engine.catalog
                },
                ..engine
            },
            Operation::InsertProperty { row } => Engine {
                catalog: Catalog {
                    properties: engine.catalog.properties.push(row),
                    ..engine.catalog
                },
                ..engine
            },
            Operation::CreatePendTrigger { collection } => Engine {
                catalog: Catalog {
                    triggers: with_pend_trigger(engine.catalog.triggers, collection),
                    ..engine.catalog
                },
                ..engine
            },
            Operation::CreateViews { collection } => Engine {
                catalog: Catalog {
                    views: engine.catalog.views.insert(collection),
                    ..engine.catalog
                },
                ..engine
            },
            Operation::CommitScope => if engine.scopes.len() > 0 {
                Engine { scopes: engine.scopes.drop_last(), ..engine }
            } else {
                engine
            },
            Operation::AbortScope => if engine.scopes.len() > 0 {
                Engine {
                    catalog: engine.scopes.last(),
                    scopes: engine.scopes.drop_last(),
                    ..engine
                }
            } else {
                engine
            },
        }
    }
}

/// Where the registration of `collection` stands, and what the engine
/// holds, after the steps from `phase` on ended as `endings` say, one
/// ending for each step. Endings that are left when the registration has
/// ended are not looked at.
pub open spec fn run(
    collection: Collection,
    phase: Phase,
    engine: Engine,
    endings: Seq<Ending>,
) -> (Phase, Engine)
    decreases endings.len(),
{
    if endings.len() == 0 {
        (phase, engine)
    } else {
        match operation(collection, phase) {
            None => (phase, engine),
            Some(step) => run(
                collection,
                next_phase(collection, phase, endings[0].event),
                effect(engine, step, endings[0]),
                endings.drop_first(),
            ),
        }
    }
}

/// Whether the engine may end the steps from `phase` on as `endings` say.
pub open spec fn admitted(
    collection: Collection,
    phase: Phase,
    engine: Engine,
    endings: Seq<Ending>,
) -> bool
    decreases endings.len(),
{
    endings.len() == 0 || match operation(collection, phase) {
        None => true,
        Some(step) => admits(engine, step, endings[0].event) && admitted(
            collection,
            next_phase(collection, phase, endings[0].event),
            effect(engine, step, endings[0]),
            endings.drop_first(),
        ),
    }
}

/// Whether none of `endings` is a failure.
pub open spec fn none_failed(endings: Seq<Ending>) -> bool {
    forall|i: int| 0 <= i < endings.len() ==> !(#[trigger] endings[i].event is Failed)
}

/// The most steps that a registration in `phase` still takes.
spec fn steps_left(collection: Collection, phase: Phase) -> nat {
    let columns = collection.collection_columns.len();
    match phase {
        Phase::CheckingColumns => columns + 10,
        Phase::OpeningScope => columns + 9,
        Phase::ClearingProperties => columns + 8,
        Phase::ClearingMaster => columns + 7,
        Phase::WritingMaster => columns + 6,
        Phase::WritingProperty { position, .. } => if position < columns {
            (columns - position + 5) as nat
        } else {
            5
        },
        Phase::CreatingTrigger { .. } => 4,
        Phase::CreatingViews { .. } => 3,
        Phase::Committing { .. } => 2,
        Phase::Aborting { .. } => 1,
        Phase::Registered { .. } => 0,
        Phase::Failed { .. } => 0,
    }
}

/// Whether `phase` is one that the registration of `collection` can be in.
spec fn in_order(collection: Collection, phase: Phase) -> bool {
    &&& operation(collection, phase) is Some ==> collection.collection_columns.len()
        <= MAX_COLLECTION_COLUMNS
    &&& phase matches Phase::WritingProperty { master_id, position } ==> position
        <= collection.collection_columns.len()
}

proof fn lemma_step_in_order(collection: Collection, phase: Phase, event: Event)
    requires
        in_order(collection, phase),
    ensures
        in_order(collection, next_phase(collection, phase, event)),
        steps_left(collection, phase) > 0 ==> steps_left(
            collection,
            next_phase(collection, phase, event),
        ) < steps_left(collection, phase),
        operation(collection, phase) is Some <==> steps_left(collection, phase) > 0,
{
}

proof fn lemma_rest_unfailing(endings: Seq<Ending>, skipped: int)
    requires
        0 <= skipped <= endings.len(),
        none_failed(endings),
    ensures
        none_failed(endings.skip(skipped)),
{
    let rest = endings.skip(skipped);
    assert forall|i: int| 0 <= i < rest.len() implies !(#[trigger] rest[i].event is Failed) by {
        assert(rest[i] == endings[i + skipped]);
    }
}

proof fn lemma_run_ends(
    collection: Collection,
    phase: Phase,
    engine: Engine,
    endings: Seq<Ending>,
)
    requires
        in_order(collection, phase),
        endings.len() >= steps_left(collection, phase),
    ensures
        operation(collection, run(collection, phase, engine, endings).0) is None,
    decreases endings.len(),
{
    if endings.len() > 0 && operation(collection, phase) is Some {
        lemma_step_in_order(collection, phase, endings[0].event);
        lemma_run_ends(
            collection,
            next_phase(collection, phase, endings[0].event),
            effect(engine, operation(collection, phase).unwrap(), endings[0]),
            endings.drop_first(),
        );
    } else {
        lemma_step_in_order(collection, phase, Event::Done);
    }
}

/// A registration ends: after ten steps and one for each collection
/// column, at the latest, the table is registered or the registration has
/// failed, however the steps end.
pub proof fn lemma_registration_ends(
    collection: Collection,
    engine: Engine,
    endings: Seq<Ending>,
)
    requires
        endings.len() >= collection.collection_columns.len() + 10,
    ensures
        ({
            let phase = run(collection, first_phase(collection), engine, endings).0;
            phase is Registered || phase is Failed
        }),
{
    lemma_run_ends(collection, first_phase(collection), engine, endings);
}

/// What holds of the engine while the registration that started on `start`
/// is in `phase`.
spec fn on_course(collection: Collection, phase: Phase, engine: Engine, start: Engine) -> bool {
    let inside = start.scopes.push(start.catalog);
    let base = cleared(start.catalog, collection.table);
    &&& in_order(collection, phase)
    &&& engine.tables == start.tables
    &&& match phase {
        Phase::CheckingColumns => engine == start,
        Phase::OpeningScope => engine == start,
        Phase::ClearingProperties => engine.catalog == start.catalog && engine.scopes == inside,
        Phase::ClearingMaster => {
            &&& engine.scopes == inside
            &&& engine.catalog == Catalog { properties: base.properties, ..start.catalog }
        },
        Phase::WritingMaster => engine.catalog == base && engine.scopes == inside,
        Phase::WritingProperty { master_id, position } => {
            &&& engine.scopes == inside
            &&& engine.catalog == Catalog {
                masters: base.masters.push(master_row(master_id, collection.table)),
                properties: base.properties + property_rows(master_id, collection).take(
                    position as int,
                ),
                ..start.catalog
            }
        },
        Phase::CreatingTrigger { master_id } => {
            &&& engine.scopes == inside
            &&& engine.catalog == Catalog {
                masters: base.masters.push(master_row(master_id, collection.table)),
                properties: base.properties + property_rows(master_id, collection),
                ..start.catalog
            }
        },
        Phase::CreatingViews { master_id } => {
            &&& engine.scopes == inside
            &&& engine.catalog == Catalog {
                views: start.catalog.views,
                ..registered(start.catalog, collection, master_id)
            }
        },
        Phase::Committing { master_id } => {
            &&& engine.scopes == inside
            &&& engine.catalog == registered(start.catalog, collection, master_id)
        },
        Phase::Aborting { .. } => engine.scopes == inside,
        Phase::Registered { master_id } => {
            &&& engine.catalog == registered(start.catalog, collection, master_id)
            &&& engine.scopes == start.scopes
        },
        Phase::Failed { .. } => engine == start,
    }
}

proof fn lemma_step_on_course(
    collection: Collection,
    phase: Phase,
    engine: Engine,
    start: Engine,
    ending: Ending,
)
    requires
        on_course(collection, phase, engine, start),
        operation(collection, phase) matches Some(step) && admits(engine, step, ending.event),
    ensures
        on_course(
            collection,
            next_phase(collection, phase, ending.event),
            effect(engine, operation(collection, phase).unwrap(), ending),
            start,
        ),
{
    let inside = start.scopes.push(start.catalog);
    let base = cleared(start.catalog, collection.table);
    assert(inside.drop_last() == start.scopes);
    if let Phase::WritingMaster = phase {
        assert(base.properties + property_rows(ending.event->Row_0, collection).take(0)
            == base.properties);
    }
    if let Phase::WritingProperty { master_id, position } = phase {
        if !(ending.event is Failed) {
            let rows = property_rows(master_id, collection);
            assert((base.properties + rows.take(position as int)).push(rows[position as int])
                == base.properties + rows.take(position + 1));
            if position >= collection.collection_columns.len() {
                assert(rows.take(position + 1) == rows);
            }
        }
    }
}

proof fn lemma_run_on_course(
    collection: Collection,
    phase: Phase,
    engine: Engine,
    start: Engine,
    endings: Seq<Ending>,
)
    requires
        on_course(collection, phase, engine, start),
        admitted(collection, phase, engine, endings),
    ensures
        on_course(
            collection,
            run(collection, phase, engine, endings).0,
            run(collection, phase, engine, endings).1,
            start,
        ),
    decreases endings.len(),
{
    if endings.len() > 0 && operation(collection, phase) is Some {
        lemma_step_on_course(collection, phase, engine, start, endings[0]);
        lemma_run_on_course(
            collection,
            next_phase(collection, phase, endings[0].event),
            effect(engine, operation(collection, phase).unwrap(), endings[0]),
            start,
            endings.drop_first(),
        );
    }
}

proof fn lemma_without_masters(masters: Seq<MasterRow>, table: Seq<char>)
    ensures
        forall|i: int|
            0 <= i < without_masters(masters, table).len() ==> !registers(
                #[trigger] without_masters(masters, table)[i],
                table,
            ),
        (forall|i: int| 0 <= i < masters.len() ==> !registers(#[trigger] masters[i], table))
            ==> without_masters(masters, table) == masters,
    decreases masters.len(),
{
    if masters.len() > 0 {
        lemma_without_masters(masters.drop_last(), table);
        let kept = without_masters(masters, table);
        let before = without_masters(masters.drop_last(), table);
        assert forall|i: int| 0 <= i < kept.len() implies !registers(#[trigger] kept[i], table) by {
            if i < before.len() {
                assert(kept[i] == before[i]);
            }
        }
        if forall|i: int| 0 <= i < masters.len() ==> !registers(#[trigger] masters[i], table) {
            assert forall|i: int| 0 <= i < masters.drop_last().len() implies !registers(
                #[trigger] masters.drop_last()[i],
                table,
            ) by {
                assert(masters.drop_last()[i] == masters[i]);
            }
            assert(masters.drop_last().push(masters.last()) == masters);
        }
    }
}

proof fn lemma_without_properties(
    properties: Seq<PropertyRow>,
    masters: Seq<MasterRow>,
    table: Seq<char>,
)
    requires
        forall|i: int| 0 <= i < masters.len() ==> !registers(#[trigger] masters[i], table),
    ensures
        without_properties(properties, masters, table) == properties,
    decreases properties.len(),
{
    if properties.len() > 0 {
        lemma_without_properties(properties.drop_last(), masters, table);
        assert(properties.drop_last().push(properties.last()) == properties);
    }
}

/// A table has one registration. In the catalog of a registered
/// collection, the master record of the registration is the only one that
/// registers its table. Where no record registered the table before, the
/// catalog holds what it held and the registration: one more master record
/// and one more property record for the order column and for each
/// collection column, in that order.
pub proof fn lemma_one_registration_per_table(
    catalog: Catalog,
    collection: Collection,
    master_id: i64,
)
    ensures
        ({
            let after = registered(catalog, collection, master_id);
            let fresh = forall|i: int|
                0 <= i < catalog.masters.len() ==> !registers(
                    #[trigger] catalog.masters[i],
                    collection.table,
                );
            &&& after.masters.last() == master_row(master_id, collection.table)
            &&& forall|i: int|
                0 <= i < after.masters.len() && registers(
                    #[trigger] after.masters[i],
                    collection.table,
                ) ==> i == after.masters.len() - 1
            &&& fresh ==> {
                &&& after.masters == catalog.masters.push(master_row(master_id, collection.table))
                &&& after.properties == catalog.properties + property_rows(master_id, collection)
                &&& after.masters.len() == catalog.masters.len() + 1
                &&& after.properties.len() == catalog.properties.len()
                    + collection.collection_columns.len() + 1
            }
        }),
{
    lemma_without_masters(catalog.masters, collection.table);
    if forall|i: int|
        0 <= i < catalog.masters.len() ==> !registers(
            #[trigger] catalog.masters[i],
            collection.table,
        ) {
        lemma_without_properties(catalog.properties, catalog.masters, collection.table);
    }
}

/// A registration is all or nothing. When it has ended as registered, the
/// scope is committed and closed, and the catalog holds exactly what
/// [`registered`] says: what it held before, less the records of an
/// earlier registration of the table, and the registration, with the
/// trigger and the views. When it has ended as failed, the engine is as it
/// was, whatever the failed step had left behind: no record, no trigger and
/// no view is left of the attempt, nothing that was there is gone, and no
/// scope is left open.
pub proof fn lemma_registration_is_atomic(
    collection: Collection,
    engine: Engine,
    endings: Seq<Ending>,
)
    requires
        admitted(collection, first_phase(collection), engine, endings),
    ensures
        ({
            let (phase, after) = run(collection, first_phase(collection), engine, endings);
            &&& phase is Failed ==> after == engine
            &&& phase matches Phase::Registered { master_id } ==> {
                &&& after.tables == engine.tables
                &&& after.scopes == engine.scopes
                &&& after.catalog == registered(engine.catalog, collection, master_id)
            }
        }),
{
    lemma_run_on_course(collection, first_phase(collection), engine, engine, endings);
}

/// The count of the columns is the number of names exactly when no name is
/// given twice and each is a column of the table.
pub proof fn lemma_count_of_names(engine: Engine, table: Seq<char>, names: Seq<Seq<char>>)
    ensures
        engine.count_present(table, names) <= names.len(),
        engine.count_present(table, names) == names.len() <==> names.no_duplicates()
            && engine.has_all(table, names),
{
    broadcast use vstd::seq_lib::seq_to_set_is_finite;

    let given = names.to_set();
    let columns = engine.columns_of(table);
    let found = given.intersect(columns);
    vstd::set_lib::lemma_len_intersect(given, columns);
    names.lemma_cardinality_of_set();
    if names.no_duplicates() && engine.has_all(table, names) {
        names.unique_seq_to_set();
        assert forall|name: Seq<char>| given.contains(name) implies found.contains(name) by {
            let i = choose|i: int| 0 <= i < names.len() && names[i] == name;
            assert(columns.contains(names[i]));
        }
        assert(found =~= given);
    }
    if found.len() == names.len() {
        names.lemma_no_dup_set_cardinality();
        assert forall|i: int| 0 <= i < names.len() implies columns.contains(
            #[trigger] names[i],
        ) by {
            if !columns.contains(names[i]) {
                found.lemma_subset_not_in_lt(given, names[i]);
            }
        }
    }
}

/// Whether the registration is past the count of the columns without
/// having found one missing.
spec fn past_count(phase: Phase) -> bool {
    &&& !(phase is CheckingColumns)
    &&& phase != (Phase::Aborting { error: SetupError::ColumnsMissing })
    &&& phase != (Phase::Failed { error: SetupError::ColumnsMissing })
}

proof fn lemma_run_past_count(
    collection: Collection,
    phase: Phase,
    engine: Engine,
    endings: Seq<Ending>,
)
    requires
        past_count(phase),
    ensures
        past_count(run(collection, phase, engine, endings).0),
    decreases endings.len(),
{
    if endings.len() > 0 && operation(collection, phase) is Some {
        lemma_run_past_count(
            collection,
            next_phase(collection, phase, endings[0].event),
            effect(engine, operation(collection, phase).unwrap(), endings[0]),
            endings.drop_first(),
        );
    }
}

/// The validation is complete. Of a declaration within the limit whose
/// columns the engine has counted, the registration fails with
/// `ColumnsMissing` exactly when the table lacks one of the named columns
/// or a column is named twice; where no column is named twice, exactly when
/// the table lacks one. Nothing was written by then: the engine is as it
/// was.
pub proof fn lemma_validation_is_complete(
    collection: Collection,
    engine: Engine,
    endings: Seq<Ending>,
)
    requires
        collection.collection_columns.len() <= MAX_COLLECTION_COLUMNS,
        endings.len() > 0,
        !(endings[0].event is Failed),
        admitted(collection, first_phase(collection), engine, endings),
    ensures
        ({
            let (phase, after) = run(collection, first_phase(collection), engine, endings);
            let names = collection.validated_columns();
            let missing = phase == (Phase::Failed { error: SetupError::ColumnsMissing });
            &&& missing <==> !engine.has_all(collection.table, names) || !names.no_duplicates()
            &&& names.no_duplicates() ==> (missing <==> !engine.has_all(collection.table, names))
            &&& missing ==> after == engine
        }),
{
    let names = collection.validated_columns();
    lemma_count_of_names(engine, collection.table, names);
    lemma_registration_is_atomic(collection, engine, endings);
    let next = next_phase(collection, Phase::CheckingColumns, endings[0].event);
    if next == (Phase::Failed { error: SetupError::ColumnsMissing }) {
        // The count ended the registration.
        assert(run(collection, next, engine, endings.drop_first()) == (next, engine));
    } else {
        // Past the count, no step fails for a missing column.
        lemma_run_past_count(collection, next, engine, endings.drop_first());
    }
}

/// What is registered is valid. A registration that has ended as
/// registered was of a declaration that names each column once, the order
/// column not among the collection columns, and only columns of the table.
pub proof fn lemma_registered_is_valid(
    collection: Collection,
    engine: Engine,
    endings: Seq<Ending>,
)
    requires
        admitted(collection, first_phase(collection), engine, endings),
        run(collection, first_phase(collection), engine, endings).0 is Registered,
    ensures
        collection.validated_columns().no_duplicates(),
        !collection.collection_columns.contains(collection.order_by_column),
        engine.has_all(collection.table, collection.validated_columns()),
{
    let names = collection.validated_columns();
    let count = operation(collection, Phase::CheckingColumns).unwrap();
    let counted = next_phase(collection, Phase::CheckingColumns, endings[0].event);
    if counted is Failed {
        // A count that fails ends the registration, and not as registered.
        assert(run(collection, counted, effect(engine, count, endings[0]), endings.drop_first())
            == (counted, effect(engine, count, endings[0])));
    }
    lemma_validation_is_complete(collection, engine, endings);
    if collection.collection_columns.contains(collection.order_by_column) {
        // The order column is the last of the validated names.
        let at = choose|at: int|
            0 <= at < collection.collection_columns.len() && collection.collection_columns[at]
                == collection.order_by_column;
        assert(names[at] == names[names.len() - 1]);
    }
}

/// The steps that a registration in `phase`, from the property records
/// on, takes when none fails.
spec fn steps_to_commit(collection: Collection, phase: Phase) -> nat {
    match phase {
        Phase::WritingProperty { position, .. } => (collection.collection_columns.len() - position
            + 4) as nat,
        Phase::CreatingTrigger { .. } => 3,
        Phase::CreatingViews { .. } => 2,
        Phase::Committing { .. } => 1,
        _ => 0,
    }
}

proof fn lemma_run_without_failure(
    collection: Collection,
    phase: Phase,
    engine: Engine,
    endings: Seq<Ending>,
    master_id: i64,
)
    requires
        in_order(collection, phase),
        endings.len() >= steps_to_commit(collection, phase),
        none_failed(endings),
        phase == (Phase::WritingProperty { master_id, position: phase->position })
            || phase == (Phase::CreatingTrigger { master_id })
            || phase == (Phase::CreatingViews { master_id })
            || phase == (Phase::Committing { master_id })
            || phase == (Phase::Registered { master_id }),
    ensures
        run(collection, phase, engine, endings).0 == (Phase::Registered { master_id }),
    decreases endings.len(),
{
    if endings.len() > 0 && operation(collection, phase) is Some {
        lemma_rest_unfailing(endings, 1);
        lemma_step_in_order(collection, phase, endings[0].event);
        lemma_run_without_failure(
            collection,
            next_phase(collection, phase, endings[0].event),
            effect(engine, operation(collection, phase).unwrap(), endings[0]),
            endings.drop_first(),
            master_id,
        );
    }
}

/// Success is owed. When the engine counts as many columns as the
/// declaration names, yields the id of the master record, and fails no
/// step, the registration ends as registered under that id.
pub proof fn lemma_registration_succeeds(
    collection: Collection,
    engine: Engine,
    endings: Seq<Ending>,
    master_id: i64,
)
    requires
        collection.collection_columns.len() <= MAX_COLLECTION_COLUMNS,
        endings.len() >= collection.collection_columns.len() + 9,
        none_failed(endings),
        endings[0].event == Event::Row((collection.collection_columns.len() + 1) as i64),
        endings[4].event == Event::Row(master_id),
    ensures
        run(collection, first_phase(collection), engine, endings).0 == (Phase::Registered {
            master_id,
        }),
{
    let table = collection.table;
    let count = operation(collection, Phase::CheckingColumns).unwrap();
    let counted = effect(engine, count, endings[0]);
    let opened = effect(counted, Operation::OpenScope, endings[1]);
    let halved = effect(opened, Operation::RemoveProperties { table }, endings[2]);
    let emptied = effect(halved, Operation::RemoveMaster { table }, endings[3]);
    let written = effect(emptied, Operation::InsertMaster { table }, endings[4]);
    // The count, the scope, the two removals and the master record end
    // well; so do the steps after them, one by one.
    assert(endings.skip(1) == endings.drop_first());
    assert(endings.skip(2) == endings.skip(1).drop_first());
    assert(endings.skip(3) == endings.skip(2).drop_first());
    assert(endings.skip(4) == endings.skip(3).drop_first());
    assert(endings.skip(5) == endings.skip(4).drop_first());
    assert(run(collection, first_phase(collection), engine, endings) == run(
        collection,
        Phase::OpeningScope,
        counted,
        endings.skip(1),
    ));
    assert(run(collection, Phase::OpeningScope, counted, endings.skip(1)) == run(
        collection,
        Phase::ClearingProperties,
        opened,
        endings.skip(2),
    ));
    assert(run(collection, Phase::ClearingProperties, opened, endings.skip(2)) == run(
        collection,
        Phase::ClearingMaster,
        halved,
        endings.skip(3),
    ));
    assert(run(collection, Phase::ClearingMaster, halved, endings.skip(3)) == run(
        collection,
        Phase::WritingMaster,
        emptied,
        endings.skip(4),
    ));
    assert(run(collection, Phase::WritingMaster, emptied, endings.skip(4)) == run(
        collection,
        Phase::WritingProperty { master_id, position: 0 },
        written,
        endings.skip(5),
    ));
    lemma_rest_unfailing(endings, 5);
    lemma_run_without_failure(
        collection,
        Phase::WritingProperty { master_id, position: 0 },
        written,
        endings.skip(5),
        master_id,
    );
}

proof fn lemma_run_unfailing_admitted(
    collection: Collection,
    phase: Phase,
    engine: Engine,
    endings: Seq<Ending>,
)
    requires
        none_failed(endings),
        !(phase is CheckingColumns),
    ensures
        admitted(collection, phase, engine, endings),
    decreases endings.len(),
{
    if endings.len() > 0 && operation(collection, phase) is Some {
        lemma_rest_unfailing(endings, 1);
        lemma_run_unfailing_admitted(
            collection,
            next_phase(collection, phase, endings[0].event),
            effect(engine, operation(collection, phase).unwrap(), endings[0]),
            endings.drop_first(),
        );
    }
}

/// A registration can be repeated. After a registration of `collection`
/// the trigger exists. The engine then admits a second registration of it
/// in which the count is as before and no step fails: the creation of the
/// trigger is free to end well where the trigger exists. That registration
/// ends as registered, and it leaves the triggers as the first left them
/// and one master record of the table: its own.
pub proof fn lemma_registration_repeats(
    collection: Collection,
    engine: Engine,
    first: Seq<Ending>,
    second: Seq<Ending>,
    master_id: i64,
)
    requires
        admitted(collection, first_phase(collection), engine, first),
        run(collection, first_phase(collection), engine, first).0 is Registered,
        second.len() >= collection.collection_columns.len() + 9,
        none_failed(second),
        second[0].event == Event::Row((collection.collection_columns.len() + 1) as i64),
        second[4].event == Event::Row(master_id),
    ensures
        ({
            let once = run(collection, first_phase(collection), engine, first).1;
            let (phase, twice) = run(collection, first_phase(collection), once, second);
            &&& once.catalog.triggers.dom().contains(pend_trigger_name_text())
            &&& admitted(collection, first_phase(collection), once, second)
            &&& phase == Phase::Registered { master_id }
            &&& twice.catalog.triggers == once.catalog.triggers
            &&& forall|i: int|
                0 <= i < twice.catalog.masters.len() && registers(
                    #[trigger] twice.catalog.masters[i],
                    collection.table,
                ) ==> twice.catalog.masters[i] == master_row(master_id, collection.table)
        }),
{
    let once = run(collection, first_phase(collection), engine, first).1;
    lemma_registration_is_atomic(collection, engine, first);
    let count = operation(collection, Phase::CheckingColumns).unwrap();
    let counted = next_phase(collection, Phase::CheckingColumns, first[0].event);
    if counted is Failed {
        assert(run(collection, counted, effect(engine, count, first[0]), first.drop_first())
            == (counted, effect(engine, count, first[0])));
    }
    // The first registration passed the count. The tables are as they
    // were, so the same count is right for the second.
    lemma_run_unfailing_admitted(
        collection,
        next_phase(collection, Phase::CheckingColumns, second[0].event),
        effect(once, count, second[0]),
        second.drop_first(),
    );
    lemma_registration_succeeds(collection, once, second, master_id);
    lemma_registration_is_atomic(collection, once, second);
    lemma_one_registration_per_table(once.catalog, collection, master_id);
}

} // verus!
