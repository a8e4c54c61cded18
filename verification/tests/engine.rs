use fractindex_core::{
    as_ordered, Action, Binding, Event, Intent, OrderedCollection, SetupError, Statement,
};
use rusqlite::functions::FunctionFlags;
use rusqlite::Connection;

const DIGITS: &[u8] = b"abcdefghijklmnopqrstuvwxyz";

fn digit(character: u8) -> usize {
    DIGITS.iter().position(|known| *known == character).unwrap()
}

/// A key strictly between `lower` and `upper`, where an empty `lower` is below every key and
/// an absent `upper` is above every key.
fn midpoint(lower: &[u8], upper: Option<&[u8]>) -> Vec<u8> {
    if let Some(upper) = upper {
        let mut shared = 0;
        while shared < upper.len() && *lower.get(shared).unwrap_or(&DIGITS[0]) == upper[shared] {
            shared += 1;
        }
        if shared > 0 {
            let rest = if shared < lower.len() { &lower[shared..] } else { &lower[..0] };
            let mut key = upper[..shared].to_vec();
            key.extend(midpoint(rest, Some(&upper[shared..])));
            return key;
        }
    }
    let low = lower.first().map(|character| digit(*character)).unwrap_or(0);
    let high = upper
        .and_then(|upper| upper.first())
        .map(|character| digit(*character))
        .unwrap_or(DIGITS.len());
    if high - low > 1 {
        return vec![DIGITS[(low + high) / 2]];
    }
    if let Some(upper) = upper {
        if upper.len() > 1 {
            return upper[..1].to_vec();
        }
    }
    let rest = if lower.is_empty() { lower } else { &lower[1..] };
    let mut key = vec![DIGITS[low]];
    key.extend(midpoint(rest, None));
    key
}

/// Stands for the key allocator of the host: a key below `upper`, above `lower`, between
/// the two, or the first key of all.
fn key_between(lower: Option<String>, upper: Option<String>) -> String {
    let lower = lower.unwrap_or_default();
    let key = midpoint(lower.as_bytes(), upper.as_ref().map(|upper| upper.as_bytes()));
    String::from_utf8(key).unwrap()
}

const BASELINE: &str = "n";

fn open() -> Connection {
    let db = Connection::open_in_memory().unwrap();
    db.create_scalar_function("crsql_fract_key_between", 2, FunctionFlags::SQLITE_UTF8, |ctx| {
        let lower = ctx.get::<Option<String>>(0)?;
        let upper = ctx.get::<Option<String>>(1)?;
        Ok(key_between(lower, upper))
    })
    .unwrap();
    db.execute_batch(
        "CREATE TABLE __crsql_master (id INTEGER PRIMARY KEY, type TEXT NOT NULL, name TEXT NOT NULL, augments TEXT NOT NULL);
         CREATE TABLE __crsql_master_prop (master_id INTEGER NOT NULL, key TEXT NOT NULL, ord INTEGER DEFAULT 0, value ANY, PRIMARY KEY (master_id, key, ord));
         CREATE TABLE todos (id INTEGER PRIMARY KEY, pos, list_id);",
    )
    .unwrap();
    db
}

fn run(db: &Connection, statement: &Statement) -> Event {
    if statement.bindings.is_empty() {
        return match db.execute_batch(&statement.sql) {
            Ok(()) => Event::Done,
            Err(_) => Event::Failed,
        };
    }
    let mut prepared = match db.prepare(&statement.sql) {
        Ok(prepared) => prepared,
        Err(_) => return Event::Failed,
    };
    for (at, binding) in statement.bindings.iter().enumerate() {
        let bound = match binding {
            Binding::Text(text) => prepared.raw_bind_parameter(at + 1, text.as_str()),
            Binding::Integer(number) => prepared.raw_bind_parameter(at + 1, *number),
        };
        if bound.is_err() {
            return Event::Failed;
        }
    }
    let mut rows = prepared.raw_query();
    match rows.next() {
        Ok(Some(row)) => match row.get::<usize, i64>(0) {
            Ok(first) => Event::Row(first),
            Err(_) => Event::Failed,
        },
        Ok(None) => Event::Done,
        Err(_) => Event::Failed,
    }
}

/// Registers the collection on `db`; `views` stands for the generator of the views.
fn register_with(
    db: &Connection,
    table: &str,
    order_by_column: &str,
    collection_columns: &[&str],
    views: &dyn Fn(&Connection, &OrderedCollection) -> bool,
) -> Result<i64, SetupError> {
    let columns = collection_columns.iter().map(|name| name.to_string()).collect();
    let mut setup = as_ordered(table, order_by_column, columns);
    while let Some(action) = setup.action() {
        let event = match (&action, action.statement()) {
            (_, Some(statement)) => run(db, &statement),
            (Action::CreateViews { collection }, None) => {
                if views(db, collection) {
                    Event::Done
                } else {
                    Event::Failed
                }
            }
            (_, None) => Event::Failed,
        };
        setup = setup.step(event);
    }
    setup.outcome().unwrap()
}

fn register(
    db: &Connection,
    table: &str,
    order_by_column: &str,
    collection_columns: &[&str],
) -> Result<i64, SetupError> {
    register_with(db, table, order_by_column, collection_columns, &|_, _| true)
}

fn count(db: &Connection, sql: &str) -> i64 {
    db.query_row(sql, [], |row| row.get(0)).unwrap()
}

fn pos(db: &Connection, id: i64) -> String {
    db.query_row("SELECT pos FROM todos WHERE id = ?1", [id], |row| row.get(0)).unwrap()
}

fn insert(db: &Connection, id: i64, pos: i64, list_id: i64) {
    db.execute("INSERT INTO todos (id, pos, list_id) VALUES (?1, ?2, ?3)", [id, pos, list_id])
        .unwrap();
}

fn left_nothing(db: &Connection) {
    assert_eq!(count(db, "SELECT count(*) FROM __crsql_master"), 0);
    assert_eq!(count(db, "SELECT count(*) FROM __crsql_master_prop"), 0);
    assert_eq!(count(db, "SELECT count(*) FROM sqlite_master WHERE type = 'trigger'"), 0);
    assert_eq!(count(db, "SELECT count(*) FROM sqlite_master WHERE type = 'view'"), 0);
    assert!(db.is_autocommit());
}

#[test]
fn the_stand_in_allocator_keeps_its_contract() {
    assert_eq!(key_between(None, None), BASELINE);
    let mut keys = vec![key_between(None, None)];
    for round in 0..200 {
        let at = (round * 7) % (keys.len() + 1);
        let lower = if at == 0 { None } else { Some(keys[at - 1].clone()) };
        let upper = keys.get(at).cloned();
        let key = key_between(lower.clone(), upper.clone());
        if let Some(lower) = lower {
            assert!(lower < key);
        }
        if let Some(upper) = upper {
            assert!(key < upper);
        }
        keys.insert(at, key);
    }
}

#[test]
fn todos_scenario() {
    let db = open();
    assert!(register(&db, "todos", "pos", &["list_id"]).is_ok());
    insert(&db, 1, 1, 5);
    let first = pos(&db, 1);
    assert_eq!(first, BASELINE);
    insert(&db, 2, 1, 5);
    let second = pos(&db, 2);
    assert!(second > first);
    assert_eq!(pos(&db, 1), first);
    insert(&db, 3, 1, 9);
    assert_eq!(pos(&db, 3), BASELINE);
    assert_eq!(pos(&db, 1), first);
    assert_eq!(pos(&db, 2), second);
}

#[test]
fn an_appended_row_gets_a_key_above_the_scope() {
    let db = open();
    register(&db, "todos", "pos", &["list_id"]).unwrap();
    let mut largest = String::new();
    for id in 1..40 {
        insert(&db, id, 1, 5);
        let key = pos(&db, id);
        assert!(key > largest);
        let top: String = db
            .query_row("SELECT MAX(pos) FROM todos WHERE list_id = 5", [], |row| row.get(0))
            .unwrap();
        assert_eq!(top, key);
        largest = key;
    }
}

#[test]
fn a_prepended_row_gets_a_key_below_the_scope() {
    let db = open();
    register(&db, "todos", "pos", &["list_id"]).unwrap();
    insert(&db, 1, 0, 5);
    let mut smallest = pos(&db, 1);
    assert_eq!(smallest, BASELINE);
    for id in 2..40 {
        insert(&db, id, 0, 5);
        let key = pos(&db, id);
        assert!(key < smallest);
        let bottom: String = db
            .query_row("SELECT MIN(pos) FROM todos WHERE list_id = 5", [], |row| row.get(0))
            .unwrap();
        assert_eq!(bottom, key);
        smallest = key;
    }
}

#[test]
fn prepends_and_appends_keep_the_order_of_arrival() {
    let db = open();
    register(&db, "todos", "pos", &["list_id"]).unwrap();
    insert(&db, 1, 1, 5);
    insert(&db, 2, 0, 5);
    insert(&db, 3, 1, 5);
    insert(&db, 4, 0, 5);
    insert(&db, 5, 1, 5);
    let mut ordered = db.prepare("SELECT id FROM todos WHERE list_id = 5 ORDER BY pos").unwrap();
    let ids: Vec<i64> = ordered.query_map([], |row| row.get(0)).unwrap().map(|id| id.unwrap()).collect();
    assert_eq!(ids, vec![4, 2, 1, 3, 5]);
}

#[test]
fn rows_of_another_collection_do_not_touch_the_keys() {
    let mixed = open();
    register(&mixed, "todos", "pos", &["list_id"]).unwrap();
    let alone = open();
    register(&alone, "todos", "pos", &["list_id"]).unwrap();
    let intents = [1, 1, 0, 1, 0, 0, 1];
    for (at, intent) in intents.iter().enumerate() {
        let id = at as i64 + 1;
        insert(&mixed, 100 + 3 * id, 1, 9);
        insert(&mixed, id, *intent, 5);
        insert(&mixed, 101 + 3 * id, 0, 9);
        insert(&mixed, 102 + 3 * id, 0, 7);
        insert(&alone, id, *intent, 5);
    }
    for at in 0..intents.len() {
        let id = at as i64 + 1;
        assert_eq!(pos(&mixed, id), pos(&alone, id));
    }
    let of_nine = count(&mixed, "SELECT count(DISTINCT pos) FROM todos WHERE list_id = 9");
    assert_eq!(of_nine, 14);
}

#[test]
fn each_collection_starts_from_the_baseline() {
    let db = open();
    register(&db, "todos", "pos", &["list_id"]).unwrap();
    insert(&db, 1, 1, 5);
    insert(&db, 2, 0, 9);
    insert(&db, 3, 1, 7);
    assert_eq!(pos(&db, 1), BASELINE);
    assert_eq!(pos(&db, 2), BASELINE);
    assert_eq!(pos(&db, 3), BASELINE);
}

#[test]
fn rows_without_a_collection_value_form_a_collection() {
    let db = open();
    register(&db, "todos", "pos", &["list_id"]).unwrap();
    db.execute_batch(
        "INSERT INTO todos (id, pos, list_id) VALUES (1, 1, NULL);
         INSERT INTO todos (id, pos, list_id) VALUES (2, 1, NULL);
         INSERT INTO todos (id, pos, list_id) VALUES (3, 0, NULL);",
    )
    .unwrap();
    assert_eq!(pos(&db, 1), BASELINE);
    assert!(pos(&db, 2) > pos(&db, 1));
    assert!(pos(&db, 3) < pos(&db, 1));
}

#[test]
fn without_collection_columns_the_whole_table_is_the_scope() {
    let db = open();
    register(&db, "todos", "pos", &[]).unwrap();
    insert(&db, 1, 1, 5);
    insert(&db, 2, 1, 9);
    insert(&db, 3, 0, 7);
    assert_eq!(pos(&db, 1), BASELINE);
    assert!(pos(&db, 2) > pos(&db, 1));
    assert!(pos(&db, 3) < pos(&db, 1));
}

#[test]
fn a_row_that_brings_its_key_keeps_it() {
    let db = open();
    register(&db, "todos", "pos", &["list_id"]).unwrap();
    db.execute("INSERT INTO todos (id, pos, list_id) VALUES (1, 'q', 5)", []).unwrap();
    assert_eq!(pos(&db, 1), "q");
    insert(&db, 2, 1, 5);
    assert!(pos(&db, 2).as_str() > "q");
    insert(&db, 3, 0, 5);
    assert!(pos(&db, 3).as_str() < "q");
    assert_eq!(pos(&db, 1), "q");
}

#[test]
fn several_rows_of_one_insert_are_placed_one_after_the_other() {
    let db = open();
    register(&db, "todos", "pos", &["list_id"]).unwrap();
    db.execute_batch("INSERT INTO todos (id, pos, list_id) VALUES (1, 1, 5), (2, 1, 5), (3, 1, 5);")
        .unwrap();
    assert_eq!(pos(&db, 1), BASELINE);
    assert!(pos(&db, 2) > pos(&db, 1));
    assert!(pos(&db, 3) > pos(&db, 2));
}

#[test]
fn a_registration_writes_one_master_and_a_property_for_each_column() {
    let db = open();
    db.execute_batch("CREATE TABLE cards (id INTEGER PRIMARY KEY, rank, owner, board, lane);").unwrap();
    let master_id = register(&db, "cards", "rank", &["owner", "board", "lane"]).unwrap();
    let mut masters = db.prepare("SELECT id, type, name, augments FROM __crsql_master").unwrap();
    let masters: Vec<(i64, String, String, String)> = masters
        .query_map([], |row| Ok((row.get(0)?, row.get(1)?, row.get(2)?, row.get(3)?)))
        .unwrap()
        .map(|row| row.unwrap())
        .collect();
    assert_eq!(
        masters,
        vec![(master_id, "fract_index".to_string(), "cards".to_string(), "cards".to_string())]
    );
    let mut properties = db
        .prepare("SELECT master_id, key, ord, value FROM __crsql_master_prop ORDER BY _rowid_")
        .unwrap();
    let properties: Vec<(i64, String, i64, String)> = properties
        .query_map([], |row| Ok((row.get(0)?, row.get(1)?, row.get(2)?, row.get(3)?)))
        .unwrap()
        .map(|row| row.unwrap())
        .collect();
    assert_eq!(
        properties,
        vec![
            (master_id, "order_by".to_string(), 0, "rank".to_string()),
            (master_id, "collection".to_string(), 0, "owner".to_string()),
            (master_id, "collection".to_string(), 1, "board".to_string()),
            (master_id, "collection".to_string(), 2, "lane".to_string()),
        ]
    );
    assert_eq!(
        count(&db, "SELECT count(*) FROM sqlite_master WHERE type = 'trigger' AND name = '__crsql_fractindex_pend_trig' AND tbl_name = 'cards'"),
        1
    );
    assert!(db.is_autocommit());
}

#[test]
fn a_missing_collection_column_leaves_nothing() {
    let db = open();
    assert_eq!(register(&db, "todos", "pos", &["board"]), Err(SetupError::ColumnsMissing));
    left_nothing(&db);
}

#[test]
fn a_missing_order_column_leaves_nothing() {
    let db = open();
    assert_eq!(register(&db, "todos", "rank", &["list_id"]), Err(SetupError::ColumnsMissing));
    left_nothing(&db);
}

#[test]
fn a_missing_table_leaves_nothing() {
    let db = open();
    assert_eq!(register(&db, "cards", "pos", &["list_id"]), Err(SetupError::ColumnsMissing));
    left_nothing(&db);
}

#[test]
fn a_column_named_twice_is_turned_down() {
    let db = open();
    assert_eq!(
        register(&db, "todos", "pos", &["list_id", "list_id"]),
        Err(SetupError::ColumnsMissing)
    );
    left_nothing(&db);
}

#[test]
fn the_order_column_as_a_collection_column_is_turned_down() {
    let db = open();
    assert_eq!(register(&db, "todos", "pos", &["pos"]), Err(SetupError::ColumnsMissing));
    left_nothing(&db);
}

#[test]
fn failing_views_leave_nothing() {
    let db = open();
    let outcome = register_with(&db, "todos", "pos", &["list_id"], &|db, _| {
        db.execute_batch("CREATE VIEW todos_fractindex AS SELECT * FROM todos;").unwrap();
        false
    });
    assert_eq!(outcome, Err(SetupError::ViewCreationFailed));
    left_nothing(&db);
}

#[test]
fn a_failing_trigger_leaves_nothing() {
    let db = open();
    db.execute_batch("CREATE TABLE plain (id INTEGER PRIMARY KEY, pos); CREATE VIEW seen AS SELECT * FROM plain;")
        .unwrap();
    assert_eq!(register(&db, "seen", "pos", &[]), Err(SetupError::TriggerCreationFailed));
    assert_eq!(count(&db, "SELECT count(*) FROM __crsql_master"), 0);
    assert_eq!(count(&db, "SELECT count(*) FROM __crsql_master_prop"), 0);
    assert_eq!(count(&db, "SELECT count(*) FROM sqlite_master WHERE type = 'trigger'"), 0);
    assert!(db.is_autocommit());
}

#[test]
fn a_failing_property_leaves_nothing() {
    let db = open();
    db.execute_batch("DROP TABLE __crsql_master_prop;").unwrap();
    assert_eq!(register(&db, "todos", "pos", &["list_id"]), Err(SetupError::MetadataWriteFailed));
    assert_eq!(count(&db, "SELECT count(*) FROM __crsql_master"), 0);
    assert_eq!(count(&db, "SELECT count(*) FROM sqlite_master WHERE type = 'trigger'"), 0);
    assert!(db.is_autocommit());
}

#[test]
fn a_failing_later_property_leaves_nothing() {
    let db = open();
    db.execute_batch(
        "CREATE TRIGGER refuse BEFORE INSERT ON __crsql_master_prop WHEN NEW.ord = 1 BEGIN SELECT RAISE(ABORT, 'refused'); END;",
    )
    .unwrap();
    db.execute_batch("CREATE TABLE cards (id INTEGER PRIMARY KEY, rank, owner, board, lane);").unwrap();
    assert_eq!(
        register(&db, "cards", "rank", &["owner", "board", "lane"]),
        Err(SetupError::MetadataWriteFailed)
    );
    assert_eq!(count(&db, "SELECT count(*) FROM __crsql_master"), 0);
    assert_eq!(count(&db, "SELECT count(*) FROM __crsql_master_prop"), 0);
    assert_eq!(count(&db, "SELECT count(*) FROM sqlite_master WHERE type = 'trigger'"), 1);
    assert!(db.is_autocommit());
}

#[test]
fn a_failing_master_record_leaves_nothing() {
    let db = open();
    db.execute_batch("DROP TABLE __crsql_master;").unwrap();
    assert_eq!(register(&db, "todos", "pos", &["list_id"]), Err(SetupError::MetadataWriteFailed));
    assert_eq!(count(&db, "SELECT count(*) FROM __crsql_master_prop"), 0);
    assert_eq!(count(&db, "SELECT count(*) FROM sqlite_master WHERE type = 'trigger'"), 0);
    assert!(db.is_autocommit());
}

#[test]
fn a_failed_registration_keeps_the_writes_around_it() {
    let db = open();
    db.execute_batch("BEGIN; INSERT INTO todos (id, pos, list_id) VALUES (1, 'q', 5);").unwrap();
    let outcome = register_with(&db, "todos", "pos", &["list_id"], &|_, _| false);
    assert_eq!(outcome, Err(SetupError::ViewCreationFailed));
    assert!(!db.is_autocommit());
    db.execute_batch("COMMIT;").unwrap();
    assert_eq!(pos(&db, 1), "q");
    assert_eq!(count(&db, "SELECT count(*) FROM __crsql_master"), 0);
    assert_eq!(count(&db, "SELECT count(*) FROM __crsql_master_prop"), 0);
    assert_eq!(count(&db, "SELECT count(*) FROM sqlite_master WHERE type = 'trigger'"), 0);
}

#[test]
fn a_registration_inside_a_transaction_is_undone_with_it() {
    let db = open();
    db.execute_batch("BEGIN;").unwrap();
    assert!(register(&db, "todos", "pos", &["list_id"]).is_ok());
    assert_eq!(count(&db, "SELECT count(*) FROM __crsql_master"), 1);
    db.execute_batch("ROLLBACK;").unwrap();
    left_nothing(&db);
}

#[test]
fn registering_twice_creates_the_trigger_once() {
    let db = open();
    assert!(register(&db, "todos", "pos", &["list_id"]).is_ok());
    assert!(register(&db, "todos", "pos", &["list_id"]).is_ok());
    assert_eq!(count(&db, "SELECT count(*) FROM sqlite_master WHERE type = 'trigger'"), 1);
    insert(&db, 1, 1, 5);
    insert(&db, 2, 1, 5);
    assert_eq!(pos(&db, 1), BASELINE);
    assert!(pos(&db, 2) > pos(&db, 1));
}

fn properties(db: &Connection) -> Vec<(i64, String, i64, String)> {
    let mut all = db
        .prepare("SELECT master_id, key, ord, value FROM __crsql_master_prop ORDER BY _rowid_")
        .unwrap();
    let rows = all
        .query_map([], |row| Ok((row.get(0)?, row.get(1)?, row.get(2)?, row.get(3)?)))
        .unwrap()
        .map(|row| row.unwrap())
        .collect();
    rows
}

#[test]
fn a_second_registration_replaces_the_first() {
    let db = open();
    db.execute_batch("CREATE TABLE cards (id INTEGER PRIMARY KEY, rank, board);").unwrap();
    let cards = register(&db, "cards", "rank", &["board"]).unwrap();
    register(&db, "todos", "pos", &["list_id"]).unwrap();
    let second = register(&db, "todos", "pos", &[]).unwrap();
    assert_eq!(count(&db, "SELECT count(*) FROM __crsql_master WHERE name = 'todos'"), 1);
    assert_eq!(count(&db, "SELECT count(*) FROM __crsql_master WHERE name = 'cards'"), 1);
    assert_eq!(count(&db, "SELECT id FROM __crsql_master WHERE name = 'todos'"), second);
    assert_eq!(
        properties(&db),
        vec![
            (cards, "order_by".to_string(), 0, "rank".to_string()),
            (cards, "collection".to_string(), 0, "board".to_string()),
            (second, "order_by".to_string(), 0, "pos".to_string()),
        ]
    );
}

#[test]
fn records_of_another_kind_are_not_replaced() {
    let db = open();
    db.execute_batch(
        "INSERT INTO __crsql_master (id, type, name, augments) VALUES (70, 'crr', 'todos', 'todos');
         INSERT INTO __crsql_master_prop (master_id, key, ord, value) VALUES (70, 'pk', 0, 'id');",
    )
    .unwrap();
    let master_id = register(&db, "todos", "pos", &[]).unwrap();
    assert_eq!(count(&db, "SELECT count(*) FROM __crsql_master WHERE type = 'crr'"), 1);
    assert_eq!(count(&db, "SELECT count(*) FROM __crsql_master WHERE type = 'fract_index'"), 1);
    assert_eq!(
        properties(&db),
        vec![
            (70, "pk".to_string(), 0, "id".to_string()),
            (master_id, "order_by".to_string(), 0, "pos".to_string()),
        ]
    );
}

#[test]
fn a_failed_second_registration_keeps_the_first() {
    let db = open();
    let first = register(&db, "todos", "pos", &["list_id"]).unwrap();
    let outcome = register_with(&db, "todos", "pos", &[], &|_, _| false);
    assert_eq!(outcome, Err(SetupError::ViewCreationFailed));
    assert_eq!(count(&db, "SELECT id FROM __crsql_master WHERE name = 'todos'"), first);
    assert_eq!(
        properties(&db),
        vec![
            (first, "order_by".to_string(), 0, "pos".to_string()),
            (first, "collection".to_string(), 0, "list_id".to_string()),
        ]
    );
    assert!(db.is_autocommit());
}

#[test]
fn a_refused_commit_leaves_nothing() {
    let db = open();
    db.execute_batch(
        "PRAGMA foreign_keys = ON;
         CREATE TABLE owners (id INTEGER PRIMARY KEY);
         CREATE TABLE owned (owner REFERENCES owners (id) DEFERRABLE INITIALLY DEFERRED);",
    )
    .unwrap();
    let outcome = register_with(&db, "todos", "pos", &["list_id"], &|db, _| {
        db.execute_batch("INSERT INTO owned (owner) VALUES (99);").is_ok()
    });
    assert_eq!(outcome, Err(SetupError::CommitFailed));
    assert_eq!(count(&db, "SELECT count(*) FROM owned"), 0);
    left_nothing(&db);
}

#[test]
fn names_that_need_quotes_are_registered() {
    let db = open();
    db.execute_batch("CREATE TABLE \"my \"\"todo\"\" list\" (id INTEGER PRIMARY KEY, \"the pos\", \"list; id\");")
        .unwrap();
    assert!(register(&db, "my \"todo\" list", "the pos", &["list; id"]).is_ok());
    db.execute_batch(
        "INSERT INTO \"my \"\"todo\"\" list\" VALUES (1, 1, 5);
         INSERT INTO \"my \"\"todo\"\" list\" VALUES (2, 1, 5);
         INSERT INTO \"my \"\"todo\"\" list\" VALUES (3, 0, 5);
         INSERT INTO \"my \"\"todo\"\" list\" VALUES (4, 0, 6);",
    )
    .unwrap();
    let mut ordered = db
        .prepare("SELECT id, \"the pos\" FROM \"my \"\"todo\"\" list\" WHERE \"list; id\" = 5 ORDER BY \"the pos\"")
        .unwrap();
    let rows: Vec<(i64, String)> = ordered
        .query_map([], |row| Ok((row.get(0)?, row.get(1)?)))
        .unwrap()
        .map(|row| row.unwrap())
        .collect();
    assert_eq!(rows.iter().map(|row| row.0).collect::<Vec<i64>>(), vec![3, 1, 2]);
    assert_eq!(rows[1].1, BASELINE);
}

#[test]
fn the_count_query_counts_each_column_once() {
    let db = open();
    let query = fractindex_core::column_count_query(
        "todos",
        &vec!["pos".to_string(), "pos".to_string(), "nope".to_string(), "id".to_string()],
    );
    assert_eq!(run(&db, &query), Event::Row(2));
}

#[test]
fn the_trigger_reads_the_sentinels_of_the_intents() {
    let db = open();
    register(&db, "todos", "pos", &["list_id"]).unwrap();
    insert(&db, 1, Intent::Append.sentinel(), 5);
    insert(&db, 2, Intent::Prepend.sentinel(), 5);
    insert(&db, 3, Intent::Append.sentinel(), 5);
    assert_eq!(pos(&db, 1), BASELINE);
    assert!(pos(&db, 2) < pos(&db, 1));
    assert!(pos(&db, 3) > pos(&db, 1));
}

#[test]
fn a_number_that_is_no_sentinel_is_left_alone() {
    let db = open();
    register(&db, "todos", "pos", &["list_id"]).unwrap();
    insert(&db, 1, 2, 5);
    insert(&db, 2, -1, 5);
    let kept: i64 = db.query_row("SELECT pos FROM todos WHERE id = 1", [], |row| row.get(0)).unwrap();
    assert_eq!(kept, 2);
    let kept: i64 = db.query_row("SELECT pos FROM todos WHERE id = 2", [], |row| row.get(0)).unwrap();
    assert_eq!(kept, -1);
    assert_eq!(Intent::of_sentinel(2), None);
    assert_eq!(Intent::of_sentinel(-1), None);
}

#[test]
fn an_unpartitioned_registration_writes_one_property() {
    let db = open();
    let master_id = register(&db, "todos", "pos", &[]).unwrap();
    assert_eq!(count(&db, "SELECT count(*) FROM __crsql_master"), 1);
    let mut properties = db
        .prepare("SELECT master_id, key, ord, value FROM __crsql_master_prop ORDER BY _rowid_")
        .unwrap();
    let properties: Vec<(i64, String, i64, String)> = properties
        .query_map([], |row| Ok((row.get(0)?, row.get(1)?, row.get(2)?, row.get(3)?)))
        .unwrap()
        .map(|row| row.unwrap())
        .collect();
    assert_eq!(properties, vec![(master_id, "order_by".to_string(), 0, "pos".to_string())]);
}

#[test]
fn the_trigger_of_the_first_table_keeps_the_name() {
    let db = open();
    db.execute_batch("CREATE TABLE cards (id INTEGER PRIMARY KEY, rank, board);").unwrap();
    assert!(register(&db, "todos", "pos", &["list_id"]).is_ok());
    assert!(register(&db, "cards", "rank", &["board"]).is_ok());
    assert_eq!(count(&db, "SELECT count(*) FROM __crsql_master"), 2);
    assert_eq!(count(&db, "SELECT count(*) FROM sqlite_master WHERE type = 'trigger'"), 1);
    assert_eq!(
        count(&db, "SELECT count(*) FROM sqlite_master WHERE type = 'trigger' AND tbl_name = 'todos'"),
        1
    );
    insert(&db, 1, 1, 5);
    assert_eq!(pos(&db, 1), BASELINE);
}

#[test]
fn more_names_than_the_engine_binds_fail_the_count() {
    let db = open();
    let columns: Vec<String> = (0..300_000).map(|at| format!("c{}", at)).collect();
    let mut setup = as_ordered("todos", "pos", columns);
    let mut actions = 0;
    while let Some(action) = setup.action() {
        let event = run(&db, &action.statement().unwrap());
        assert_eq!(event, Event::Failed);
        setup = setup.step(event);
        actions += 1;
    }
    assert_eq!(actions, 1);
    assert_eq!(setup.outcome(), Some(Err(SetupError::ColumnCheckFailed)));
    left_nothing(&db);
}
