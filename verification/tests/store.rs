//! End-to-end tests of the connection manager and the migration driver
//! against a real in-memory SQLite database.

use bookshelf::book::{Book, BookType};
use bookshelf::db::{create_db, Database};
use bookshelf::migration::{perform_data_migration, MigrationError, StepFailure, SCHEMA_VERSION};

fn fresh_db() -> Database {
    create_db(":memory:").expect("open in-memory database")
}

const INSERT_BOOK: &str = "INSERT INTO book (id, title, booktype) VALUES (?1, ?2, ?3)";
const SELECT_BOOKS: &str = "SELECT id, title, booktype FROM book";

#[test]
fn fresh_database_migrates_to_target() {
    // Scenario: fresh database, target version one, one registered entity
    // with a "create table if not exists" step.
    let mut db = fresh_db();
    assert_eq!(db.get_pragma().unwrap(), 0);
    let report = perform_data_migration(&mut db).unwrap();
    assert_eq!(report.from_version, 0);
    assert_eq!(report.to_version, SCHEMA_VERSION);
    assert_eq!(db.get_pragma().unwrap(), 1);
    // The table exists: an insert against it succeeds.
    let book = Book { id: 10, title: "Hyperion".to_string(), book_type: BookType::EPub };
    db.insert::<Book>(&book, INSERT_BOOK).unwrap();
}

#[test]
fn insert_then_query_returns_the_record() {
    // Scenario: insert {id: 1, title: "Dune", type: EPub}, then query all
    // records; the result holds exactly that record.
    let mut db = fresh_db();
    perform_data_migration(&mut db).unwrap();
    let book = Book { id: 1, title: "Dune".to_string(), book_type: BookType::EPub };
    db.insert::<Book>(&book, INSERT_BOOK).unwrap();
    let records: Vec<Book> = db.query::<Book>(SELECT_BOOKS).unwrap();
    assert_eq!(records.len(), 1);
    assert_eq!(records[0], book);
}

#[test]
fn query_skips_rows_with_unmapped_type_code() {
    // Scenario: a row with an unmapped type code sits alongside two valid
    // rows; the query returns exactly the two valid records.
    let mut db = fresh_db();
    perform_data_migration(&mut db).unwrap();
    let first = Book { id: 1, title: "Dune".to_string(), book_type: BookType::EPub };
    let second = Book { id: 2, title: "Solaris".to_string(), book_type: BookType::EPub };
    db.insert::<Book>(&first, INSERT_BOOK).unwrap();
    db.insert::<Book>(&second, INSERT_BOOK).unwrap();
    db.execute("INSERT INTO book (id, title, booktype) VALUES (3, 'Unmapped', 99)").unwrap();
    let records: Vec<Book> = db.query::<Book>(SELECT_BOOKS).unwrap();
    assert_eq!(records.len(), 2);
    assert_eq!(records[0], first);
    assert_eq!(records[1], second);
    // The diagnostic channel reports the one skipped row.
    let outcome = db.query_with_skipped::<Book>(SELECT_BOOKS).unwrap();
    assert_eq!(outcome.records.len(), 2);
    assert_eq!(outcome.skipped, 1);
}

#[test]
fn rerunning_migration_is_idempotent() {
    let mut db = fresh_db();
    perform_data_migration(&mut db).unwrap();
    assert_eq!(db.get_pragma().unwrap(), SCHEMA_VERSION);
    let report = perform_data_migration(&mut db).unwrap();
    assert_eq!(report.from_version, SCHEMA_VERSION);
    assert_eq!(report.to_version, SCHEMA_VERSION);
    assert_eq!(db.get_pragma().unwrap(), SCHEMA_VERSION);
}

#[test]
fn persisted_version_is_monotonic_across_runs() {
    let mut db = fresh_db();
    let mut last = db.get_pragma().unwrap();
    for _ in 0..3 {
        perform_data_migration(&mut db).unwrap();
        let now = db.get_pragma().unwrap();
        assert!(now >= last);
        last = now;
    }
    assert_eq!(last, SCHEMA_VERSION);
}

#[test]
fn failed_step_leaves_version_untouched() {
    // A stored version that implies an unknown next step fails the run and
    // leaves the slot exactly where it was, so a later run retries the same
    // step.
    let mut db = fresh_db();
    db.set_pragma(-5).unwrap();
    let err = perform_data_migration(&mut db).unwrap_err();
    match err {
        MigrationError::Step { from_version, version, failure } => {
            assert_eq!(from_version, -5);
            assert_eq!(version, -4);
            match failure {
                StepFailure::UnknownVersion(u) => assert_eq!(u.value, -4),
                other => panic!("unexpected failure kind: {:?}", other),
            }
        }
        other => panic!("unexpected error: {:?}", other),
    }
    assert_eq!(db.get_pragma().unwrap(), -5);
    // The same failed step is retried from scratch.
    let again = perform_data_migration(&mut db).unwrap_err();
    match again {
        MigrationError::Step { version, .. } => assert_eq!(version, -4),
        other => panic!("unexpected error: {:?}", other),
    }
}

#[test]
fn execute_surfaces_malformed_sql() {
    let mut db = fresh_db();
    assert!(db.execute("CREATE NONSENSE").is_err());
}

#[test]
fn query_on_missing_table_is_an_error_not_empty() {
    let mut db = fresh_db();
    assert!(db.query::<Book>(SELECT_BOOKS).is_err());
}

#[test]
fn query_on_empty_table_returns_empty_vector() {
    let mut db = fresh_db();
    perform_data_migration(&mut db).unwrap();
    let records: Vec<Book> = db.query::<Book>(SELECT_BOOKS).unwrap();
    assert!(records.is_empty());
}
