//! Tests of the row codec, the version mapping, and the pure decoding of
//! result sets, on concrete values.

use bookshelf::book::{Book, BookType};
use bookshelf::db::{decode_rows, version_of_rows, FromRow, ToRow};
use bookshelf::sql::{DecodeError, SqlValue};
use bookshelf::version::SchemaVersion;

fn book(id: i32, title: &str) -> Book {
    Book { id, title: to_owned(title), book_type: BookType::EPub }
}

fn to_owned(s: &str) -> String {
    s.to_string()
}

fn good_row(id: i64, title: &str) -> Vec<SqlValue> {
    vec![
        SqlValue::Integer(id),
        SqlValue::Text(to_owned(title)),
        SqlValue::Integer(1),
    ]
}

#[test]
fn codec_round_trip() {
    let original = book(7, "The Left Hand of Darkness");
    let row = <Book as ToRow<Book>>::to_row(&original);
    assert_eq!(row.len(), 3);
    let decoded = <Book as FromRow<Book>>::from_row(&row).unwrap();
    assert_eq!(decoded, original);
}

#[test]
fn decode_rejects_short_row() {
    let row = vec![SqlValue::Integer(1), SqlValue::Text(to_owned("Dune"))];
    assert_eq!(<Book as FromRow<Book>>::from_row(&row), Err(DecodeError::MissingColumn));
}

#[test]
fn decode_rejects_wrong_storage_class() {
    let row = vec![
        SqlValue::Text(to_owned("not an id")),
        SqlValue::Text(to_owned("Dune")),
        SqlValue::Integer(1),
    ];
    assert_eq!(<Book as FromRow<Book>>::from_row(&row), Err(DecodeError::WrongType));
    let null_type = vec![
        SqlValue::Integer(1),
        SqlValue::Text(to_owned("Dune")),
        SqlValue::Null,
    ];
    assert_eq!(<Book as FromRow<Book>>::from_row(&null_type), Err(DecodeError::WrongType));
}

#[test]
fn decode_rejects_too_wide_id() {
    let row = vec![
        SqlValue::Integer(i64::from(i32::MAX) + 1),
        SqlValue::Text(to_owned("Dune")),
        SqlValue::Integer(1),
    ];
    assert_eq!(<Book as FromRow<Book>>::from_row(&row), Err(DecodeError::OutOfRange));
}

#[test]
fn decode_rejects_unmapped_type_code() {
    let row = vec![
        SqlValue::Integer(1),
        SqlValue::Text(to_owned("Dune")),
        SqlValue::Integer(99),
    ];
    assert_eq!(<Book as FromRow<Book>>::from_row(&row), Err(DecodeError::OutOfRange));
}

#[test]
fn decode_rows_skips_exactly_the_bad_row() {
    let rows = vec![
        good_row(1, "Dune"),
        vec![
            SqlValue::Integer(3),
            SqlValue::Text(to_owned("Unmapped")),
            SqlValue::Integer(99),
        ],
        good_row(2, "Solaris"),
    ];
    let (records, skipped) = decode_rows::<Book>(&rows);
    assert_eq!(records, vec![book(1, "Dune"), book(2, "Solaris")]);
    assert_eq!(skipped, 1);
}

#[test]
fn decode_rows_on_empty_result_set() {
    let rows: Vec<Vec<SqlValue>> = Vec::new();
    let (records, skipped) = decode_rows::<Book>(&rows);
    assert!(records.is_empty());
    assert_eq!(skipped, 0);
}

#[test]
fn version_slot_reads_a_single_integer() {
    let rows = vec![vec![SqlValue::Integer(3)]];
    assert_eq!(version_of_rows(&rows).unwrap(), 3);
}

#[test]
fn version_slot_rejects_malformed_answers() {
    let empty: Vec<Vec<SqlValue>> = Vec::new();
    assert!(version_of_rows(&empty).is_err());
    let text = vec![vec![SqlValue::Text(to_owned("seven"))]];
    assert!(version_of_rows(&text).is_err());
    let wide = vec![vec![SqlValue::Integer(i64::from(i32::MAX) + 1)]];
    assert!(version_of_rows(&wide).is_err());
    let two_rows = vec![vec![SqlValue::Integer(1)], vec![SqlValue::Integer(2)]];
    assert!(version_of_rows(&two_rows).is_err());
}

#[test]
fn schema_version_maps_both_ways() {
    let one = SchemaVersion::from_i32(1).unwrap();
    assert_eq!(one, SchemaVersion::One);
    assert_eq!(SchemaVersion::to_i32(one), 1);
}

#[test]
fn schema_version_rejects_undefined_integers() {
    for bad in [0, 2, -1, i32::MAX] {
        let err = SchemaVersion::from_i32(bad).unwrap_err();
        assert_eq!(err.value, bad);
    }
}

#[test]
fn book_type_codes() {
    assert_eq!(BookType::EPub.code(), 1);
    assert_eq!(BookType::from_code(1).unwrap(), BookType::EPub);
    assert_eq!(BookType::from_code(99), Err(DecodeError::OutOfRange));
    assert_eq!(BookType::from_code(0), Err(DecodeError::OutOfRange));
}

#[test]
fn encode_covers_the_full_column_contract() {
    let b = book(5, "Annihilation");
    let row = <Book as ToRow<Book>>::to_row(&b);
    assert_eq!(row[0], SqlValue::Integer(5));
    assert_eq!(row[1], SqlValue::Text(to_owned("Annihilation")));
    assert_eq!(row[2], SqlValue::Integer(1));
}
