//! The catalog entity: a book record, its enumerated document type, its row
//! codec, and its table's incremental schema upgrades.

use vstd::prelude::*;

use crate::db::{exec_events_of, Database, DbError, FromRow, Table, ToRow};
use crate::sql::{DecodeError, SqlValue};
use crate::version::SchemaVersion;

verus! {

/// The kind of document a book is stored as.
#[derive(Debug, Clone, Copy, PartialEq, Eq, Structural)]
pub enum BookType {
    EPub,
}

impl BookType {
    /// The integer code persisted in the `booktype` column for this variant.
    pub open spec fn spec_code(self) -> i64 {
        match self {
            BookType::EPub => 1,
        }
    }

    /// The (partial) inverse of `spec_code`: which variant, if any, a stored
    /// code denotes.
    pub open spec fn spec_from_code(code: i64) -> Option<BookType> {
        if code == 1 {
            Some(BookType::EPub)
        } else {
            None
        }
    }

    /// The integer code persisted for this variant.
    pub fn code(&self) -> (r: i64)
        ensures
            r == self.spec_code(),
    {
        match self {
            BookType::EPub => 1,
        }
    }

    /// Converts a stored integer code back to a `BookType`; a code outside
    /// the defined enumeration is rejected, never mapped to a fallback.
    pub fn from_code(code: i64) -> (r: Result<BookType, DecodeError>)
        ensures
            match r {
                Ok(bt) => BookType::spec_from_code(code) == Some(bt),
                Err(e) => BookType::spec_from_code(code) is None && e
                    == DecodeError::OutOfRange,
            },
    {
        if code == 1 {
            Ok(BookType::EPub)
        } else {
            Err(DecodeError::OutOfRange)
        }
    }
}

/// One catalog record. Its table contract is `book(id INTEGER, title TEXT,
/// booktype INTEGER)`: these three columns, in this order, for both reads
/// and writes.
#[derive(Debug, Clone, PartialEq)]
pub struct Book {
    pub id: i32,
    pub title: String,
    pub book_type: BookType,
}

impl FromRow<Book> for Book {
    /// Reads the declared column list positionally: `id` (an integer that
    /// must fit 32 bits), `title` (text), `booktype` (a defined enumeration
    /// code). A short row is a missing column; a column of another storage
    /// class is a type error; a too-wide `id` or an unmapped code is out of
    /// range.
    open spec fn spec_from_row(row: Seq<SqlValue>) -> Result<Book, DecodeError> {
        if row.len() < 3 {
            Err(DecodeError::MissingColumn)
        } else {
            match (row[0], row[1], row[2]) {
                (SqlValue::Integer(id), SqlValue::Text(title), SqlValue::Integer(code)) => {
                    if id < -2147483648 || id > 2147483647 {
                        Err(DecodeError::OutOfRange)
                    } else {
                        match BookType::spec_from_code(code) {
                            Some(bt) => Ok(Book { id: id as i32, title, book_type: bt }),
                            None => Err(DecodeError::OutOfRange),
                        }
                    }
                },
                _ => Err(DecodeError::WrongType),
            }
        }
    }

    fn from_row(row: &Vec<SqlValue>) -> (r: Result<Book, DecodeError>) {
        if row.len() < 3 {
            return Err(DecodeError::MissingColumn);
        }
        match (&row[0], &row[1], &row[2]) {
            (SqlValue::Integer(id), SqlValue::Text(title), SqlValue::Integer(code)) => {
                if *id < -2147483648i64 || *id > 2147483647i64 {
                    return Err(DecodeError::OutOfRange);
                }
                match BookType::from_code(*code) {
                    Ok(bt) => Ok(Book { id: *id as i32, title: title.clone(), book_type: bt }),
                    Err(e) => Err(e),
                }
            },
            _ => Err(DecodeError::WrongType),
        }
    }
}

impl ToRow<Book> for Book {
    /// The insert projection: all three declared columns, in the declared
    /// order `(id, title, booktype)`. The projection deliberately covers the
    /// full column contract: one that omitted `booktype` would leave the
    /// column NULL and write rows this entity's own decoder rejects, so
    /// reads and writes are kept symmetric.
    open spec fn spec_to_row(item: Book) -> Seq<SqlValue> {
        seq![
            SqlValue::Integer(item.id as i64),
            SqlValue::Text(item.title),
            SqlValue::Integer(item.book_type.spec_code()),
        ]
    }

    fn to_row(item: &Book) -> (r: Vec<SqlValue>) {
        let mut row: Vec<SqlValue> = Vec::new();
        row.push(SqlValue::Integer(item.id as i64));
        row.push(SqlValue::Text(item.title.clone()));
        row.push(SqlValue::Integer(item.book_type.code()));
        proof {
            assert(row@ =~= Self::spec_to_row(*item));
        }
        row
    }
}

impl Table<Book> for Book {
    /// One schema statement per version the entity cares about: version one
    /// creates the table.
    open spec fn spec_statements(v: SchemaVersion) -> Seq<Seq<char>> {
        match v {
            SchemaVersion::One => seq![
                "CREATE TABLE IF NOT EXISTS book (id INTEGER, title TEXT, booktype INTEGER)"@,
            ],
        }
    }

    /// Creates the `book` table with "if not exists" semantics, so that
    /// reissuing the statement after a partial run is harmless.
    fn update(database: &mut Database, s_version: SchemaVersion) -> (r: Result<(), DbError>) {
        match s_version {
            SchemaVersion::One => {
                match database.execute(
                    "CREATE TABLE IF NOT EXISTS book (id INTEGER, title TEXT, booktype INTEGER)",
                ) {
                    Ok(()) => {
                        proof {
                            assert(database.history() =~= old(database).history() + exec_events_of(
                                Self::spec_statements(s_version),
                            ));
                        }
                        Ok(())
                    },
                    Err(e) => Err(e),
                }
            },
        }
    }
}

/// Codec round trip: decoding the exact row a book encodes to yields the
/// book itself, for every book constructible from the public fields.
pub proof fn lemma_codec_round_trip(b: Book)
    ensures
        <Book as FromRow<Book>>::spec_from_row(<Book as ToRow<Book>>::spec_to_row(b))
            == Ok::<Book, DecodeError>(b),
{
    let row = <Book as ToRow<Book>>::spec_to_row(b);
    assert(row.len() == 3);
    assert(row[0] == SqlValue::Integer(b.id as i64));
    assert(row[1] == SqlValue::Text(b.title));
    assert(row[2] == SqlValue::Integer(b.book_type.spec_code()));
}

} // verus!
