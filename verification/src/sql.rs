//! The library's model of a stored column value, and the errors a row codec
//! can report.

use vstd::prelude::*;

verus! {

/// One column value, as this library models SQLite's storage classes. The
/// codecs of this crate read integers, text and NULL; every other storage
/// class is carried as `Other` and fails to decode with a type error.
#[derive(Debug, Clone, PartialEq)]
pub enum SqlValue {
    /// SQL NULL.
    Null,
    /// A signed 64-bit integer (SQLite's only integer class).
    Integer(i64),
    /// A text string.
    Text(String),
    /// A value of a storage class no codec of this library reads (a real or
    /// a blob).
    Other,
}

/// Why one row could not be decoded into a record.
#[derive(Debug, Clone, Copy, PartialEq, Eq, Structural)]
pub enum DecodeError {
    /// A column the codec needs is absent from the row.
    MissingColumn,
    /// A column holds a value of a storage class the field does not admit.
    WrongType,
    /// An integer column holds a value outside the range of its field: an
    /// integer too wide for the field, or an enumerated code that maps to no
    /// variant.
    OutOfRange,
}

} // verus!
