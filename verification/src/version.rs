//! The persisted schema version and its mapping to the integer stored in the
//! database's metadata slot.

use vstd::prelude::*;

verus! {

/// The schema versions this code knows how to reach. The enum is only
/// additive: a new release appends a variant and every table's upgrade logic
/// gains one arm for it.
#[derive(Clone, Copy, PartialEq, Eq, Structural, Debug)]
pub enum SchemaVersion {
    One,
}

/// Error for an integer read from the version slot that corresponds to no
/// known `SchemaVersion`. Conversion is deliberately fallible: an undefined
/// integer must fail to convert, never fall back silently.
#[derive(Clone, Copy, PartialEq, Eq, Structural, Debug)]
pub struct UnknownVersionError {
    pub value: i32,
}

impl SchemaVersion {
    /// The integer persisted in the database for this version.
    pub open spec fn as_i32(self) -> i32 {
        match self {
            SchemaVersion::One => 1,
        }
    }

    /// The (partial) inverse of `as_i32`: which version, if any, the
    /// persisted integer denotes.
    pub open spec fn spec_from_i32(val: i32) -> Option<SchemaVersion> {
        if val == 1 {
            Some(SchemaVersion::One)
        } else {
            None
        }
    }

    /// Converts from the persisted integer to a `SchemaVersion`; an integer
    /// this code does not know is rejected with an explicit error.
    pub fn from_i32(val: i32) -> (r: Result<SchemaVersion, UnknownVersionError>)
        ensures
            match r {
                Ok(v) => SchemaVersion::spec_from_i32(val) == Some(v),
                Err(e) => SchemaVersion::spec_from_i32(val) is None && e.value == val,
            },
    {
        match val {
            1 => Ok(SchemaVersion::One),
            _ => Err(UnknownVersionError { value: val }),
        }
    }

    /// Converts from a `SchemaVersion` to the integer persisted for it.
    pub fn to_i32(version: SchemaVersion) -> (r: i32)
        ensures
            r == version.as_i32(),
    {
        match version {
            SchemaVersion::One => 1,
        }
    }
}

/// The mapping between versions and persisted integers is total and
/// bidirectional: every version converts to an integer that converts back to
/// it, and an integer that converts at all converts to exactly the version
/// it came from.
pub proof fn lemma_version_int_bijection()
    ensures
        forall|v: SchemaVersion| #[trigger] SchemaVersion::spec_from_i32(v.as_i32()) == Some(v),
        forall|i: i32|
            (#[trigger] SchemaVersion::spec_from_i32(i)) is Some
                ==> SchemaVersion::spec_from_i32(i)->Some_0.as_i32() == i,
{
}

} // verus!
