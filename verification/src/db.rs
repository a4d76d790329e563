//! The connection manager: sole owner of the database handle, with generic
//! query/insert/raw-execute primitives and the persisted schema-version slot.
//!
//! Every engine call made through the manager is recorded in a ghost trace,
//! with the statement it ran, the values it bound, and — for a query — the
//! rows the engine returned, so that contracts can say exactly what was asked
//! of the engine and what it answered.

use vstd::prelude::*;

use crate::sql::{DecodeError, SqlValue};
use crate::version::SchemaVersion;

verus! {

/// rusqlite's connection handle. Opaque to this library; every use goes
/// through a trusted wrapper below.
#[verifier::external_type_specification]
#[verifier::external_body]
pub struct ExConnection(rusqlite::Connection);

/// rusqlite's error type. Opaque; carried unmodified inside `DbError`.
#[verifier::external_type_specification]
#[verifier::external_body]
pub struct ExRusqliteError(rusqlite::Error);

/// rusqlite's owned column value; converted to `SqlValue` at the boundary.
#[verifier::external_type_specification]
#[verifier::external_body]
pub struct ExValue(rusqlite::types::Value);

/// An engine-level failure: malformed SQL, a constraint violation, failure
/// to open the database file, or an unusable version slot.
#[derive(Debug)]
pub enum DbError {
    /// The engine reported an error; the payload is rusqlite's own error,
    /// surfaced unmodified.
    Engine(rusqlite::Error),
    /// The version slot did not come back as a single integer that fits the
    /// persisted version's range.
    BadVersionValue,
}

/// One engine call, as recorded in the ghost trace of a `Database`. Each
/// event carries what was handed to the engine (and, for a query, what the
/// engine handed back), so contracts can say which statement ran, what was
/// bound into it, and what came out.
///
/// A caveat on classification: an event records the call that was made, not
/// what the statement does. A non-read-only statement handed to `query`
/// would run and be recorded as a `Query` event, not as a schema change;
/// the library itself routes every schema change through `execute`.
pub ghost enum DbEvent {
    /// `query` ran this row-returning statement with no bound parameters,
    /// and the engine returned these rows.
    Query { stmt: Seq<char>, rows: Seq<Seq<SqlValue>> },
    /// `execute` ran this statement with no bound parameters (the library
    /// uses this exclusively for schema changes).
    Execute { stmt: Seq<char> },
    /// `insert` ran this statement with these values bound positionally.
    Insert { stmt: Seq<char>, params: Seq<SqlValue> },
    /// `set_pragma` wrote this value into the version slot.
    SetVersion { version: i32 },
}

/// Whether an event writes the version slot.
pub open spec fn is_version_write(e: DbEvent) -> bool {
    e is SetVersion
}

/// The value the version slot holds after `events`, if it held `init`
/// before them: the argument of the last version write, or `init` when none
/// occurred.
pub open spec fn version_after(events: Seq<DbEvent>, init: int) -> int
    decreases events.len(),
{
    if events.len() == 0 {
        init
    } else {
        match events.last() {
            DbEvent::SetVersion { version } => version as int,
            _ => version_after(events.drop_last(), init),
        }
    }
}

/// How many schema statements `events` ran.
pub open spec fn schema_changes(events: Seq<DbEvent>) -> nat
    decreases events.len(),
{
    if events.len() == 0 {
        0
    } else {
        schema_changes(events.drop_last()) + if events.last() is Execute {
            1nat
        } else {
            0nat
        }
    }
}

/// The events of running the given schema statements, in order.
pub open spec fn exec_events_of(stmts: Seq<Seq<char>>) -> Seq<DbEvent> {
    Seq::new(stmts.len(), |i: int| DbEvent::Execute { stmt: stmts[i] })
}

/// The statement by which the version slot is read.
pub open spec fn version_query_stmt() -> Seq<char> {
    "PRAGMA user_version"@
}

/// `post` is `pre` with exactly one version-slot read appended: a query of
/// the version statement whose returned rows denote `v` (`None` when the
/// answer was not a single integer in range).
pub open spec fn reads_version(pre: Seq<DbEvent>, post: Seq<DbEvent>, v: Option<i32>) -> bool {
    &&& post.len() == pre.len() + 1
    &&& post.drop_last() == pre
    &&& (post.last() matches DbEvent::Query { stmt, rows } && stmt == version_query_stmt()
        && spec_version_slot(rows) == v)
}

/// The connection manager. It exclusively owns the one handle to the
/// database file, and every operation here is one atomic unit with no
/// cross-call transaction. Serialized access is enforced per call by Rust's
/// exclusive borrows rather than by a lock inside the manager — a deliberate
/// departure from guarding the handle with an internal mutex, whose
/// poisoning semantics would force a panic path this library rules out;
/// callers that share a `Database` across threads wrap it in a lock of
/// their own.
pub struct Database {
    conn: rusqlite::Connection,
    hist: Ghost<Seq<DbEvent>>,
}

impl Database {
    /// The ghost record of the effectful engine calls made through this
    /// manager, oldest first.
    pub closed spec fn history(self) -> Seq<DbEvent> {
        self.hist@
    }

    /// Relies on `rusqlite::Connection::open`: opens (creating it when
    /// absent) the SQLite database at `path`. Whether it succeeds depends on
    /// the file system, so nothing is promised of the outcome.
    #[verifier::external_body]
    fn open_connection(path: &str) -> (r: Result<rusqlite::Connection, rusqlite::Error>) {
        rusqlite::Connection::open(path)
    }

    /// Relies on `rusqlite::Connection::execute`: runs one statement with no
    /// bound parameters. A statement that fails is not applied (SQLite runs
    /// each statement atomically), so a failing call leaves the trace as it
    /// was.
    #[verifier::external_body]
    fn raw_execute(&mut self, stmt: &str) -> (r: Result<(), rusqlite::Error>)
        ensures
            r is Ok ==> final(self).history() == old(self).history().push(
                DbEvent::Execute { stmt: stmt@ },
            ),
            r is Err ==> final(self).history() == old(self).history(),
    {
        match self.conn.execute(stmt, []) {
            Ok(_) => Ok(()),
            Err(e) => Err(e),
        }
    }

    /// Relies on `rusqlite::types::Value` being exactly SQLite's storage
    /// classes: moves the classes the codecs read onto `SqlValue` one arm
    /// each, and carries reals and blobs as `SqlValue::Other`.
    #[verifier::external_body]
    fn sql_value_of(v: rusqlite::types::Value) -> SqlValue {
        match v {
            rusqlite::types::Value::Null => SqlValue::Null,
            rusqlite::types::Value::Integer(i) => SqlValue::Integer(i),
            rusqlite::types::Value::Text(s) => SqlValue::Text(s),
            rusqlite::types::Value::Real(_) => SqlValue::Other,
            rusqlite::types::Value::Blob(_) => SqlValue::Other,
        }
    }

    /// Relies on `rusqlite::Connection::prepare`, `Statement::query`,
    /// `Rows::next` and `Row::get`: runs one row-returning statement with no
    /// bound parameters and hands every row back as owned column values in
    /// column order. Which rows come back depends on the database's
    /// contents, so nothing is promised of their values; the trace records
    /// the statement together with exactly the rows that were returned, and
    /// callers decode them in verified code.
    #[verifier::external_body]
    fn raw_query(&mut self, stmt: &str) -> (r: Result<Vec<Vec<SqlValue>>, rusqlite::Error>)
        ensures
            r matches Ok(rows) ==> final(self).history() == old(self).history().push(
                DbEvent::Query { stmt: stmt@, rows: rows_view(rows) },
            ),
            r is Err ==> final(self).history() == old(self).history(),
    {
        let mut s = self.conn.prepare(stmt)?;
        let n = s.column_count();
        let mut rows = s.query([])?;
        let mut out: Vec<Vec<SqlValue>> = Vec::new();
        while let Some(row) = rows.next()? {
            let mut vals: Vec<SqlValue> = Vec::new();
            for i in 0..n {
                vals.push(Self::sql_value_of(row.get(i)?));
            }
            out.push(vals);
        }
        Ok(out)
    }

    /// Relies on `rusqlite::Connection::execute` with
    /// `rusqlite::params_from_iter`: runs one statement with the given
    /// positional parameters, converted one for one into the engine's own
    /// values. A statement that fails is not applied.
    #[verifier::external_body]
    fn raw_execute_params(&mut self, stmt: &str, params: Vec<SqlValue>) -> (r: Result<
        (),
        rusqlite::Error,
    >)
        requires
            forall|i: int| 0 <= i < params@.len() ==> !((#[trigger] params@[i]) is Other),
        ensures
            r is Ok ==> final(self).history() == old(self).history().push(
                DbEvent::Insert { stmt: stmt@, params: params@ },
            ),
            r is Err ==> final(self).history() == old(self).history(),
    {
        let vals: Vec<rusqlite::types::Value> = params
            .into_iter()
            .map(|p| match p {
                SqlValue::Null => rusqlite::types::Value::Null,
                SqlValue::Integer(i) => rusqlite::types::Value::Integer(i),
                SqlValue::Text(s) => rusqlite::types::Value::Text(s),
                SqlValue::Other => rusqlite::types::Value::Null,
            })
            .collect();
        match self.conn.execute(stmt, rusqlite::params_from_iter(vals)) {
            Ok(_) => Ok(()),
            Err(e) => Err(e),
        }
    }

    /// Relies on `rusqlite::Connection::pragma_update`: writes the
    /// `user_version` slot. A failing PRAGMA statement is not applied, so it
    /// leaves the slot, and the trace, as they were.
    #[verifier::external_body]
    fn raw_set_version(&mut self, version: i32) -> (r: Result<(), rusqlite::Error>)
        ensures
            r is Ok ==> final(self).history() == old(self).history().push(
                DbEvent::SetVersion { version },
            ),
            r is Err ==> final(self).history() == old(self).history(),
    {
        self.conn.pragma_update(None, "user_version", version)
    }

    /// Runs a statement with no bound parameters and no returned rows; the
    /// library uses this exclusively for schema changes. Every engine
    /// failure is surfaced unmodified.
    pub fn execute(&mut self, stmt: &str) -> (r: Result<(), DbError>)
        ensures
            r is Ok ==> final(self).history() == old(self).history().push(
                DbEvent::Execute { stmt: stmt@ },
            ),
            r is Err ==> final(self).history() == old(self).history(),
    {
        match self.raw_execute(stmt) {
            Ok(()) => Ok(()),
            Err(e) => Err(DbError::Engine(e)),
        }
    }

    /// Reads the persisted schema version from the `user_version` slot. The
    /// value is whatever the file holds; the trace records the read together
    /// with the rows the engine returned, and the result is exactly the
    /// value those recorded rows denote (`version_of_rows` is the verified
    /// reading of that answer).
    pub fn get_pragma(&mut self) -> (r: Result<i32, DbError>)
        ensures
            r matches Ok(v) ==> reads_version(
                old(self).history(),
                final(self).history(),
                Some(v),
            ),
            r is Err ==> final(self).history() == old(self).history() || reads_version(
                old(self).history(),
                final(self).history(),
                None::<i32>,
            ),
    {
        let rows = match self.raw_query("PRAGMA user_version") {
            Ok(rows) => rows,
            Err(e) => {
                return Err(DbError::Engine(e));
            },
        };
        proof {
            assert(self.history().drop_last() =~= old(self).history());
        }
        version_of_rows(&rows)
    }

    /// Writes the persisted schema version into the `user_version` slot.
    pub fn set_pragma(&mut self, version: i32) -> (r: Result<(), DbError>)
        ensures
            r is Ok ==> final(self).history() == old(self).history().push(
                DbEvent::SetVersion { version },
            ),
            r is Err ==> final(self).history() == old(self).history(),
    {
        match self.raw_set_version(version) {
            Ok(()) => Ok(()),
            Err(e) => Err(DbError::Engine(e)),
        }
    }
}

/// Defines how to decode one stored row into a `T`. The codec does not know
/// the SQL text: callers pass statements whose column list matches the
/// entity's declared column order, and the codec reads positionally.
pub trait FromRow<T> {
    /// The exact decoding: which record a row denotes, or why the row is
    /// rejected.
    spec fn spec_from_row(row: Seq<SqlValue>) -> Result<T, DecodeError>;

    /// Decodes one row, read positionally against the entity's declared
    /// column list.
    fn from_row(row: &Vec<SqlValue>) -> (r: Result<T, DecodeError>)
        ensures
            r == Self::spec_from_row(row@),
    ;
}

/// Defines how to encode a `T` into the positional parameters of its insert
/// statement, in the entity's declared column order.
pub trait ToRow<T> {
    /// The exact encoding.
    spec fn spec_to_row(item: T) -> Seq<SqlValue>;

    /// Encodes `item` as the positional parameters for its insert
    /// statement. A codec only emits values the engine can bind, never
    /// `SqlValue::Other`.
    fn to_row(item: &T) -> (r: Vec<SqlValue>)
        ensures
            r@ == Self::spec_to_row(*item),
            forall|i: int| 0 <= i < r@.len() ==> !((#[trigger] r@[i]) is Other),
    ;
}

/// Implemented by every struct that backs a table. `update` matches on the
/// version and issues the schema statements that version needs; adding a
/// new version only adds a new arm.
pub trait Table<T> {
    /// The schema statements the entity issues to reach version `v`, in
    /// order; empty for versions that do not affect it.
    spec fn spec_statements(v: SchemaVersion) -> Seq<Seq<char>>;

    /// Applies the incremental schema changes that move this entity's table
    /// to version `s_version`; a no-op for versions that do not affect it.
    /// Statements must be individually idempotent ("create if absent"
    /// semantics), so that a partially applied version can be retried. The
    /// version slot itself is never written here: only the driver advances
    /// it.
    fn update(database: &mut Database, s_version: SchemaVersion) -> (r: Result<(), DbError>)
        ensures
            old(database).history().is_prefix_of(final(database).history()),
            forall|i: int|
                old(database).history().len() <= i < final(database).history().len() ==> !is_version_write(
                    #[trigger] final(database).history()[i],
                ),
            r is Ok ==> final(database).history() == old(database).history() + exec_events_of(
                Self::spec_statements(s_version),
            ),
    ;
}

/// The records decoded from `rows`, in row order, skipping each row that
/// fails to decode.
pub open spec fn spec_decoded<T: FromRow<T>>(rows: Seq<Seq<SqlValue>>) -> Seq<T>
    decreases rows.len(),
{
    if rows.len() == 0 {
        Seq::empty()
    } else {
        let rest = spec_decoded::<T>(rows.drop_last());
        match T::spec_from_row(rows.last()) {
            Ok(v) => rest.push(v),
            Err(_) => rest,
        }
    }
}

/// How many rows of `rows` fail to decode.
pub open spec fn spec_skipped<T: FromRow<T>>(rows: Seq<Seq<SqlValue>>) -> nat
    decreases rows.len(),
{
    if rows.len() == 0 {
        0
    } else {
        spec_skipped::<T>(rows.drop_last()) + if T::spec_from_row(rows.last()) is Err {
            1nat
        } else {
            0nat
        }
    }
}

/// Decodes every row of a result set via `T`'s row codec, in order,
/// skipping each row that fails to decode, and reports how many rows were
/// skipped.
pub fn decode_rows<T: FromRow<T>>(rows: &Vec<Vec<SqlValue>>) -> (r: (Vec<T>, usize))
    ensures
        r.0@ == spec_decoded::<T>(rows_view(*rows)),
        r.1 == spec_skipped::<T>(rows_view(*rows)),
{
    let ghost all = rows_view(*rows);
    let mut records: Vec<T> = Vec::new();
    let mut skipped: usize = 0;
    let mut i: usize = 0;
    while i < rows.len()
        invariant
            i <= rows@.len(),
            skipped <= i,
            all == rows_view(*rows),
            records@ == spec_decoded::<T>(all.take(i as int)),
            skipped == spec_skipped::<T>(all.take(i as int)),
        decreases rows@.len() - i,
    {
        proof {
            assert(all.take(i as int + 1).drop_last() =~= all.take(i as int));
            assert(all.take(i as int + 1).last() == all[i as int]);
            assert(all[i as int] == rows@[i as int]@);
        }
        match T::from_row(&rows[i]) {
            Ok(v) => records.push(v),
            Err(_) => skipped = skipped + 1,
        }
        i = i + 1;
    }
    proof {
        assert(all.take(rows@.len() as int) =~= all);
    }
    (records, skipped)
}

/// Every row is either decoded or skipped: the records and the skip count
/// together account for the whole result set.
pub proof fn lemma_decode_partition<T: FromRow<T>>(rows: Seq<Seq<SqlValue>>)
    ensures
        spec_decoded::<T>(rows).len() + spec_skipped::<T>(rows) == rows.len(),
    decreases rows.len(),
{
    if rows.len() > 0 {
        lemma_decode_partition::<T>(rows.drop_last());
    }
}

/// A result set whose rows all decode is decoded in full, in order.
pub proof fn lemma_decode_all_ok<T: FromRow<T>>(rows: Seq<Seq<SqlValue>>)
    requires
        forall|i: int| 0 <= i < rows.len() ==> (#[trigger] T::spec_from_row(rows[i])) is Ok,
    ensures
        spec_skipped::<T>(rows) == 0,
        spec_decoded::<T>(rows).len() == rows.len(),
        forall|i: int|
            0 <= i < rows.len() ==> #[trigger] spec_decoded::<T>(rows)[i] == T::spec_from_row(
                rows[i],
            )->Ok_0,
    decreases rows.len(),
{
    if rows.len() > 0 {
        assert(forall|i: int|
            0 <= i < rows.drop_last().len() ==> #[trigger] rows.drop_last()[i] == rows[i]);
        lemma_decode_all_ok::<T>(rows.drop_last());
        assert(T::spec_from_row(rows.last()) is Ok);
    }
}

/// Partial-decode tolerance: a result set holding exactly one undecodable
/// row among well-formed rows yields exactly the well-formed rows' records
/// and a skip count of one; the one bad row is not an error and not an
/// extra record.
pub proof fn lemma_partial_decode_tolerance<T: FromRow<T>>(rows: Seq<Seq<SqlValue>>, k: int)
    requires
        0 <= k < rows.len(),
        T::spec_from_row(rows[k]) is Err,
        forall|i: int|
            0 <= i < rows.len() && i != k ==> (#[trigger] T::spec_from_row(rows[i])) is Ok,
    ensures
        spec_skipped::<T>(rows) == 1,
        spec_decoded::<T>(rows).len() == rows.len() - 1,
    decreases rows.len(),
{
    assert(forall|i: int|
        0 <= i < rows.drop_last().len() ==> #[trigger] rows.drop_last()[i] == rows[i]);
    if k == rows.len() - 1 {
        lemma_decode_all_ok::<T>(rows.drop_last());
    } else {
        lemma_partial_decode_tolerance::<T>(rows.drop_last(), k);
        assert(T::spec_from_row(rows.last()) is Ok);
    }
    lemma_decode_partition::<T>(rows);
}

/// The result of a query, together with the diagnostic count of rows that
/// were skipped because they failed to decode.
pub struct QueryOutcome<T> {
    /// The records decoded from the result set, in row order.
    pub records: Vec<T>,
    /// How many returned rows failed to decode and were skipped.
    pub skipped: usize,
}

impl Database {
    /// Executes a read-only statement with no bound parameters and decodes
    /// every returned row via `T`'s row codec, silently skipping each row
    /// that fails to decode; an empty result set is an empty vector, not an
    /// error. Which rows come back depends on the database's contents; the
    /// trace records the statement together with exactly the rows the
    /// engine returned, and the records are exactly the decodable ones of
    /// those rows, in order (`decode_rows` carries the exact decoding
    /// contract).
    pub fn query<T: FromRow<T>>(&mut self, stmt: &str) -> (r: Result<Vec<T>, DbError>)
        ensures
            r matches Ok(records) ==> final(self).history().len() == old(self).history().len() + 1
                && final(self).history().drop_last() == old(self).history()
                && (final(self).history().last() matches DbEvent::Query { stmt: s, rows }
                    && s == stmt@ && records@ == spec_decoded::<T>(rows)),
            r is Err ==> final(self).history() == old(self).history(),
    {
        match self.query_with_skipped::<T>(stmt) {
            Ok(out) => Ok(out.records),
            Err(e) => Err(e),
        }
    }

    /// `query`, with the count of skipped rows exposed as a diagnostic, so
    /// a caller can tell a clean listing from one that masked bad rows.
    pub fn query_with_skipped<T: FromRow<T>>(&mut self, stmt: &str) -> (r: Result<
        QueryOutcome<T>,
        DbError,
    >)
        ensures
            r matches Ok(out) ==> final(self).history().len() == old(self).history().len() + 1
                && final(self).history().drop_last() == old(self).history()
                && (final(self).history().last() matches DbEvent::Query { stmt: s, rows }
                    && s == stmt@ && out.records@ == spec_decoded::<T>(rows) && out.skipped
                    == spec_skipped::<T>(rows)),
            r is Err ==> final(self).history() == old(self).history(),
    {
        let raw = match self.raw_query(stmt) {
            Ok(raw) => raw,
            Err(e) => {
                return Err(DbError::Engine(e));
            },
        };
        proof {
            assert(self.history().drop_last() =~= old(self).history());
        }
        let (records, skipped) = decode_rows::<T>(&raw);
        Ok(QueryOutcome { records, skipped })
    }

    /// Binds `T`'s encoded values positionally into `stmt` and executes it.
    /// Fails on any constraint violation or malformed statement, surfacing
    /// the engine's error unmodified; it does not retry.
    pub fn insert<T: ToRow<T>>(&mut self, item: &T, stmt: &str) -> (r: Result<(), DbError>)
        ensures
            r is Ok ==> final(self).history() == old(self).history().push(
                DbEvent::Insert { stmt: stmt@, params: <T as ToRow<T>>::spec_to_row(*item) },
            ),
            r is Err ==> final(self).history() == old(self).history(),
    {
        let params = T::to_row(item);
        match self.raw_execute_params(stmt, params) {
            Ok(()) => Ok(()),
            Err(e) => Err(DbError::Engine(e)),
        }
    }
}

/// The view of a result set as a sequence of rows of column values.
pub open spec fn rows_view(rows: Vec<Vec<SqlValue>>) -> Seq<Seq<SqlValue>> {
    rows@.map_values(|r: Vec<SqlValue>| r@)
}

/// What a well-shaped answer to the version read looks like: exactly one
/// row with exactly one integer column whose value fits an `i32`.
pub open spec fn spec_version_slot(rows: Seq<Seq<SqlValue>>) -> Option<i32> {
    if rows.len() == 1 && rows[0].len() == 1 {
        match rows[0][0] {
            SqlValue::Integer(n) => if -2147483648 <= n <= 2147483647 {
                Some(n as i32)
            } else {
                None
            },
            _ => None,
        }
    } else {
        None
    }
}

/// Reads the version slot's value out of the rows the engine returned for
/// the version query; any other shape of answer is an unusable slot.
pub fn version_of_rows(rows: &Vec<Vec<SqlValue>>) -> (r: Result<i32, DbError>)
    ensures
        match r {
            Ok(v) => spec_version_slot(rows_view(*rows)) == Some(v),
            Err(e) => spec_version_slot(rows_view(*rows)) is None && e is BadVersionValue,
        },
{
    if rows.len() == 1 {
        let row = &rows[0];
        if row.len() == 1 {
            match &row[0] {
                SqlValue::Integer(n) => {
                    if -2147483648i64 <= *n && *n <= 2147483647i64 {
                        return Ok(*n as i32);
                    }
                },
                _ => {},
            }
        }
    }
    Err(DbError::BadVersionValue)
}

/// Creates (or opens) the SQLite database at `db_file` and wraps its one
/// connection in a manager with an empty trace.
pub fn create_db(db_file: &str) -> (r: Result<Database, DbError>)
    ensures
        r matches Ok(db) ==> db.history() == Seq::<DbEvent>::empty(),
{
    match Database::open_connection(db_file) {
        Ok(conn) => Ok(Database { conn, hist: Ghost(Seq::empty()) }),
        Err(e) => Err(DbError::Engine(e)),
    }
}

} // verus!
