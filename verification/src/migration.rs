//! The migration driver: walks every registered entity forward from the
//! stored schema version to the code's target version, one version at a
//! time, persisting the version only after that version's upgrade steps
//! succeed.

use vstd::prelude::*;

use crate::book::Book;
use crate::db::{
    exec_events_of, is_version_write, reads_version, schema_changes, spec_version_slot,
    version_after, version_query_stmt, Database, DbError, DbEvent, Table,
};
use crate::version::{SchemaVersion, UnknownVersionError};

verus! {

/// The persisted integer of the schema version this code targets: the
/// newest `SchemaVersion` variant. It changes between releases, and every
/// `Table` implementation gains an arm when it does.
pub const SCHEMA_VERSION: i32 = 1;

/// Which version, if any, an integer step denotes.
pub open spec fn spec_version_of_step(v: int) -> Option<SchemaVersion> {
    if -2147483648 <= v <= 2147483647 {
        SchemaVersion::spec_from_i32(v as i32)
    } else {
        None
    }
}

/// The engine events one successful version step appends: every registered
/// entity's schema statements for that version, then the version write.
pub open spec fn spec_step_trace(v: int) -> Seq<DbEvent> {
    exec_events_of(<Book as Table<Book>>::spec_statements(spec_version_of_step(v)->Some_0))
        + seq![DbEvent::SetVersion { version: v as i32 }]
}

/// The engine events a successful run appends after its version read, when
/// it finds `from` stored and walks to `target`: the step traces of
/// `from + 1 ..= target` in order, and nothing at all when the store is
/// already at or past the target.
pub open spec fn spec_run_trace(from: int, target: int) -> Seq<DbEvent>
    decreases target - from,
{
    if from >= target {
        Seq::empty()
    } else {
        spec_run_trace(from, target - 1) + spec_step_trace(target)
    }
}

/// Splitting a trace splits the slot-value computation: the value after
/// `a + b` is the value after `b`, started from the value after `a`.
pub proof fn lemma_version_after_concat(a: Seq<DbEvent>, b: Seq<DbEvent>, init: int)
    ensures
        version_after(a + b, init) == version_after(b, version_after(a, init)),
    decreases b.len(),
{
    if b.len() == 0 {
        assert(a + b =~= a);
    } else {
        assert((a + b).drop_last() =~= a + b.drop_last());
        assert((a + b).last() == b.last());
        lemma_version_after_concat(a, b.drop_last(), init);
    }
}

/// Events that write no version leave the slot's value alone.
pub proof fn lemma_version_after_no_writes(prefix: Seq<DbEvent>, tail: Seq<DbEvent>, init: int)
    requires
        forall|i: int| 0 <= i < tail.len() ==> !is_version_write(#[trigger] tail[i]),
    ensures
        version_after(prefix + tail, init) == version_after(prefix, init),
    decreases tail.len(),
{
    if tail.len() == 0 {
        assert(prefix + tail =~= prefix);
    } else {
        assert((prefix + tail).drop_last() =~= prefix + tail.drop_last());
        assert((prefix + tail).last() == tail.last());
        assert(forall|i: int|
            0 <= i < tail.drop_last().len() ==> #[trigger] tail.drop_last()[i] == tail[i]);
        lemma_version_after_no_writes(prefix, tail.drop_last(), init);
    }
}

/// After the events of a successful run from `from` to `target`, the slot
/// holds `target` when any step ran, and keeps its initial value when none
/// did.
pub proof fn lemma_run_trace_version(from: int, target: int, init: int)
    requires
        -2147483648 <= target <= 2147483647,
    ensures
        from < target ==> version_after(spec_run_trace(from, target), init) == target,
        from >= target ==> version_after(spec_run_trace(from, target), init) == init,
    decreases target - from,
{
    if from >= target {
        assert(spec_run_trace(from, target) =~= Seq::<DbEvent>::empty());
    } else {
        let st = spec_step_trace(target);
        let whole = spec_run_trace(from, target);
        assert(st.last() == DbEvent::SetVersion { version: target as i32 });
        assert(whole == spec_run_trace(from, target - 1) + st);
        assert(whole.last() == st.last());
        assert(version_after(whole, init) == target);
    }
}

/// After a version read, the fully applied steps up to `v - 1`, and any
/// trailing events that write no version, the appended part of the trace
/// still begins with the read and its slot value is `v - 1`.
proof fn lemma_step_failure_view(
    old_hist: Seq<DbEvent>,
    read_evt: DbEvent,
    tail: Seq<DbEvent>,
    cur: Seq<DbEvent>,
    from: int,
    v: int,
)
    requires
        from <= v - 1,
        -2147483648 <= v - 1 <= 2147483647,
        !is_version_write(read_evt),
        cur == old_hist.push(read_evt) + spec_run_trace(from, v - 1) + tail,
        forall|i: int| 0 <= i < tail.len() ==> !is_version_write(#[trigger] tail[i]),
    ensures
        cur.skip(old_hist.len() as int).len() >= 1,
        cur.skip(old_hist.len() as int)[0] == read_evt,
        version_after(cur.skip(old_hist.len() as int), from) == v - 1,
{
    let run = spec_run_trace(from, v - 1);
    lemma_run_trace_version(from, v - 1, from);
    lemma_version_after_no_writes(run, tail, from);
    assert(cur.skip(old_hist.len() as int) =~= seq![read_evt] + (run + tail));
    lemma_version_after_concat(seq![read_evt], run + tail, from);
    assert(seq![read_evt].drop_last() =~= Seq::<DbEvent>::empty());
    assert(version_after(Seq::<DbEvent>::empty(), from) == from);
    assert(version_after(seq![read_evt], from) == from);
}

/// What a successful migration run did.
#[derive(Debug, Clone, Copy, PartialEq, Eq, Structural)]
pub struct MigrationReport {
    /// The version found in the store when the run began.
    pub from_version: i32,
    /// The version the store holds now: the target, or the stored version
    /// itself where it was already at or past the target.
    pub to_version: i32,
}

/// Why one step of a run could not complete.
#[derive(Debug)]
pub enum StepFailure {
    /// The stored version implies a next step this code does not know.
    UnknownVersion(UnknownVersionError),
    /// An entity's upgrade for this version failed.
    Upgrade(DbError),
    /// The upgrades for this version succeeded, but the version slot could
    /// not be advanced.
    VersionWrite(DbError),
}

/// A failed migration run. The store was never advanced past the last fully
/// applied version, so a later run resumes at the failed step; the caller
/// must treat this as fatal and not serve requests against a schema of
/// unknown shape.
#[derive(Debug)]
pub enum MigrationError {
    /// The stored version could not be read; nothing was run.
    VersionRead(DbError),
    /// Stepping from the stored `from_version` toward `version` failed.
    Step { from_version: i32, version: i32, failure: StepFailure },
}

/// Reads the stored version and walks every registered entity forward to
/// the target, one version at a time. For each pending version, every
/// entity's upgrade runs first; only when all succeed is the version slot
/// advanced, so a failure leaves the slot at the last fully applied version
/// and the next run retries the failed step from scratch.
///
/// The contract reads over the appended part of the trace: it begins with
/// the version read whose recorded rows denote the reported starting
/// version, continues with exactly the run's step events on success, and
/// its last recorded version write is the reported final version.
pub fn perform_data_migration(db: &mut Database) -> (r: Result<MigrationReport, MigrationError>)
    ensures
        old(db).history().is_prefix_of(final(db).history()),
        r matches Ok(rep) ==> {
            &&& rep.from_version < SCHEMA_VERSION ==> rep.to_version == SCHEMA_VERSION
            &&& rep.from_version >= SCHEMA_VERSION ==> rep.to_version == rep.from_version
            &&& rep.to_version >= rep.from_version
            &&& final(db).history().skip(old(db).history().len() as int).len() >= 1
            &&& (final(db).history().skip(old(db).history().len() as int)[0] matches
                DbEvent::Query { stmt, rows } && stmt == version_query_stmt()
                && spec_version_slot(rows) == Some(rep.from_version))
            &&& final(db).history().skip(old(db).history().len() as int).skip(1)
                == spec_run_trace(rep.from_version as int, SCHEMA_VERSION as int)
            &&& version_after(
                final(db).history().skip(old(db).history().len() as int),
                rep.from_version as int,
            ) == rep.to_version as int
            &&& rep.from_version >= SCHEMA_VERSION ==> final(db).history().len() == old(
                db,
            ).history().len() + 1
        },
        r matches Err(e) ==> match e {
            MigrationError::VersionRead(_) => final(db).history() == old(db).history()
                || reads_version(old(db).history(), final(db).history(), None::<i32>),
            MigrationError::Step { from_version, version, failure } => {
                &&& from_version < version <= SCHEMA_VERSION
                &&& final(db).history().skip(old(db).history().len() as int).len() >= 1
                &&& (final(db).history().skip(old(db).history().len() as int)[0] matches
                    DbEvent::Query { stmt, rows } && stmt == version_query_stmt()
                    && spec_version_slot(rows) == Some(from_version))
                &&& version_after(
                    final(db).history().skip(old(db).history().len() as int),
                    from_version as int,
                ) == version - 1
                &&& failure is UnknownVersion ==> spec_version_of_step(version as int) is None
            },
        },
{
    let from_version = match db.get_pragma() {
        Ok(v) => v,
        Err(e) => {
            return Err(MigrationError::VersionRead(e));
        },
    };
    let ghost base = db.history();
    let ghost read_evt = db.history().last();
    proof {
        assert(base =~= old(db).history().push(read_evt));
        assert(seq![read_evt].drop_last() =~= Seq::<DbEvent>::empty());
        assert(version_after(Seq::<DbEvent>::empty(), from_version as int) == from_version as int);
        assert(version_after(seq![read_evt], from_version as int) == from_version as int);
    }
    let mut user_version = from_version;
    while user_version < SCHEMA_VERSION
        invariant
            from_version <= user_version,
            user_version <= SCHEMA_VERSION || user_version == from_version,
            base == old(db).history().push(read_evt),
            (read_evt matches DbEvent::Query { stmt, rows } && stmt == version_query_stmt()
                && spec_version_slot(rows) == Some(from_version)),
            version_after(seq![read_evt], from_version as int) == from_version as int,
            db.history() == base + spec_run_trace(
                from_version as int,
                user_version as int,
            ),
        decreases SCHEMA_VERSION - user_version,
    {
        user_version = user_version + 1;
        let ghost pre = db.history();
        let step = match SchemaVersion::from_i32(user_version) {
            Ok(s) => s,
            Err(u) => {
                proof {
                    let run = spec_run_trace(from_version as int, user_version - 1);
                    assert(db.history() =~= old(db).history().push(read_evt) + run
                        + Seq::<DbEvent>::empty());
                    lemma_step_failure_view(
                        old(db).history(),
                        read_evt,
                        Seq::<DbEvent>::empty(),
                        db.history(),
                        from_version as int,
                        user_version as int,
                    );
                }
                return Err(
                    MigrationError::Step {
                        from_version,
                        version: user_version,
                        failure: StepFailure::UnknownVersion(u),
                    },
                );
            },
        };
        proof {
            assert(spec_version_of_step(user_version as int) == Some(step));
        }
        match Book::update(db, step) {
            Ok(()) => {},
            Err(e) => {
                proof {
                    let run = spec_run_trace(from_version as int, user_version - 1);
                    let tail = db.history().skip(pre.len() as int);
                    assert(db.history() =~= pre + tail);
                    assert(forall|i: int|
                        0 <= i < tail.len() ==> !is_version_write(#[trigger] tail[i]));
                    assert(db.history() =~= old(db).history().push(read_evt) + run + tail);
                    lemma_step_failure_view(
                        old(db).history(),
                        read_evt,
                        tail,
                        db.history(),
                        from_version as int,
                        user_version as int,
                    );
                }
                return Err(
                    MigrationError::Step {
                        from_version,
                        version: user_version,
                        failure: StepFailure::Upgrade(e),
                    },
                );
            },
        }
        match db.set_pragma(user_version) {
            Ok(()) => {
                proof {
                    assert(db.history() =~= base + spec_run_trace(
                        from_version as int,
                        user_version as int,
                    ));
                }
            },
            Err(e) => {
                proof {
                    let run = spec_run_trace(from_version as int, user_version - 1);
                    let tail = db.history().skip(pre.len() as int);
                    assert(db.history() =~= pre + tail);
                    assert(forall|i: int|
                        0 <= i < tail.len() ==> !is_version_write(#[trigger] tail[i]));
                    assert(db.history() =~= old(db).history().push(read_evt) + run + tail);
                    lemma_step_failure_view(
                        old(db).history(),
                        read_evt,
                        tail,
                        db.history(),
                        from_version as int,
                        user_version as int,
                    );
                }
                return Err(
                    MigrationError::Step {
                        from_version,
                        version: user_version,
                        failure: StepFailure::VersionWrite(e),
                    },
                );
            },
        }
    }
    proof {
        let run = spec_run_trace(from_version as int, SCHEMA_VERSION as int);
        if from_version >= SCHEMA_VERSION {
            assert(spec_run_trace(from_version as int, user_version as int)
                =~= Seq::<DbEvent>::empty());
        }
        assert(db.history() == base + run);
        assert(db.history().skip(old(db).history().len() as int) =~= seq![read_evt] + run);
        assert((seq![read_evt] + run).skip(1) =~= run);
        lemma_run_trace_version(from_version as int, SCHEMA_VERSION as int, from_version as int);
        lemma_version_after_concat(seq![read_evt], run, from_version as int);
    }
    Ok(MigrationReport { from_version, to_version: user_version })
}

/// Monotonic versioning: a successful run never lowers the stored version,
/// and reaches exactly the target whenever the store started at or below
/// it.
pub proof fn lemma_migration_monotonic(from: int, target: int)
    requires
        -2147483648 <= target <= 2147483647,
    ensures
        version_after(spec_run_trace(from, target), from) >= from,
        from <= target ==> version_after(spec_run_trace(from, target), from) == target,
        version_after(spec_run_trace(from, target), from) == if from < target {
            target
        } else {
            from
        },
{
    lemma_run_trace_version(from, target, from);
}

/// Monotonic versioning across a sequence of runs: a second successful run
/// starts from whatever the first one persisted, never lowers it, and keeps
/// it exactly at the target once the target was reached.
pub proof fn lemma_successive_runs(from: int, target: int)
    requires
        -2147483648 <= target <= 2147483647,
    ensures
        version_after(
            spec_run_trace(version_after(spec_run_trace(from, target), from), target),
            version_after(spec_run_trace(from, target), from),
        ) >= version_after(spec_run_trace(from, target), from),
        from <= target ==> version_after(
            spec_run_trace(version_after(spec_run_trace(from, target), from), target),
            version_after(spec_run_trace(from, target), from),
        ) == target,
{
    lemma_run_trace_version(from, target, from);
    let v1 = version_after(spec_run_trace(from, target), from);
    lemma_run_trace_version(v1, target, v1);
}

/// Idempotent re-run: a run that starts at the target appends no events at
/// all — zero schema changes — and leaves the stored version unchanged.
pub proof fn lemma_rerun_idempotent(target: int)
    requires
        -2147483648 <= target <= 2147483647,
    ensures
        spec_run_trace(target, target) == Seq::<DbEvent>::empty(),
        schema_changes(spec_run_trace(target, target)) == 0,
        version_after(spec_run_trace(target, target), target) == target,
{
    assert(spec_run_trace(target, target) =~= Seq::<DbEvent>::empty());
}

/// Fail-closed migration: when the events after the last fully applied
/// version `v - 1` contain no version write — as when the upgrade for `v`
/// fails — the slot still reads `v - 1`, so a later run retries version `v`
/// from scratch.
pub proof fn lemma_fail_closed(from: int, v: int, tail: Seq<DbEvent>)
    requires
        from <= v - 1,
        -2147483648 <= v - 1 <= 2147483647,
        forall|i: int| 0 <= i < tail.len() ==> !is_version_write(#[trigger] tail[i]),
    ensures
        version_after(spec_run_trace(from, v - 1) + tail, from) == v - 1,
{
    lemma_run_trace_version(from, v - 1, from);
    lemma_version_after_no_writes(spec_run_trace(from, v - 1), tail, from);
}

} // verus!
