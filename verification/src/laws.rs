//! What holds of every operation, proved from the contracts of the library.
//!
//! An operation is one request and one answer: the manager prepares a command
//! or a probe, the connection answers, and the answer is decided on. The two
//! functions below put the halves together, so that the laws can speak of the
//! operation as a whole.

use crate::engine::{Dialects, Engine};
use crate::error::SchemaError;
use crate::manager::SchemaManager;
use crate::probe::{
    answer, cell_as_bool, column_probe, index_probe, table_probe, ProbeKind, ProbeQuery,
};
use crate::statement::{execution, rendered, SchemaStatement};
use sea_orm::{DbErr, ExecResult, QueryResult, Statement};
use vstd::prelude::*;

verus! {

/// What a mutation returns as a whole: the failure to prepare its command, or
/// else what the answer of the connection to that command means.
pub open spec fn mutation(command: Result<Statement, SchemaError>, reply: Result<ExecResult, DbErr>) -> Result<(), SchemaError> {
    match command {
        Err(error) => Err(error),
        Ok(_) => execution(reply),
    }
}

/// What an inspection returns as a whole: the failure to prepare its probe, or
/// else what the answer of the connection to that probe means.
pub open spec fn inspection(probe: Result<ProbeQuery, SchemaError>, reply: Result<Option<QueryResult>, DbErr>) -> Result<bool, SchemaError> {
    match probe {
        Err(error) => Err(error),
        Ok(query) => answer(query.kind, reply),
    }
}

/// On an engine whose dialect is present, and for a statement that this
/// dialect has a form for, a mutation hands exactly the rendered command to
/// the connection and succeeds if and only if the engine accepts it. If the
/// engine does not, the mutation fails with a data-access error that holds the
/// engine's own error, and with no other kind of error.
pub proof fn law_mutation_succeeds_iff_engine_accepts(
    dialects: Dialects,
    engine: Engine,
    stmt: SchemaStatement,
    reply: Result<ExecResult, DbErr>,
)
    requires
        dialects.has(engine),
        rendered(engine, stmt) is Some,
    ensures
        dialects.rendering(engine, stmt) is Ok,
        Some(dialects.rendering(engine, stmt).unwrap()) == rendered(engine, stmt),
        mutation(dialects.rendering(engine, stmt), reply) is Ok <==> reply is Ok,
        reply matches Err(cause) ==> mutation(dialects.rendering(engine, stmt), reply) == Err::<
            (),
            SchemaError,
        >(SchemaError::DataAccess(cause)),
        mutation(dialects.rendering(engine, stmt), reply) matches Err(error) ==> error is DataAccess,
{
}

/// An inspection returns a boolean if and only if the connection answered
/// with one row and the column named after the probe could be read from it as
/// a boolean; it then returns that boolean, be it `true` or `false`. It
/// reports a broken probe if and only if the connection answered with no row.
/// In every other case it fails with a data-access error that holds the
/// connection's error or that of the reading, unchanged. So neither a missing
/// row nor an unreadable cell is ever taken for "does not exist", and plain
/// absence is never an error.
pub proof fn law_inspection_returns_what_the_engine_reported(
    kind: ProbeKind,
    reply: Result<Option<QueryResult>, DbErr>,
    exists: bool,
)
    ensures
        answer(kind, reply) == Ok::<bool, SchemaError>(exists) <==> (reply matches Ok(Some(row))
            && cell_as_bool(row, ""@, kind.column()) == Ok::<bool, DbErr>(exists)),
        answer(kind, reply) == Err::<bool, SchemaError>(SchemaError::ProbeReturnedNoRow(kind))
            <==> reply == Ok::<Option<QueryResult>, DbErr>(None),
        answer(kind, reply) matches Err(SchemaError::ProbeReturnedNoRow(asked)) ==> asked == kind,
        reply matches Err(cause) ==> answer(kind, reply) == Err::<bool, SchemaError>(
            SchemaError::DataAccess(cause),
        ),
        reply matches Ok(Some(row)) ==> (cell_as_bool(row, ""@, kind.column()) matches Err(cause)
            ==> answer(kind, reply) == Err::<bool, SchemaError>(SchemaError::DataAccess(cause))),
        !(answer(kind, reply) matches Err(SchemaError::Unsupported(_))),
{
}

/// Dispatching on an engine whose dialect is absent ends in the configuration
/// error, for each inspection and for rendering alike, whatever the names and
/// whatever the statement. That error is fatal, names the engine, and is not a
/// data-access error; no answer of a connection can turn it into anything
/// else.
pub proof fn law_absent_dialect_is_a_configuration_error(
    dialects: Dialects,
    engine: Engine,
    stmt: SchemaStatement,
    table: Seq<char>,
    name: Seq<char>,
    executed: Result<ExecResult, DbErr>,
    answered: Result<Option<QueryResult>, DbErr>,
)
    requires
        !dialects.has(engine),
    ensures
        SchemaError::Unsupported(engine).is_fatal(),
        !(SchemaError::Unsupported(engine) is DataAccess),
        dialects.rendering(engine, stmt) == Err::<Statement, SchemaError>(
            SchemaError::Unsupported(engine),
        ),
        dialects.dispatched(engine, table_probe(engine, table)) == Err::<ProbeQuery, SchemaError>(
            SchemaError::Unsupported(engine),
        ),
        dialects.dispatched(engine, column_probe(engine, table, name)) == Err::<
            ProbeQuery,
            SchemaError,
        >(SchemaError::Unsupported(engine)),
        dialects.dispatched(engine, index_probe(engine, table, name)) == Err::<
            ProbeQuery,
            SchemaError,
        >(SchemaError::Unsupported(engine)),
        mutation(dialects.rendering(engine, stmt), executed) == Err::<(), SchemaError>(
            SchemaError::Unsupported(engine),
        ),
        inspection(dialects.dispatched(engine, table_probe(engine, table)), answered) == Err::<
            bool,
            SchemaError,
        >(SchemaError::Unsupported(engine)),
        inspection(dialects.dispatched(engine, column_probe(engine, table, name)), answered)
            == Err::<bool, SchemaError>(SchemaError::Unsupported(engine)),
        inspection(dialects.dispatched(engine, index_probe(engine, table, name)), answered)
            == Err::<bool, SchemaError>(SchemaError::Unsupported(engine)),
{
}

/// The configuration error comes from an absent dialect and from nothing
/// else: where the dialect is present, every inspection gets its probe, of
/// the kind that was asked for.
pub proof fn law_present_dialect_always_probes(
    dialects: Dialects,
    engine: Engine,
    table: Seq<char>,
    name: Seq<char>,
)
    requires
        dialects.has(engine),
    ensures
        dialects.dispatched(engine, table_probe(engine, table)) matches Ok(probe) && probe.kind
            == ProbeKind::Table,
        dialects.dispatched(engine, column_probe(engine, table, name)) matches Ok(probe)
            && probe.kind == ProbeKind::Column,
        dialects.dispatched(engine, index_probe(engine, table, name)) matches Ok(probe)
            && probe.kind == ProbeKind::Index,
{
}

/// The engine identity is a function of the connection handle alone: as long
/// as the handle is the same, reading it gives the same engine, however often
/// it is read and whatever else the manager holds.
pub proof fn law_engine_identity_follows_the_handle(first: SchemaManager, second: SchemaManager)
    requires
        first.connection() == second.connection(),
    ensures
        first.engine() == second.engine(),
{
}

} // verus!
