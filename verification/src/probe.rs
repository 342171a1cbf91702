//! Existence probes: the engine-specific query behind "does it exist?", and
//! the reading of its answer.
//!
//! Each engine keeps its catalogue elsewhere, so each has its own query. All of
//! them select a single boolean column, named after the kind of the probe, and
//! return exactly one row. Existence is therefore read from that one cell, the
//! same way for every engine, never from the presence of a row.

use crate::engine::{Dialects, Engine};
use crate::error::SchemaError;
use sea_orm::sea_query::SelectStatement;
use sea_orm::{DatabaseBackend, DbErr, QueryResult, Statement};
use sea_schema::mysql::MySql;
use sea_schema::postgres::Postgres;
use sea_schema::probe::SchemaProbe;
use sea_schema::sqlite::Sqlite;
use vstd::prelude::*;

verus! {

/// `sea_query::SelectStatement`: a structured query, not yet in any dialect.
#[verifier::external_type_specification]
#[verifier::external_body]
pub struct ExSelectStatement(SelectStatement);

/// `sea_orm::QueryResult`: one row that a connection returned.
#[verifier::external_type_specification]
#[verifier::external_body]
pub struct ExQueryResult(QueryResult);

/// What an existence probe asks about.
#[derive(Clone, Copy, Debug, PartialEq, Eq, Hash, Structural)]
pub enum ProbeKind {
    Table,
    Column,
    Index,
}

impl ProbeKind {
    /// The name of the single boolean column that a probe of this kind selects.
    pub open spec fn column(self) -> Seq<char> {
        match self {
            ProbeKind::Table => "has_table"@,
            ProbeKind::Column => "has_column"@,
            ProbeKind::Index => "has_index"@,
        }
    }

    /// What is said when a probe of this kind returned no row.
    pub open spec fn failure(self) -> Seq<char> {
        match self {
            ProbeKind::Table => "Failed to check table exists"@,
            ProbeKind::Column => "Failed to check column exists"@,
            ProbeKind::Index => "Failed to check index exists"@,
        }
    }

    /// The name of the single boolean column that a probe of this kind selects.
    pub fn column_name(self) -> (name: &'static str)
        ensures
            name@ == self.column(),
    {
        match self {
            ProbeKind::Table => "has_table",
            ProbeKind::Column => "has_column",
            ProbeKind::Index => "has_index",
        }
    }

    /// What is said when a probe of this kind returned no row.
    pub fn failure_message(self) -> (message: &'static str)
        ensures
            message@ == self.failure(),
    {
        match self {
            ProbeKind::Table => "Failed to check table exists",
            ProbeKind::Column => "Failed to check column exists",
            ProbeKind::Index => "Failed to check index exists",
        }
    }
}

/// A probe that is ready to be sent: the query, in the dialect of the engine it
/// was built for, and the kind that says which column of the answer to read.
#[derive(Debug, PartialEq)]
pub struct ProbeQuery {
    pub kind: ProbeKind,
    pub statement: Statement,
}

/// The query that `SchemaProbe::has_table` of an engine's dialect returns for
/// a table name.
pub uninterp spec fn table_query(engine: Engine, table: Seq<char>) -> SelectStatement;

/// The query that `SchemaProbe::has_column` of an engine's dialect returns for
/// a table name and a column name.
pub uninterp spec fn column_query(engine: Engine, table: Seq<char>, column: Seq<char>) -> SelectStatement;

/// The query that `SchemaProbe::has_index` of an engine's dialect returns for
/// a table name and an index name.
pub uninterp spec fn index_query(engine: Engine, table: Seq<char>, index: Seq<char>) -> SelectStatement;

/// What `DatabaseBackend::build` makes of a query for an engine: its text in
/// that engine's dialect, with the values it binds.
pub uninterp spec fn built_query(engine: Engine, query: SelectStatement) -> Statement;

/// What `QueryResult::try_get` reads as a `bool` in the column of a row whose
/// name is `prefix` followed by `column`.
pub uninterp spec fn cell_as_bool(row: QueryResult, prefix: Seq<char>, column: Seq<char>) -> Result<bool, DbErr>;

/// The query by which `engine` is asked whether `table` (for a column or an
/// index: `name` on `table`) exists.
pub open spec fn probe_select(engine: Engine, kind: ProbeKind, table: Seq<char>, name: Seq<char>) -> SelectStatement {
    match kind {
        ProbeKind::Table => table_query(engine, table),
        ProbeKind::Column => column_query(engine, table, name),
        ProbeKind::Index => index_query(engine, table, name),
    }
}

/// Whether `query` is an existence probe in the dialect of `engine`.
pub open spec fn is_probe(engine: Engine, query: SelectStatement) -> bool {
    exists|kind: ProbeKind, table: Seq<char>, name: Seq<char>|
        query == #[trigger] probe_select(engine, kind, table, name)
}

/// Calls `SchemaProbe::has_table` of `sea_schema::mysql::MySql`.
#[verifier::external_body]
fn mysql_has_table(table: &str) -> (query: SelectStatement)
    ensures
        query == table_query(Engine::MySql, table@),
{
    MySql.has_table(table)
}

/// Calls `SchemaProbe::has_table` of `sea_schema::postgres::Postgres`.
#[verifier::external_body]
fn postgres_has_table(table: &str) -> (query: SelectStatement)
    ensures
        query == table_query(Engine::Postgres, table@),
{
    Postgres.has_table(table)
}

/// Calls `SchemaProbe::has_table` of `sea_schema::sqlite::Sqlite`.
#[verifier::external_body]
fn sqlite_has_table(table: &str) -> (query: SelectStatement)
    ensures
        query == table_query(Engine::Sqlite, table@),
{
    Sqlite.has_table(table)
}

/// Calls `SchemaProbe::has_column` of `sea_schema::mysql::MySql`.
#[verifier::external_body]
fn mysql_has_column(table: &str, column: &str) -> (query: SelectStatement)
    ensures
        query == column_query(Engine::MySql, table@, column@),
{
    MySql.has_column(table, column)
}

/// Calls `SchemaProbe::has_column` of `sea_schema::postgres::Postgres`.
#[verifier::external_body]
fn postgres_has_column(table: &str, column: &str) -> (query: SelectStatement)
    ensures
        query == column_query(Engine::Postgres, table@, column@),
{
    Postgres.has_column(table, column)
}

/// Calls `SchemaProbe::has_column` of `sea_schema::sqlite::Sqlite`.
#[verifier::external_body]
fn sqlite_has_column(table: &str, column: &str) -> (query: SelectStatement)
    ensures
        query == column_query(Engine::Sqlite, table@, column@),
{
    Sqlite.has_column(table, column)
}

/// Calls `SchemaProbe::has_index` of `sea_schema::mysql::MySql`.
#[verifier::external_body]
fn mysql_has_index(table: &str, index: &str) -> (query: SelectStatement)
    ensures
        query == index_query(Engine::MySql, table@, index@),
{
    MySql.has_index(table, index)
}

/// Calls `SchemaProbe::has_index` of `sea_schema::postgres::Postgres`.
#[verifier::external_body]
fn postgres_has_index(table: &str, index: &str) -> (query: SelectStatement)
    ensures
        query == index_query(Engine::Postgres, table@, index@),
{
    Postgres.has_index(table, index)
}

/// Calls `SchemaProbe::has_index` of `sea_schema::sqlite::Sqlite`.
#[verifier::external_body]
fn sqlite_has_index(table: &str, index: &str) -> (query: SelectStatement)
    ensures
        query == index_query(Engine::Sqlite, table@, index@),
{
    Sqlite.has_index(table, index)
}

/// Calls `DatabaseBackend::build` on a `SelectStatement`. Only an existence
/// probe of the same engine is handed over: a select of a custom expression
/// from a table or a sub-select, under equality conditions on bound strings,
/// which the builder of every dialect writes out.
#[verifier::external_body]
fn build_query(engine: Engine, query: &SelectStatement) -> (statement: Statement)
    requires
        is_probe(engine, *query),
    ensures
        statement == built_query(engine, *query),
{
    let backend = match engine {
        Engine::MySql => DatabaseBackend::MySql,
        Engine::Postgres => DatabaseBackend::Postgres,
        Engine::Sqlite => DatabaseBackend::Sqlite,
    };
    backend.build(query)
}

/// Calls `QueryResult::try_get` for a `bool`.
#[verifier::external_body]
fn try_get_bool(row: &QueryResult, prefix: &str, column: &str) -> (cell: Result<bool, DbErr>)
    ensures
        cell == cell_as_bool(*row, prefix@, column@),
{
    row.try_get(prefix, column)
}

/// The probe that asks `engine` whether `table` exists.
pub open spec fn table_probe(engine: Engine, table: Seq<char>) -> ProbeQuery {
    ProbeQuery {
        kind: ProbeKind::Table,
        statement: built_query(engine, table_query(engine, table)),
    }
}

/// The probe that asks `engine` whether `table` has a column `column`.
pub open spec fn column_probe(engine: Engine, table: Seq<char>, column: Seq<char>) -> ProbeQuery {
    ProbeQuery {
        kind: ProbeKind::Column,
        statement: built_query(engine, column_query(engine, table, column)),
    }
}

/// The probe that asks `engine` whether `table` has an index `index`.
pub open spec fn index_probe(engine: Engine, table: Seq<char>, index: Seq<char>) -> ProbeQuery {
    ProbeQuery {
        kind: ProbeKind::Index,
        statement: built_query(engine, index_query(engine, table, index)),
    }
}

/// What a decoded cell means for the caller: the flag itself, or the decode
/// failure as a data-access error.
pub open spec fn flag(cell: Result<bool, DbErr>) -> Result<bool, SchemaError> {
    match cell {
        Ok(exists) => Ok(exists),
        Err(cause) => Err(SchemaError::DataAccess(cause)),
    }
}

/// What a probe of `kind` returns, given what the connection answered to it.
pub open spec fn answer(kind: ProbeKind, reply: Result<Option<QueryResult>, DbErr>) -> Result<bool, SchemaError> {
    match reply {
        Err(cause) => Err(SchemaError::DataAccess(cause)),
        Ok(None) => Err(SchemaError::ProbeReturnedNoRow(kind)),
        Ok(Some(row)) => flag(cell_as_bool(row, ""@, kind.column())),
    }
}

impl Dialects {
    /// What dispatching on `engine` gives: `value`, made by the dialect of that
    /// engine, or the configuration error where the registry has no such
    /// dialect.
    pub open spec fn dispatched<T>(self, engine: Engine, value: T) -> Result<T, SchemaError> {
        if self.has(engine) {
            Ok(value)
        } else {
            Err(SchemaError::Unsupported(engine))
        }
    }

    /// Builds the probe for the existence of a table, in the dialect of
    /// `engine`. The name is passed on as it is; quoting is the dialect's
    /// business.
    pub fn table_probe(&self, engine: Engine, table: &str) -> (res: Result<ProbeQuery, SchemaError>)
        ensures
            res == self.dispatched(engine, table_probe(engine, table@)),
    {
        if !self.supports(engine) {
            return Err(SchemaError::Unsupported(engine));
        }
        let query = match engine {
            Engine::MySql => mysql_has_table(table),
            Engine::Postgres => postgres_has_table(table),
            Engine::Sqlite => sqlite_has_table(table),
        };
        assert(query == probe_select(engine, ProbeKind::Table, table@, table@));
        Ok(ProbeQuery { kind: ProbeKind::Table, statement: build_query(engine, &query) })
    }

    /// Builds the probe for the existence of a column on a table, in the
    /// dialect of `engine`.
    pub fn column_probe(&self, engine: Engine, table: &str, column: &str) -> (res: Result<ProbeQuery, SchemaError>)
        ensures
            res == self.dispatched(engine, column_probe(engine, table@, column@)),
    {
        if !self.supports(engine) {
            return Err(SchemaError::Unsupported(engine));
        }
        let query = match engine {
            Engine::MySql => mysql_has_column(table, column),
            Engine::Postgres => postgres_has_column(table, column),
            Engine::Sqlite => sqlite_has_column(table, column),
        };
        assert(query == probe_select(engine, ProbeKind::Column, table@, column@));
        Ok(ProbeQuery { kind: ProbeKind::Column, statement: build_query(engine, &query) })
    }

    /// Builds the probe for the existence of an index on a table, in the
    /// dialect of `engine`.
    pub fn index_probe(&self, engine: Engine, table: &str, index: &str) -> (res: Result<ProbeQuery, SchemaError>)
        ensures
            res == self.dispatched(engine, index_probe(engine, table@, index@)),
    {
        if !self.supports(engine) {
            return Err(SchemaError::Unsupported(engine));
        }
        let query = match engine {
            Engine::MySql => mysql_has_index(table, index),
            Engine::Postgres => postgres_has_index(table, index),
            Engine::Sqlite => sqlite_has_index(table, index),
        };
        assert(query == probe_select(engine, ProbeKind::Index, table@, index@));
        Ok(ProbeQuery { kind: ProbeKind::Index, statement: build_query(engine, &query) })
    }
}

/// Turns a decoded cell into the result of the probe.
pub fn read_flag(cell: Result<bool, DbErr>) -> (res: Result<bool, SchemaError>)
    ensures
        res == flag(cell),
{
    match cell {
        Ok(exists) => Ok(exists),
        Err(cause) => Err(SchemaError::DataAccess(cause)),
    }
}

/// Decides what a probe of `kind` returns, from what the connection answered.
///
/// A failure of the connection is passed on unchanged. No row at all is a
/// broken probe, and is reported as such: it never counts as "does not exist".
/// Of one row, the boolean column named after `kind` is read.
pub fn existence(kind: ProbeKind, reply: Result<Option<QueryResult>, DbErr>) -> (res: Result<bool, SchemaError>)
    ensures
        res == answer(kind, reply),
{
    match reply {
        Err(cause) => Err(SchemaError::DataAccess(cause)),
        Ok(None) => Err(SchemaError::ProbeReturnedNoRow(kind)),
        Ok(Some(row)) => read_flag(try_get_bool(&row, "", kind.column_name())),
    }
}

} // verus!
