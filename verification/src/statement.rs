//! Schema statements and their rendering into an engine's dialect.
//!
//! A statement arrives as a structured value and leaves as a command for one
//! engine. The text is the work of the dialect; the library picks the
//! dialect, and says what becomes of the connection's answer.

use crate::engine::{Dialects, Engine};
use crate::error::SchemaError;
use sea_orm::sea_query::extension::postgres::{
    TypeAlterStatement, TypeCreateStatement, TypeDropStatement,
};
use sea_orm::sea_query::{
    ForeignKeyCreateStatement, ForeignKeyDropStatement, IndexCreateStatement, IndexDropStatement,
    TableAlterStatement, TableCreateStatement, TableDropStatement, TableRenameStatement,
    TableTruncateStatement,
};
use sea_orm::{DatabaseBackend, DbErr, ExecResult, Statement};
use vstd::prelude::*;

verus! {

/// `sea_orm::ExecResult`: what a connection reports of a command that ran.
#[verifier::external_type_specification]
#[verifier::external_body]
pub struct ExExecResult(ExecResult);

/// `sea_orm::Statement`: command text and its parameters, bound to one engine.
/// The library builds it and hands it on; it never looks inside.
#[verifier::external_type_specification]
#[verifier::external_body]
pub struct ExStatement(Statement);

/// `sea_query::TableCreateStatement`: describes the creation of a table.
#[verifier::external_type_specification]
#[verifier::external_body]
pub struct ExTableCreateStatement(TableCreateStatement);

/// `sea_query::IndexCreateStatement`: describes the creation of an index.
#[verifier::external_type_specification]
#[verifier::external_body]
pub struct ExIndexCreateStatement(IndexCreateStatement);

/// `sea_query::ForeignKeyCreateStatement`: describes the creation of a foreign key.
#[verifier::external_type_specification]
#[verifier::external_body]
pub struct ExForeignKeyCreateStatement(ForeignKeyCreateStatement);

/// `sea_query::extension::postgres::TypeCreateStatement`: describes the creation of an enumerated type.
#[verifier::external_type_specification]
#[verifier::external_body]
pub struct ExTypeCreateStatement(TypeCreateStatement);

/// `sea_query::TableAlterStatement`: describes a change to a table.
#[verifier::external_type_specification]
#[verifier::external_body]
pub struct ExTableAlterStatement(TableAlterStatement);

/// `sea_query::TableDropStatement`: describes the removal of a table.
#[verifier::external_type_specification]
#[verifier::external_body]
pub struct ExTableDropStatement(TableDropStatement);

/// `sea_query::TableRenameStatement`: describes the renaming of a table.
#[verifier::external_type_specification]
#[verifier::external_body]
pub struct ExTableRenameStatement(TableRenameStatement);

/// `sea_query::TableTruncateStatement`: describes the emptying of a table.
#[verifier::external_type_specification]
#[verifier::external_body]
pub struct ExTableTruncateStatement(TableTruncateStatement);

/// `sea_query::IndexDropStatement`: describes the removal of an index.
#[verifier::external_type_specification]
#[verifier::external_body]
pub struct ExIndexDropStatement(IndexDropStatement);

/// `sea_query::ForeignKeyDropStatement`: describes the removal of a foreign key.
#[verifier::external_type_specification]
#[verifier::external_body]
pub struct ExForeignKeyDropStatement(ForeignKeyDropStatement);

/// `sea_query::extension::postgres::TypeAlterStatement`: describes a change to an enumerated type.
#[verifier::external_type_specification]
#[verifier::external_body]
pub struct ExTypeAlterStatement(TypeAlterStatement);

/// `sea_query::extension::postgres::TypeDropStatement`: describes the removal of an enumerated type.
#[verifier::external_type_specification]
#[verifier::external_body]
pub struct ExTypeDropStatement(TypeDropStatement);

/// One schema change, described independently of any engine.
#[derive(Debug)]
pub enum SchemaStatement {
    TableCreate(TableCreateStatement),
    IndexCreate(IndexCreateStatement),
    ForeignKeyCreate(ForeignKeyCreateStatement),
    TypeCreate(TypeCreateStatement),
    TableAlter(TableAlterStatement),
    TableDrop(TableDropStatement),
    TableRename(TableRenameStatement),
    TableTruncate(TableTruncateStatement),
    IndexDrop(IndexDropStatement),
    ForeignKeyDrop(ForeignKeyDropStatement),
    TypeAlter(TypeAlterStatement),
    TypeDrop(TypeDropStatement),
}

/// What `DatabaseBackend::build` makes of a schema statement for an engine:
/// the command in that engine's dialect.
///
/// `None` where the dialect has no form for the statement (an enumerated type
/// on an engine that knows none, a column type that the engine lacks): there
/// the builder panics instead of returning.
pub uninterp spec fn rendered(engine: Engine, stmt: SchemaStatement) -> Option<Statement>;

/// Calls `DatabaseBackend::build` on a `TableCreateStatement`.
///
/// Not to be called where the dialect of `engine` has no form for the
/// statement. What the builder returns is the command that `rendered` names.
#[verifier::external_body]
fn build_table_create(engine: Engine, stmt: &TableCreateStatement) -> (command: Statement)
    requires
        rendered(engine, SchemaStatement::TableCreate(*stmt)) is Some,
    ensures
        rendered(engine, SchemaStatement::TableCreate(*stmt)) == Some(command),
{
    let backend = match engine {
        Engine::MySql => DatabaseBackend::MySql,
        Engine::Postgres => DatabaseBackend::Postgres,
        Engine::Sqlite => DatabaseBackend::Sqlite,
    };
    backend.build(stmt)
}

/// Calls `DatabaseBackend::build` on a `IndexCreateStatement`.
///
/// Not to be called where the dialect of `engine` has no form for the
/// statement. What the builder returns is the command that `rendered` names.
#[verifier::external_body]
fn build_index_create(engine: Engine, stmt: &IndexCreateStatement) -> (command: Statement)
    requires
        rendered(engine, SchemaStatement::IndexCreate(*stmt)) is Some,
    ensures
        rendered(engine, SchemaStatement::IndexCreate(*stmt)) == Some(command),
{
    let backend = match engine {
        Engine::MySql => DatabaseBackend::MySql,
        Engine::Postgres => DatabaseBackend::Postgres,
        Engine::Sqlite => DatabaseBackend::Sqlite,
    };
    backend.build(stmt)
}

/// Calls `DatabaseBackend::build` on a `ForeignKeyCreateStatement`.
///
/// Not to be called where the dialect of `engine` has no form for the
/// statement. What the builder returns is the command that `rendered` names.
#[verifier::external_body]
fn build_foreign_key_create(engine: Engine, stmt: &ForeignKeyCreateStatement) -> (command: Statement)
    requires
        rendered(engine, SchemaStatement::ForeignKeyCreate(*stmt)) is Some,
    ensures
        rendered(engine, SchemaStatement::ForeignKeyCreate(*stmt)) == Some(command),
{
    let backend = match engine {
        Engine::MySql => DatabaseBackend::MySql,
        Engine::Postgres => DatabaseBackend::Postgres,
        Engine::Sqlite => DatabaseBackend::Sqlite,
    };
    backend.build(stmt)
}

/// Calls `DatabaseBackend::build` on a `TypeCreateStatement`.
///
/// Not to be called where the dialect of `engine` has no form for the
/// statement. What the builder returns is the command that `rendered` names.
#[verifier::external_body]
fn build_type_create(engine: Engine, stmt: &TypeCreateStatement) -> (command: Statement)
    requires
        rendered(engine, SchemaStatement::TypeCreate(*stmt)) is Some,
    ensures
        rendered(engine, SchemaStatement::TypeCreate(*stmt)) == Some(command),
{
    let backend = match engine {
        Engine::MySql => DatabaseBackend::MySql,
        Engine::Postgres => DatabaseBackend::Postgres,
        Engine::Sqlite => DatabaseBackend::Sqlite,
    };
    backend.build(stmt)
}

/// Calls `DatabaseBackend::build` on a `TableAlterStatement`.
///
/// Not to be called where the dialect of `engine` has no form for the
/// statement. What the builder returns is the command that `rendered` names.
#[verifier::external_body]
fn build_table_alter(engine: Engine, stmt: &TableAlterStatement) -> (command: Statement)
    requires
        rendered(engine, SchemaStatement::TableAlter(*stmt)) is Some,
    ensures
        rendered(engine, SchemaStatement::TableAlter(*stmt)) == Some(command),
{
    let backend = match engine {
        Engine::MySql => DatabaseBackend::MySql,
        Engine::Postgres => DatabaseBackend::Postgres,
        Engine::Sqlite => DatabaseBackend::Sqlite,
    };
    backend.build(stmt)
}

/// Calls `DatabaseBackend::build` on a `TableDropStatement`.
///
/// Not to be called where the dialect of `engine` has no form for the
/// statement. What the builder returns is the command that `rendered` names.
#[verifier::external_body]
fn build_table_drop(engine: Engine, stmt: &TableDropStatement) -> (command: Statement)
    requires
        rendered(engine, SchemaStatement::TableDrop(*stmt)) is Some,
    ensures
        rendered(engine, SchemaStatement::TableDrop(*stmt)) == Some(command),
{
    let backend = match engine {
        Engine::MySql => DatabaseBackend::MySql,
        Engine::Postgres => DatabaseBackend::Postgres,
        Engine::Sqlite => DatabaseBackend::Sqlite,
    };
    backend.build(stmt)
}

/// Calls `DatabaseBackend::build` on a `TableRenameStatement`.
///
/// Not to be called where the dialect of `engine` has no form for the
/// statement. What the builder returns is the command that `rendered` names.
#[verifier::external_body]
fn build_table_rename(engine: Engine, stmt: &TableRenameStatement) -> (command: Statement)
    requires
        rendered(engine, SchemaStatement::TableRename(*stmt)) is Some,
    ensures
        rendered(engine, SchemaStatement::TableRename(*stmt)) == Some(command),
{
    let backend = match engine {
        Engine::MySql => DatabaseBackend::MySql,
        Engine::Postgres => DatabaseBackend::Postgres,
        Engine::Sqlite => DatabaseBackend::Sqlite,
    };
    backend.build(stmt)
}

/// Calls `DatabaseBackend::build` on a `TableTruncateStatement`.
///
/// Not to be called where the dialect of `engine` has no form for the
/// statement. What the builder returns is the command that `rendered` names.
#[verifier::external_body]
fn build_table_truncate(engine: Engine, stmt: &TableTruncateStatement) -> (command: Statement)
    requires
        rendered(engine, SchemaStatement::TableTruncate(*stmt)) is Some,
    ensures
        rendered(engine, SchemaStatement::TableTruncate(*stmt)) == Some(command),
{
    let backend = match engine {
        Engine::MySql => DatabaseBackend::MySql,
        Engine::Postgres => DatabaseBackend::Postgres,
        Engine::Sqlite => DatabaseBackend::Sqlite,
    };
    backend.build(stmt)
}

/// Calls `DatabaseBackend::build` on a `IndexDropStatement`.
///
/// Not to be called where the dialect of `engine` has no form for the
/// statement. What the builder returns is the command that `rendered` names.
#[verifier::external_body]
fn build_index_drop(engine: Engine, stmt: &IndexDropStatement) -> (command: Statement)
    requires
        rendered(engine, SchemaStatement::IndexDrop(*stmt)) is Some,
    ensures
        rendered(engine, SchemaStatement::IndexDrop(*stmt)) == Some(command),
{
    let backend = match engine {
        Engine::MySql => DatabaseBackend::MySql,
        Engine::Postgres => DatabaseBackend::Postgres,
        Engine::Sqlite => DatabaseBackend::Sqlite,
    };
    backend.build(stmt)
}

/// Calls `DatabaseBackend::build` on a `ForeignKeyDropStatement`.
///
/// Not to be called where the dialect of `engine` has no form for the
/// statement. What the builder returns is the command that `rendered` names.
#[verifier::external_body]
fn build_foreign_key_drop(engine: Engine, stmt: &ForeignKeyDropStatement) -> (command: Statement)
    requires
        rendered(engine, SchemaStatement::ForeignKeyDrop(*stmt)) is Some,
    ensures
        rendered(engine, SchemaStatement::ForeignKeyDrop(*stmt)) == Some(command),
{
    let backend = match engine {
        Engine::MySql => DatabaseBackend::MySql,
        Engine::Postgres => DatabaseBackend::Postgres,
        Engine::Sqlite => DatabaseBackend::Sqlite,
    };
    backend.build(stmt)
}

/// Calls `DatabaseBackend::build` on a `TypeAlterStatement`.
///
/// Not to be called where the dialect of `engine` has no form for the
/// statement. What the builder returns is the command that `rendered` names.
#[verifier::external_body]
fn build_type_alter(engine: Engine, stmt: &TypeAlterStatement) -> (command: Statement)
    requires
        rendered(engine, SchemaStatement::TypeAlter(*stmt)) is Some,
    ensures
        rendered(engine, SchemaStatement::TypeAlter(*stmt)) == Some(command),
{
    let backend = match engine {
        Engine::MySql => DatabaseBackend::MySql,
        Engine::Postgres => DatabaseBackend::Postgres,
        Engine::Sqlite => DatabaseBackend::Sqlite,
    };
    backend.build(stmt)
}

/// Calls `DatabaseBackend::build` on a `TypeDropStatement`.
///
/// Not to be called where the dialect of `engine` has no form for the
/// statement. What the builder returns is the command that `rendered` names.
#[verifier::external_body]
fn build_type_drop(engine: Engine, stmt: &TypeDropStatement) -> (command: Statement)
    requires
        rendered(engine, SchemaStatement::TypeDrop(*stmt)) is Some,
    ensures
        rendered(engine, SchemaStatement::TypeDrop(*stmt)) == Some(command),
{
    let backend = match engine {
        Engine::MySql => DatabaseBackend::MySql,
        Engine::Postgres => DatabaseBackend::Postgres,
        Engine::Sqlite => DatabaseBackend::Sqlite,
    };
    backend.build(stmt)
}

/// What a mutation returns, given what the connection answered to its command:
/// success without a value, or the connection's error, unchanged.
pub open spec fn execution(reply: Result<ExecResult, DbErr>) -> Result<(), SchemaError> {
    match reply {
        Ok(_) => Ok(()),
        Err(cause) => Err(SchemaError::DataAccess(cause)),
    }
}

/// Renders a schema statement in the dialect of `engine`.
pub fn render(engine: Engine, stmt: &SchemaStatement) -> (command: Statement)
    requires
        rendered(engine, *stmt) is Some,
    ensures
        rendered(engine, *stmt) == Some(command),
{
    match stmt {
        SchemaStatement::TableCreate(s) => build_table_create(engine, s),
        SchemaStatement::IndexCreate(s) => build_index_create(engine, s),
        SchemaStatement::ForeignKeyCreate(s) => build_foreign_key_create(engine, s),
        SchemaStatement::TypeCreate(s) => build_type_create(engine, s),
        SchemaStatement::TableAlter(s) => build_table_alter(engine, s),
        SchemaStatement::TableDrop(s) => build_table_drop(engine, s),
        SchemaStatement::TableRename(s) => build_table_rename(engine, s),
        SchemaStatement::TableTruncate(s) => build_table_truncate(engine, s),
        SchemaStatement::IndexDrop(s) => build_index_drop(engine, s),
        SchemaStatement::ForeignKeyDrop(s) => build_foreign_key_drop(engine, s),
        SchemaStatement::TypeAlter(s) => build_type_alter(engine, s),
        SchemaStatement::TypeDrop(s) => build_type_drop(engine, s),
    }
}

impl Dialects {
    /// What rendering `stmt` for `engine` gives: the command in the engine's
    /// dialect, or the configuration error where the registry has no such
    /// dialect.
    pub open spec fn rendering(self, engine: Engine, stmt: SchemaStatement) -> Result<
        Statement,
        SchemaError,
    >
        recommends
            self.has(engine) ==> rendered(engine, stmt) is Some,
    {
        self.dispatched(engine, rendered(engine, stmt).unwrap())
    }

    /// Renders a schema statement in the dialect of `engine`, if the registry
    /// holds that dialect.
    pub fn command(&self, engine: Engine, stmt: &SchemaStatement) -> (res: Result<
        Statement,
        SchemaError,
    >)
        requires
            self.has(engine) ==> rendered(engine, *stmt) is Some,
        ensures
            res == self.rendering(engine, *stmt),
    {
        if !self.supports(engine) {
            return Err(SchemaError::Unsupported(engine));
        }
        Ok(render(engine, stmt))
    }
}

/// Decides what a mutation returns, from what the connection answered to its
/// command. What the connection reports of a success is dropped; its error is
/// passed on as it came, and no other kind of error is added.
pub fn executed(reply: Result<ExecResult, DbErr>) -> (res: Result<(), SchemaError>)
    ensures
        res == execution(reply),
{
    match reply {
        Ok(_) => Ok(()),
        Err(cause) => Err(SchemaError::DataAccess(cause)),
    }
}

} // verus!
