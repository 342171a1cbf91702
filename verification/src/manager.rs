//! The schema manager: one facade over statement rendering and existence
//! probes, for the engine behind one connection handle.

use crate::connection::{IntoSchemaManagerConnection, SchemaManagerConnection};
use crate::engine::{Dialects, Engine};
use crate::error::SchemaError;
use crate::probe::{column_probe, index_probe, table_probe, ProbeQuery};
use crate::statement::{rendered, SchemaStatement};
use sea_orm::sea_query::extension::postgres::{
    TypeAlterStatement, TypeCreateStatement, TypeDropStatement,
};
use sea_orm::sea_query::{
    ForeignKeyCreateStatement, ForeignKeyDropStatement, IndexCreateStatement, IndexDropStatement,
    TableAlterStatement, TableCreateStatement, TableDropStatement, TableRenameStatement,
    TableTruncateStatement,
};
use sea_orm::Statement;
use vstd::prelude::*;

verus! {

/// Prepares the schema operations of a migration, for the engine behind one
/// connection handle.
///
/// Every operation asks the handle for its engine anew; the manager keeps no
/// copy of that answer. A mutation returns the command to execute, an
/// inspection the probe to send. The caller runs it on its connection and
/// gives the answer to [`executed`](crate::statement::executed) or
/// [`existence`](crate::probe::existence).
pub struct SchemaManager {
    conn: SchemaManagerConnection,
    dialects: Dialects,
}

impl SchemaManager {
    /// The handle the manager was made with.
    pub closed spec fn connection(&self) -> SchemaManagerConnection {
        self.conn
    }

    /// The dialects the manager can dispatch to.
    pub closed spec fn registry(&self) -> Dialects {
        self.dialects
    }

    /// The engine that the handle reports.
    pub open spec fn engine(&self) -> Engine {
        self.connection().engine()
    }

    /// Whether `stmt` can be handed to the dialect of the manager's engine:
    /// where the registry holds that dialect, it must have a form for `stmt`.
    pub open spec fn renders(&self, stmt: SchemaStatement) -> bool {
        self.registry().has(self.engine()) ==> rendered(self.engine(), stmt) is Some
    }

    /// A manager on `conn`, with the dialects of all engines.
    pub fn new<T>(conn: T) -> (manager: Self) where T: IntoSchemaManagerConnection
        ensures
            manager.connection() == conn.handle(),
            manager.registry()@ == Set::<Engine>::full(),
    {
        SchemaManager { conn: conn.into_schema_manager_connection(), dialects: Dialects::all() }
    }

    /// A manager on `conn` that dispatches to `dialects` only.
    pub fn with_dialects<T>(conn: T, dialects: Dialects) -> (manager: Self) where
        T: IntoSchemaManagerConnection,
        ensures
            manager.connection() == conn.handle(),
            manager.registry() == dialects,
    {
        SchemaManager { conn: conn.into_schema_manager_connection(), dialects }
    }

    /// The statement executor: renders `stmt` in the dialect of the engine
    /// that the handle reports now, and returns the command to execute.
    pub fn exec_stmt(&self, stmt: SchemaStatement) -> (res: Result<Statement, SchemaError>)
        requires
            self.renders(stmt),
        ensures
            res == self.registry().rendering(self.engine(), stmt),
    {
        let engine = self.conn.get_database_backend();
        self.dialects.command(engine, &stmt)
    }

    /// The engine that the handle reports. A pure read: it changes nothing,
    /// and as long as the handle is the same, so is the answer.
    pub fn get_database_backend(&self) -> (engine: Engine)
        ensures
            engine == self.engine(),
    {
        self.conn.get_database_backend()
    }

    /// The handle itself, for what this facade does not offer.
    pub fn get_connection(&self) -> (conn: &SchemaManagerConnection)
        ensures
            *conn == self.connection(),
    {
        &self.conn
    }

    /// The dialects the manager can dispatch to.
    pub fn get_dialects(&self) -> (dialects: &Dialects)
        ensures
            *dialects == self.registry(),
    {
        &self.dialects
    }

    /// Creates a table.
    pub fn create_table(&self, stmt: TableCreateStatement) -> (res: Result<Statement, SchemaError>)
        requires
            self.renders(SchemaStatement::TableCreate(stmt)),
        ensures
            res == self.registry().rendering(self.engine(), SchemaStatement::TableCreate(stmt)),
    {
        self.exec_stmt(SchemaStatement::TableCreate(stmt))
    }

    /// Creates an index.
    pub fn create_index(&self, stmt: IndexCreateStatement) -> (res: Result<Statement, SchemaError>)
        requires
            self.renders(SchemaStatement::IndexCreate(stmt)),
        ensures
            res == self.registry().rendering(self.engine(), SchemaStatement::IndexCreate(stmt)),
    {
        self.exec_stmt(SchemaStatement::IndexCreate(stmt))
    }

    /// Creates a foreign key.
    pub fn create_foreign_key(&self, stmt: ForeignKeyCreateStatement) -> (res: Result<Statement, SchemaError>)
        requires
            self.renders(SchemaStatement::ForeignKeyCreate(stmt)),
        ensures
            res == self.registry().rendering(self.engine(), SchemaStatement::ForeignKeyCreate(stmt)),
    {
        self.exec_stmt(SchemaStatement::ForeignKeyCreate(stmt))
    }

    /// Creates an enumerated type.
    pub fn create_type(&self, stmt: TypeCreateStatement) -> (res: Result<Statement, SchemaError>)
        requires
            self.renders(SchemaStatement::TypeCreate(stmt)),
        ensures
            res == self.registry().rendering(self.engine(), SchemaStatement::TypeCreate(stmt)),
    {
        self.exec_stmt(SchemaStatement::TypeCreate(stmt))
    }

    /// Alters a table.
    pub fn alter_table(&self, stmt: TableAlterStatement) -> (res: Result<Statement, SchemaError>)
        requires
            self.renders(SchemaStatement::TableAlter(stmt)),
        ensures
            res == self.registry().rendering(self.engine(), SchemaStatement::TableAlter(stmt)),
    {
        self.exec_stmt(SchemaStatement::TableAlter(stmt))
    }

    /// Drops a table.
    pub fn drop_table(&self, stmt: TableDropStatement) -> (res: Result<Statement, SchemaError>)
        requires
            self.renders(SchemaStatement::TableDrop(stmt)),
        ensures
            res == self.registry().rendering(self.engine(), SchemaStatement::TableDrop(stmt)),
    {
        self.exec_stmt(SchemaStatement::TableDrop(stmt))
    }

    /// Renames a table.
    pub fn rename_table(&self, stmt: TableRenameStatement) -> (res: Result<Statement, SchemaError>)
        requires
            self.renders(SchemaStatement::TableRename(stmt)),
        ensures
            res == self.registry().rendering(self.engine(), SchemaStatement::TableRename(stmt)),
    {
        self.exec_stmt(SchemaStatement::TableRename(stmt))
    }

    /// Truncates a table.
    pub fn truncate_table(&self, stmt: TableTruncateStatement) -> (res: Result<Statement, SchemaError>)
        requires
            self.renders(SchemaStatement::TableTruncate(stmt)),
        ensures
            res == self.registry().rendering(self.engine(), SchemaStatement::TableTruncate(stmt)),
    {
        self.exec_stmt(SchemaStatement::TableTruncate(stmt))
    }

    /// Drops an index.
    pub fn drop_index(&self, stmt: IndexDropStatement) -> (res: Result<Statement, SchemaError>)
        requires
            self.renders(SchemaStatement::IndexDrop(stmt)),
        ensures
            res == self.registry().rendering(self.engine(), SchemaStatement::IndexDrop(stmt)),
    {
        self.exec_stmt(SchemaStatement::IndexDrop(stmt))
    }

    /// Drops a foreign key.
    pub fn drop_foreign_key(&self, stmt: ForeignKeyDropStatement) -> (res: Result<Statement, SchemaError>)
        requires
            self.renders(SchemaStatement::ForeignKeyDrop(stmt)),
        ensures
            res == self.registry().rendering(self.engine(), SchemaStatement::ForeignKeyDrop(stmt)),
    {
        self.exec_stmt(SchemaStatement::ForeignKeyDrop(stmt))
    }

    /// Alters an enumerated type.
    pub fn alter_type(&self, stmt: TypeAlterStatement) -> (res: Result<Statement, SchemaError>)
        requires
            self.renders(SchemaStatement::TypeAlter(stmt)),
        ensures
            res == self.registry().rendering(self.engine(), SchemaStatement::TypeAlter(stmt)),
    {
        self.exec_stmt(SchemaStatement::TypeAlter(stmt))
    }

    /// Drops an enumerated type.
    pub fn drop_type(&self, stmt: TypeDropStatement) -> (res: Result<Statement, SchemaError>)
        requires
            self.renders(SchemaStatement::TypeDrop(stmt)),
        ensures
            res == self.registry().rendering(self.engine(), SchemaStatement::TypeDrop(stmt)),
    {
        self.exec_stmt(SchemaStatement::TypeDrop(stmt))
    }

    /// Asks whether a table exists.
    pub fn has_table(&self, table: &str) -> (res: Result<ProbeQuery, SchemaError>)
        ensures
            res == self.registry().dispatched(self.engine(), table_probe(self.engine(), table@)),
    {
        has_table(&self.conn, &self.dialects, table)
    }

    /// Asks whether a table has a column.
    pub fn has_column(&self, table: &str, column: &str) -> (res: Result<ProbeQuery, SchemaError>)
        ensures
            res == self.registry().dispatched(
                self.engine(),
                column_probe(self.engine(), table@, column@),
            ),
    {
        let engine = self.conn.get_database_backend();
        self.dialects.column_probe(engine, table, column)
    }

    /// Asks whether a table has an index.
    pub fn has_index(&self, table: &str, index: &str) -> (res: Result<ProbeQuery, SchemaError>)
        ensures
            res == self.registry().dispatched(
                self.engine(),
                index_probe(self.engine(), table@, index@),
            ),
    {
        let engine = self.conn.get_database_backend();
        self.dialects.index_probe(engine, table, index)
    }
}

/// Asks, through any handle, whether a table exists.
pub fn has_table(conn: &SchemaManagerConnection, dialects: &Dialects, table: &str) -> (res: Result<
    ProbeQuery,
    SchemaError,
>)
    ensures
        res == dialects.dispatched(conn.engine(), table_probe(conn.engine(), table@)),
{
    let engine = conn.get_database_backend();
    dialects.table_probe(engine, table)
}

} // verus!
