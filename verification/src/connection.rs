//! The connection handle, as far as dispatch is concerned.

use crate::engine::Engine;
use vstd::prelude::*;

verus! {

/// The handle through which the caller reaches its engine: a connection of
/// its own, or the scope of a transaction that is open on one.
///
/// Both kinds do the same work. The value records which kind the caller holds
/// and the one thing that every dispatch reads from it: the engine behind it.
/// The connection itself stays with the caller, who opened it and will close
/// it.
#[derive(Clone, Copy, Debug, PartialEq, Eq, Structural)]
pub enum SchemaManagerConnection {
    Connection(Engine),
    Transaction(Engine),
}

impl SchemaManagerConnection {
    /// The engine behind the handle.
    pub open spec fn engine(self) -> Engine {
        match self {
            SchemaManagerConnection::Connection(engine) => engine,
            SchemaManagerConnection::Transaction(engine) => engine,
        }
    }

    /// Reports which engine is behind the handle.
    pub fn get_database_backend(&self) -> (engine: Engine)
        ensures
            engine == self.engine(),
    {
        match self {
            SchemaManagerConnection::Connection(engine) => *engine,
            SchemaManagerConnection::Transaction(engine) => *engine,
        }
    }

    /// Whether the handle is the scope of a transaction.
    pub fn is_transaction(&self) -> (scoped: bool)
        ensures
            scoped == (*self is Transaction),
    {
        match self {
            SchemaManagerConnection::Connection(_) => false,
            SchemaManagerConnection::Transaction(_) => true,
        }
    }
}

/// Anything that can be turned into a connection handle.
pub trait IntoSchemaManagerConnection: Sized {
    /// The handle that the value stands for.
    spec fn handle(self) -> SchemaManagerConnection;

    /// Turns the value into its handle.
    fn into_schema_manager_connection(self) -> (conn: SchemaManagerConnection)
        ensures
            conn == self.handle(),
    ;
}

impl IntoSchemaManagerConnection for SchemaManagerConnection {
    open spec fn handle(self) -> SchemaManagerConnection {
        self
    }

    fn into_schema_manager_connection(self) -> (conn: SchemaManagerConnection) {
        self
    }
}

impl<'c> IntoSchemaManagerConnection for &'c SchemaManagerConnection {
    open spec fn handle(self) -> SchemaManagerConnection {
        *self
    }

    fn into_schema_manager_connection(self) -> (conn: SchemaManagerConnection) {
        *self
    }
}

} // verus!
