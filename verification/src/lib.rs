//! A dialect-agnostic schema-migration executor, without the I/O.
//!
//! A caller holds a connection to one relational engine. For each schema
//! change, and for each question about the schema ("does this table, column
//! or index exist?"), the [`SchemaManager`] picks the dialect of the engine
//! behind that connection and hands back the command to run there; what the
//! connection answers goes to [`executed`] or [`existence`], which decide
//! what the operation returns.
//!
//! The caller sends the command and awaits the answer. Nothing in this
//! library waits, retries or opens a transaction.

pub mod connection;
pub mod engine;
pub mod error;
pub mod laws;
pub mod manager;
pub mod probe;
pub mod statement;

pub use connection::{IntoSchemaManagerConnection, SchemaManagerConnection};
pub use engine::{Dialects, Engine};
pub use error::SchemaError;
pub use manager::{has_table, SchemaManager};
pub use probe::{existence, read_flag, ProbeKind, ProbeQuery};
pub use statement::{executed, render, SchemaStatement};
