//! What an operation of the manager can fail with.

use crate::engine::Engine;
use crate::probe::ProbeKind;
use sea_orm::DbErr;
use vstd::prelude::*;

verus! {

/// `sea_orm::DbErr`, the error a connection reports. Carried through as it is.
#[verifier::external_type_specification]
#[verifier::external_body]
pub struct ExDbErr(DbErr);

/// The failures of a schema operation.
///
/// The three kinds are kept apart so that a caller can tell "the object does
/// not exist" (no error at all) from "the engine refused" and from "the probe
/// is broken".
#[derive(Debug, PartialEq)]
pub enum SchemaError {
    /// The engine rejected or failed the command or query, or the row it
    /// returned could not be read. Holds the cause, unchanged.
    DataAccess(DbErr),
    /// No dialect for this engine is present in the running build.
    Unsupported(Engine),
    /// An existence probe returned no row, where exactly one is owed.
    ProbeReturnedNoRow(ProbeKind),
}

impl SchemaError {
    /// Whether this is the configuration error: a fault of the deployment,
    /// which no retry on the same build can mend.
    pub open spec fn is_fatal(self) -> bool {
        self is Unsupported
    }

    /// Whether `text` describes this error: for a data-access error, what
    /// the cause displays as; for the others, the library's own words.
    pub open spec fn described_by(self, text: String) -> bool {
        match self {
            SchemaError::DataAccess(cause) => vstd::string::to_string_from_display_ensures::<DbErr>(
                &cause,
                text,
            ),
            SchemaError::Unsupported(engine) => text@ == engine.absence(),
            SchemaError::ProbeReturnedNoRow(kind) => text@ == kind.failure(),
        }
    }

    /// Describes the error in words.
    pub fn message(&self) -> (text: String)
        ensures
            self.described_by(text),
    {
        match self {
            SchemaError::DataAccess(cause) => cause.to_string(),
            SchemaError::Unsupported(engine) => engine.absence_message().to_owned(),
            SchemaError::ProbeReturnedNoRow(kind) => kind.failure_message().to_owned(),
        }
    }

    /// Tells the configuration error from the others.
    pub fn fatal(&self) -> (fatal: bool)
        ensures
            fatal == self.is_fatal(),
    {
        match self {
            SchemaError::Unsupported(_) => true,
            _ => false,
        }
    }
}

} // verus!
