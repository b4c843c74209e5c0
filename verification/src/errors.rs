use vstd::prelude::*;

verus! {

/// The piece of prior state that an operation needed and did not find.
#[derive(Clone, Copy, Debug, PartialEq, Eq, Structural)]
pub enum PreconditionKind {
    /// No schema has been set or recovered yet.
    NoSchema,
    /// No index has been created or opened yet.
    NoIndex,
    /// No write session is currently held.
    NoWriter,
    /// No default search fields have been configured.
    NoDefaultFields,
}

/// The error taxonomy of the adapter.  Every public operation returns one of
/// these on failure; none of them aborts the process.
#[derive(Debug)]
pub enum SearchError {
    /// Schema construction was misused: an unknown field-option token, or a
    /// field name that is already taken.
    Configuration(String),
    /// An operation that needs prior state was invoked without it.
    Precondition(PreconditionKind),
    /// The underlying persisted store failed to create, open, read or commit.
    Storage(String),
    /// The free-text query handed to the simple search path is malformed.
    QueryParse(String),
    /// An ingested document does not conform to the active schema.
    DocumentValidation(String),
}

} // verus!
