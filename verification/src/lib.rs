//! An embeddable full-text search adapter over the tantivy engine.
//!
//! The crate lets a host application declare a document schema field by
//! field, create or open a persisted index bound to that schema, buffer and
//! commit documents through a single write session, and run ranked queries
//! against point-in-time snapshots of the index.  Every operation reports
//! misuse (a missing schema, index or writer, an unknown field option, a
//! malformed query or document) as a recoverable [`errors::SearchError`]
//! instead of aborting.

pub mod engine;
pub mod errors;
pub mod options;
pub mod schema_builder;
pub mod session;

pub use session::PreparedQuery;
pub use session::top_docs_collector;
pub use errors::PreconditionKind;
pub use errors::SearchError;
pub use options::FieldCapabilities;
pub use schema_builder::Field;
pub use schema_builder::SaneSchemaBuilder;
pub use schema_builder::SchemaHandle;
pub use session::SaneSearch;
