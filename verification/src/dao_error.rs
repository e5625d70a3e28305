//! The closed error sum over both adapters and the orchestrator.

use vstd::prelude::*;

verus! {

/// Every way a store, cache or orchestrated operation can fail.
///
/// "Not found" is never an error: read paths report absence with an empty
/// result instead.
#[derive(Debug, Clone, PartialEq, Eq)]
pub enum DaoError {
    /// A store or cache client could not be set up at startup.
    ServiceError(String),
    /// An underlying store operation failed; never retried by this layer.
    DatabaseError(String),
    /// An underlying cache operation failed; never retried by this layer.
    CacheError(String),
    /// `add` was attempted with an id that is already present.  The value
    /// carried is that id.  A recoverable, expected condition.
    IdExists(String),
    /// A cache entry held bytes that do not decode to a record.  The value
    /// carried describes the malformed input, so the cause is preserved.
    SerializationError(String),
    /// A cache response had an unexpected shape.
    GeneralError,
}

/// The result type shared by the adapters and the orchestrator.
pub type DaoResult<T> = Result<T, DaoError>;

} // verus!
