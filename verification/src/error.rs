//! The failures that the storage layer reports.

use vstd::prelude::*;

verus! {

/// A failure of the storage layer.
#[derive(Debug, Clone, PartialEq, Eq)]
pub enum Error {
    /// No connection could be handed out and none can be opened.
    PoolExhausted,
    /// A checkout waited for a connection longer than the configured time.
    Timeout,
    /// The store could not be opened or the transient store not attached.
    ConnectionError,
    /// A bridge was used after it lost its value to an abandoned operation.
    PoisonedResource,
    /// The driver rejected a statement.
    SqlError { code: i32, message: String },
    /// A value could not be encoded or decoded.
    SerializationError,
    /// A stored value has a schema that cannot be migrated to the current one.
    MigrationUnsupported,
}

/// The code of a failure that arose in the driver and not in the engine.
pub const DRIVER_FAILURE_CODE: i32 = -1;

impl Error {
    /// The failure of a statement, from what the driver reports: the code of
    /// the engine, if the failure came from there, and the message.
    pub fn from_driver(code: Option<i32>, message: String) -> (e: Error)
        ensures
            e == (Error::SqlError {
                code: match code {
                    Some(c) => c,
                    None => DRIVER_FAILURE_CODE,
                },
                message,
            }),
    {
        match code {
            Some(code) => Error::SqlError { code, message },
            None => Error::SqlError { code: DRIVER_FAILURE_CODE, message },
        }
    }
}

} // verus!
