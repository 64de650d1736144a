//! Storage layer core: a single-owner bridge for a blocking resource, a
//! transaction state machine, a connection pool, a row stream and the
//! schema-versioned value encoding.

use vstd::prelude::*;
use vstd::string::StringExecFns;

pub mod error;
pub mod bridge;
pub mod varint;
pub mod serializable;
pub mod pool;
pub mod connection;
pub mod stream;

verus! {

/// The event called to initialize the database.
pub struct InitDbEvent(());

impl InitDbEvent {
    /// The event.
    pub fn new() -> Self {
        InitDbEvent(())
    }

    /// Where the stores of the bot named `bot_name` lie; the way in which
    /// the database answers the event.
    pub fn db_paths(&self, bot_name: &str) -> (paths: DbPaths)
        ensures
            paths.directory@ == DB_DIRECTORY@,
            paths.persistent_file@ == bot_name@ + PERSISTENT_SUFFIX@,
            paths.transient_file@ == bot_name@ + TRANSIENT_SUFFIX@,
    {
        DbPaths {
            directory: String::from_str(DB_DIRECTORY),
            persistent_file: String::from_str(bot_name).concat(PERSISTENT_SUFFIX),
            transient_file: String::from_str(bot_name).concat(TRANSIENT_SUFFIX),
        }
    }
}

/// The directory of the stores, below the root path.
pub const DB_DIRECTORY: &'static str = "db";

/// What follows the bot's name in the name of the persistent store.
pub const PERSISTENT_SUFFIX: &'static str = ".db";

/// What follows the bot's name in the name of the transient store.
pub const TRANSIENT_SUFFIX: &'static str = ".transient.db";

/// The names that make up the paths of the two stores: both files lie in
/// `directory`, which lies below the configured root path.
pub struct DbPaths {
    pub directory: String,
    pub persistent_file: String,
    pub transient_file: String,
}

} // verus!
