use vstd::prelude::*;

use crate::engine::{execute_statement, open_connection, PROBE_STATEMENT};
use crate::target::ConnectionConfig;

verus! {

/// Why a connection could not be had or could not be used, with the
/// engine's own error.
#[derive(Debug)]
pub enum ConnectionError {
    /// A connection could not be opened: a bad path, a directory, missing
    /// permissions, a file that is not a database, or an engine that could
    /// not start.
    OpenFailure(sqlite::Error),
    /// The liveness probe on an open connection did not complete.
    ProbeFailure(sqlite::Error),
}

impl ConnectionError {
    /// The engine's error, whichever kind of failure it was.
    pub open spec fn engine_error(self) -> sqlite::Error {
        match self {
            ConnectionError::OpenFailure(e) => e,
            ConnectionError::ProbeFailure(e) => e,
        }
    }

    /// Hands back the engine's error, for a caller that reports in the
    /// engine's own terms.
    pub fn into_engine_error(self) -> (r: sqlite::Error)
        ensures
            r == self.engine_error(),
    {
        match self {
            ConnectionError::OpenFailure(e) => e,
            ConnectionError::ProbeFailure(e) => e,
        }
    }
}

/// `r` is the outcome of an open as this library reports it: a success
/// carries the connection, a failure is an open failure.
pub open spec fn is_open_outcome(r: Result<sqlite::Connection, ConnectionError>) -> bool {
    match r {
        Ok(_) => true,
        Err(e) => e is OpenFailure,
    }
}

/// `r` is the outcome of a probe as this library reports it: a success, or a
/// probe failure.
pub open spec fn is_probe_outcome(r: Result<(), ConnectionError>) -> bool {
    match r {
        Ok(_) => true,
        Err(e) => e is ProbeFailure,
    }
}

/// The pool-facing manager of SQLite connections.
///
/// It holds the target for its whole lifetime and nothing else.
pub struct SqliteConnectionManager(ConnectionConfig);

impl SqliteConnectionManager {
    /// The target that every connection of this manager is opened on.
    pub closed spec fn config(&self) -> ConnectionConfig {
        self.0
    }

    /// A manager whose connections open the database file at `path`.
    ///
    /// The path is not checked here: a bad one makes `connect` fail.
    pub fn file(path: &str) -> (r: SqliteConnectionManager)
        ensures
            r.config().path() == Some(path@),
    {
        SqliteConnectionManager(ConnectionConfig::file(path))
    }

    /// A manager whose connections each open a fresh in-memory database.
    pub fn memory() -> (r: SqliteConnectionManager)
        ensures
            r.config().path() == None::<Seq<char>>,
    {
        SqliteConnectionManager(ConnectionConfig::memory())
    }

    /// The name that `connect` hands to the engine: the file path, or the
    /// in-memory name.
    pub fn database_name(&self) -> (r: &str)
        ensures
            r@ == self.config().open_name(),
    {
        self.0.database_name()
    }

    /// Classifies what the engine answered to an open: the connection is
    /// passed on, and an error becomes an open failure.
    pub fn open_outcome(opened: Result<sqlite::Connection, sqlite::Error>) -> (r: Result<sqlite::Connection, ConnectionError>)
        ensures
            match opened {
                Ok(c) => r == Ok::<sqlite::Connection, ConnectionError>(c),
                Err(e) => r == Err::<sqlite::Connection, ConnectionError>(ConnectionError::OpenFailure(e)),
            },
    {
        match opened {
            Ok(c) => Ok(c),
            Err(e) => Err(ConnectionError::OpenFailure(e)),
        }
    }

    /// Classifies what the engine answered to a probe: success is passed
    /// on, and an error becomes a probe failure.
    pub fn probe_outcome(probed: Result<(), sqlite::Error>) -> (r: Result<(), ConnectionError>)
        ensures
            match probed {
                Ok(_) => r is Ok,
                Err(e) => r == Err::<(), ConnectionError>(ConnectionError::ProbeFailure(e)),
            },
    {
        match probed {
            Ok(_) => Ok(()),
            Err(e) => Err(ConnectionError::ProbeFailure(e)),
        }
    }

    /// Opens a new connection on the target: the file at the stored path,
    /// or a fresh in-memory database of its own. There is no retry.
    ///
    /// Whether the open succeeds is up to the filesystem and the engine; a
    /// failure is always an open failure, and a name that holds a NUL
    /// character always fails.
    pub fn connect(&self) -> (r: Result<sqlite::Connection, ConnectionError>)
        ensures
            is_open_outcome(r),
            self.config().open_name().contains('\0') ==> r is Err,
    {
        let opened = open_connection(self.database_name());
        Self::open_outcome(opened)
    }

    /// Tests that `conn` still answers, by running the empty statement on
    /// it. The connection value is left as it was.
    pub fn is_valid(&self, conn: &mut sqlite::Connection) -> (r: Result<(), ConnectionError>)
        ensures
            is_probe_outcome(r),
            *final(conn) == *old(conn),
    {
        let probed = execute_statement(conn, PROBE_STATEMENT);
        Self::probe_outcome(probed)
    }

    /// Whether `conn` is beyond use. This manager keeps no health record of
    /// its connections and leaves that judgement to the probe: the answer is
    /// always `false`, and the connection is left as it was.
    pub fn has_broken(&self, conn: &mut sqlite::Connection) -> (r: bool)
        ensures
            !r,
            *final(conn) == *old(conn),
    {
        false
    }
}

} // verus!
