//! The calls into the `sqlite` crate, and what this library relies on of them.

use vstd::prelude::*;

verus! {

/// The statement run against a connection to test that it still answers:
/// an empty statement, which reads and writes nothing.
pub const PROBE_STATEMENT: &'static str = "";

#[verifier::external_type_specification]
#[verifier::external_body]
pub struct ExConnection(sqlite::Connection);

#[verifier::external_type_specification]
#[verifier::external_body]
pub struct ExError(sqlite::Error);

/// Relies on `sqlite::Connection::open`: it opens (creating it if needed) a
/// read-write database under `name`. A name with a NUL character cannot be
/// handed to the engine, and the call then fails.
#[verifier::external_body]
pub(crate) fn open_connection(name: &str) -> (r: Result<sqlite::Connection, sqlite::Error>)
    ensures
        name@.contains('\0') ==> r is Err,
{
    sqlite::Connection::open(name)
}

/// Relies on `sqlite::Connection::execute`: it runs `statement` through the
/// engine on the connection's own session. A statement with a NUL character
/// cannot be handed to the engine, and the call then fails.
#[verifier::external_body]
pub(crate) fn execute_statement(conn: &sqlite::Connection, statement: &str) -> (r: Result<(), sqlite::Error>)
    ensures
        statement@.contains('\0') ==> r is Err,
{
    conn.execute(statement)
}

} // verus!
