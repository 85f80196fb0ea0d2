use vstd::prelude::*;

verus! {

/// The name under which SQLite opens a fresh, private in-memory database.
pub const MEMORY_NAME: &'static str = ":memory:";

/// Where the connections of a manager point.
///
/// Exactly one case holds, and a value is never changed after construction.
pub enum ConnectionConfig {
    /// A database file at this filesystem path. The path is not checked
    /// when the value is built: a bad path shows up when a connection is
    /// opened.
    File(String),
    /// An ephemeral database with no backing file; each connection gets an
    /// instance of its own.
    Memory,
}

impl ConnectionConfig {
    /// The path of a file target; `None` for the in-memory target.
    pub open spec fn path(&self) -> Option<Seq<char>> {
        match self {
            ConnectionConfig::File(p) => Some(p@),
            ConnectionConfig::Memory => None,
        }
    }

    /// The name handed to the database engine when a connection is opened.
    pub open spec fn open_name(&self) -> Seq<char> {
        match self {
            ConnectionConfig::File(p) => p@,
            ConnectionConfig::Memory => MEMORY_NAME@,
        }
    }

    /// A file target for `path`.
    pub fn file(path: &str) -> (r: ConnectionConfig)
        ensures
            r.path() == Some(path@),
    {
        ConnectionConfig::File(path.to_owned())
    }

    /// The in-memory target.
    pub fn memory() -> (r: ConnectionConfig)
        ensures
            r.path() == None::<Seq<char>>,
    {
        ConnectionConfig::Memory
    }

    /// The name to open: the path of a file target, or the in-memory name.
    pub fn database_name(&self) -> (r: &str)
        ensures
            r@ == self.open_name(),
    {
        match self {
            ConnectionConfig::File(p) => p.as_str(),
            ConnectionConfig::Memory => MEMORY_NAME,
        }
    }
}

} // verus!
