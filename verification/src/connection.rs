//! Database connections: the path and open flags a connection is made with,
//! and the outcome of opening it.

use vstd::prelude::*;

use crate::error::{Error, Result};
use crate::ffi;
use crate::program::ProgramBuilder;
use crate::text::contains_nul;

verus! {

/// A connection to a SQLite database
///
/// Holds the path and the `SQLITE_OPEN_*` flags the database is opened
/// with. The host opens the database (`sqlite3_open_v2`) with them and
/// reports the result code to [`Connection::opened`].
pub struct Connection {
    path: String,
    flags: i32,
}

/// The flags `open` uses: read-write access, creating the file if needed.
pub open spec fn default_open_flags() -> i32 {
    ffi::SQLITE_OPEN_READWRITE | ffi::SQLITE_OPEN_CREATE
}

/// What opening `path` with `flags` gives: the connection, or `InvalidPath`
/// for a path that holds a nul character.
pub open spec fn open_result(path: Seq<char>, flags: i32, r: Result<Connection>) -> bool {
    match r {
        Ok(c) => !path.contains('\0') && c.path_of() == path && c.flags_of() == flags,
        Err(Error::InvalidPath) => path.contains('\0'),
        Err(_) => false,
    }
}

impl Connection {
    /// The database path.
    pub closed spec fn path_of(&self) -> Seq<char> {
        self.path@
    }

    /// The open flags.
    pub closed spec fn flags_of(&self) -> i32 {
        self.flags
    }

    /// Open a database file
    ///
    /// Creates or opens the database at the given path with read-write
    /// access. If the file doesn't exist, it will be created. `":memory:"`
    /// names an in-memory database.
    pub fn open(path: &str) -> (r: Result<Connection>)
        ensures
            open_result(path@, default_open_flags(), r),
    {
        Self::open_with_flags(path, ffi::SQLITE_OPEN_READWRITE | ffi::SQLITE_OPEN_CREATE)
    }

    /// Open an in-memory database
    ///
    /// Creates a temporary database that exists only in memory.
    pub fn open_in_memory() -> (r: Result<Connection>)
        ensures
            r matches Ok(c) && c.path_of() == ":memory:"@ && c.flags_of() == default_open_flags(),
    {
        let path = ":memory:";
        proof {
            reveal_strlit(":memory:");
            assert(!path@.contains('\0'));
        }
        Self::open(path)
    }

    /// Open a database with specific flags
    ///
    /// A path holding a nul byte cannot be passed on and gives `InvalidPath`.
    pub fn open_with_flags(path: &str, flags: i32) -> (r: Result<Connection>)
        ensures
            open_result(path@, flags, r),
    {
        if contains_nul(path) {
            Err(Error::InvalidPath)
        } else {
            Ok(Connection { path: String::from_str(path), flags })
        }
    }

    /// Takes the result code of opening the database (`sqlite3_open_v2`)
    /// and the error message reported with it: `SQLITE_OK` gives the open
    /// connection, any other code an error with the code and the message.
    pub fn opened(self, rc: i32, message: String) -> (r: Result<Connection>)
        ensures
            rc == ffi::SQLITE_OK ==> (r matches Ok(c) && c.path_of() == self.path_of()
                && c.flags_of() == self.flags_of()),
            rc != ffi::SQLITE_OK ==> r == Err::<Connection, Error>(
                Error::Sqlite { code: rc, message: Some(message) },
            ),
    {
        if rc == ffi::SQLITE_OK {
            Ok(self)
        } else {
            Err(Error::from_code_with_message(rc, message))
        }
    }

    /// The database path.
    pub fn path(&self) -> (s: &str)
        ensures
            s@ == self.path_of(),
    {
        self.path.as_str()
    }

    /// The open flags.
    pub fn flags(&self) -> (f: i32)
        ensures
            f == self.flags_of(),
    {
        self.flags
    }

    /// Create a new VDBE program builder: no registers (register 0 is
    /// reserved), no cursors, no instructions. The host pairs it with a
    /// fresh engine program (`sqlite3_vdbe_create`).
    pub fn new_program(&mut self) -> (r: Result<ProgramBuilder>)
        ensures
            r matches Ok(b) && b.registers() == 1 && b.cursors() == 0 && b.records().len() == 0,
            final(self).path_of() == old(self).path_of(),
            final(self).flags_of() == old(self).flags_of(),
    {
        Ok(ProgramBuilder::new())
    }
}

} // verus!
