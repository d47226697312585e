//! Constants and handle types of the SQLite C interface that the library
//! and its host share: result codes, open flags, P4 kinds, VDBE states and
//! column types.

use vstd::prelude::*;

verus! {

/// Opaque database connection handle; only ever used behind a pointer
#[allow(non_camel_case_types)]
pub struct sqlite3 {
    _opaque: (),
}

/// Opaque prepared statement handle (a VDBE program)
#[allow(non_camel_case_types)]
pub struct sqlite3_stmt {
    _opaque: (),
}

/// Opaque VDBE program handle
pub struct Vdbe {
    _opaque: (),
}

// Result codes
// =============================================================================

pub const SQLITE_OK: i32 = 0;
pub const SQLITE_ERROR: i32 = 1;
pub const SQLITE_INTERNAL: i32 = 2;
pub const SQLITE_PERM: i32 = 3;
pub const SQLITE_ABORT: i32 = 4;
pub const SQLITE_BUSY: i32 = 5;
pub const SQLITE_LOCKED: i32 = 6;
pub const SQLITE_NOMEM: i32 = 7;
pub const SQLITE_READONLY: i32 = 8;
pub const SQLITE_INTERRUPT: i32 = 9;
pub const SQLITE_IOERR: i32 = 10;
pub const SQLITE_CORRUPT: i32 = 11;
pub const SQLITE_NOTFOUND: i32 = 12;
pub const SQLITE_FULL: i32 = 13;
pub const SQLITE_CANTOPEN: i32 = 14;
pub const SQLITE_PROTOCOL: i32 = 15;
pub const SQLITE_EMPTY: i32 = 16;
pub const SQLITE_SCHEMA: i32 = 17;
pub const SQLITE_TOOBIG: i32 = 18;
pub const SQLITE_CONSTRAINT: i32 = 19;
pub const SQLITE_MISMATCH: i32 = 20;
pub const SQLITE_MISUSE: i32 = 21;
pub const SQLITE_NOLFS: i32 = 22;
pub const SQLITE_AUTH: i32 = 23;
pub const SQLITE_FORMAT: i32 = 24;
pub const SQLITE_RANGE: i32 = 25;
pub const SQLITE_NOTADB: i32 = 26;
pub const SQLITE_NOTICE: i32 = 27;
pub const SQLITE_WARNING: i32 = 28;
pub const SQLITE_ROW: i32 = 100;
pub const SQLITE_DONE: i32 = 101;

// =============================================================================
// Open flags
// =============================================================================

pub const SQLITE_OPEN_READONLY: i32 = 0x00000001;
pub const SQLITE_OPEN_READWRITE: i32 = 0x00000002;
pub const SQLITE_OPEN_CREATE: i32 = 0x00000004;
pub const SQLITE_OPEN_URI: i32 = 0x00000040;
pub const SQLITE_OPEN_MEMORY: i32 = 0x00000080;
pub const SQLITE_OPEN_NOMUTEX: i32 = 0x00008000;
pub const SQLITE_OPEN_FULLMUTEX: i32 = 0x00010000;
pub const SQLITE_OPEN_SHAREDCACHE: i32 = 0x00020000;
pub const SQLITE_OPEN_PRIVATECACHE: i32 = 0x00040000;

// =============================================================================
// P4 type constants (from vdbe.h)
// =============================================================================

pub const P4_NOTUSED: i32 = 0;
pub const P4_TRANSIENT: i32 = 0;
pub const P4_STATIC: i32 = -1;
pub const P4_COLLSEQ: i32 = -2;
pub const P4_INT32: i32 = -3;
pub const P4_SUBPROGRAM: i32 = -4;
pub const P4_TABLE: i32 = -5;
pub const P4_DYNAMIC: i32 = -6;
pub const P4_FUNCDEF: i32 = -7;
pub const P4_KEYINFO: i32 = -8;
pub const P4_EXPR: i32 = -9;
pub const P4_MEM: i32 = -10;
pub const P4_VTAB: i32 = -11;
pub const P4_REAL: i32 = -12;
pub const P4_INT64: i32 = -13;
pub const P4_INTARRAY: i32 = -14;
pub const P4_FUNCCTX: i32 = -15;
pub const P4_TABLEREF: i32 = -16;
pub const P4_SUBRTNSIG: i32 = -17;

// =============================================================================
// VDBE states
// =============================================================================

pub const VDBE_INIT_STATE: i32 = 0;
pub const VDBE_READY_STATE: i32 = 1;
pub const VDBE_RUN_STATE: i32 = 2;
pub const VDBE_HALT_STATE: i32 = 3;

// =============================================================================
// Column types
// =============================================================================

pub const SQLITE_INTEGER: i32 = 1;
pub const SQLITE_FLOAT: i32 = 2;
pub const SQLITE_TEXT: i32 = 3;
pub const SQLITE_BLOB: i32 = 4;
pub const SQLITE_NULL: i32 = 5;


} // verus!
