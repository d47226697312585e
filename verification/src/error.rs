//! Error type of the library and its rendering.

use vstd::prelude::*;

use crate::text::{decimal, push_decimal, push_decimal_u64};

verus! {

/// Error type for VDBE operations
#[derive(Debug)]
pub enum Error {
    /// SQLite returned an error code
    Sqlite { code: i32, message: Option<String> },
    /// Invalid path (non-UTF8 or contains null byte)
    InvalidPath,
    /// String conversion failed: the text holds a nul character at
    /// `position` (a byte offset); `bytes` are the text's bytes
    NulError { position: usize, bytes: Vec<u8> },
    /// Memory allocation failed
    AllocationFailed,
    /// Program is in wrong state for operation
    InvalidState { expected: &'static str, actual: &'static str },
    /// Register index out of bounds
    RegisterOutOfBounds { index: i32, max: i32 },
    /// Cursor index out of bounds
    CursorOutOfBounds { index: i32, max: i32 },
    /// Invalid opcode
    InvalidOpcode(u8),
}

/// Result type for VDBE operations
pub type Result<T> = core::result::Result<T, Error>;

/// The symbolic name of a primary SQLite result code, `SQLITE_UNKNOWN` for
/// codes without one here.
pub open spec fn code_name_of(code: i32) -> &'static str {
    match code {
        1 => "SQLITE_ERROR",
        2 => "SQLITE_INTERNAL",
        3 => "SQLITE_PERM",
        4 => "SQLITE_ABORT",
        5 => "SQLITE_BUSY",
        6 => "SQLITE_LOCKED",
        7 => "SQLITE_NOMEM",
        8 => "SQLITE_READONLY",
        9 => "SQLITE_INTERRUPT",
        10 => "SQLITE_IOERR",
        11 => "SQLITE_CORRUPT",
        12 => "SQLITE_NOTFOUND",
        13 => "SQLITE_FULL",
        14 => "SQLITE_CANTOPEN",
        15 => "SQLITE_PROTOCOL",
        17 => "SQLITE_SCHEMA",
        18 => "SQLITE_TOOBIG",
        19 => "SQLITE_CONSTRAINT",
        20 => "SQLITE_MISMATCH",
        21 => "SQLITE_MISUSE",
        25 => "SQLITE_RANGE",
        26 => "SQLITE_NOTADB",
        _ => "SQLITE_UNKNOWN",
    }
}

/// The text of an error, as its `Display` would write it.
pub open spec fn error_text(e: Error) -> Seq<char> {
    match e {
        Error::Sqlite { code, message } => match message {
            Some(m) => code_name_of(code)@ + " ("@ + decimal(code as int) + "): "@ + m@,
            None => code_name_of(code)@ + " ("@ + decimal(code as int) + ")"@,
        },
        Error::InvalidPath => "Invalid path: non-UTF8 or contains null byte"@,
        Error::NulError { position, .. } => "String contains null byte: nul byte found in provided data at position: "@
            + decimal(position as int),
        Error::AllocationFailed => "Memory allocation failed"@,
        Error::InvalidState { expected, actual } => "Invalid state: expected "@ + expected@ + ", got "@
            + actual@,
        Error::RegisterOutOfBounds { index, max } => "Register "@ + decimal(index as int)
            + " out of bounds (max: "@ + decimal(max as int) + ")"@,
        Error::CursorOutOfBounds { index, max } => "Cursor "@ + decimal(index as int)
            + " out of bounds (max: "@ + decimal(max as int) + ")"@,
        Error::InvalidOpcode(op) => "Invalid opcode: "@ + decimal(op as int),
    }
}

impl Error {
    /// Create an error from a SQLite error code
    pub fn from_code(code: i32) -> (e: Error)
        ensures
            e == (Error::Sqlite { code, message: None }),
    {
        Error::Sqlite { code, message: None }
    }

    /// Create an error from a SQLite error code with message
    pub fn from_code_with_message(code: i32, message: String) -> (e: Error)
        ensures
            e == (Error::Sqlite { code, message: Some(message) }),
    {
        Error::Sqlite { code, message: Some(message) }
    }

    /// The SQLite result code of the error, if it is a SQLite error.
    pub open spec fn code_of(self) -> Option<i32> {
        match self {
            Error::Sqlite { code, .. } => Some(code),
            _ => None,
        }
    }

    /// Get the SQLite error code if this is a SQLite error
    pub fn sqlite_code(&self) -> (c: Option<i32>)
        ensures
            c == self.code_of(),
    {
        match self {
            Error::Sqlite { code, .. } => Some(*code),
            _ => None,
        }
    }

    /// The symbolic name of a primary SQLite result code.
    pub fn code_name(code: i32) -> (s: &'static str)
        ensures
            s == code_name_of(code),
    {
        match code {
        1 => "SQLITE_ERROR",
        2 => "SQLITE_INTERNAL",
        3 => "SQLITE_PERM",
        4 => "SQLITE_ABORT",
        5 => "SQLITE_BUSY",
        6 => "SQLITE_LOCKED",
        7 => "SQLITE_NOMEM",
        8 => "SQLITE_READONLY",
        9 => "SQLITE_INTERRUPT",
        10 => "SQLITE_IOERR",
        11 => "SQLITE_CORRUPT",
        12 => "SQLITE_NOTFOUND",
        13 => "SQLITE_FULL",
        14 => "SQLITE_CANTOPEN",
        15 => "SQLITE_PROTOCOL",
        17 => "SQLITE_SCHEMA",
        18 => "SQLITE_TOOBIG",
        19 => "SQLITE_CONSTRAINT",
        20 => "SQLITE_MISMATCH",
        21 => "SQLITE_MISUSE",
        25 => "SQLITE_RANGE",
        26 => "SQLITE_NOTADB",
            _ => "SQLITE_UNKNOWN",
        }
    }

    /// The text of the error, as its `Display` writes it.
    pub fn display(&self) -> (s: String)
        ensures
            s@ == error_text(*self),
    {
        let mut s = String::new();
        match self {
            Error::Sqlite { code, message } => {
                s.append(Self::code_name(*code));
                s.append(" (");
                push_decimal(&mut s, *code as i64);
                match message {
                    Some(m) => {
                        s.append("): ");
                        s.append(m.as_str());
                    },
                    None => {
                        s.append(")");
                    },
                }
            },
            Error::InvalidPath => {
                s.append("Invalid path: non-UTF8 or contains null byte");
            },
            Error::NulError { position, .. } => {
                s.append("String contains null byte: nul byte found in provided data at position: ");
                push_decimal_u64(&mut s, *position as u64);
            },
            Error::AllocationFailed => {
                s.append("Memory allocation failed");
            },
            Error::InvalidState { expected, actual } => {
                s.append("Invalid state: expected ");
                s.append(expected);
                s.append(", got ");
                s.append(actual);
            },
            Error::RegisterOutOfBounds { index, max } => {
                s.append("Register ");
                push_decimal(&mut s, *index as i64);
                s.append(" out of bounds (max: ");
                push_decimal(&mut s, *max as i64);
                s.append(")");
            },
            Error::CursorOutOfBounds { index, max } => {
                s.append("Cursor ");
                push_decimal(&mut s, *index as i64);
                s.append(" out of bounds (max: ");
                push_decimal(&mut s, *max as i64);
                s.append(")");
            },
            Error::InvalidOpcode(op) => {
                s.append("Invalid opcode: ");
                push_decimal(&mut s, *op as i64);
            },
        }
        proof {
            assert(s@ =~= error_text(*self));
        }
        s
    }
}

/// The code that an error is made from, with or without a message, is the
/// code that `sqlite_code` reports for it.
pub proof fn law_sqlite_code_roundtrip(code: i32, message: Option<String>)
    ensures
        (Error::Sqlite { code, message }).code_of() == Some(code),
        (Error::Sqlite { code, message: None }).code_of() == Some(code),
{
}

} // verus!
