//! Low-level building blocks for SQLite VDBE (Virtual Database Engine)
//! bytecode programs.
//!
//! The library holds the parts of a VDBE front end that do not touch the
//! engine itself: the instruction set and its operand encoding, register and
//! cursor allocation, the record of emitted instructions and its EXPLAIN
//! rendering, the decisions taken on the engine's result codes, and the value
//! and error types. A host links the engine and carries out the calls that
//! the library plans.

pub mod connection;
pub mod error;
pub mod ffi;
pub mod insn;
pub mod opcode;
pub mod program;
pub mod text;
pub mod value;

pub use text::hex_encode;
pub use insn::{Insn, InsnP4, RawOpcode, P4};
pub use error::{Error, Result};
pub use program::{Address, InsnRecord, Program, ProgramBuilder, StepResult};
pub use connection::Connection;
pub use value::Value;
pub use insn::RawOpcode as Opcode;
pub use ffi::{
    SQLITE_BLOB, SQLITE_DONE, SQLITE_ERROR, SQLITE_FLOAT, SQLITE_INTEGER, SQLITE_NULL, SQLITE_OK,
    SQLITE_ROW, SQLITE_TEXT,
};
