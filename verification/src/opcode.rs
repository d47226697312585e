//! The opcode enumeration under its earlier name.

pub use crate::insn::RawOpcode as Opcode;
