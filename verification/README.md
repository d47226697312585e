# VDBE bytecode building blocks

A library for building SQLite VDBE bytecode programs without SQL, with its
logic verified by Verus.

- `src/` is the verified library: the instruction set (`insn`), opcode
  numbers and operand encoding; register and cursor allocation, the record
  of added instructions and the engine calls that emit each one, the
  EXPLAIN listing and the decisions taken on the engine's result codes
  (`program`); connections' paths and open flags (`connection`); values and
  their coercions, including the float-to-integer cast done on the float's
  bit pattern (`value`); errors and their text (`error`); decimal, hex and
  padding helpers (`text`); the C interface's constants and handle types
  (`ffi`).
- `app/` is the host: it links the SQLite engine, performs the calls the
  library plans, reads result columns, and keeps the floating-point parts
  (`Value::Real` as an `f64`).
- `tests/` exercises the library on concrete values.
