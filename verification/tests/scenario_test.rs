use lib::connection::Connection;
use lib::error::Error;
use lib::insn::{Insn, InsnP4, RawOpcode, P4};
use lib::program::{Call, ColumnRead, Program, ProgramBuilder, StepResult};
use lib::text::{decimal_string, find_nul};
use lib::value::{float_bits_to_i64, Value};
use lib::{ffi, hex_encode, Opcode};

#[test]
fn register_allocation_is_one_based_and_consecutive() {
    let mut b = ProgramBuilder::new();
    assert_eq!(b.register_count(), 0);
    assert_eq!(b.memory_cells(), 1);
    assert_eq!(b.alloc_register(), 1);
    assert_eq!(b.alloc_register(), 2);
    assert_eq!(b.alloc_registers(3), 3);
    assert_eq!(b.alloc_register(), 6);
    assert_eq!(b.register_count(), 6);
    assert_eq!(b.memory_cells(), 7);
    assert_eq!(b.alloc_cursor(), 0);
    assert_eq!(b.alloc_cursor(), 1);
    assert_eq!(b.cursor_count(), 2);
    // Registers and cursors do not disturb each other.
    assert_eq!(b.alloc_register(), 7);
    assert_eq!(b.alloc_cursor(), 2);
    assert_eq!(b.alloc_registers(0), 8);
    assert_eq!(b.alloc_register(), 8);
    assert_eq!((b.register_count(), b.cursor_count()), (8, 3));
}

#[test]
fn emission_picks_shortest_call() {
    let mut b = ProgramBuilder::new();
    match b.add(Insn::Halt).call {
        Call::AddOp0 { opcode } => assert_eq!(opcode, 70),
        other => panic!("unexpected {:?}", other),
    }
    match b.add(Insn::Goto { target: 0 }).call {
        Call::AddOp2 { opcode, p1, p2 } => assert_eq!((opcode, p1, p2), (9, 0, 0)),
        other => panic!("unexpected {:?}", other),
    }
    match b.add(Insn::Integer { value: 0, dest: 0 }).call {
        Call::AddOp2 { opcode, p1, p2 } => assert_eq!((opcode, p1, p2), (71, 0, 0)),
        other => panic!("unexpected {:?}", other),
    }
    match b.add(Insn::Integer { value: 7, dest: 0 }).call {
        Call::AddOp1 { opcode, p1 } => assert_eq!((opcode, p1), (71, 7)),
        other => panic!("unexpected {:?}", other),
    }
    match b.add(Insn::Add { lhs: 1, rhs: 2, dest: 3 }).call {
        Call::AddOp3 { opcode, p1, p2, p3 } => assert_eq!((opcode, p1, p2, p3), (106, 1, 2, 3)),
        other => panic!("unexpected {:?}", other),
    }
}

#[test]
fn emission_of_p4_operands_and_p5() {
    let mut b = ProgramBuilder::new();
    match b.add(Insn::Int64 { value: 1 << 40, dest: 2 }).call {
        Call::AddOp2Int64 { opcode, p1, p2, p4 } => assert_eq!((opcode, p1, p2, p4), (72, 0, 2, 1 << 40)),
        other => panic!("unexpected {:?}", other),
    }
    let bits = 2.5f64.to_bits();
    match b.add(Insn::Real { bits, text: format!("{:?}", 2.5f64), dest: 3 }).call {
        Call::AddOp2Real { opcode, p1, p2, p4_bits } => assert_eq!((opcode, p1, p2, p4_bits), (153, 0, 3, bits)),
        other => panic!("unexpected {:?}", other),
    }
    match b.add(Insn::String8 { value: "hi".to_string(), dest: 1 }).call {
        Call::AddOp4Text { opcode, p1, p2, p3, p4 } => {
            assert_eq!((opcode, p1, p2, p3), (117, 0, 1, 0));
            assert_eq!(p4, "hi");
        }
        other => panic!("unexpected {:?}", other),
    }
    match b.add(Insn::String8 { value: "a\0b".to_string(), dest: 1 }).call {
        Call::AddOp3 { opcode, p1, p2, p3 } => assert_eq!((opcode, p1, p2, p3), (117, 0, 1, 0)),
        other => panic!("unexpected {:?}", other),
    }
    let raw = Insn::Raw { opcode: RawOpcode::Function, p1: 1, p2: 2, p3: 3, p4: P4::Int(9), p5: 4 };
    let e = b.add(raw);
    match e.call {
        Call::AddOp4Int { opcode, p1, p2, p3, p4 } => assert_eq!((opcode, p1, p2, p3, p4), (66, 1, 2, 3, 9)),
        other => panic!("unexpected {:?}", other),
    }
    assert_eq!(e.p5, Some(4));
    let e = b.add(Insn::SeekGE { cursor: 0, target: 5, key: 2, num_fields: 3 });
    assert_eq!(e.p5, Some(3));
    assert!(b.add(Insn::Halt).p5.is_none());
}

#[test]
fn records_show_p4_and_operands() {
    let mut b = ProgramBuilder::new();
    b.add(Insn::Int64 { value: -12, dest: 2 });
    b.add(Insn::Real { bits: 1.0f64.to_bits(), text: format!("{:?}", 1.0f64), dest: 3 });
    b.add(Insn::String8 { value: "txt".to_string(), dest: 4 });
    b.add(Insn::Raw { opcode: RawOpcode::Noop, p1: 0, p2: 0, p3: 0, p4: P4::Int(77), p5: 0 });
    b.add_with_comment(Insn::Lt { lhs: 1, rhs: 2, target: 9 }, "lt");
    b.add(Insn::Null { dest: 3, count: 4 });
    let p = b.finish(0).unwrap();
    let r = p.instructions();
    assert_eq!(r[0].p4, "-12");
    assert_eq!(r[1].p4, "1.0");
    assert_eq!(r[2].p4, "txt");
    assert_eq!(r[3].opcode, "Raw");
    assert_eq!(r[3].p4, "77");
    assert_eq!((r[4].p1, r[4].p2, r[4].p3), (2, 9, 1));
    assert_eq!(r[4].comment, "lt");
    assert_eq!((r[5].p1, r[5].p2, r[5].p3), (0, 3, 6));
    assert_eq!(r[5].p4, "");
}

#[test]
fn swapped_operand_encodings() {
    assert_eq!(Insn::Divide { lhs: 4, rhs: 5, dest: 6 }.operands(), (5, 4, 6, 0));
    assert_eq!(Insn::Remainder { lhs: 4, rhs: 5, dest: 6 }.operands(), (5, 4, 6, 0));
    assert_eq!(Insn::Concat { lhs: 4, rhs: 5, dest: 6 }.operands(), (5, 4, 6, 0));
    assert_eq!(Insn::ShiftLeft { lhs: 4, rhs: 5, dest: 6 }.operands(), (5, 4, 6, 0));
    assert_eq!(Insn::Eq { lhs: 1, rhs: 2, target: 3 }.operands(), (2, 3, 1, 0));
    assert_eq!(Insn::If { src: 1, target: 2, jump_if_null: true }.operands(), (1, 2, 1, 0));
    assert_eq!(Insn::HaltIfNull { src: 1, error_code: 2, target: 3 }.operands(), (2, 3, 1, 0));
    assert_eq!(Insn::AggStep { func_def: 9, args: 1, accum: 2, num_args: 3 }.operands(), (0, 1, 2, 3));
    assert_eq!(Insn::Copy { src: 1, dest: 5, count: 3 }.operands(), (1, 5, 2, 0));
    assert_eq!(Insn::Copy { src: 1, dest: 5, count: 1 }.operands(), (1, 5, 0, 0));
    assert_eq!(Insn::SeekLT { cursor: 1, target: 2, key: 3, num_fields: 70000 }.operands(), (1, 2, 3, 4464));
}

#[test]
fn opcode_numbers_and_names() {
    assert_eq!(RawOpcode::Savepoint.code(), 0);
    assert_eq!(RawOpcode::Param.code(), 157);
    assert_eq!(RawOpcode::MemMax.code(), 159);
    assert_eq!(RawOpcode::Abortable.code(), 189);
    assert_eq!(Opcode::Goto.code(), 9);
    assert_eq!(RawOpcode::Halt.name(), "Halt");
    assert_eq!(RawOpcode::Copy.name(), "Copy");
    assert_eq!(RawOpcode::Abortable.name(), "Abortable");
    assert_eq!(Insn::Copy { src: 1, dest: 2, count: 1 }.name(), RawOpcode::Copy.name());
    assert_eq!(Insn::HaltWithError { error_code: 1, on_error: 2 }.name(), "Halt");
    assert_eq!(Insn::HaltWithError { error_code: 1, on_error: 2 }.raw_opcode(), 70);
    assert_eq!(Insn::Real { bits: 0, text: "0.0".into(), dest: 1 }.raw_opcode(), 153);
    assert_eq!(Insn::Raw { opcode: RawOpcode::Trace, p1: 0, p2: 0, p3: 0, p4: P4::NotUsed, p5: 0 }.raw_opcode(), 184);
    assert_eq!(Insn::Explain.display(), "Explain");
    assert!(Insn::Halt.p4().is_none());
    assert!(matches!(Insn::Int64 { value: 5, dest: 1 }.p4(), Some(InsnP4::Int64(5))));
}

#[test]
fn legacy_calls() {
    let mut b = ProgramBuilder::new();
    assert!(matches!(b.add_op0(RawOpcode::Halt), Call::AddOp0 { opcode: 70 }));
    assert!(matches!(b.add_op1(RawOpcode::Return, 4), Call::AddOp1 { opcode: 67, p1: 4 }));
    assert!(matches!(b.add_op2(RawOpcode::Integer, 4, 1), Call::AddOp2 { opcode: 71, p1: 4, p2: 1 }));
    assert!(matches!(b.add_op3(RawOpcode::Add, 1, 2, 3), Call::AddOp3 { opcode: 106, p1: 1, p2: 2, p3: 3 }));
    assert!(matches!(b.add_op4_int(RawOpcode::Function, 1, 2, 3, 4), Call::AddOp4Int { opcode: 66, p4: 4, .. }));
    match b.add_op4_str(RawOpcode::String8, 0, 1, 0, "abc") {
        Ok(Call::AddOp4Text { opcode, p4, .. }) => {
            assert_eq!(opcode, 117);
            assert_eq!(p4, "abc");
        }
        other => panic!("unexpected {:?}", other),
    }
    match b.add_op4_str(RawOpcode::String8, 0, 1, 0, "ab\0c") {
        Err(Error::NulError { position, bytes }) => {
            assert_eq!(position, 2);
            assert_eq!(bytes, b"ab\0c".to_vec());
        }
        other => panic!("unexpected {:?}", other),
    }
    // Every legacy call that succeeded is recorded, in order.
    let p = b.finish(0).unwrap();
    let names: Vec<&str> = p.instructions().iter().map(|r| r.opcode.as_str()).collect();
    assert_eq!(names, vec!["Halt", "Return", "Integer", "Add", "Function", "String8"]);
    let r = &p.instructions()[4];
    assert_eq!((r.p1, r.p2, r.p3, r.p4.as_str(), r.p5, r.comment.as_str()), (1, 2, 3, "4", 0, ""));
    assert_eq!(p.instructions()[5].p4, "abc");
    assert_eq!(p.instructions()[1].p1, 4);
}

#[test]
fn step_outcomes() {
    let mut p = ProgramBuilder::new().finish(2).unwrap();
    assert!(!p.is_done());
    assert_eq!(p.result_columns(), 2);
    assert_eq!(p.memory_cells(), 1);
    assert_eq!(p.cursor_slots(), 0);
    assert_eq!(p.step(ffi::SQLITE_ROW, String::new()).unwrap(), StepResult::Row);
    assert!(!p.is_done());
    assert_eq!(p.step(ffi::SQLITE_DONE, String::new()).unwrap(), StepResult::Done);
    assert!(p.is_done());
    // A step after completion that reports a row (the program ran again)
    // means execution has not completed.
    assert_eq!(p.step(ffi::SQLITE_ROW, String::new()).unwrap(), StepResult::Row);
    assert!(!p.is_done());
    assert_eq!(p.step(ffi::SQLITE_DONE, String::new()).unwrap(), StepResult::Done);
    match p.step(ffi::SQLITE_MISUSE, "bad".to_string()) {
        Err(e) => {
            assert_eq!(e.sqlite_code(), Some(21));
            assert_eq!(e.display(), "SQLITE_MISUSE (21): bad");
        }
        Ok(_) => panic!("expected an error"),
    }
    assert!(p.is_done());
    p.reset();
    assert!(!p.is_done());
}

#[test]
fn register_writes_and_column_reads() {
    assert!(Program::register_write_outcome(ffi::SQLITE_OK, 3, 10).is_ok());
    match Program::register_write_outcome(ffi::SQLITE_RANGE, 30, 10) {
        Err(e) => assert_eq!(e.display(), "Register 30 out of bounds (max: 10)"),
        Ok(_) => panic!("expected an error"),
    }
    assert_eq!(Program::column_read(ffi::SQLITE_INTEGER), ColumnRead::Integer);
    assert_eq!(Program::column_read(ffi::SQLITE_FLOAT), ColumnRead::Real);
    assert_eq!(Program::column_read(ffi::SQLITE_TEXT), ColumnRead::Text);
    assert_eq!(Program::column_read(ffi::SQLITE_BLOB), ColumnRead::Blob);
    assert_eq!(Program::column_read(ffi::SQLITE_NULL), ColumnRead::Null);
    assert_eq!(Program::column_read(42), ColumnRead::Null);
}

#[test]
fn error_texts() {
    assert_eq!(Error::from_code(1).display(), "SQLITE_ERROR (1)");
    assert_eq!(Error::from_code(16).display(), "SQLITE_UNKNOWN (16)");
    assert_eq!(Error::from_code_with_message(14, "no file".into()).display(), "SQLITE_CANTOPEN (14): no file");
    assert_eq!(Error::from_code(26).sqlite_code(), Some(26));
    assert_eq!(Error::InvalidPath.sqlite_code(), None);
    assert_eq!(Error::InvalidPath.display(), "Invalid path: non-UTF8 or contains null byte");
    assert_eq!(
        Error::NulError { position: 3, bytes: vec![] }.display(),
        "String contains null byte: nul byte found in provided data at position: 3"
    );
    assert_eq!(Error::AllocationFailed.display(), "Memory allocation failed");
    assert_eq!(
        Error::InvalidState { expected: "ready", actual: "done" }.display(),
        "Invalid state: expected ready, got done"
    );
    assert_eq!(Error::CursorOutOfBounds { index: -1, max: 4 }.display(), "Cursor -1 out of bounds (max: 4)");
    assert_eq!(Error::InvalidOpcode(200).display(), "Invalid opcode: 200");
    assert_eq!(Error::code_name(25), "SQLITE_RANGE");
    assert_eq!(Error::code_name(0), "SQLITE_UNKNOWN");
}

#[test]
fn connection_paths_and_results() {
    let c = Connection::open("test.db").unwrap();
    assert_eq!(c.path(), "test.db");
    assert_eq!(c.flags(), ffi::SQLITE_OPEN_READWRITE | ffi::SQLITE_OPEN_CREATE);
    let m = Connection::open_in_memory().unwrap();
    assert_eq!(m.path(), ":memory:");
    assert!(matches!(Connection::open("bad\0path"), Err(Error::InvalidPath)));
    assert!(matches!(Connection::open_with_flags("test\0.db", 1), Err(Error::InvalidPath)));
    let c = Connection::open_with_flags("/x.db", ffi::SQLITE_OPEN_READONLY).unwrap();
    assert_eq!(c.flags(), 1);
    assert!(c.opened(ffi::SQLITE_OK, String::new()).is_ok());
    let c = Connection::open_with_flags("/x.db", ffi::SQLITE_OPEN_READONLY).unwrap();
    match c.opened(ffi::SQLITE_CANTOPEN, "unable to open database file".into()) {
        Err(e) => assert_eq!(e.display(), "SQLITE_CANTOPEN (14): unable to open database file"),
        Ok(_) => panic!("expected an error"),
    }
    let mut c = Connection::open_in_memory().unwrap();
    let b = c.new_program().unwrap();
    assert_eq!((b.register_count(), b.cursor_count()), (0, 0));
}

#[test]
fn float_truncation() {
    let t = |f: f64| float_bits_to_i64(f.to_bits());
    for f in [0.0, -0.0, 0.5, -0.5, 1.0, 3.7, -3.7, 1e15 + 0.5, 4503599627370497.0, -9007199254740993.0,
              9.2e18, 9.3e18, -9.3e18, 1e300, -1e300, f64::INFINITY, f64::NEG_INFINITY, f64::NAN,
              -9223372036854775808.0, 9223372036854775807.0, f64::MIN_POSITIVE, 5e-324] {
        assert_eq!(t(f), f as i64, "for {}", f);
    }
}

#[test]
fn value_coercions_and_text() {
    assert_eq!(Value::Text("+17".into()).as_integer(), Some(17));
    assert_eq!(Value::Text("-0".into()).as_integer(), Some(0));
    assert_eq!(Value::Text(" 1".into()).as_integer(), None);
    assert_eq!(Value::Text("9223372036854775808".into()).as_integer(), None);
    assert_eq!(Value::Blob(vec![1]).as_integer(), None);
    assert_eq!(Value::Text("a".into()).as_text(), Some("a"));
    assert_eq!(Value::Integer(1).as_text(), None);
    assert_eq!(Value::Blob(vec![1, 2]).as_blob(), Some(&[1u8, 2][..]));
    assert_eq!(Value::Null.as_blob(), None);
    assert_eq!(Value::Null.to_string_lossy(), "NULL");
    assert_eq!(Value::Integer(-42).to_string_lossy(), "-42");
    assert_eq!(Value::Real { bits: 2.5f64.to_bits(), text: 2.5f64.to_string() }.to_string_lossy(), "2.5");
    assert_eq!(Value::Text("hi".into()).to_string_lossy(), "hi");
    assert_eq!(Value::Blob(vec![0xde, 0xad, 0x01]).to_string_lossy(), "X'DEAD01'");
    assert_eq!(Value::default(), Value::Null);
    assert_eq!(Value::from(5i32), Value::Integer(5));
    assert_eq!(Value::from(vec![7u8]), Value::Blob(vec![7]));
    assert_eq!(Value::from("s".to_string()), Value::Text("s".into()));
}

#[test]
fn integer_text_roundtrip() {
    for i in [0i64, 1, -1, 10, 99, -100, i64::MAX, i64::MIN, 1234567890123] {
        let text = Value::Integer(i).to_string_lossy();
        assert_eq!(text, i.to_string());
        assert_eq!(Value::Text(text).as_integer(), Some(i));
    }
}

#[test]
fn text_helpers() {
    assert_eq!(hex_encode(&[]), "");
    assert_eq!(hex_encode(&[0x00, 0x0f, 0xff]), "000FFF");
    assert_eq!(hex_encode(&[1, 2, 3]).len(), 6);
    // Decoding the digit pairs gives the bytes back.
    let bytes = [0u8, 1, 0x7f, 0x80, 0xab, 0xff];
    let hex = hex_encode(&bytes);
    for (i, b) in bytes.iter().enumerate() {
        assert_eq!(u8::from_str_radix(&hex[2 * i..2 * i + 2], 16), Ok(*b));
    }
    assert_eq!(hex_encode(&[1, 2, 0xfe]), format!("{}{}", hex_encode(&[1]), hex_encode(&[2, 0xfe])));
    assert_eq!(decimal_string(i64::MIN), "-9223372036854775808");
    assert_eq!(find_nul(b"abc"), None);
    assert_eq!(find_nul(b"a\0b\0"), Some(1));
    assert_eq!(Value::Text("-".into()).as_integer(), None);
    assert_eq!(Value::Text("".into()).as_integer(), None);
    assert_eq!(Value::Text("12a".into()).as_integer(), None);
    assert_eq!(Value::Text(" 12".into()).as_integer(), None);
    assert_eq!(Value::Text("+12".into()).as_integer(), Some(12));
    assert_eq!(Value::Text("9223372036854775808".into()).as_integer(), None);
    assert_eq!(Value::Text("-9223372036854775808".into()).as_integer(), Some(i64::MIN));
}
