use lib::connection::Connection;
use lib::insn::{Insn, RawOpcode, P4};
use lib::program::{Address, Call, ColumnRead, Program, StepResult};
use lib::value::Value;
use lib::{ffi, Error};

#[test]
fn test_open_in_memory() {
    let conn = Connection::open_in_memory();
    assert!(conn.is_ok());
}

#[test]
fn test_raw_opcode_values() {
    // SQLite 3.45.0 opcode values
    assert_eq!(RawOpcode::Integer.code(), 71);
    assert_eq!(RawOpcode::Add.code(), 106);
    assert_eq!(RawOpcode::Halt.code(), 70);
    assert_eq!(RawOpcode::ResultRow.code(), 84);
}

#[test]
fn test_insn_operands() {
    let insn = Insn::Integer { value: 42, dest: 1 };
    assert_eq!(insn.operands(), (42, 1, 0, 0));

    let insn = Insn::Add {
        lhs: 1,
        rhs: 2,
        dest: 3,
    };
    assert_eq!(insn.operands(), (1, 2, 3, 0));

    // Test that Subtract swaps operands
    let insn = Insn::Subtract {
        lhs: 1,
        rhs: 2,
        dest: 3,
    };
    assert_eq!(insn.operands(), (2, 1, 3, 0)); // P2-P1, so swap
}

#[test]
fn test_insn_name() {
    assert_eq!(Insn::Halt.name(), "Halt");
    assert_eq!(Insn::Integer { value: 0, dest: 0 }.name(), "Integer");
}

#[test]
fn test_address_display() {
    let addr = Address(42);
    assert_eq!(addr.display(), "@42");
}

#[test]
fn test_value_types() {
    assert!(Value::Null.is_null());
    assert!(Value::Integer(42).is_integer());
    assert!(Value::Real { bits: 3.14f64.to_bits(), text: 3.14f64.to_string() }.is_real());
    assert!(Value::Text("hello".into()).is_text());
    assert!(Value::Blob(vec![1, 2, 3]).is_blob());
}

#[test]
fn test_integer_coercion() {
    assert_eq!(Value::Integer(42).as_integer(), Some(42));
    assert_eq!(
        Value::Real { bits: 3.7f64.to_bits(), text: 3.7f64.to_string() }.as_integer(),
        Some(3)
    );
    assert_eq!(Value::Text("123".into()).as_integer(), Some(123));
    assert_eq!(Value::Null.as_integer(), None);
}

#[test]
fn test_program_instructions_accessor() {
    let mut conn = Connection::open_in_memory().unwrap();
    let mut builder = conn.new_program().unwrap();

    let r1 = builder.alloc_register();

    builder.add_with_comment(
        Insn::Integer {
            value: 42,
            dest: r1,
        },
        "the answer",
    );
    builder.add(Insn::ResultRow {
        start: r1,
        count: 1,
    });
    builder.add(Insn::Halt);

    let program = builder.finish(1).unwrap();
    let instructions = program.instructions();

    assert_eq!(instructions.len(), 3);
    assert_eq!(instructions[0].opcode, "Integer");
    assert_eq!(instructions[0].p1, 42);
    assert_eq!(instructions[0].p2, r1);
    assert_eq!(instructions[0].comment, "the answer");

    assert_eq!(instructions[1].opcode, "ResultRow");
    assert_eq!(instructions[2].opcode, "Halt");
}

#[test]
fn test_program_explain_display() {
    let mut conn = Connection::open_in_memory().unwrap();
    let mut builder = conn.new_program().unwrap();

    let r1 = builder.alloc_register();
    let r2 = builder.alloc_register();

    builder.add_with_comment(Insn::Init { target: 4 }, "Start at 4");
    builder.add_with_comment(
        Insn::Add {
            lhs: r2,
            rhs: r2,
            dest: r1,
        },
        "r[1]=r[2]+r[2]",
    );
    builder.add_with_comment(
        Insn::ResultRow {
            start: r1,
            count: 1,
        },
        "output=r[1]",
    );
    builder.add(Insn::Halt);
    builder.add_with_comment(Insn::Integer { value: 1, dest: r2 }, "r[2]=1");
    builder.add_with_comment(Insn::Goto { target: 1 }, "select 1 + 1;");

    let program = builder.finish(1).unwrap();
    let expected = "\
addr  opcode         p1    p2    p3    p4             p5  comment
----  -------------  ----  ----  ----  -------------  --  -------------
0     Init           0     4     0                    0   Start at 4
1     Add            2     2     1                    0   r[1]=r[2]+r[2]
2     ResultRow      1     1     0                    0   output=r[1]
3     Halt           0     0     0                    0   
4     Integer        1     2     0                    0   r[2]=1
5     Goto           0     1     0                    0   select 1 + 1;
";
    assert_eq!(program.display(), expected);
}

#[test]
fn test_value_type_conversions() {
    let v: Value = 42i64.into();
    assert_eq!(v, Value::Integer(42));
    assert_eq!(v.as_integer(), Some(42));

    let v = Value::Real { bits: 3.14f64.to_bits(), text: 3.14f64.to_string() };
    assert_eq!(v.as_integer(), Some(3)); // Truncates

    let v: Value = "123".into();
    assert_eq!(v.as_integer(), Some(123));

    let v: Value = "not a number".into();
    assert_eq!(v.as_integer(), None);

    let v: Value = None::<i64>.into();
    assert!(v.is_null());
}

#[test]
fn test_value_to_string_lossy() {
    assert_eq!(Value::Null.to_string_lossy(), "NULL");
    assert_eq!(Value::Integer(42).to_string_lossy(), "42");
    assert_eq!(
        Value::Real { bits: 3.14f64.to_bits(), text: 3.14f64.to_string() }.to_string_lossy(),
        "3.14"
    );
    assert_eq!(Value::Text("hello".to_string()).to_string_lossy(), "hello");
    assert_eq!(Value::Blob(vec![0xDE, 0xAD]).to_string_lossy(), "X'DEAD'");
}

#[test]
fn test_from_conversions() {
    let v: Value = 42i64.into();
    assert_eq!(v, Value::Integer(42));

    let v = Value::Real { bits: 3.14f64.to_bits(), text: 3.14f64.to_string() };
    assert_eq!(v, Value::Real { bits: 3.14f64.to_bits(), text: "3.14".to_string() });

    let v: Value = "hello".into();
    assert_eq!(v, Value::Text("hello".to_string()));

    let v: Value = None::<i64>.into();
    assert_eq!(v, Value::Null);
}
