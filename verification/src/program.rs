//! Building VDBE programs and following their execution.
//!
//! [`ProgramBuilder`] allocates registers and cursors, records each added
//! instruction for display, and says which engine call emits it.
//! [`Program`] is a finished program: it keeps the instruction records, the
//! sizes the engine is prepared with, and whether execution has completed,
//! and renders the records in SQLite's `EXPLAIN` format:
//!
//! ```text
//! addr  opcode         p1    p2    p3    p4             p5  comment
//! ----  -------------  ----  ----  ----  -------------  --  -------------
//! 0     Init           0     4     0                    0   Start at 4
//! 1     Add            2     2     1                    0   r[1]=r[2]+r[2]
//! 2     ResultRow      1     1     0                    0   output=r[1]
//! 3     Halt           0     0     0                    0
//! ```

use vstd::prelude::*;

use crate::error::{Error, Result};
use crate::ffi;
use crate::insn::{Insn, InsnP4, RawOpcode};

pub use crate::insn::RawOpcode as Opcode;
use crate::text::{contains_nul, find_nul, first_nul, decimal, decimal_string, padded, push_char, push_decimal, push_decimal_u64, push_padded};
use vstd::string::{StrSliceExecFns, StringSliceAdditionalSpecFns};

verus! {

/// Address of an instruction in the VDBE program
///
/// Addresses are 0-based indices into the opcode array.
#[derive(Debug, Clone, Copy, PartialEq, Eq, Structural, Hash)]
pub struct Address(pub i32);

impl Address {
    /// Get the raw address value
    pub fn raw(&self) -> (r: i32)
        ensures
            r == self.0,
    {
        self.0
    }

    /// The address as its `Display` writes it: `@` and the decimal number.
    pub fn display(&self) -> (s: String)
        ensures
            s@ == seq!['@'] + decimal(self.0 as int),
    {
        let mut s = String::new();
        push_char(&mut s, '@');
        push_decimal(&mut s, self.0 as i64);
        proof {
            assert(s@ =~= seq!['@'] + decimal(self.0 as int));
        }
        s
    }
}

/// Record of an instruction for display and inspection
///
/// This stores the information needed to display instructions in SQLite's
/// EXPLAIN format: the opcode name, operands (P1-P5), and an optional
/// comment.
#[derive(Debug, Clone)]
pub struct InsnRecord {
    /// Opcode name (e.g., "Add", "Integer", "Goto")
    pub opcode: String,
    /// P1 operand
    pub p1: i32,
    /// P2 operand
    pub p2: i32,
    /// P3 operand
    pub p3: i32,
    /// P4 operand as string (empty if not used)
    pub p4: String,
    /// P5 operand
    pub p5: u16,
    /// Optional comment for display
    pub comment: String,
}

/// How a P4 operand is shown in an instruction record: integers in decimal,
/// a float by its `{:?}` rendering, a string as itself, nothing when absent.
pub open spec fn p4_text(p4: Option<InsnP4>) -> Seq<char> {
    match p4 {
        Some(InsnP4::Int(i)) => decimal(i as int),
        Some(InsnP4::Int64(i)) => decimal(i as int),
        Some(InsnP4::Real { text, .. }) => text@,
        Some(InsnP4::String(s)) => s@,
        None => Seq::empty(),
    }
}

/// `r` records `insn` added with `comment`.
pub open spec fn records_insn(r: InsnRecord, insn: Insn, comment: Seq<char>) -> bool {
    let (p1, p2, p3, p5) = insn.operands_of();
    &&& r.opcode@ == insn.name_of()@
    &&& r.p1 == p1
    &&& r.p2 == p2
    &&& r.p3 == p3
    &&& r.p4@ == p4_text(insn.p4_of())
    &&& r.p5 == p5
    &&& r.comment@ == comment
}

/// `r` records `op` added through one of the legacy calls with operands
/// P1, P2, P3 and P4 shown as `p4`: no P5, no comment.
pub open spec fn records_op(r: InsnRecord, op: RawOpcode, p1: i32, p2: i32, p3: i32, p4: Seq<char>) -> bool {
    &&& r.opcode@ == op.name_of()@
    &&& r.p1 == p1
    &&& r.p2 == p2
    &&& r.p3 == p3
    &&& r.p4@ == p4
    &&& r.p5 == 0
    &&& r.comment@ == Seq::<char>::empty()
}

/// A builder went from `before` to `after` by adding `op` through a legacy
/// call: one record more, allocation unchanged.
pub open spec fn adds_op(
    before: ProgramBuilder,
    after: ProgramBuilder,
    op: RawOpcode,
    p1: i32,
    p2: i32,
    p3: i32,
    p4: Seq<char>,
) -> bool {
    &&& after.registers() == before.registers()
    &&& after.cursors() == before.cursors()
    &&& after.records().len() == before.records().len() + 1
    &&& after.records().drop_last() == before.records()
    &&& records_op(after.records().last(), op, p1, p2, p3, p4)
}

/// One call into the engine's program assembler. Each call appends one
/// instruction and returns its address; operands not passed are zero.
#[allow(inconsistent_fields)]
#[derive(Debug)]
pub enum Call {
    /// `sqlite3VdbeAddOp0`
    AddOp0 { opcode: i32 },
    /// `sqlite3VdbeAddOp1`
    AddOp1 { opcode: i32, p1: i32 },
    /// `sqlite3VdbeAddOp2`
    AddOp2 { opcode: i32, p1: i32, p2: i32 },
    /// `sqlite3VdbeAddOp3`
    AddOp3 { opcode: i32, p1: i32, p2: i32, p3: i32 },
    /// `sqlite3VdbeAddOp4Int`
    AddOp4Int { opcode: i32, p1: i32, p2: i32, p3: i32, p4: i32 },
    /// `sqlite3VdbeAddOp2`, then `sqlite3VdbeChangeP4` with a 64-bit integer
    /// (`P4_INT64`) held in engine-allocated memory
    AddOp2Int64 { opcode: i32, p1: i32, p2: i32, p4: i64 },
    /// `sqlite3VdbeAddOp2`, then `sqlite3VdbeChangeP4` with the 64-bit float
    /// of bit pattern `p4_bits` (`P4_REAL`) held in engine-allocated memory
    AddOp2Real { opcode: i32, p1: i32, p2: i32, p4_bits: u64 },
    /// `sqlite3VdbeAddOp4` with a nul-terminated copy of `p4` in
    /// engine-allocated memory (`P4_DYNAMIC`); `sqlite3VdbeAddOp3` when that
    /// memory cannot be had
    AddOp4Text { opcode: i32, p1: i32, p2: i32, p3: i32, p4: String },
}

/// The engine calls that emit one instruction: `call`, then
/// `sqlite3VdbeChangeP5` when `p5` is `Some`.
#[derive(Debug)]
pub struct Emission {
    pub call: Call,
    pub p5: Option<u16>,
}

/// Whether an instruction without P4 is emitted with its P2 even though its
/// P2, P3 are zero: `Goto` and `Integer` with value zero are.
pub open spec fn keeps_p2(insn: Insn) -> bool {
    match insn {
        Insn::Goto { .. } => true,
        Insn::Integer { value, .. } => value == 0,
        _ => false,
    }
}

/// The engine calls that emit `insn`. An instruction with a P4 operand goes
/// through the call for that kind of P4 (a string holding a nul character
/// cannot be passed and falls back to `AddOp3`); one without goes through
/// the shortest `AddOp` call that carries its nonzero operands. P5 is set
/// afterwards when it is nonzero.
pub open spec fn emission_of(insn: Insn) -> Emission {
    let opcode = insn.opcode_number() as i32;
    let (p1, p2, p3, p5) = insn.operands_of();
    let call = match insn.p4_of() {
        Some(InsnP4::Int(i)) => Call::AddOp4Int { opcode, p1, p2, p3, p4: i },
        Some(InsnP4::Int64(v)) => Call::AddOp2Int64 { opcode, p1, p2, p4: v },
        Some(InsnP4::Real { bits, .. }) => Call::AddOp2Real { opcode, p1, p2, p4_bits: bits },
        Some(InsnP4::String(s)) => if s@.contains('\0') {
            Call::AddOp3 { opcode, p1, p2, p3 }
        } else {
            Call::AddOp4Text { opcode, p1, p2, p3, p4: s }
        },
        None => if p3 != 0 {
            Call::AddOp3 { opcode, p1, p2, p3 }
        } else if p2 != 0 || keeps_p2(insn) {
            Call::AddOp2 { opcode, p1, p2 }
        } else if p1 != 0 {
            Call::AddOp1 { opcode, p1 }
        } else {
            Call::AddOp0 { opcode }
        },
    };
    Emission { call, p5: if p5 != 0 { Some(p5) } else { None } }
}

/// The opcode and the P1, P2, P3 operands of the instruction that `c`
/// appends (operands not passed are zero).
pub open spec fn call_operands(c: Call) -> (i32, i32, i32, i32) {
    match c {
        Call::AddOp0 { opcode } => (opcode, 0, 0, 0),
        Call::AddOp1 { opcode, p1 } => (opcode, p1, 0, 0),
        Call::AddOp2 { opcode, p1, p2 } => (opcode, p1, p2, 0),
        Call::AddOp3 { opcode, p1, p2, p3 } => (opcode, p1, p2, p3),
        Call::AddOp4Int { opcode, p1, p2, p3, .. } => (opcode, p1, p2, p3),
        Call::AddOp2Int64 { opcode, p1, p2, .. } => (opcode, p1, p2, 0),
        Call::AddOp2Real { opcode, p1, p2, .. } => (opcode, p1, p2, 0),
        Call::AddOp4Text { opcode, p1, p2, p3, .. } => (opcode, p1, p2, p3),
    }
}

/// What the engine is given for an instruction is what is recorded for it:
/// the emitted call appends the instruction's opcode with its P1, P2, P3,
/// and P5 is set to the instruction's P5 exactly when that is nonzero.
pub proof fn law_emitted_as_recorded(insn: Insn)
    requires
        insn.wf(),
    ensures
        call_operands(emission_of(insn).call) == (
            insn.opcode_number() as i32,
            insn.operands_of().0,
            insn.operands_of().1,
            insn.operands_of().2,
        ),
        emission_of(insn).p5 matches Some(v) ==> v == insn.operands_of().3 && v != 0,
        emission_of(insn).p5 is None ==> insn.operands_of().3 == 0,
{
}

/// The P4 operand of an instruction is what the engine is given: an
/// integer P4 goes with `AddOp4Int`, a 64-bit integer with `AddOp2Int64`,
/// a float (by its bit pattern) with `AddOp2Real`, a string with
/// `AddOp4Text` (or, holding a nul, is not passed and `AddOp3` is used);
/// an instruction without P4 is emitted by a call that passes none.
pub proof fn law_p4_emitted(insn: Insn)
    ensures
        insn.p4_of() matches Some(InsnP4::Int(i)) ==> emission_of(insn).call matches Call::AddOp4Int {
            p4,
            ..
        } && p4 == i,
        insn.p4_of() matches Some(InsnP4::Int64(v)) ==> emission_of(insn).call matches Call::AddOp2Int64 {
            p4,
            ..
        } && p4 == v,
        insn.p4_of() matches Some(InsnP4::Real { bits, .. }) ==> emission_of(insn).call matches Call::AddOp2Real {
            p4_bits,
            ..
        } && p4_bits == bits,
        insn.p4_of() matches Some(InsnP4::String(s)) ==> if s@.contains('\0') {
            emission_of(insn).call is AddOp3
        } else {
            emission_of(insn).call matches Call::AddOp4Text { p4, .. } && p4 == s
        },
        insn.p4_of() is None ==> (emission_of(insn).call is AddOp0 || emission_of(insn).call is AddOp1
            || emission_of(insn).call is AddOp2 || emission_of(insn).call is AddOp3),
{
}

/// A builder went from `before` to `after` by allocating the `count`
/// registers starting at `first`.
pub open spec fn allocates_registers(
    before: ProgramBuilder,
    after: ProgramBuilder,
    first: i32,
    count: i32,
) -> bool {
    &&& first == before.registers()
    &&& after.registers() == before.registers() + count
    &&& after.cursors() == before.cursors()
    &&& after.records() == before.records()
}

/// Successive register allocations hand out adjacent blocks that do not
/// overlap: the second block starts where the first ends.
pub proof fn law_register_blocks_disjoint(
    b0: ProgramBuilder,
    b1: ProgramBuilder,
    b2: ProgramBuilder,
    first1: i32,
    count1: i32,
    first2: i32,
    count2: i32,
)
    requires
        allocates_registers(b0, b1, first1, count1),
        allocates_registers(b1, b2, first2, count2),
        count1 >= 0,
        count2 >= 0,
    ensures
        first2 == first1 + count1,
        first1 <= first1 + count1 <= first2 <= first2 + count2,
{
}

/// A builder went from `before` to `after` by allocating cursor `cursor`.
pub open spec fn allocates_cursor(before: ProgramBuilder, after: ProgramBuilder, cursor: i32) -> bool {
    &&& cursor == before.cursors()
    &&& after.cursors() == before.cursors() + 1
    &&& after.registers() == before.registers()
    &&& after.records() == before.records()
}

/// Allocating registers one at a time from a fresh builder hands out 1, 2,
/// 3, ...: the k-th register allocated is k (register 0 is never handed
/// out), and the register count is then the number handed out.
pub proof fn law_registers_in_order(bs: Seq<ProgramBuilder>, regs: Seq<i32>)
    requires
        bs.len() == regs.len() + 1,
        bs[0].registers() == 1,
        forall|i: int|
            #![trigger regs[i]]
            0 <= i < regs.len() ==> allocates_registers(bs[i], bs[i + 1], regs[i], 1),
    ensures
        forall|i: int| 0 <= i < regs.len() ==> regs[i] == i + 1,
        bs.last().registers() - 1 == regs.len(),
    decreases regs.len(),
{
    if regs.len() > 0 {
        let n = regs.len() - 1;
        let bs0 = bs.drop_last();
        let rs0 = regs.drop_last();
        assert forall|i: int| #![trigger rs0[i]] 0 <= i < rs0.len() implies allocates_registers(
            bs0[i],
            bs0[i + 1],
            rs0[i],
            1,
        ) by {
            assert(allocates_registers(bs[i], bs[i + 1], regs[i], 1));
        }
        law_registers_in_order(bs0, rs0);
        assert(allocates_registers(bs[n], bs[n + 1], regs[n], 1));
        assert forall|i: int| 0 <= i < regs.len() implies regs[i] == i + 1 by {
            if i < n {
                assert(rs0[i] == regs[i]);
            }
        }
    }
}

/// Register blocks allocated one after another (each of a nonnegative
/// number of registers) are fresh: every block lies wholly before every
/// later one and at or above the register counter they started from, so
/// from a fresh builder register 0 is never handed out and no register is
/// handed out twice.
pub proof fn law_register_blocks_fresh(bs: Seq<ProgramBuilder>, firsts: Seq<i32>, counts: Seq<i32>)
    requires
        bs.len() == firsts.len() + 1,
        counts.len() == firsts.len(),
        forall|i: int| #![trigger counts[i]] 0 <= i < counts.len() ==> 0 <= counts[i],
        forall|i: int|
            #![trigger firsts[i]]
            0 <= i < firsts.len() ==> allocates_registers(bs[i], bs[i + 1], firsts[i], counts[i]),
    ensures
        forall|i: int, j: int|
            #![trigger firsts[i], firsts[j]]
            0 <= i < j < firsts.len() ==> firsts[i] + counts[i] <= firsts[j],
        forall|i: int|
            #![trigger firsts[i]]
            0 <= i < firsts.len() ==> bs[0].registers() <= firsts[i] && firsts[i] + counts[i]
                <= bs.last().registers(),
        bs[0].registers() <= bs.last().registers(),
    decreases firsts.len(),
{
    if firsts.len() > 0 {
        let n = firsts.len() - 1;
        let bs0 = bs.drop_last();
        let f0 = firsts.drop_last();
        let c0 = counts.drop_last();
        assert forall|i: int| #![trigger f0[i]] 0 <= i < f0.len() implies allocates_registers(
            bs0[i],
            bs0[i + 1],
            f0[i],
            c0[i],
        ) by {
            assert(allocates_registers(bs[i], bs[i + 1], firsts[i], counts[i]));
        }
        assert forall|i: int| #![trigger c0[i]] 0 <= i < c0.len() implies 0 <= c0[i] by {
            assert(0 <= counts[i]);
        }
        law_register_blocks_fresh(bs0, f0, c0);
        assert(0 <= counts[n]);
        assert(allocates_registers(bs[n], bs[n + 1], firsts[n], counts[n]));
        assert forall|i: int| #![trigger firsts[i]] 0 <= i < firsts.len() implies bs[0].registers()
            <= firsts[i] && firsts[i] + counts[i] <= bs.last().registers() by {
            if i < n {
                assert(f0[i] == firsts[i] && c0[i] == counts[i]);
            }
        }
        assert forall|i: int, j: int| #![trigger firsts[i], firsts[j]] 0 <= i < j < firsts.len()
            implies firsts[i] + counts[i] <= firsts[j] by {
            assert(f0[i] == firsts[i] && c0[i] == counts[i]);
            if j < n {
                assert(f0[j] == firsts[j]);
            }
        }
    }
}

/// The number of cursor allocations among `steps` (`true` marks one).
pub open spec fn cursors_allocated(steps: Seq<bool>) -> nat
    decreases steps.len(),
{
    if steps.len() == 0 {
        0
    } else {
        cursors_allocated(steps.drop_last()) + if steps.last() {
            1nat
        } else {
            0nat
        }
    }
}

/// A step from `before` to `after` that allocates cursor `cursor` when
/// `allocated`, and otherwise leaves the cursor counter as it is (as
/// allocating registers and adding instructions do).
pub open spec fn cursor_step(before: ProgramBuilder, after: ProgramBuilder, allocated: bool, cursor: i32) -> bool {
    if allocated {
        allocates_cursor(before, after, cursor)
    } else {
        after.cursors() == before.cursors()
    }
}

/// From a fresh builder, whatever is done in between, the k-th cursor
/// allocated is k - 1 (cursors are 0-based, consecutive and never
/// repeated), and the cursor count is then the number of cursors
/// allocated.
pub proof fn law_cursors_in_order(bs: Seq<ProgramBuilder>, steps: Seq<bool>, cursors: Seq<i32>)
    requires
        bs.len() == steps.len() + 1,
        cursors.len() == steps.len(),
        bs[0].cursors() == 0,
        forall|i: int|
            #![trigger steps[i]]
            0 <= i < steps.len() ==> cursor_step(bs[i], bs[i + 1], steps[i], cursors[i]),
    ensures
        forall|i: int|
            #![trigger steps[i]]
            0 <= i < steps.len() && steps[i] ==> cursors[i] == cursors_allocated(steps.take(i)),
        bs.last().cursors() == cursors_allocated(steps),
    decreases steps.len(),
{
    if steps.len() > 0 {
        let n = steps.len() - 1;
        let bs0 = bs.drop_last();
        let s0 = steps.drop_last();
        let c0 = cursors.drop_last();
        assert forall|i: int| #![trigger s0[i]] 0 <= i < s0.len() implies cursor_step(
            bs0[i],
            bs0[i + 1],
            s0[i],
            c0[i],
        ) by {
            assert(cursor_step(bs[i], bs[i + 1], steps[i], cursors[i]));
        }
        law_cursors_in_order(bs0, s0, c0);
        assert(cursor_step(bs[n], bs[n + 1], steps[n], cursors[n]));
        assert(steps.take(n) =~= s0);
        assert forall|i: int| #![trigger steps[i]] 0 <= i < steps.len() && steps[i] implies cursors[i]
            == cursors_allocated(steps.take(i)) by {
            if i < n {
                assert(s0[i] == steps[i]);
                assert(s0.take(i) =~= steps.take(i));
            }
        }
    }
}

/// A VDBE program under construction
///
/// Allocates registers (1-based; register 0 is reserved) and cursors
/// (0-based), and records every instruction added, through `add`,
/// `add_with_comment` or the `add_op*` calls. Each of those returns the
/// engine calls that emit the instruction; the host performs them and learns
/// the instruction's address.
/// `finish` gives the executable [`Program`].
pub struct ProgramBuilder {
    next_register: i32,
    next_cursor: i32,
    instructions: Vec<InsnRecord>,
}

impl ProgramBuilder {
    /// The number of the next register to be allocated (registers handed out
    /// so far are `1..registers()`).
    pub closed spec fn registers(&self) -> i32 {
        self.next_register
    }

    /// The number of the next cursor to be allocated.
    pub closed spec fn cursors(&self) -> i32 {
        self.next_cursor
    }

    /// The records of the instructions added so far, in order.
    pub closed spec fn records(&self) -> Seq<InsnRecord> {
        self.instructions@
    }

    /// Create a new program builder: no registers (register 0 is reserved),
    /// no cursors, no instructions.
    pub fn new() -> (b: ProgramBuilder)
        ensures
            b.registers() == 1,
            b.cursors() == 0,
            b.records().len() == 0,
    {
        ProgramBuilder { next_register: 1, next_cursor: 0, instructions: Vec::new() }
    }

    /// Allocate a register and return its index
    ///
    /// Registers are 1-based (register 0 is reserved).
    pub fn alloc_register(&mut self) -> (reg: i32)
        requires
            old(self).registers() < i32::MAX,
        ensures
            allocates_registers(*old(self), *final(self), reg, 1),
    {
        let reg = self.next_register;
        self.next_register = self.next_register + 1;
        reg
    }

    /// Allocate multiple consecutive registers
    ///
    /// Returns the index of the first register. The allocated registers
    /// are `first..first+count`.
    pub fn alloc_registers(&mut self, count: i32) -> (first: i32)
        requires
            i32::MIN <= old(self).registers() + count <= i32::MAX,
        ensures
            allocates_registers(*old(self), *final(self), first, count),
    {
        let first = self.next_register;
        self.next_register = self.next_register + count;
        first
    }

    /// Allocate a cursor slot and return its index
    ///
    /// Cursors are 0-based.
    pub fn alloc_cursor(&mut self) -> (cursor: i32)
        requires
            old(self).cursors() < i32::MAX,
        ensures
            allocates_cursor(*old(self), *final(self), cursor),
    {
        let cursor = self.next_cursor;
        self.next_cursor = self.next_cursor + 1;
        cursor
    }

    /// Get the number of registers allocated so far (the reserved register 0
    /// is not one of them)
    pub fn register_count(&self) -> (n: i32)
        requires
            self.registers() > i32::MIN,
        ensures
            n == self.registers() - 1,
    {
        self.next_register - 1
    }

    /// The number of memory cells (registers, counting the reserved register
    /// 0) that the engine program is to be prepared with.
    pub fn memory_cells(&self) -> (n: i32)
        ensures
            n == self.registers(),
    {
        self.next_register
    }

    /// Get the number of cursors allocated so far
    pub fn cursor_count(&self) -> (n: i32)
        ensures
            n == self.cursors(),
    {
        self.next_cursor
    }

    /// Add an instruction to the program, with an empty comment.
    ///
    /// Returns the engine calls that emit the instruction.
    pub fn add(&mut self, insn: Insn) -> (e: Emission)
        requires
            insn.wf(),
        ensures
            e == emission_of(insn),
            final(self).registers() == old(self).registers(),
            final(self).cursors() == old(self).cursors(),
            final(self).records().len() == old(self).records().len() + 1,
            final(self).records().drop_last() == old(self).records(),
            records_insn(final(self).records().last(), insn, Seq::empty()),
    {
        let empty = "";
        proof {
            reveal_strlit("");
            assert(empty@ =~= Seq::<char>::empty());
        }
        self.add_with_comment(insn, empty)
    }

    /// Add an instruction to the program with a comment that is shown when
    /// the program is printed in EXPLAIN format.
    ///
    /// Returns the engine calls that emit the instruction.
    pub fn add_with_comment(&mut self, insn: Insn, comment: &str) -> (e: Emission)
        requires
            insn.wf(),
        ensures
            e == emission_of(insn),
            final(self).registers() == old(self).registers(),
            final(self).cursors() == old(self).cursors(),
            final(self).records().len() == old(self).records().len() + 1,
            final(self).records().drop_last() == old(self).records(),
            records_insn(final(self).records().last(), insn, comment@),
    {
        let opcode = insn.raw_opcode() as i32;
        let (p1, p2, p3, p5) = insn.operands();
        let name = insn.name();
        let p4 = insn.p4();
        let p4_str = match &p4 {
            Some(InsnP4::Int(i)) => decimal_string(*i as i64),
            Some(InsnP4::Int64(i)) => decimal_string(*i),
            Some(InsnP4::Real { text, .. }) => text.clone(),
            Some(InsnP4::String(s)) => s.clone(),
            None => String::new(),
        };
        let record = InsnRecord {
            opcode: String::from_str(name),
            p1,
            p2,
            p3,
            p4: p4_str,
            p5,
            comment: String::from_str(comment),
        };
        let ghost before = self.instructions@;
        self.instructions.push(record);
        proof {
            assert(self.instructions@.drop_last() =~= before);
        }
        let call = match p4 {
            Some(InsnP4::Int(i)) => Call::AddOp4Int { opcode, p1, p2, p3, p4: i },
            Some(InsnP4::Int64(v)) => Call::AddOp2Int64 { opcode, p1, p2, p4: v },
            Some(InsnP4::Real { bits, .. }) => Call::AddOp2Real { opcode, p1, p2, p4_bits: bits },
            Some(InsnP4::String(s)) => {
                if contains_nul(s.as_str()) {
                    Call::AddOp3 { opcode, p1, p2, p3 }
                } else {
                    Call::AddOp4Text { opcode, p1, p2, p3, p4: s }
                }
            },
            None => {
                let keeps = match &insn {
                    Insn::Goto { .. } => true,
                    Insn::Integer { value, .. } => *value == 0,
                    _ => false,
                };
                if p3 != 0 {
                    Call::AddOp3 { opcode, p1, p2, p3 }
                } else if p2 != 0 || keeps {
                    Call::AddOp2 { opcode, p1, p2 }
                } else if p1 != 0 {
                    Call::AddOp1 { opcode, p1 }
                } else {
                    Call::AddOp0 { opcode }
                }
            },
        };
        Emission { call, p5: if p5 != 0 { Some(p5) } else { None } }
    }

    fn record_op(&mut self, op: RawOpcode, p1: i32, p2: i32, p3: i32, p4: String)
        ensures
            adds_op(*old(self), *final(self), op, p1, p2, p3, p4@),
    {
        let record = InsnRecord {
            opcode: String::from_str(op.name()),
            p1,
            p2,
            p3,
            p4,
            p5: 0,
            comment: String::new(),
        };
        let ghost before = self.instructions@;
        self.instructions.push(record);
        proof {
            assert(self.instructions@.drop_last() =~= before);
        }
    }

    /// Add `op` with no operands: records it and returns the call that adds
    /// it.
    pub fn add_op0(&mut self, op: RawOpcode) -> (c: Call)
        ensures
            c == (Call::AddOp0 { opcode: op.number() as i32 }),
            adds_op(*old(self), *final(self), op, 0, 0, 0, Seq::empty()),
    {
        self.record_op(op, 0, 0, 0, String::new());
        Call::AddOp0 { opcode: op.code() as i32 }
    }

    /// Add `op` with operand P1: records it and returns the call that adds
    /// it.
    pub fn add_op1(&mut self, op: RawOpcode, p1: i32) -> (c: Call)
        ensures
            c == (Call::AddOp1 { opcode: op.number() as i32, p1 }),
            adds_op(*old(self), *final(self), op, p1, 0, 0, Seq::empty()),
    {
        self.record_op(op, p1, 0, 0, String::new());
        Call::AddOp1 { opcode: op.code() as i32, p1 }
    }

    /// Add `op` with operands P1, P2: records it and returns the call that
    /// adds it.
    pub fn add_op2(&mut self, op: RawOpcode, p1: i32, p2: i32) -> (c: Call)
        ensures
            c == (Call::AddOp2 { opcode: op.number() as i32, p1, p2 }),
            adds_op(*old(self), *final(self), op, p1, p2, 0, Seq::empty()),
    {
        self.record_op(op, p1, p2, 0, String::new());
        Call::AddOp2 { opcode: op.code() as i32, p1, p2 }
    }

    /// Add `op` with operands P1, P2, P3: records it and returns the call
    /// that adds it.
    pub fn add_op3(&mut self, op: RawOpcode, p1: i32, p2: i32, p3: i32) -> (c: Call)
        ensures
            c == (Call::AddOp3 { opcode: op.number() as i32, p1, p2, p3 }),
            adds_op(*old(self), *final(self), op, p1, p2, p3, Seq::empty()),
    {
        self.record_op(op, p1, p2, p3, String::new());
        Call::AddOp3 { opcode: op.code() as i32, p1, p2, p3 }
    }

    /// Add `op` with operands P1, P2, P3 and a 32-bit integer P4: records it
    /// and returns the call that adds it.
    pub fn add_op4_int(&mut self, op: RawOpcode, p1: i32, p2: i32, p3: i32, p4: i32) -> (c: Call)
        ensures
            c == (Call::AddOp4Int { opcode: op.number() as i32, p1, p2, p3, p4 }),
            adds_op(*old(self), *final(self), op, p1, p2, p3, decimal(p4 as int)),
    {
        self.record_op(op, p1, p2, p3, decimal_string(p4 as i64));
        Call::AddOp4Int { opcode: op.code() as i32, p1, p2, p3, p4 }
    }

    /// Add `op` with operands P1, P2, P3 and the string P4 (copied into
    /// engine memory): records it and returns the call that adds it. A
    /// string holding a nul byte cannot be passed: that gives `NulError` and
    /// adds nothing.
    pub fn add_op4_str(&mut self, op: RawOpcode, p1: i32, p2: i32, p3: i32, p4: &str) -> (r: Result<Call>)
        ensures
            match r {
                Ok(Call::AddOp4Text { opcode, p1: a, p2: b, p3: c, p4: s }) => {
                    &&& first_nul(p4.spec_bytes(), None)
                    &&& opcode == op.number() as i32
                    &&& a == p1 && b == p2 && c == p3
                    &&& s@ == p4@
                    &&& adds_op(*old(self), *final(self), op, p1, p2, p3, p4@)
                },
                Err(Error::NulError { position, bytes }) => {
                    &&& first_nul(p4.spec_bytes(), Some(position))
                    &&& bytes@ == p4.spec_bytes()
                    &&& *final(self) == *old(self)
                },
                _ => false,
            },
    {
        match find_nul(p4.as_bytes()) {
            Some(position) => Err(Error::NulError { position, bytes: p4.as_bytes_vec() }),
            None => {
                self.record_op(op, p1, p2, p3, String::from_str(p4));
                Ok(Call::AddOp4Text { opcode: op.code() as i32, p1, p2, p3, p4: String::from_str(p4) })
            },
        }
    }

    /// Finish building: the program gets the instruction records, is sized
    /// for the registers and cursors allocated and `num_columns` result
    /// columns, and has not run yet.
    pub fn finish(self, num_columns: u16) -> (r: Result<Program>)
        ensures
            r matches Ok(p) && {
                &&& p.records() == self.records()
                &&& p.result_columns_of() == num_columns
                &&& p.memory_cells_of() == self.registers()
                &&& p.cursor_slots_of() == self.cursors()
                &&& !p.done()
            },
    {
        Ok(
            Program {
                done: false,
                instructions: self.instructions,
                num_columns,
                num_registers: self.next_register,
                num_cursors: self.next_cursor,
            },
        )
    }
}

/// Result of a single step in program execution
#[derive(Debug, Clone, Copy, PartialEq, Eq, Structural)]
pub enum StepResult {
    /// A row of data is available
    Row,
    /// Execution completed successfully
    Done,
}

/// What a column's storage class says to read: a 64-bit integer, a float,
/// text, a blob, or nothing (NULL).
#[derive(Debug, Clone, Copy, PartialEq, Eq, Structural)]
pub enum ColumnRead {
    Integer,
    Real,
    Text,
    Blob,
    Null,
}

/// The read that a column of storage class `col_type` calls for; an unknown
/// class reads as NULL.
pub open spec fn column_read_of(col_type: i32) -> ColumnRead {
    if col_type == ffi::SQLITE_INTEGER {
        ColumnRead::Integer
    } else if col_type == ffi::SQLITE_FLOAT {
        ColumnRead::Real
    } else if col_type == ffi::SQLITE_TEXT {
        ColumnRead::Text
    } else if col_type == ffi::SQLITE_BLOB {
        ColumnRead::Blob
    } else {
        ColumnRead::Null
    }
}

/// The first header line of the EXPLAIN listing.
pub open spec fn explain_title() -> Seq<char> {
    "addr  opcode         p1    p2    p3    p4             p5  comment\n"@
}

/// The second header line of the EXPLAIN listing.
pub open spec fn explain_rule() -> Seq<char> {
    "----  -------------  ----  ----  ----  -------------  --  -------------\n"@
}

/// The EXPLAIN line of the instruction at `addr`.
pub open spec fn explain_row(addr: int, r: InsnRecord) -> Seq<char> {
    padded(decimal(addr), 6) + padded(r.opcode@, 15) + padded(decimal(r.p1 as int), 6)
        + padded(decimal(r.p2 as int), 6) + padded(decimal(r.p3 as int), 6) + padded(r.p4@, 15)
        + padded(decimal(r.p5 as int), 4) + r.comment@ + seq!['\n']
}

/// The width a text takes in a left-aligned field of `width` characters:
/// the field's width, or the text's length when it is longer.
pub open spec fn column_width(s: Seq<char>, width: nat) -> int {
    if s.len() >= width {
        s.len() as int
    } else {
        width as int
    }
}

/// `row` holds `s` left-aligned in a field of `width` characters starting at
/// offset `at`: the text itself, then spaces to the end of the field.
pub open spec fn column_at(row: Seq<char>, at: int, s: Seq<char>, width: nat) -> bool {
    &&& 0 <= at
    &&& at + column_width(s, width) <= row.len()
    &&& row.subrange(at, at + s.len()) == s
    &&& forall|k: int| at + s.len() <= k < at + column_width(s, width) ==> #[trigger] row[k] == ' '
}

proof fn lemma_column(pre: Seq<char>, s: Seq<char>, width: nat)
    ensures
        padded(s, width).len() == column_width(s, width),
        column_at(pre + padded(s, width), pre.len() as int, s, width),
{
    let row = pre + padded(s, width);
    let p = padded(s, width);
    assert forall|i: int| 0 <= i < s.len() implies #[trigger] p[i] == s[i] by {}
    assert(row.subrange(pre.len() as int, (pre.len() + s.len()) as int) =~= s) by {
        assert forall|i: int| 0 <= i < s.len() implies row[pre.len() + i] == s[i] by {
            assert(row[pre.len() + i] == p[i]);
        }
    }
    assert forall|k: int| pre.len() + s.len() <= k < pre.len() + column_width(s, width) implies #[trigger] row[k]
        == ' ' by {
        assert(row[k] == p[k - pre.len()]);
    }
}

proof fn lemma_column_extend(x: Seq<char>, y: Seq<char>, at: int, s: Seq<char>, width: nat)
    requires
        column_at(x, at, s, width),
    ensures
        column_at(x + y, at, s, width),
{
    let z = x + y;
    assert(z.subrange(at, at + s.len()) =~= x.subrange(at, at + s.len()));
    assert forall|k: int| at + s.len() <= k < at + column_width(s, width) implies #[trigger] z[k] == ' ' by {
        assert(z[k] == x[k]);
    }
}

/// The EXPLAIN line of an instruction holds, column by column and
/// left-aligned, the address (6 characters), the opcode name (15), P1, P2,
/// P3 (6 each), P4 (15) and P5 (4), then the comment and a line break; a
/// text longer than its field widens it.
pub proof fn law_explain_columns(addr: int, r: InsnRecord)
    ensures
        ({
            let row = explain_row(addr, r);
            let o1 = column_width(decimal(addr), 6);
            let o2 = o1 + column_width(r.opcode@, 15);
            let o3 = o2 + column_width(decimal(r.p1 as int), 6);
            let o4 = o3 + column_width(decimal(r.p2 as int), 6);
            let o5 = o4 + column_width(decimal(r.p3 as int), 6);
            let o6 = o5 + column_width(r.p4@, 15);
            let o7 = o6 + column_width(decimal(r.p5 as int), 4);
            &&& column_at(row, 0, decimal(addr), 6)
            &&& column_at(row, o1, r.opcode@, 15)
            &&& column_at(row, o2, decimal(r.p1 as int), 6)
            &&& column_at(row, o3, decimal(r.p2 as int), 6)
            &&& column_at(row, o4, decimal(r.p3 as int), 6)
            &&& column_at(row, o5, r.p4@, 15)
            &&& column_at(row, o6, decimal(r.p5 as int), 4)
            &&& row.len() == o7 + r.comment@.len() + 1
            &&& row.subrange(o7, o7 + r.comment@.len()) == r.comment@
            &&& row[o7 + r.comment@.len()] == '\n'
        }),
{
    let q0 = Seq::<char>::empty();
    let q1 = q0 + padded(decimal(addr), 6);
    let q2 = q1 + padded(r.opcode@, 15);
    let q3 = q2 + padded(decimal(r.p1 as int), 6);
    let q4 = q3 + padded(decimal(r.p2 as int), 6);
    let q5 = q4 + padded(decimal(r.p3 as int), 6);
    let q6 = q5 + padded(r.p4@, 15);
    let q7 = q6 + padded(decimal(r.p5 as int), 4);
    let q8 = q7 + r.comment@;
    let row = q8 + seq!['\n'];
    assert(q1 =~= padded(decimal(addr), 6));
    assert(row == explain_row(addr, r));
    lemma_column(q0, decimal(addr), 6);
    lemma_column_extend(q1, q2.subrange(q1.len() as int, q2.len() as int), q0.len() as int, decimal(addr), 6);
    assert(q1 + q2.subrange(q1.len() as int, q2.len() as int) =~= q2);
    lemma_column_extend(q2, q3.subrange(q2.len() as int, q3.len() as int), q0.len() as int, decimal(addr), 6);
    assert(q2 + q3.subrange(q2.len() as int, q3.len() as int) =~= q3);
    lemma_column_extend(q3, q4.subrange(q3.len() as int, q4.len() as int), q0.len() as int, decimal(addr), 6);
    assert(q3 + q4.subrange(q3.len() as int, q4.len() as int) =~= q4);
    lemma_column_extend(q4, q5.subrange(q4.len() as int, q5.len() as int), q0.len() as int, decimal(addr), 6);
    assert(q4 + q5.subrange(q4.len() as int, q5.len() as int) =~= q5);
    lemma_column_extend(q5, q6.subrange(q5.len() as int, q6.len() as int), q0.len() as int, decimal(addr), 6);
    assert(q5 + q6.subrange(q5.len() as int, q6.len() as int) =~= q6);
    lemma_column_extend(q6, q7.subrange(q6.len() as int, q7.len() as int), q0.len() as int, decimal(addr), 6);
    assert(q6 + q7.subrange(q6.len() as int, q7.len() as int) =~= q7);
    lemma_column_extend(q7, q8.subrange(q7.len() as int, q8.len() as int), q0.len() as int, decimal(addr), 6);
    assert(q7 + q8.subrange(q7.len() as int, q8.len() as int) =~= q8);
    lemma_column_extend(q8, seq!['\n'], q0.len() as int, decimal(addr), 6);
    lemma_column(q1, r.opcode@, 15);
    lemma_column_extend(q2, q3.subrange(q2.len() as int, q3.len() as int), q1.len() as int, r.opcode@, 15);
    assert(q2 + q3.subrange(q2.len() as int, q3.len() as int) =~= q3);
    lemma_column_extend(q3, q4.subrange(q3.len() as int, q4.len() as int), q1.len() as int, r.opcode@, 15);
    assert(q3 + q4.subrange(q3.len() as int, q4.len() as int) =~= q4);
    lemma_column_extend(q4, q5.subrange(q4.len() as int, q5.len() as int), q1.len() as int, r.opcode@, 15);
    assert(q4 + q5.subrange(q4.len() as int, q5.len() as int) =~= q5);
    lemma_column_extend(q5, q6.subrange(q5.len() as int, q6.len() as int), q1.len() as int, r.opcode@, 15);
    assert(q5 + q6.subrange(q5.len() as int, q6.len() as int) =~= q6);
    lemma_column_extend(q6, q7.subrange(q6.len() as int, q7.len() as int), q1.len() as int, r.opcode@, 15);
    assert(q6 + q7.subrange(q6.len() as int, q7.len() as int) =~= q7);
    lemma_column_extend(q7, q8.subrange(q7.len() as int, q8.len() as int), q1.len() as int, r.opcode@, 15);
    assert(q7 + q8.subrange(q7.len() as int, q8.len() as int) =~= q8);
    lemma_column_extend(q8, seq!['\n'], q1.len() as int, r.opcode@, 15);
    lemma_column(q2, decimal(r.p1 as int), 6);
    lemma_column_extend(q3, q4.subrange(q3.len() as int, q4.len() as int), q2.len() as int, decimal(r.p1 as int), 6);
    assert(q3 + q4.subrange(q3.len() as int, q4.len() as int) =~= q4);
    lemma_column_extend(q4, q5.subrange(q4.len() as int, q5.len() as int), q2.len() as int, decimal(r.p1 as int), 6);
    assert(q4 + q5.subrange(q4.len() as int, q5.len() as int) =~= q5);
    lemma_column_extend(q5, q6.subrange(q5.len() as int, q6.len() as int), q2.len() as int, decimal(r.p1 as int), 6);
    assert(q5 + q6.subrange(q5.len() as int, q6.len() as int) =~= q6);
    lemma_column_extend(q6, q7.subrange(q6.len() as int, q7.len() as int), q2.len() as int, decimal(r.p1 as int), 6);
    assert(q6 + q7.subrange(q6.len() as int, q7.len() as int) =~= q7);
    lemma_column_extend(q7, q8.subrange(q7.len() as int, q8.len() as int), q2.len() as int, decimal(r.p1 as int), 6);
    assert(q7 + q8.subrange(q7.len() as int, q8.len() as int) =~= q8);
    lemma_column_extend(q8, seq!['\n'], q2.len() as int, decimal(r.p1 as int), 6);
    lemma_column(q3, decimal(r.p2 as int), 6);
    lemma_column_extend(q4, q5.subrange(q4.len() as int, q5.len() as int), q3.len() as int, decimal(r.p2 as int), 6);
    assert(q4 + q5.subrange(q4.len() as int, q5.len() as int) =~= q5);
    lemma_column_extend(q5, q6.subrange(q5.len() as int, q6.len() as int), q3.len() as int, decimal(r.p2 as int), 6);
    assert(q5 + q6.subrange(q5.len() as int, q6.len() as int) =~= q6);
    lemma_column_extend(q6, q7.subrange(q6.len() as int, q7.len() as int), q3.len() as int, decimal(r.p2 as int), 6);
    assert(q6 + q7.subrange(q6.len() as int, q7.len() as int) =~= q7);
    lemma_column_extend(q7, q8.subrange(q7.len() as int, q8.len() as int), q3.len() as int, decimal(r.p2 as int), 6);
    assert(q7 + q8.subrange(q7.len() as int, q8.len() as int) =~= q8);
    lemma_column_extend(q8, seq!['\n'], q3.len() as int, decimal(r.p2 as int), 6);
    lemma_column(q4, decimal(r.p3 as int), 6);
    lemma_column_extend(q5, q6.subrange(q5.len() as int, q6.len() as int), q4.len() as int, decimal(r.p3 as int), 6);
    assert(q5 + q6.subrange(q5.len() as int, q6.len() as int) =~= q6);
    lemma_column_extend(q6, q7.subrange(q6.len() as int, q7.len() as int), q4.len() as int, decimal(r.p3 as int), 6);
    assert(q6 + q7.subrange(q6.len() as int, q7.len() as int) =~= q7);
    lemma_column_extend(q7, q8.subrange(q7.len() as int, q8.len() as int), q4.len() as int, decimal(r.p3 as int), 6);
    assert(q7 + q8.subrange(q7.len() as int, q8.len() as int) =~= q8);
    lemma_column_extend(q8, seq!['\n'], q4.len() as int, decimal(r.p3 as int), 6);
    lemma_column(q5, r.p4@, 15);
    lemma_column_extend(q6, q7.subrange(q6.len() as int, q7.len() as int), q5.len() as int, r.p4@, 15);
    assert(q6 + q7.subrange(q6.len() as int, q7.len() as int) =~= q7);
    lemma_column_extend(q7, q8.subrange(q7.len() as int, q8.len() as int), q5.len() as int, r.p4@, 15);
    assert(q7 + q8.subrange(q7.len() as int, q8.len() as int) =~= q8);
    lemma_column_extend(q8, seq!['\n'], q5.len() as int, r.p4@, 15);
    lemma_column(q6, decimal(r.p5 as int), 4);
    lemma_column_extend(q7, q8.subrange(q7.len() as int, q8.len() as int), q6.len() as int, decimal(r.p5 as int), 4);
    assert(q7 + q8.subrange(q7.len() as int, q8.len() as int) =~= q8);
    lemma_column_extend(q8, seq!['\n'], q6.len() as int, decimal(r.p5 as int), 4);
    assert(row.subrange(q7.len() as int, q8.len() as int) =~= r.comment@);
}

/// The EXPLAIN lines of `rs`, numbered from 0.
pub open spec fn explain_rows(rs: Seq<InsnRecord>) -> Seq<char>
    decreases rs.len(),
{
    if rs.len() == 0 {
        Seq::empty()
    } else {
        explain_rows(rs.drop_last()) + explain_row(rs.len() - 1, rs.last())
    }
}

/// The EXPLAIN listing of `rs`: the two header lines, then one line per
/// instruction.
pub open spec fn explain_text(rs: Seq<InsnRecord>) -> Seq<char> {
    explain_title() + explain_rule() + explain_rows(rs)
}

fn push_explain_row(s: &mut String, addr: usize, r: &InsnRecord)
    ensures
        final(s)@ == old(s)@ + explain_row(addr as int, *r),
{
    let ghost s0 = s@;
    let mut a = String::new();
    push_decimal_u64(&mut a, addr as u64);
    push_padded(s, a.as_str(), 6);
    push_padded(s, r.opcode.as_str(), 15);
    let ghost s1 = s@;
    assert(s1 == s0 + padded(decimal(addr as int), 6) + padded(r.opcode@, 15));
    let d1 = decimal_string(r.p1 as i64);
    push_padded(s, d1.as_str(), 6);
    let d2 = decimal_string(r.p2 as i64);
    push_padded(s, d2.as_str(), 6);
    let d3 = decimal_string(r.p3 as i64);
    push_padded(s, d3.as_str(), 6);
    let ghost s2 = s@;
    assert(s2 == s1 + padded(decimal(r.p1 as int), 6) + padded(decimal(r.p2 as int), 6) + padded(
        decimal(r.p3 as int),
        6,
    ));
    push_padded(s, r.p4.as_str(), 15);
    let d5 = decimal_string(r.p5 as i64);
    push_padded(s, d5.as_str(), 4);
    s.append(r.comment.as_str());
    push_char(s, '\n');
    assert(s@ == s2 + padded(r.p4@, 15) + padded(decimal(r.p5 as int), 4) + r.comment@ + seq!['\n']);
    proof {
        assert(s@ =~= s0 + explain_row(addr as int, *r));
    }
}

/// Adding an instruction to a program adds exactly its line at the end of
/// the EXPLAIN listing.
pub proof fn law_explain_appends_row(rs: Seq<InsnRecord>, r: InsnRecord)
    ensures
        explain_text(rs.push(r)) == explain_text(rs) + explain_row(rs.len() as int, r),
{
    assert(rs.push(r).drop_last() =~= rs);
    assert(explain_text(rs.push(r)) =~= explain_text(rs) + explain_row(rs.len() as int, r));
}

/// A prepared VDBE program ready for execution
///
/// The host executes it step by step and reports each step's result code
/// to `step`; after each `Row` the host reads the result columns.
pub struct Program {
    done: bool,
    instructions: Vec<InsnRecord>,
    num_columns: u16,
    num_registers: i32,
    num_cursors: i32,
}

impl Program {
    /// Whether execution has completed.
    pub closed spec fn done(&self) -> bool {
        self.done
    }

    /// The records of the program's instructions.
    pub closed spec fn records(&self) -> Seq<InsnRecord> {
        self.instructions@
    }

    /// The number of result columns the program was finished with.
    pub closed spec fn result_columns_of(&self) -> u16 {
        self.num_columns
    }

    /// The number of memory cells (registers) the engine is prepared with.
    pub closed spec fn memory_cells_of(&self) -> i32 {
        self.num_registers
    }

    /// The number of cursor slots the engine is prepared with.
    pub closed spec fn cursor_slots_of(&self) -> i32 {
        self.num_cursors
    }

    /// The number of result columns, for `sqlite3VdbeSetNumCols`.
    pub fn result_columns(&self) -> (n: u16)
        ensures
            n == self.result_columns_of(),
    {
        self.num_columns
    }

    /// The number of memory cells, for `sqlite3_vdbe_make_ready`.
    pub fn memory_cells(&self) -> (n: i32)
        ensures
            n == self.memory_cells_of(),
    {
        self.num_registers
    }

    /// The number of cursor slots, for `sqlite3_vdbe_make_ready`.
    pub fn cursor_slots(&self) -> (n: i32)
        ensures
            n == self.cursor_slots_of(),
    {
        self.num_cursors
    }

    /// Takes the result code of one execution step (`sqlite3_step`) and the
    /// connection's error message at that point: `SQLITE_ROW` means a row is
    /// available (execution has not completed), `SQLITE_DONE` that execution
    /// completed; any other code is an error carrying the code and the
    /// message, and leaves the done flag as it was.
    pub fn step(&mut self, rc: i32, message: String) -> (r: Result<StepResult>)
        ensures
            rc == ffi::SQLITE_ROW ==> r == Ok::<StepResult, Error>(StepResult::Row),
            rc == ffi::SQLITE_DONE ==> r == Ok::<StepResult, Error>(StepResult::Done),
            rc != ffi::SQLITE_ROW && rc != ffi::SQLITE_DONE ==> r == Err::<StepResult, Error>(
                Error::Sqlite { code: rc, message: Some(message) },
            ),
            rc == ffi::SQLITE_ROW || rc == ffi::SQLITE_DONE ==> final(self).done() == (rc
                == ffi::SQLITE_DONE),
            rc != ffi::SQLITE_ROW && rc != ffi::SQLITE_DONE ==> final(self).done() == old(self).done(),
            final(self).records() == old(self).records(),
            final(self).result_columns_of() == old(self).result_columns_of(),
            final(self).memory_cells_of() == old(self).memory_cells_of(),
            final(self).cursor_slots_of() == old(self).cursor_slots_of(),
    {
        if rc == ffi::SQLITE_ROW {
            self.done = false;
            Ok(StepResult::Row)
        } else if rc == ffi::SQLITE_DONE {
            self.done = true;
            Ok(StepResult::Done)
        } else {
            Err(Error::from_code_with_message(rc, message))
        }
    }

    /// Check if execution has completed: the last step reported
    /// `SQLITE_DONE`, and no reset or row came after it.
    pub fn is_done(&self) -> (b: bool)
        ensures
            b == self.done(),
    {
        self.done
    }

    /// Reset the program for re-execution (after `sqlite3_reset`): it is no
    /// longer done.
    pub fn reset(&mut self)
        ensures
            !final(self).done(),
            final(self).records() == old(self).records(),
            final(self).result_columns_of() == old(self).result_columns_of(),
            final(self).memory_cells_of() == old(self).memory_cells_of(),
            final(self).cursor_slots_of() == old(self).cursor_slots_of(),
    {
        self.done = false;
    }

    /// The result of writing register `reg` (`sqlite3_vdbe_set_*`) that
    /// returned `rc`, in a program of `max` registers: success on
    /// `SQLITE_OK`, else the register is out of bounds.
    pub fn register_write_outcome(rc: i32, reg: i32, max: i32) -> (r: Result<()>)
        ensures
            rc == ffi::SQLITE_OK ==> r == Ok::<(), Error>(()),
            rc != ffi::SQLITE_OK ==> r == Err::<(), Error>(
                Error::RegisterOutOfBounds { index: reg, max },
            ),
    {
        if rc == ffi::SQLITE_OK {
            Ok(())
        } else {
            Err(Error::RegisterOutOfBounds { index: reg, max })
        }
    }

    /// What to read for a column whose storage class
    /// (`sqlite3_column_type`) is `col_type`.
    pub fn column_read(col_type: i32) -> (r: ColumnRead)
        ensures
            r == column_read_of(col_type),
    {
        if col_type == ffi::SQLITE_INTEGER {
            ColumnRead::Integer
        } else if col_type == ffi::SQLITE_FLOAT {
            ColumnRead::Real
        } else if col_type == ffi::SQLITE_TEXT {
            ColumnRead::Text
        } else if col_type == ffi::SQLITE_BLOB {
            ColumnRead::Blob
        } else {
            ColumnRead::Null
        }
    }

    /// Get the recorded instructions
    ///
    /// Returns a slice of all instructions that were added to this program.
    pub fn instructions(&self) -> (s: &[InsnRecord])
        ensures
            s@ == self.records(),
    {
        self.instructions.as_slice()
    }

    /// The program in SQLite's EXPLAIN format, as its `Display` writes it.
    pub fn display(&self) -> (s: String)
        ensures
            s@ == explain_text(self.records()),
    {
        let mut s = String::new();
        s.append("addr  opcode         p1    p2    p3    p4             p5  comment\n");
        s.append("----  -------------  ----  ----  ----  -------------  --  -------------\n");
        let ghost head = s@;
        let n = self.instructions.len();
        let mut i: usize = 0;
        while i < n
            invariant
                n == self.instructions@.len(),
                i <= n,
                head == explain_title() + explain_rule(),
                s@ == head + explain_rows(self.instructions@.take(i as int)),
            decreases n - i,
        {
            let ghost before = s@;
            push_explain_row(&mut s, i, &self.instructions[i]);
            proof {
                let rs = self.instructions@.take(i + 1);
                assert(rs.drop_last() =~= self.instructions@.take(i as int));
                assert(s@ =~= head + explain_rows(rs));
            }
            i = i + 1;
        }
        proof {
            assert(self.instructions@.take(n as int) =~= self.instructions@);
            assert(s@ =~= explain_text(self.records()));
        }
        s
    }
}

} // verus!
