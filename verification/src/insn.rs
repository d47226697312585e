//! VDBE instructions with semantically named fields, and their encoding
//! into an opcode number and the P1 through P5 operands.

use vstd::prelude::*;

verus! {

/// Opcode numbers of SQLite's virtual machine (from `opcodes.h` of the
/// engine version the library is built against, 3.45.0).
#[allow(non_camel_case_types)]
#[derive(Debug, Clone, Copy, PartialEq, Eq, Structural, Hash)]
pub enum RawOpcode {
    Savepoint,
    AutoCommit,
    Transaction,
    Checkpoint,
    JournalMode,
    Vacuum,
    VFilter,
    VUpdate,
    Init,
    Goto,
    Gosub,
    InitCoroutine,
    Yield,
    MustBeInt,
    Jump,
    Once,
    If,
    IfNot,
    IsType,
    Not,
    IfNullRow,
    SeekLT,
    SeekLE,
    SeekGE,
    SeekGT,
    IfNotOpen,
    IfNoHope,
    NoConflict,
    NotFound,
    Found,
    SeekRowid,
    NotExists,
    Last,
    IfSmaller,
    SorterSort,
    Sort,
    Rewind,
    SorterNext,
    Prev,
    Next,
    IdxLE,
    IdxGT,
    IdxLT,
    Or,
    And,
    IdxGE,
    RowSetRead,
    RowSetTest,
    Program,
    FkIfZero,
    IsNull,
    NotNull,
    Ne,
    Eq,
    Gt,
    Le,
    Lt,
    Ge,
    ElseEq,
    IfPos,
    IfNotZero,
    DecrJumpZero,
    IncrVacuum,
    VNext,
    Filter,
    PureFunc,
    Function,
    Return,
    EndCoroutine,
    HaltIfNull,
    Halt,
    Integer,
    Int64,
    String,
    BeginSubrtn,
    Null,
    SoftNull,
    Blob,
    Variable,
    Move,
    Copy,
    SCopy,
    IntCopy,
    FkCheck,
    ResultRow,
    CollSeq,
    AddImm,
    RealAffinity,
    Cast,
    Permutation,
    Compare,
    IsTrue,
    ZeroOrNull,
    Offset,
    Column,
    TypeCheck,
    Affinity,
    MakeRecord,
    Count,
    ReadCookie,
    SetCookie,
    ReopenIdx,
    BitAnd,
    BitOr,
    ShiftLeft,
    ShiftRight,
    Add,
    Subtract,
    Multiply,
    Divide,
    Remainder,
    Concat,
    OpenRead,
    OpenWrite,
    BitNot,
    OpenDup,
    OpenAutoindex,
    String8,
    OpenEphemeral,
    SorterOpen,
    SequenceTest,
    OpenPseudo,
    Close,
    ColumnsUsed,
    SeekScan,
    SeekHit,
    Sequence,
    NewRowid,
    Insert,
    RowCell,
    Delete,
    ResetCount,
    SorterCompare,
    SorterData,
    RowData,
    Rowid,
    NullRow,
    SeekEnd,
    IdxInsert,
    SorterInsert,
    IdxDelete,
    DeferredSeek,
    IdxRowid,
    FinishSeek,
    Destroy,
    Clear,
    ResetSorter,
    CreateBtree,
    SqlExec,
    ParseSchema,
    LoadAnalysis,
    DropTable,
    DropIndex,
    Real,
    DropTrigger,
    IntegrityCk,
    RowSetAdd,
    Param,
    MemMax,
    OffsetLimit,
    AggInverse,
    AggStep,
    AggStep1,
    AggValue,
    AggFinal,
    Expire,
    CursorLock,
    CursorUnlock,
    TableLock,
    VBegin,
    VCreate,
    VDestroy,
    VOpen,
    VCheck,
    VInitIn,
    VColumn,
    VRename,
    Pagecount,
    MaxPgcnt,
    ClrSubtype,
    GetSubtype,
    SetSubtype,
    FilterAdd,
    Trace,
    CursorHint,
    ReleaseReg,
    Noop,
    Explain,
    Abortable,
}

impl RawOpcode {
    /// The numeric opcode.
    pub open spec fn number(self) -> u8 {
        match self {
            RawOpcode::Savepoint => 0u8,
            RawOpcode::AutoCommit => 1u8,
            RawOpcode::Transaction => 2u8,
            RawOpcode::Checkpoint => 3u8,
            RawOpcode::JournalMode => 4u8,
            RawOpcode::Vacuum => 5u8,
            RawOpcode::VFilter => 6u8,
            RawOpcode::VUpdate => 7u8,
            RawOpcode::Init => 8u8,
            RawOpcode::Goto => 9u8,
            RawOpcode::Gosub => 10u8,
            RawOpcode::InitCoroutine => 11u8,
            RawOpcode::Yield => 12u8,
            RawOpcode::MustBeInt => 13u8,
            RawOpcode::Jump => 14u8,
            RawOpcode::Once => 15u8,
            RawOpcode::If => 16u8,
            RawOpcode::IfNot => 17u8,
            RawOpcode::IsType => 18u8,
            RawOpcode::Not => 19u8,
            RawOpcode::IfNullRow => 20u8,
            RawOpcode::SeekLT => 21u8,
            RawOpcode::SeekLE => 22u8,
            RawOpcode::SeekGE => 23u8,
            RawOpcode::SeekGT => 24u8,
            RawOpcode::IfNotOpen => 25u8,
            RawOpcode::IfNoHope => 26u8,
            RawOpcode::NoConflict => 27u8,
            RawOpcode::NotFound => 28u8,
            RawOpcode::Found => 29u8,
            RawOpcode::SeekRowid => 30u8,
            RawOpcode::NotExists => 31u8,
            RawOpcode::Last => 32u8,
            RawOpcode::IfSmaller => 33u8,
            RawOpcode::SorterSort => 34u8,
            RawOpcode::Sort => 35u8,
            RawOpcode::Rewind => 36u8,
            RawOpcode::SorterNext => 37u8,
            RawOpcode::Prev => 38u8,
            RawOpcode::Next => 39u8,
            RawOpcode::IdxLE => 40u8,
            RawOpcode::IdxGT => 41u8,
            RawOpcode::IdxLT => 42u8,
            RawOpcode::Or => 43u8,
            RawOpcode::And => 44u8,
            RawOpcode::IdxGE => 45u8,
            RawOpcode::RowSetRead => 46u8,
            RawOpcode::RowSetTest => 47u8,
            RawOpcode::Program => 48u8,
            RawOpcode::FkIfZero => 49u8,
            RawOpcode::IsNull => 50u8,
            RawOpcode::NotNull => 51u8,
            RawOpcode::Ne => 52u8,
            RawOpcode::Eq => 53u8,
            RawOpcode::Gt => 54u8,
            RawOpcode::Le => 55u8,
            RawOpcode::Lt => 56u8,
            RawOpcode::Ge => 57u8,
            RawOpcode::ElseEq => 58u8,
            RawOpcode::IfPos => 59u8,
            RawOpcode::IfNotZero => 60u8,
            RawOpcode::DecrJumpZero => 61u8,
            RawOpcode::IncrVacuum => 62u8,
            RawOpcode::VNext => 63u8,
            RawOpcode::Filter => 64u8,
            RawOpcode::PureFunc => 65u8,
            RawOpcode::Function => 66u8,
            RawOpcode::Return => 67u8,
            RawOpcode::EndCoroutine => 68u8,
            RawOpcode::HaltIfNull => 69u8,
            RawOpcode::Halt => 70u8,
            RawOpcode::Integer => 71u8,
            RawOpcode::Int64 => 72u8,
            RawOpcode::String => 73u8,
            RawOpcode::BeginSubrtn => 74u8,
            RawOpcode::Null => 75u8,
            RawOpcode::SoftNull => 76u8,
            RawOpcode::Blob => 77u8,
            RawOpcode::Variable => 78u8,
            RawOpcode::Move => 79u8,
            RawOpcode::Copy => 80u8,
            RawOpcode::SCopy => 81u8,
            RawOpcode::IntCopy => 82u8,
            RawOpcode::FkCheck => 83u8,
            RawOpcode::ResultRow => 84u8,
            RawOpcode::CollSeq => 85u8,
            RawOpcode::AddImm => 86u8,
            RawOpcode::RealAffinity => 87u8,
            RawOpcode::Cast => 88u8,
            RawOpcode::Permutation => 89u8,
            RawOpcode::Compare => 90u8,
            RawOpcode::IsTrue => 91u8,
            RawOpcode::ZeroOrNull => 92u8,
            RawOpcode::Offset => 93u8,
            RawOpcode::Column => 94u8,
            RawOpcode::TypeCheck => 95u8,
            RawOpcode::Affinity => 96u8,
            RawOpcode::MakeRecord => 97u8,
            RawOpcode::Count => 98u8,
            RawOpcode::ReadCookie => 99u8,
            RawOpcode::SetCookie => 100u8,
            RawOpcode::ReopenIdx => 101u8,
            RawOpcode::BitAnd => 102u8,
            RawOpcode::BitOr => 103u8,
            RawOpcode::ShiftLeft => 104u8,
            RawOpcode::ShiftRight => 105u8,
            RawOpcode::Add => 106u8,
            RawOpcode::Subtract => 107u8,
            RawOpcode::Multiply => 108u8,
            RawOpcode::Divide => 109u8,
            RawOpcode::Remainder => 110u8,
            RawOpcode::Concat => 111u8,
            RawOpcode::OpenRead => 112u8,
            RawOpcode::OpenWrite => 113u8,
            RawOpcode::BitNot => 114u8,
            RawOpcode::OpenDup => 115u8,
            RawOpcode::OpenAutoindex => 116u8,
            RawOpcode::String8 => 117u8,
            RawOpcode::OpenEphemeral => 118u8,
            RawOpcode::SorterOpen => 119u8,
            RawOpcode::SequenceTest => 120u8,
            RawOpcode::OpenPseudo => 121u8,
            RawOpcode::Close => 122u8,
            RawOpcode::ColumnsUsed => 123u8,
            RawOpcode::SeekScan => 124u8,
            RawOpcode::SeekHit => 125u8,
            RawOpcode::Sequence => 126u8,
            RawOpcode::NewRowid => 127u8,
            RawOpcode::Insert => 128u8,
            RawOpcode::RowCell => 129u8,
            RawOpcode::Delete => 130u8,
            RawOpcode::ResetCount => 131u8,
            RawOpcode::SorterCompare => 132u8,
            RawOpcode::SorterData => 133u8,
            RawOpcode::RowData => 134u8,
            RawOpcode::Rowid => 135u8,
            RawOpcode::NullRow => 136u8,
            RawOpcode::SeekEnd => 137u8,
            RawOpcode::IdxInsert => 138u8,
            RawOpcode::SorterInsert => 139u8,
            RawOpcode::IdxDelete => 140u8,
            RawOpcode::DeferredSeek => 141u8,
            RawOpcode::IdxRowid => 142u8,
            RawOpcode::FinishSeek => 143u8,
            RawOpcode::Destroy => 144u8,
            RawOpcode::Clear => 145u8,
            RawOpcode::ResetSorter => 146u8,
            RawOpcode::CreateBtree => 147u8,
            RawOpcode::SqlExec => 148u8,
            RawOpcode::ParseSchema => 149u8,
            RawOpcode::LoadAnalysis => 150u8,
            RawOpcode::DropTable => 151u8,
            RawOpcode::DropIndex => 152u8,
            RawOpcode::Real => 153u8,
            RawOpcode::DropTrigger => 154u8,
            RawOpcode::IntegrityCk => 155u8,
            RawOpcode::RowSetAdd => 156u8,
            RawOpcode::Param => 157u8,
            RawOpcode::MemMax => 159u8,
            RawOpcode::OffsetLimit => 160u8,
            RawOpcode::AggInverse => 161u8,
            RawOpcode::AggStep => 162u8,
            RawOpcode::AggStep1 => 163u8,
            RawOpcode::AggValue => 164u8,
            RawOpcode::AggFinal => 165u8,
            RawOpcode::Expire => 166u8,
            RawOpcode::CursorLock => 167u8,
            RawOpcode::CursorUnlock => 168u8,
            RawOpcode::TableLock => 169u8,
            RawOpcode::VBegin => 170u8,
            RawOpcode::VCreate => 171u8,
            RawOpcode::VDestroy => 172u8,
            RawOpcode::VOpen => 173u8,
            RawOpcode::VCheck => 174u8,
            RawOpcode::VInitIn => 175u8,
            RawOpcode::VColumn => 176u8,
            RawOpcode::VRename => 177u8,
            RawOpcode::Pagecount => 178u8,
            RawOpcode::MaxPgcnt => 179u8,
            RawOpcode::ClrSubtype => 180u8,
            RawOpcode::GetSubtype => 181u8,
            RawOpcode::SetSubtype => 182u8,
            RawOpcode::FilterAdd => 183u8,
            RawOpcode::Trace => 184u8,
            RawOpcode::CursorHint => 185u8,
            RawOpcode::ReleaseReg => 186u8,
            RawOpcode::Noop => 187u8,
            RawOpcode::Explain => 188u8,
            RawOpcode::Abortable => 189u8,
        }
    }

    /// The numeric opcode that the engine knows this opcode by.
    pub fn code(self) -> (c: u8)
        ensures
            c == self.number(),
    {
        match self {
            RawOpcode::Savepoint => 0,
            RawOpcode::AutoCommit => 1,
            RawOpcode::Transaction => 2,
            RawOpcode::Checkpoint => 3,
            RawOpcode::JournalMode => 4,
            RawOpcode::Vacuum => 5,
            RawOpcode::VFilter => 6,
            RawOpcode::VUpdate => 7,
            RawOpcode::Init => 8,
            RawOpcode::Goto => 9,
            RawOpcode::Gosub => 10,
            RawOpcode::InitCoroutine => 11,
            RawOpcode::Yield => 12,
            RawOpcode::MustBeInt => 13,
            RawOpcode::Jump => 14,
            RawOpcode::Once => 15,
            RawOpcode::If => 16,
            RawOpcode::IfNot => 17,
            RawOpcode::IsType => 18,
            RawOpcode::Not => 19,
            RawOpcode::IfNullRow => 20,
            RawOpcode::SeekLT => 21,
            RawOpcode::SeekLE => 22,
            RawOpcode::SeekGE => 23,
            RawOpcode::SeekGT => 24,
            RawOpcode::IfNotOpen => 25,
            RawOpcode::IfNoHope => 26,
            RawOpcode::NoConflict => 27,
            RawOpcode::NotFound => 28,
            RawOpcode::Found => 29,
            RawOpcode::SeekRowid => 30,
            RawOpcode::NotExists => 31,
            RawOpcode::Last => 32,
            RawOpcode::IfSmaller => 33,
            RawOpcode::SorterSort => 34,
            RawOpcode::Sort => 35,
            RawOpcode::Rewind => 36,
            RawOpcode::SorterNext => 37,
            RawOpcode::Prev => 38,
            RawOpcode::Next => 39,
            RawOpcode::IdxLE => 40,
            RawOpcode::IdxGT => 41,
            RawOpcode::IdxLT => 42,
            RawOpcode::Or => 43,
            RawOpcode::And => 44,
            RawOpcode::IdxGE => 45,
            RawOpcode::RowSetRead => 46,
            RawOpcode::RowSetTest => 47,
            RawOpcode::Program => 48,
            RawOpcode::FkIfZero => 49,
            RawOpcode::IsNull => 50,
            RawOpcode::NotNull => 51,
            RawOpcode::Ne => 52,
            RawOpcode::Eq => 53,
            RawOpcode::Gt => 54,
            RawOpcode::Le => 55,
            RawOpcode::Lt => 56,
            RawOpcode::Ge => 57,
            RawOpcode::ElseEq => 58,
            RawOpcode::IfPos => 59,
            RawOpcode::IfNotZero => 60,
            RawOpcode::DecrJumpZero => 61,
            RawOpcode::IncrVacuum => 62,
            RawOpcode::VNext => 63,
            RawOpcode::Filter => 64,
            RawOpcode::PureFunc => 65,
            RawOpcode::Function => 66,
            RawOpcode::Return => 67,
            RawOpcode::EndCoroutine => 68,
            RawOpcode::HaltIfNull => 69,
            RawOpcode::Halt => 70,
            RawOpcode::Integer => 71,
            RawOpcode::Int64 => 72,
            RawOpcode::String => 73,
            RawOpcode::BeginSubrtn => 74,
            RawOpcode::Null => 75,
            RawOpcode::SoftNull => 76,
            RawOpcode::Blob => 77,
            RawOpcode::Variable => 78,
            RawOpcode::Move => 79,
            RawOpcode::Copy => 80,
            RawOpcode::SCopy => 81,
            RawOpcode::IntCopy => 82,
            RawOpcode::FkCheck => 83,
            RawOpcode::ResultRow => 84,
            RawOpcode::CollSeq => 85,
            RawOpcode::AddImm => 86,
            RawOpcode::RealAffinity => 87,
            RawOpcode::Cast => 88,
            RawOpcode::Permutation => 89,
            RawOpcode::Compare => 90,
            RawOpcode::IsTrue => 91,
            RawOpcode::ZeroOrNull => 92,
            RawOpcode::Offset => 93,
            RawOpcode::Column => 94,
            RawOpcode::TypeCheck => 95,
            RawOpcode::Affinity => 96,
            RawOpcode::MakeRecord => 97,
            RawOpcode::Count => 98,
            RawOpcode::ReadCookie => 99,
            RawOpcode::SetCookie => 100,
            RawOpcode::ReopenIdx => 101,
            RawOpcode::BitAnd => 102,
            RawOpcode::BitOr => 103,
            RawOpcode::ShiftLeft => 104,
            RawOpcode::ShiftRight => 105,
            RawOpcode::Add => 106,
            RawOpcode::Subtract => 107,
            RawOpcode::Multiply => 108,
            RawOpcode::Divide => 109,
            RawOpcode::Remainder => 110,
            RawOpcode::Concat => 111,
            RawOpcode::OpenRead => 112,
            RawOpcode::OpenWrite => 113,
            RawOpcode::BitNot => 114,
            RawOpcode::OpenDup => 115,
            RawOpcode::OpenAutoindex => 116,
            RawOpcode::String8 => 117,
            RawOpcode::OpenEphemeral => 118,
            RawOpcode::SorterOpen => 119,
            RawOpcode::SequenceTest => 120,
            RawOpcode::OpenPseudo => 121,
            RawOpcode::Close => 122,
            RawOpcode::ColumnsUsed => 123,
            RawOpcode::SeekScan => 124,
            RawOpcode::SeekHit => 125,
            RawOpcode::Sequence => 126,
            RawOpcode::NewRowid => 127,
            RawOpcode::Insert => 128,
            RawOpcode::RowCell => 129,
            RawOpcode::Delete => 130,
            RawOpcode::ResetCount => 131,
            RawOpcode::SorterCompare => 132,
            RawOpcode::SorterData => 133,
            RawOpcode::RowData => 134,
            RawOpcode::Rowid => 135,
            RawOpcode::NullRow => 136,
            RawOpcode::SeekEnd => 137,
            RawOpcode::IdxInsert => 138,
            RawOpcode::SorterInsert => 139,
            RawOpcode::IdxDelete => 140,
            RawOpcode::DeferredSeek => 141,
            RawOpcode::IdxRowid => 142,
            RawOpcode::FinishSeek => 143,
            RawOpcode::Destroy => 144,
            RawOpcode::Clear => 145,
            RawOpcode::ResetSorter => 146,
            RawOpcode::CreateBtree => 147,
            RawOpcode::SqlExec => 148,
            RawOpcode::ParseSchema => 149,
            RawOpcode::LoadAnalysis => 150,
            RawOpcode::DropTable => 151,
            RawOpcode::DropIndex => 152,
            RawOpcode::Real => 153,
            RawOpcode::DropTrigger => 154,
            RawOpcode::IntegrityCk => 155,
            RawOpcode::RowSetAdd => 156,
            RawOpcode::Param => 157,
            RawOpcode::MemMax => 159,
            RawOpcode::OffsetLimit => 160,
            RawOpcode::AggInverse => 161,
            RawOpcode::AggStep => 162,
            RawOpcode::AggStep1 => 163,
            RawOpcode::AggValue => 164,
            RawOpcode::AggFinal => 165,
            RawOpcode::Expire => 166,
            RawOpcode::CursorLock => 167,
            RawOpcode::CursorUnlock => 168,
            RawOpcode::TableLock => 169,
            RawOpcode::VBegin => 170,
            RawOpcode::VCreate => 171,
            RawOpcode::VDestroy => 172,
            RawOpcode::VOpen => 173,
            RawOpcode::VCheck => 174,
            RawOpcode::VInitIn => 175,
            RawOpcode::VColumn => 176,
            RawOpcode::VRename => 177,
            RawOpcode::Pagecount => 178,
            RawOpcode::MaxPgcnt => 179,
            RawOpcode::ClrSubtype => 180,
            RawOpcode::GetSubtype => 181,
            RawOpcode::SetSubtype => 182,
            RawOpcode::FilterAdd => 183,
            RawOpcode::Trace => 184,
            RawOpcode::CursorHint => 185,
            RawOpcode::ReleaseReg => 186,
            RawOpcode::Noop => 187,
            RawOpcode::Explain => 188,
            RawOpcode::Abortable => 189,
        }
    }

    /// The opcode's name, as the engine's EXPLAIN listing shows it.
    pub open spec fn name_of(self) -> &'static str {
        match self {
            RawOpcode::Savepoint => "Savepoint",
            RawOpcode::AutoCommit => "AutoCommit",
            RawOpcode::Transaction => "Transaction",
            RawOpcode::Checkpoint => "Checkpoint",
            RawOpcode::JournalMode => "JournalMode",
            RawOpcode::Vacuum => "Vacuum",
            RawOpcode::VFilter => "VFilter",
            RawOpcode::VUpdate => "VUpdate",
            RawOpcode::Init => "Init",
            RawOpcode::Goto => "Goto",
            RawOpcode::Gosub => "Gosub",
            RawOpcode::InitCoroutine => "InitCoroutine",
            RawOpcode::Yield => "Yield",
            RawOpcode::MustBeInt => "MustBeInt",
            RawOpcode::Jump => "Jump",
            RawOpcode::Once => "Once",
            RawOpcode::If => "If",
            RawOpcode::IfNot => "IfNot",
            RawOpcode::IsType => "IsType",
            RawOpcode::Not => "Not",
            RawOpcode::IfNullRow => "IfNullRow",
            RawOpcode::SeekLT => "SeekLT",
            RawOpcode::SeekLE => "SeekLE",
            RawOpcode::SeekGE => "SeekGE",
            RawOpcode::SeekGT => "SeekGT",
            RawOpcode::IfNotOpen => "IfNotOpen",
            RawOpcode::IfNoHope => "IfNoHope",
            RawOpcode::NoConflict => "NoConflict",
            RawOpcode::NotFound => "NotFound",
            RawOpcode::Found => "Found",
            RawOpcode::SeekRowid => "SeekRowid",
            RawOpcode::NotExists => "NotExists",
            RawOpcode::Last => "Last",
            RawOpcode::IfSmaller => "IfSmaller",
            RawOpcode::SorterSort => "SorterSort",
            RawOpcode::Sort => "Sort",
            RawOpcode::Rewind => "Rewind",
            RawOpcode::SorterNext => "SorterNext",
            RawOpcode::Prev => "Prev",
            RawOpcode::Next => "Next",
            RawOpcode::IdxLE => "IdxLE",
            RawOpcode::IdxGT => "IdxGT",
            RawOpcode::IdxLT => "IdxLT",
            RawOpcode::Or => "Or",
            RawOpcode::And => "And",
            RawOpcode::IdxGE => "IdxGE",
            RawOpcode::RowSetRead => "RowSetRead",
            RawOpcode::RowSetTest => "RowSetTest",
            RawOpcode::Program => "Program",
            RawOpcode::FkIfZero => "FkIfZero",
            RawOpcode::IsNull => "IsNull",
            RawOpcode::NotNull => "NotNull",
            RawOpcode::Ne => "Ne",
            RawOpcode::Eq => "Eq",
            RawOpcode::Gt => "Gt",
            RawOpcode::Le => "Le",
            RawOpcode::Lt => "Lt",
            RawOpcode::Ge => "Ge",
            RawOpcode::ElseEq => "ElseEq",
            RawOpcode::IfPos => "IfPos",
            RawOpcode::IfNotZero => "IfNotZero",
            RawOpcode::DecrJumpZero => "DecrJumpZero",
            RawOpcode::IncrVacuum => "IncrVacuum",
            RawOpcode::VNext => "VNext",
            RawOpcode::Filter => "Filter",
            RawOpcode::PureFunc => "PureFunc",
            RawOpcode::Function => "Function",
            RawOpcode::Return => "Return",
            RawOpcode::EndCoroutine => "EndCoroutine",
            RawOpcode::HaltIfNull => "HaltIfNull",
            RawOpcode::Halt => "Halt",
            RawOpcode::Integer => "Integer",
            RawOpcode::Int64 => "Int64",
            RawOpcode::String => "String",
            RawOpcode::BeginSubrtn => "BeginSubrtn",
            RawOpcode::Null => "Null",
            RawOpcode::SoftNull => "SoftNull",
            RawOpcode::Blob => "Blob",
            RawOpcode::Variable => "Variable",
            RawOpcode::Move => "Move",
            RawOpcode::Copy => "Copy",
            RawOpcode::SCopy => "SCopy",
            RawOpcode::IntCopy => "IntCopy",
            RawOpcode::FkCheck => "FkCheck",
            RawOpcode::ResultRow => "ResultRow",
            RawOpcode::CollSeq => "CollSeq",
            RawOpcode::AddImm => "AddImm",
            RawOpcode::RealAffinity => "RealAffinity",
            RawOpcode::Cast => "Cast",
            RawOpcode::Permutation => "Permutation",
            RawOpcode::Compare => "Compare",
            RawOpcode::IsTrue => "IsTrue",
            RawOpcode::ZeroOrNull => "ZeroOrNull",
            RawOpcode::Offset => "Offset",
            RawOpcode::Column => "Column",
            RawOpcode::TypeCheck => "TypeCheck",
            RawOpcode::Affinity => "Affinity",
            RawOpcode::MakeRecord => "MakeRecord",
            RawOpcode::Count => "Count",
            RawOpcode::ReadCookie => "ReadCookie",
            RawOpcode::SetCookie => "SetCookie",
            RawOpcode::ReopenIdx => "ReopenIdx",
            RawOpcode::BitAnd => "BitAnd",
            RawOpcode::BitOr => "BitOr",
            RawOpcode::ShiftLeft => "ShiftLeft",
            RawOpcode::ShiftRight => "ShiftRight",
            RawOpcode::Add => "Add",
            RawOpcode::Subtract => "Subtract",
            RawOpcode::Multiply => "Multiply",
            RawOpcode::Divide => "Divide",
            RawOpcode::Remainder => "Remainder",
            RawOpcode::Concat => "Concat",
            RawOpcode::OpenRead => "OpenRead",
            RawOpcode::OpenWrite => "OpenWrite",
            RawOpcode::BitNot => "BitNot",
            RawOpcode::OpenDup => "OpenDup",
            RawOpcode::OpenAutoindex => "OpenAutoindex",
            RawOpcode::String8 => "String8",
            RawOpcode::OpenEphemeral => "OpenEphemeral",
            RawOpcode::SorterOpen => "SorterOpen",
            RawOpcode::SequenceTest => "SequenceTest",
            RawOpcode::OpenPseudo => "OpenPseudo",
            RawOpcode::Close => "Close",
            RawOpcode::ColumnsUsed => "ColumnsUsed",
            RawOpcode::SeekScan => "SeekScan",
            RawOpcode::SeekHit => "SeekHit",
            RawOpcode::Sequence => "Sequence",
            RawOpcode::NewRowid => "NewRowid",
            RawOpcode::Insert => "Insert",
            RawOpcode::RowCell => "RowCell",
            RawOpcode::Delete => "Delete",
            RawOpcode::ResetCount => "ResetCount",
            RawOpcode::SorterCompare => "SorterCompare",
            RawOpcode::SorterData => "SorterData",
            RawOpcode::RowData => "RowData",
            RawOpcode::Rowid => "Rowid",
            RawOpcode::NullRow => "NullRow",
            RawOpcode::SeekEnd => "SeekEnd",
            RawOpcode::IdxInsert => "IdxInsert",
            RawOpcode::SorterInsert => "SorterInsert",
            RawOpcode::IdxDelete => "IdxDelete",
            RawOpcode::DeferredSeek => "DeferredSeek",
            RawOpcode::IdxRowid => "IdxRowid",
            RawOpcode::FinishSeek => "FinishSeek",
            RawOpcode::Destroy => "Destroy",
            RawOpcode::Clear => "Clear",
            RawOpcode::ResetSorter => "ResetSorter",
            RawOpcode::CreateBtree => "CreateBtree",
            RawOpcode::SqlExec => "SqlExec",
            RawOpcode::ParseSchema => "ParseSchema",
            RawOpcode::LoadAnalysis => "LoadAnalysis",
            RawOpcode::DropTable => "DropTable",
            RawOpcode::DropIndex => "DropIndex",
            RawOpcode::Real => "Real",
            RawOpcode::DropTrigger => "DropTrigger",
            RawOpcode::IntegrityCk => "IntegrityCk",
            RawOpcode::RowSetAdd => "RowSetAdd",
            RawOpcode::Param => "Param",
            RawOpcode::MemMax => "MemMax",
            RawOpcode::OffsetLimit => "OffsetLimit",
            RawOpcode::AggInverse => "AggInverse",
            RawOpcode::AggStep => "AggStep",
            RawOpcode::AggStep1 => "AggStep1",
            RawOpcode::AggValue => "AggValue",
            RawOpcode::AggFinal => "AggFinal",
            RawOpcode::Expire => "Expire",
            RawOpcode::CursorLock => "CursorLock",
            RawOpcode::CursorUnlock => "CursorUnlock",
            RawOpcode::TableLock => "TableLock",
            RawOpcode::VBegin => "VBegin",
            RawOpcode::VCreate => "VCreate",
            RawOpcode::VDestroy => "VDestroy",
            RawOpcode::VOpen => "VOpen",
            RawOpcode::VCheck => "VCheck",
            RawOpcode::VInitIn => "VInitIn",
            RawOpcode::VColumn => "VColumn",
            RawOpcode::VRename => "VRename",
            RawOpcode::Pagecount => "Pagecount",
            RawOpcode::MaxPgcnt => "MaxPgcnt",
            RawOpcode::ClrSubtype => "ClrSubtype",
            RawOpcode::GetSubtype => "GetSubtype",
            RawOpcode::SetSubtype => "SetSubtype",
            RawOpcode::FilterAdd => "FilterAdd",
            RawOpcode::Trace => "Trace",
            RawOpcode::CursorHint => "CursorHint",
            RawOpcode::ReleaseReg => "ReleaseReg",
            RawOpcode::Noop => "Noop",
            RawOpcode::Explain => "Explain",
            RawOpcode::Abortable => "Abortable",
        }
    }

    /// The opcode's name.
    pub fn name(self) -> (s: &'static str)
        ensures
            s == self.name_of(),
    {
        match self {
            RawOpcode::Savepoint => "Savepoint",
            RawOpcode::AutoCommit => "AutoCommit",
            RawOpcode::Transaction => "Transaction",
            RawOpcode::Checkpoint => "Checkpoint",
            RawOpcode::JournalMode => "JournalMode",
            RawOpcode::Vacuum => "Vacuum",
            RawOpcode::VFilter => "VFilter",
            RawOpcode::VUpdate => "VUpdate",
            RawOpcode::Init => "Init",
            RawOpcode::Goto => "Goto",
            RawOpcode::Gosub => "Gosub",
            RawOpcode::InitCoroutine => "InitCoroutine",
            RawOpcode::Yield => "Yield",
            RawOpcode::MustBeInt => "MustBeInt",
            RawOpcode::Jump => "Jump",
            RawOpcode::Once => "Once",
            RawOpcode::If => "If",
            RawOpcode::IfNot => "IfNot",
            RawOpcode::IsType => "IsType",
            RawOpcode::Not => "Not",
            RawOpcode::IfNullRow => "IfNullRow",
            RawOpcode::SeekLT => "SeekLT",
            RawOpcode::SeekLE => "SeekLE",
            RawOpcode::SeekGE => "SeekGE",
            RawOpcode::SeekGT => "SeekGT",
            RawOpcode::IfNotOpen => "IfNotOpen",
            RawOpcode::IfNoHope => "IfNoHope",
            RawOpcode::NoConflict => "NoConflict",
            RawOpcode::NotFound => "NotFound",
            RawOpcode::Found => "Found",
            RawOpcode::SeekRowid => "SeekRowid",
            RawOpcode::NotExists => "NotExists",
            RawOpcode::Last => "Last",
            RawOpcode::IfSmaller => "IfSmaller",
            RawOpcode::SorterSort => "SorterSort",
            RawOpcode::Sort => "Sort",
            RawOpcode::Rewind => "Rewind",
            RawOpcode::SorterNext => "SorterNext",
            RawOpcode::Prev => "Prev",
            RawOpcode::Next => "Next",
            RawOpcode::IdxLE => "IdxLE",
            RawOpcode::IdxGT => "IdxGT",
            RawOpcode::IdxLT => "IdxLT",
            RawOpcode::Or => "Or",
            RawOpcode::And => "And",
            RawOpcode::IdxGE => "IdxGE",
            RawOpcode::RowSetRead => "RowSetRead",
            RawOpcode::RowSetTest => "RowSetTest",
            RawOpcode::Program => "Program",
            RawOpcode::FkIfZero => "FkIfZero",
            RawOpcode::IsNull => "IsNull",
            RawOpcode::NotNull => "NotNull",
            RawOpcode::Ne => "Ne",
            RawOpcode::Eq => "Eq",
            RawOpcode::Gt => "Gt",
            RawOpcode::Le => "Le",
            RawOpcode::Lt => "Lt",
            RawOpcode::Ge => "Ge",
            RawOpcode::ElseEq => "ElseEq",
            RawOpcode::IfPos => "IfPos",
            RawOpcode::IfNotZero => "IfNotZero",
            RawOpcode::DecrJumpZero => "DecrJumpZero",
            RawOpcode::IncrVacuum => "IncrVacuum",
            RawOpcode::VNext => "VNext",
            RawOpcode::Filter => "Filter",
            RawOpcode::PureFunc => "PureFunc",
            RawOpcode::Function => "Function",
            RawOpcode::Return => "Return",
            RawOpcode::EndCoroutine => "EndCoroutine",
            RawOpcode::HaltIfNull => "HaltIfNull",
            RawOpcode::Halt => "Halt",
            RawOpcode::Integer => "Integer",
            RawOpcode::Int64 => "Int64",
            RawOpcode::String => "String",
            RawOpcode::BeginSubrtn => "BeginSubrtn",
            RawOpcode::Null => "Null",
            RawOpcode::SoftNull => "SoftNull",
            RawOpcode::Blob => "Blob",
            RawOpcode::Variable => "Variable",
            RawOpcode::Move => "Move",
            RawOpcode::Copy => "Copy",
            RawOpcode::SCopy => "SCopy",
            RawOpcode::IntCopy => "IntCopy",
            RawOpcode::FkCheck => "FkCheck",
            RawOpcode::ResultRow => "ResultRow",
            RawOpcode::CollSeq => "CollSeq",
            RawOpcode::AddImm => "AddImm",
            RawOpcode::RealAffinity => "RealAffinity",
            RawOpcode::Cast => "Cast",
            RawOpcode::Permutation => "Permutation",
            RawOpcode::Compare => "Compare",
            RawOpcode::IsTrue => "IsTrue",
            RawOpcode::ZeroOrNull => "ZeroOrNull",
            RawOpcode::Offset => "Offset",
            RawOpcode::Column => "Column",
            RawOpcode::TypeCheck => "TypeCheck",
            RawOpcode::Affinity => "Affinity",
            RawOpcode::MakeRecord => "MakeRecord",
            RawOpcode::Count => "Count",
            RawOpcode::ReadCookie => "ReadCookie",
            RawOpcode::SetCookie => "SetCookie",
            RawOpcode::ReopenIdx => "ReopenIdx",
            RawOpcode::BitAnd => "BitAnd",
            RawOpcode::BitOr => "BitOr",
            RawOpcode::ShiftLeft => "ShiftLeft",
            RawOpcode::ShiftRight => "ShiftRight",
            RawOpcode::Add => "Add",
            RawOpcode::Subtract => "Subtract",
            RawOpcode::Multiply => "Multiply",
            RawOpcode::Divide => "Divide",
            RawOpcode::Remainder => "Remainder",
            RawOpcode::Concat => "Concat",
            RawOpcode::OpenRead => "OpenRead",
            RawOpcode::OpenWrite => "OpenWrite",
            RawOpcode::BitNot => "BitNot",
            RawOpcode::OpenDup => "OpenDup",
            RawOpcode::OpenAutoindex => "OpenAutoindex",
            RawOpcode::String8 => "String8",
            RawOpcode::OpenEphemeral => "OpenEphemeral",
            RawOpcode::SorterOpen => "SorterOpen",
            RawOpcode::SequenceTest => "SequenceTest",
            RawOpcode::OpenPseudo => "OpenPseudo",
            RawOpcode::Close => "Close",
            RawOpcode::ColumnsUsed => "ColumnsUsed",
            RawOpcode::SeekScan => "SeekScan",
            RawOpcode::SeekHit => "SeekHit",
            RawOpcode::Sequence => "Sequence",
            RawOpcode::NewRowid => "NewRowid",
            RawOpcode::Insert => "Insert",
            RawOpcode::RowCell => "RowCell",
            RawOpcode::Delete => "Delete",
            RawOpcode::ResetCount => "ResetCount",
            RawOpcode::SorterCompare => "SorterCompare",
            RawOpcode::SorterData => "SorterData",
            RawOpcode::RowData => "RowData",
            RawOpcode::Rowid => "Rowid",
            RawOpcode::NullRow => "NullRow",
            RawOpcode::SeekEnd => "SeekEnd",
            RawOpcode::IdxInsert => "IdxInsert",
            RawOpcode::SorterInsert => "SorterInsert",
            RawOpcode::IdxDelete => "IdxDelete",
            RawOpcode::DeferredSeek => "DeferredSeek",
            RawOpcode::IdxRowid => "IdxRowid",
            RawOpcode::FinishSeek => "FinishSeek",
            RawOpcode::Destroy => "Destroy",
            RawOpcode::Clear => "Clear",
            RawOpcode::ResetSorter => "ResetSorter",
            RawOpcode::CreateBtree => "CreateBtree",
            RawOpcode::SqlExec => "SqlExec",
            RawOpcode::ParseSchema => "ParseSchema",
            RawOpcode::LoadAnalysis => "LoadAnalysis",
            RawOpcode::DropTable => "DropTable",
            RawOpcode::DropIndex => "DropIndex",
            RawOpcode::Real => "Real",
            RawOpcode::DropTrigger => "DropTrigger",
            RawOpcode::IntegrityCk => "IntegrityCk",
            RawOpcode::RowSetAdd => "RowSetAdd",
            RawOpcode::Param => "Param",
            RawOpcode::MemMax => "MemMax",
            RawOpcode::OffsetLimit => "OffsetLimit",
            RawOpcode::AggInverse => "AggInverse",
            RawOpcode::AggStep => "AggStep",
            RawOpcode::AggStep1 => "AggStep1",
            RawOpcode::AggValue => "AggValue",
            RawOpcode::AggFinal => "AggFinal",
            RawOpcode::Expire => "Expire",
            RawOpcode::CursorLock => "CursorLock",
            RawOpcode::CursorUnlock => "CursorUnlock",
            RawOpcode::TableLock => "TableLock",
            RawOpcode::VBegin => "VBegin",
            RawOpcode::VCreate => "VCreate",
            RawOpcode::VDestroy => "VDestroy",
            RawOpcode::VOpen => "VOpen",
            RawOpcode::VCheck => "VCheck",
            RawOpcode::VInitIn => "VInitIn",
            RawOpcode::VColumn => "VColumn",
            RawOpcode::VRename => "VRename",
            RawOpcode::Pagecount => "Pagecount",
            RawOpcode::MaxPgcnt => "MaxPgcnt",
            RawOpcode::ClrSubtype => "ClrSubtype",
            RawOpcode::GetSubtype => "GetSubtype",
            RawOpcode::SetSubtype => "SetSubtype",
            RawOpcode::FilterAdd => "FilterAdd",
            RawOpcode::Trace => "Trace",
            RawOpcode::CursorHint => "CursorHint",
            RawOpcode::ReleaseReg => "ReleaseReg",
            RawOpcode::Noop => "Noop",
            RawOpcode::Explain => "Explain",
            RawOpcode::Abortable => "Abortable",
        }
    }
}

/// The name of the opcode numbered `n`; `None` for a number no opcode has.
pub open spec fn opcode_name(n: u8) -> Option<&'static str> {
    match n {
        0u8 => Some("Savepoint"),
        1u8 => Some("AutoCommit"),
        2u8 => Some("Transaction"),
        3u8 => Some("Checkpoint"),
        4u8 => Some("JournalMode"),
        5u8 => Some("Vacuum"),
        6u8 => Some("VFilter"),
        7u8 => Some("VUpdate"),
        8u8 => Some("Init"),
        9u8 => Some("Goto"),
        10u8 => Some("Gosub"),
        11u8 => Some("InitCoroutine"),
        12u8 => Some("Yield"),
        13u8 => Some("MustBeInt"),
        14u8 => Some("Jump"),
        15u8 => Some("Once"),
        16u8 => Some("If"),
        17u8 => Some("IfNot"),
        18u8 => Some("IsType"),
        19u8 => Some("Not"),
        20u8 => Some("IfNullRow"),
        21u8 => Some("SeekLT"),
        22u8 => Some("SeekLE"),
        23u8 => Some("SeekGE"),
        24u8 => Some("SeekGT"),
        25u8 => Some("IfNotOpen"),
        26u8 => Some("IfNoHope"),
        27u8 => Some("NoConflict"),
        28u8 => Some("NotFound"),
        29u8 => Some("Found"),
        30u8 => Some("SeekRowid"),
        31u8 => Some("NotExists"),
        32u8 => Some("Last"),
        33u8 => Some("IfSmaller"),
        34u8 => Some("SorterSort"),
        35u8 => Some("Sort"),
        36u8 => Some("Rewind"),
        37u8 => Some("SorterNext"),
        38u8 => Some("Prev"),
        39u8 => Some("Next"),
        40u8 => Some("IdxLE"),
        41u8 => Some("IdxGT"),
        42u8 => Some("IdxLT"),
        43u8 => Some("Or"),
        44u8 => Some("And"),
        45u8 => Some("IdxGE"),
        46u8 => Some("RowSetRead"),
        47u8 => Some("RowSetTest"),
        48u8 => Some("Program"),
        49u8 => Some("FkIfZero"),
        50u8 => Some("IsNull"),
        51u8 => Some("NotNull"),
        52u8 => Some("Ne"),
        53u8 => Some("Eq"),
        54u8 => Some("Gt"),
        55u8 => Some("Le"),
        56u8 => Some("Lt"),
        57u8 => Some("Ge"),
        58u8 => Some("ElseEq"),
        59u8 => Some("IfPos"),
        60u8 => Some("IfNotZero"),
        61u8 => Some("DecrJumpZero"),
        62u8 => Some("IncrVacuum"),
        63u8 => Some("VNext"),
        64u8 => Some("Filter"),
        65u8 => Some("PureFunc"),
        66u8 => Some("Function"),
        67u8 => Some("Return"),
        68u8 => Some("EndCoroutine"),
        69u8 => Some("HaltIfNull"),
        70u8 => Some("Halt"),
        71u8 => Some("Integer"),
        72u8 => Some("Int64"),
        73u8 => Some("String"),
        74u8 => Some("BeginSubrtn"),
        75u8 => Some("Null"),
        76u8 => Some("SoftNull"),
        77u8 => Some("Blob"),
        78u8 => Some("Variable"),
        79u8 => Some("Move"),
        80u8 => Some("Copy"),
        81u8 => Some("SCopy"),
        82u8 => Some("IntCopy"),
        83u8 => Some("FkCheck"),
        84u8 => Some("ResultRow"),
        85u8 => Some("CollSeq"),
        86u8 => Some("AddImm"),
        87u8 => Some("RealAffinity"),
        88u8 => Some("Cast"),
        89u8 => Some("Permutation"),
        90u8 => Some("Compare"),
        91u8 => Some("IsTrue"),
        92u8 => Some("ZeroOrNull"),
        93u8 => Some("Offset"),
        94u8 => Some("Column"),
        95u8 => Some("TypeCheck"),
        96u8 => Some("Affinity"),
        97u8 => Some("MakeRecord"),
        98u8 => Some("Count"),
        99u8 => Some("ReadCookie"),
        100u8 => Some("SetCookie"),
        101u8 => Some("ReopenIdx"),
        102u8 => Some("BitAnd"),
        103u8 => Some("BitOr"),
        104u8 => Some("ShiftLeft"),
        105u8 => Some("ShiftRight"),
        106u8 => Some("Add"),
        107u8 => Some("Subtract"),
        108u8 => Some("Multiply"),
        109u8 => Some("Divide"),
        110u8 => Some("Remainder"),
        111u8 => Some("Concat"),
        112u8 => Some("OpenRead"),
        113u8 => Some("OpenWrite"),
        114u8 => Some("BitNot"),
        115u8 => Some("OpenDup"),
        116u8 => Some("OpenAutoindex"),
        117u8 => Some("String8"),
        118u8 => Some("OpenEphemeral"),
        119u8 => Some("SorterOpen"),
        120u8 => Some("SequenceTest"),
        121u8 => Some("OpenPseudo"),
        122u8 => Some("Close"),
        123u8 => Some("ColumnsUsed"),
        124u8 => Some("SeekScan"),
        125u8 => Some("SeekHit"),
        126u8 => Some("Sequence"),
        127u8 => Some("NewRowid"),
        128u8 => Some("Insert"),
        129u8 => Some("RowCell"),
        130u8 => Some("Delete"),
        131u8 => Some("ResetCount"),
        132u8 => Some("SorterCompare"),
        133u8 => Some("SorterData"),
        134u8 => Some("RowData"),
        135u8 => Some("Rowid"),
        136u8 => Some("NullRow"),
        137u8 => Some("SeekEnd"),
        138u8 => Some("IdxInsert"),
        139u8 => Some("SorterInsert"),
        140u8 => Some("IdxDelete"),
        141u8 => Some("DeferredSeek"),
        142u8 => Some("IdxRowid"),
        143u8 => Some("FinishSeek"),
        144u8 => Some("Destroy"),
        145u8 => Some("Clear"),
        146u8 => Some("ResetSorter"),
        147u8 => Some("CreateBtree"),
        148u8 => Some("SqlExec"),
        149u8 => Some("ParseSchema"),
        150u8 => Some("LoadAnalysis"),
        151u8 => Some("DropTable"),
        152u8 => Some("DropIndex"),
        153u8 => Some("Real"),
        154u8 => Some("DropTrigger"),
        155u8 => Some("IntegrityCk"),
        156u8 => Some("RowSetAdd"),
        157u8 => Some("Param"),
        159u8 => Some("MemMax"),
        160u8 => Some("OffsetLimit"),
        161u8 => Some("AggInverse"),
        162u8 => Some("AggStep"),
        163u8 => Some("AggStep1"),
        164u8 => Some("AggValue"),
        165u8 => Some("AggFinal"),
        166u8 => Some("Expire"),
        167u8 => Some("CursorLock"),
        168u8 => Some("CursorUnlock"),
        169u8 => Some("TableLock"),
        170u8 => Some("VBegin"),
        171u8 => Some("VCreate"),
        172u8 => Some("VDestroy"),
        173u8 => Some("VOpen"),
        174u8 => Some("VCheck"),
        175u8 => Some("VInitIn"),
        176u8 => Some("VColumn"),
        177u8 => Some("VRename"),
        178u8 => Some("Pagecount"),
        179u8 => Some("MaxPgcnt"),
        180u8 => Some("ClrSubtype"),
        181u8 => Some("GetSubtype"),
        182u8 => Some("SetSubtype"),
        183u8 => Some("FilterAdd"),
        184u8 => Some("Trace"),
        185u8 => Some("CursorHint"),
        186u8 => Some("ReleaseReg"),
        187u8 => Some("Noop"),
        188u8 => Some("Explain"),
        189u8 => Some("Abortable"),
        _ => None,
    }
}

/// Every opcode is known by its name under its number.
pub proof fn law_opcode_name(op: RawOpcode)
    ensures
        opcode_name(op.number()) == Some(op.name_of()),
{
}

/// P4 parameter of a raw instruction.
#[derive(Debug, Clone)]
pub enum P4 {
    /// No P4 value (the engine's P4_NOTUSED)
    NotUsed,
    /// Integer value
    Int(i32),
    /// String value (copied when emitted)
    String(String),
}

/// A VDBE instruction with semantically named fields.
///
/// Each variant is one opcode with its operands named after their meaning.
/// The floating-point constant of `Real` is held as its IEEE-754 bit pattern
/// (what the engine stores) together with its `{:?}` rendering (what an
/// instruction record shows).
#[allow(inconsistent_fields)]
#[derive(Debug, Clone)]
pub enum Insn {
    /// The 32-bit integer value P1 is written into register P2.
    Integer {
        /// The integer value to store
        value: i32,
        /// Destination register
        dest: i32,
    },
    /// P4 is a pointer to a 64-bit integer value. Write that value into
    /// register P2.
    Int64 {
        /// The integer value to store (in P4)
        value: i64,
        /// Destination register
        dest: i32,
    },
    /// P4 is a pointer to a 64-bit floating point value. Write that value into
    /// register P2.
    Real {
        /// IEEE-754 bit pattern of the value (stored in P4)
        bits: u64,
        /// The value as `{:?}` renders it
        text: String,
        /// Destination register
        dest: i32,
    },
    /// P4 points to a nul terminated UTF-8 string. This opcode is transformed
    /// into a String opcode before it is executed for the first time. During
    /// this transformation, the length of string P4 is computed and stored as
    /// the P1 parameter.
    String8 {
        /// The string value to store (in P4)
        value: String,
        /// Destination register
        dest: i32,
    },
    /// Write a NULL into registers P2. If P3 greater than P2, then also write
    /// NULL into register P3 and every register in between P2 and P3. If P3 is
    /// less than P2 (typically P3 is zero) then only register P2 is set to
    /// NULL.
    Null {
        /// First register to set to NULL
        dest: i32,
        /// Number of consecutive registers to set (default 1)
        count: i32,
    },
    /// Add the value in register P1 to the value in register P2 and store the
    /// result in register P3. If either input is NULL, the result is NULL.
    Add {
        /// Left operand register
        lhs: i32,
        /// Right operand register
        rhs: i32,
        /// Destination register
        dest: i32,
    },
    /// Subtract the value in register P1 from the value in register P2 and
    /// store the result in register P3. If either input is NULL, the result is
    /// NULL.
    Subtract {
        /// Left operand register (minuend)
        lhs: i32,
        /// Right operand register (subtrahend)
        rhs: i32,
        /// Destination register
        dest: i32,
    },
    /// Multiply the value in register P1 by the value in register P2 and store
    /// the result in register P3. If either input is NULL, the result is NULL.
    Multiply {
        /// Left operand register
        lhs: i32,
        /// Right operand register
        rhs: i32,
        /// Destination register
        dest: i32,
    },
    /// Divide the value in register P1 by the value in register P2 and store
    /// the result in register P3 (P3=P2/P1). If the value in register P1 is
    /// zero, then the result is NULL. If either input is NULL, the result is
    /// NULL.
    Divide {
        /// Dividend register (numerator)
        lhs: i32,
        /// Divisor register (denominator)
        rhs: i32,
        /// Destination register
        dest: i32,
    },
    /// Compute the remainder after integer register P2 is divided by register
    /// P1 and store the result in register P3. If the value in register P1 is
    /// zero the result is NULL. If either operand is NULL, the result is NULL.
    Remainder {
        /// Dividend register
        lhs: i32,
        /// Divisor register
        rhs: i32,
        /// Destination register
        dest: i32,
    },
    /// Add the text in register P1 onto the end of the text in register P2 and
    /// store the result in register P3. If either the P1 or P2 text are NULL
    /// then store NULL in P3.
    Concat {
        /// Left string register
        lhs: i32,
        /// Right string register
        rhs: i32,
        /// Destination register
        dest: i32,
    },
    /// Take the bit-wise AND of the values in register P1 and P2 and store the
    /// result in register P3. If either input is NULL, the result is NULL.
    BitAnd {
        lhs: i32,
        rhs: i32,
        dest: i32,
    },
    /// Take the bit-wise OR of the values in register P1 and P2 and store the
    /// result in register P3. If either input is NULL, the result is NULL.
    BitOr {
        lhs: i32,
        rhs: i32,
        dest: i32,
    },
    /// Shift the integer value in register P2 to the left by the number of bits
    /// specified by the integer in register P1. Store the result in register
    /// P3. If either input is NULL, the result is NULL.
    ShiftLeft {
        lhs: i32,
        rhs: i32,
        dest: i32,
    },
    /// Shift the integer value in register P2 to the right by the number of
    /// bits specified by the integer in register P1. Store the result in
    /// register P3. If either input is NULL, the result is NULL.
    ShiftRight {
        lhs: i32,
        rhs: i32,
        dest: i32,
    },
    /// Interpret the content of register P1 as an integer. Store the
    /// ones-complement of the P1 value into register P2. If P1 holds a NULL
    /// then store a NULL in P2.
    BitNot {
        /// Source register
        src: i32,
        /// Destination register
        dest: i32,
    },
    /// Interpret the value in register P1 as a boolean value. Store the boolean
    /// complement in register P2. If the value in register P1 is NULL, then a
    /// NULL is stored in P2.
    Not {
        /// Source register
        src: i32,
        /// Destination register
        dest: i32,
    },
    /// Add the constant P2 to the value in register P1. The result is always an
    /// integer.
    AddImm {
        /// Register to modify
        dest: i32,
        /// Immediate value to add
        value: i32,
    },
    /// Make a copy of registers P1..P1+P3 into registers P2..P2+P3, so P3
    /// is one less than the number of registers copied.
    Copy {
        /// Source register (first in range)
        src: i32,
        /// Destination register (first in range)
        dest: i32,
        /// Number of registers to copy
        count: i32,
    },
    /// Make a shallow copy of register P1 into register P2.
    SCopy {
        /// Source register
        src: i32,
        /// Destination register
        dest: i32,
    },
    /// Move the P3 values in register P1..P1+P3-1 over into registers
    /// P2..P2+P3-1. Registers P1..P1+P3-1 are left holding a NULL. It is an
    /// error for register ranges P1..P1+P3-1 and P2..P2+P3-1 to overlap. It is
    /// an error for P3 to be less than 1.
    Move {
        /// Source register (first in range)
        src: i32,
        /// Destination register (first in range)
        dest: i32,
        /// Number of registers to move
        count: i32,
    },
    /// Transfer the integer value held in register P1 into register P2.
    IntCopy {
        /// Source register
        src: i32,
        /// Destination register
        dest: i32,
    },
    /// Exit immediately. All open cursors, etc are closed automatically.
    Halt,
    /// Exit immediately. All open cursors, etc are closed automatically.
    HaltWithError {
        /// Error code (SQLITE_OK for normal halt)
        error_code: i32,
        /// What to do on error (0=nothing, 1=fail, 2=abort, 3=rollback)
        on_error: i32,
    },
    /// Check the value in register P3. If it is NULL then Halt using parameter
    /// P1, P2, and P4 as if this were a Halt instruction. If the value in
    /// register P3 is not NULL, then this routine is a no-op. The P5 parameter
    /// should be 1.
    HaltIfNull {
        /// Register to test
        src: i32,
        /// Error code if NULL
        error_code: i32,
        /// Jump target if not NULL (0 = continue)
        target: i32,
    },
    /// An unconditional jump to address P2. The next instruction executed will
    /// be the one at index P2 from the beginning of the program.
    Goto {
        /// Target instruction address
        target: i32,
    },
    /// Write the current address onto register P1 and then jump to address P2.
    Gosub {
        /// Register to store return address
        return_reg: i32,
        /// Target instruction address
        target: i32,
    },
    /// Jump to the address stored in register P1. If P1 is a return address
    /// register, then this accomplishes a return from a subroutine.
    Return {
        /// Register containing return address
        return_reg: i32,
    },
    /// Jump to P2 if the value in register P1 is true. The value is considered
    /// true if it is numeric and non-zero. If the value in P1 is NULL then take
    /// the jump if and only if P3 is non-zero.
    If {
        /// Register to test
        src: i32,
        /// Target address if true
        target: i32,
        /// If true, treat NULL as true; if false, treat NULL as false
        jump_if_null: bool,
    },
    /// Jump to P2 if the value in register P1 is False. The value is considered
    /// false if it has a numeric value of zero. If the value in P1 is NULL then
    /// take the jump if and only if P3 is non-zero.
    IfNot {
        /// Register to test
        src: i32,
        /// Target address if false
        target: i32,
        /// If true, treat NULL as true; if false, treat NULL as false
        jump_if_null: bool,
    },
    /// Jump to P2 if the value in register P1 is NULL.
    IsNull {
        /// Register to test
        src: i32,
        /// Target address if NULL
        target: i32,
    },
    /// Jump to P2 if the value in register P1 is not NULL.
    NotNull {
        /// Register to test
        src: i32,
        /// Target address if not NULL
        target: i32,
    },
    /// Fall through to the next instruction the first time this opcode is
    /// encountered on each invocation of the byte-code program. Jump to P2 on
    /// the second and all subsequent encounters during the same invocation.
    Once {
        /// Target address to jump to on subsequent executions
        target: i32,
    },
    /// Jump to the instruction at address P1, P2, or P3 depending on whether in
    /// the most recent Compare instruction the P1 vector was less than, equal
    /// to, or greater than the P2 vector, respectively.
    Jump {
        /// Target if negative
        neg: i32,
        /// Target if zero
        zero: i32,
        /// Target if positive
        pos: i32,
    },
    /// Compare the values in register P1 and P3. If reg(P3)==reg(P1) then jump
    /// to address P2.
    Eq {
        /// Left operand register
        lhs: i32,
        /// Right operand register
        rhs: i32,
        /// Target address if equal
        target: i32,
    },
    /// This works just like the Eq opcode except that the jump is taken if the
    /// operands in registers P1 and P3 are not equal. See the Eq opcode for
    /// additional information.
    Ne {
        /// Left operand register
        lhs: i32,
        /// Right operand register
        rhs: i32,
        /// Target address if not equal
        target: i32,
    },
    /// Compare the values in register P1 and P3. If reg(P3)<reg(P1) then jump
    /// to address P2.
    Lt {
        /// Left operand register
        lhs: i32,
        /// Right operand register
        rhs: i32,
        /// Target address if less than
        target: i32,
    },
    /// This works just like the Lt opcode except that the jump is taken if the
    /// content of register P3 is less than or equal to the content of register
    /// P1. See the Lt opcode for additional information.
    Le {
        /// Left operand register
        lhs: i32,
        /// Right operand register
        rhs: i32,
        /// Target address if less than or equal
        target: i32,
    },
    /// This works just like the Lt opcode except that the jump is taken if the
    /// content of register P3 is greater than the content of register P1. See
    /// the Lt opcode for additional information.
    Gt {
        /// Left operand register
        lhs: i32,
        /// Right operand register
        rhs: i32,
        /// Target address if greater than
        target: i32,
    },
    /// This works just like the Lt opcode except that the jump is taken if the
    /// content of register P3 is greater than or equal to the content of
    /// register P1. See the Lt opcode for additional information.
    Ge {
        /// Left operand register
        lhs: i32,
        /// Right operand register
        rhs: i32,
        /// Target address if greater than or equal
        target: i32,
    },
    /// Register P1 must contain an integer. If the value of register P1 is 1 or
    /// greater, subtract P3 from the value in P1 and jump to P2.
    IfPos {
        /// Register to test
        src: i32,
        /// Target address if positive
        target: i32,
        /// Decrement amount (usually 0 or 1)
        decrement: i32,
    },
    /// Register P1 must contain an integer. If the content of register P1 is
    /// initially greater than zero, then decrement the value in register P1. If
    /// it is non-zero (negative or positive) and then also jump to P2. If
    /// register P1 is initially zero, leave it unchanged and fall through.
    IfNotZero {
        /// Register to test and decrement
        src: i32,
        /// Target address if not zero
        target: i32,
    },
    /// Register P1 must hold an integer. Decrement the value in P1 and jump to
    /// P2 if the new value is exactly zero.
    DecrJumpZero {
        /// Register to decrement
        src: i32,
        /// Target address if zero after decrement
        target: i32,
    },
    /// Force the value in register P1 to be an integer. If the value in P1 is
    /// not an integer and cannot be converted into an integer without data
    /// loss, then jump immediately to P2, or if P2==0 raise an SQLITE_MISMATCH
    /// exception.
    MustBeInt {
        /// Register to convert
        src: i32,
        /// Target address if not convertible
        target: i32,
    },
    /// The registers P1 through P1+P2-1 contain a single row of results. This
    /// opcode causes the sqlite3_step() call to terminate with an SQLITE_ROW
    /// return code and it sets up the sqlite3_stmt structure to provide access
    /// to the r(P1)..r(P1+P2-1) values as the result row.
    ResultRow {
        /// First register of result row
        start: i32,
        /// Number of columns
        count: i32,
    },
    /// Open a read-only cursor for the database table whose root page is P2 in
    /// a database file. The database file is determined by P3. P3==0 means the
    /// main database, P3==1 means the database used for temporary tables, and
    /// P3>1 means used the corresponding attached database. Give the new cursor
    /// an identifier of P1. The P1 values need not be contiguous but all P1
    /// values should be small integers. It is an error for P1 to be negative.
    OpenRead {
        /// Cursor number
        cursor: i32,
        /// Root page number (or register if P5 has OPFLAG_P2ISREG)
        root_page: i32,
        /// Database index (0=main, 1=temp)
        db_num: i32,
    },
    /// Open a read/write cursor named P1 on the table or index whose root page
    /// is P2 (or whose root page is held in register P2 if the OPFLAG_P2ISREG
    /// bit is set in P5 - see below).
    OpenWrite {
        /// Cursor number
        cursor: i32,
        /// Root page number (or register if P5 has OPFLAG_P2ISREG)
        root_page: i32,
        /// Database index (0=main, 1=temp)
        db_num: i32,
    },
    /// Open a new cursor P1 to a transient table. The cursor is always opened
    /// read/write even if the main database is read-only. The ephemeral table
    /// is deleted automatically when the cursor is closed.
    OpenEphemeral {
        /// Cursor number
        cursor: i32,
        /// Number of columns
        num_columns: i32,
    },
    /// Close a cursor previously opened as P1. If P1 is not currently open,
    /// this instruction is a no-op.
    Close {
        /// Cursor number to close
        cursor: i32,
    },
    /// The next use of the Rowid or Column or Next instruction for P1 will
    /// refer to the first entry in the database table or index. If the table or
    /// index is empty, jump immediately to P2. If the table or index is not
    /// empty, fall through to the following instruction.
    Rewind {
        /// Cursor number
        cursor: i32,
        /// Target address if table is empty
        target: i32,
    },
    /// Advance cursor P1 so that it points to the next key/data pair in its
    /// table or index. If there are no more key/value pairs then fall through
    /// to the following instruction. But if the cursor advance was successful,
    /// jump immediately to P2.
    Next {
        /// Cursor number
        cursor: i32,
        /// Target address if another row exists
        target: i32,
    },
    /// Back up cursor P1 so that it points to the previous key/data pair in its
    /// table or index. If there is no previous key/value pairs then fall
    /// through to the following instruction. But if the cursor backup was
    /// successful, jump immediately to P2.
    Prev {
        /// Cursor number
        cursor: i32,
        /// Target address if another row exists
        target: i32,
    },
    /// The next use of the Rowid or Column or Prev instruction for P1 will
    /// refer to the last entry in the database table or index. If the table or
    /// index is empty and P2>0, then jump immediately to P2. If P2 is 0 or if
    /// the table or index is not empty, fall through to the following
    /// instruction.
    Last {
        /// Cursor number
        cursor: i32,
        /// Target address if table is empty
        target: i32,
    },
    /// If cursor P1 refers to an SQL table (B-Tree that uses integer keys), use
    /// the value in register P3 as the key. If cursor P1 refers to an SQL
    /// index, then P3 is the first in an array of P4 registers that are used as
    /// an unpacked index key.
    SeekGE {
        /// Cursor number
        cursor: i32,
        /// Target address if no matching row
        target: i32,
        /// Key register
        key: i32,
        /// Number of key columns (for multi-column keys)
        num_fields: i32,
    },
    /// If cursor P1 refers to an SQL table (B-Tree that uses integer keys), use
    /// the value in register P3 as a key. If cursor P1 refers to an SQL index,
    /// then P3 is the first in an array of P4 registers that are used as an
    /// unpacked index key.
    SeekGT {
        /// Cursor number
        cursor: i32,
        /// Target address if no matching row
        target: i32,
        /// Key register
        key: i32,
        /// Number of key columns
        num_fields: i32,
    },
    /// If cursor P1 refers to an SQL table (B-Tree that uses integer keys), use
    /// the value in register P3 as a key. If cursor P1 refers to an SQL index,
    /// then P3 is the first in an array of P4 registers that are used as an
    /// unpacked index key.
    SeekLE {
        /// Cursor number
        cursor: i32,
        /// Target address if no matching row
        target: i32,
        /// Key register
        key: i32,
        /// Number of key columns
        num_fields: i32,
    },
    /// If cursor P1 refers to an SQL table (B-Tree that uses integer keys), use
    /// the value in register P3 as a key. If cursor P1 refers to an SQL index,
    /// then P3 is the first in an array of P4 registers that are used as an
    /// unpacked index key.
    SeekLT {
        /// Cursor number
        cursor: i32,
        /// Target address if no matching row
        target: i32,
        /// Key register
        key: i32,
        /// Number of key columns
        num_fields: i32,
    },
    /// P1 is the index of a cursor open on an SQL table btree (with integer
    /// keys). If register P3 does not contain an integer or if P1 does not
    /// contain a record with rowid P3 then jump immediately to P2. Or, if P2 is
    /// 0, raise an SQLITE_CORRUPT error. If P1 does contain a record with rowid
    /// P3 then leave the cursor pointing at that record and fall through to the
    /// next instruction.
    SeekRowid {
        /// Cursor number
        cursor: i32,
        /// Target address if not found
        target: i32,
        /// Register containing rowid
        rowid: i32,
    },
    /// Interpret the data that cursor P1 points to as a structure built using
    /// the MakeRecord instruction. (See the MakeRecord opcode for additional
    /// information about the format of the data.) Extract the P2-th column from
    /// this record. If there are less than (P2+1) values in the record, extract
    /// a NULL.
    Column {
        /// Cursor number
        cursor: i32,
        /// Column index (0-based)
        column: i32,
        /// Destination register
        dest: i32,
    },
    /// Store in register P2 an integer which is the key of the table entry that
    /// P1 is currently point to.
    Rowid {
        /// Cursor number
        cursor: i32,
        /// Destination register
        dest: i32,
    },
    /// Get a new integer record number (a.k.a "rowid") used as the key to a
    /// table. The record number is not previously used as a key in the database
    /// table that cursor P1 points to. The new record number is written written
    /// to register P2.
    NewRowid {
        /// Cursor number
        cursor: i32,
        /// Destination register for new rowid
        dest: i32,
        /// Previous rowid hint register (or 0)
        prev_rowid: i32,
    },
    /// Write an entry into the table of cursor P1. A new entry is created if it
    /// doesn't already exist or the data for an existing entry is overwritten.
    /// The data is the value MEM_Blob stored in register number P2. The key is
    /// stored in register P3. The key must be a MEM_Int.
    Insert {
        /// Cursor number
        cursor: i32,
        /// Register containing row data
        data: i32,
        /// Register containing rowid
        rowid: i32,
    },
    /// Delete the record at which the P1 cursor is currently pointing.
    Delete {
        /// Cursor number
        cursor: i32,
    },
    /// Convert P2 registers beginning with P1 into the record format use as a
    /// data record in a database table or as a key in an index. The Column
    /// opcode can decode the record later.
    MakeRecord {
        /// First register of data
        start: i32,
        /// Number of registers
        count: i32,
        /// Destination register for record
        dest: i32,
    },
    /// Register P2 holds an SQL index key made using the MakeRecord
    /// instructions. This opcode writes that key into the index P1. Data for
    /// the entry is nil.
    IdxInsert {
        /// Cursor number (index)
        cursor: i32,
        /// Register containing key
        key: i32,
    },
    /// The content of P3 registers starting at register P2 form an unpacked
    /// index key. This opcode removes that entry from the index opened by
    /// cursor P1.
    IdxDelete {
        /// Cursor number (index)
        cursor: i32,
        /// Key register
        key: i32,
        /// Number of key fields
        num_fields: i32,
    },
    /// Write into register P2 an integer which is the last entry in the record
    /// at the end of the index key pointed to by cursor P1. This integer should
    /// be the rowid of the table entry to which this index entry points.
    IdxRowid {
        /// Cursor number
        cursor: i32,
        /// Destination register
        dest: i32,
    },
    /// Programs contain a single instance of this opcode as the very first
    /// opcode.
    Init {
        /// Target address to begin execution
        target: i32,
    },
    /// Set up register P1 so that it will Yield to the coroutine located at
    /// address P3.
    InitCoroutine {
        /// Coroutine register
        coroutine: i32,
        /// Initial entry point
        target: i32,
        /// End address
        end: i32,
    },
    /// Swap the program counter with the value in register P1. This has the
    /// effect of yielding to a coroutine.
    Yield {
        /// Coroutine register
        coroutine: i32,
    },
    /// The instruction at the address in register P1 is a Yield. Jump to the P2
    /// parameter of that Yield. After the jump, the value register P1 is left
    /// with a value such that subsequent OP_Yields go back to the this same
    /// EndCoroutine instruction.
    EndCoroutine {
        /// Coroutine register
        coroutine: i32,
    },
    /// Execute the xStep function for an aggregate. The function has P5
    /// arguments. P4 is a pointer to the FuncDef structure that specifies the
    /// function. Register P3 is the accumulator.
    ///
    /// The P5 arguments are taken from register P2 and its successors.
    AggStep {
        /// Function definition (P4)
        func_def: i32,
        /// First argument register
        args: i32,
        /// Accumulator register
        accum: i32,
        /// Number of arguments
        num_args: i32,
    },
    /// P1 is the memory location that is the accumulator for an aggregate or
    /// window function. Execute the finalizer function for an aggregate and
    /// store the result in P1.
    AggFinal {
        /// Accumulator register
        accum: i32,
        /// Number of arguments (for finalization)
        num_args: i32,
    },
    /// Do nothing. Continue downward to the next opcode.
    Noop,
    /// This is the same as Noop during normal query execution. The purpose of
    /// this opcode is to hold information about the query plan for the purpose
    /// of EXPLAIN QUERY PLAN output.
    Explain,
    /// Raw opcode for advanced use
    Raw {
        /// The raw opcode value
        opcode: RawOpcode,
        /// P1 operand
        p1: i32,
        /// P2 operand
        p2: i32,
        /// P3 operand
        p3: i32,
        /// P4 operand
        p4: P4,
        /// P5 operand
        p5: u16,
    },
}

/// The P4 operand of an instruction, in the form it is emitted in.
#[derive(Debug, Clone)]
pub enum InsnP4 {
    /// 32-bit integer (P4_INT32)
    Int(i32),
    /// 64-bit integer (P4_INT64)
    Int64(i64),
    /// 64-bit float given by its bit pattern, with its `{:?}` rendering
    Real { bits: u64, text: String },
    /// Nul-terminated string (P4_DYNAMIC)
    String(String),
}

impl Insn {
    /// Whether the operands of the instruction can be computed without
    /// overflow: for `Null`, both `dest + count` and the last register of the
    /// range, `dest + count - 1`, must fit in an `i32`; for `Copy`,
    /// `count - 1` must.
    pub open spec fn wf(&self) -> bool {
        match self {
            Insn::Null { dest, count } => {
                &&& i32::MIN <= *dest + *count <= i32::MAX
                &&& i32::MIN <= *dest + *count - 1
            },
            Insn::Copy { count, .. } => i32::MIN < *count,
            _ => true,
        }
    }

    /// The opcode number of the instruction.
    pub open spec fn opcode_number(&self) -> u8 {
        match self {
            Insn::Integer { .. } => RawOpcode::Integer.number(),
            Insn::Int64 { .. } => RawOpcode::Int64.number(),
            Insn::Real { .. } => RawOpcode::Real.number(),
            Insn::String8 { .. } => RawOpcode::String8.number(),
            Insn::Null { .. } => RawOpcode::Null.number(),
            Insn::Add { .. } => RawOpcode::Add.number(),
            Insn::Subtract { .. } => RawOpcode::Subtract.number(),
            Insn::Multiply { .. } => RawOpcode::Multiply.number(),
            Insn::Divide { .. } => RawOpcode::Divide.number(),
            Insn::Remainder { .. } => RawOpcode::Remainder.number(),
            Insn::Concat { .. } => RawOpcode::Concat.number(),
            Insn::BitAnd { .. } => RawOpcode::BitAnd.number(),
            Insn::BitOr { .. } => RawOpcode::BitOr.number(),
            Insn::ShiftLeft { .. } => RawOpcode::ShiftLeft.number(),
            Insn::ShiftRight { .. } => RawOpcode::ShiftRight.number(),
            Insn::BitNot { .. } => RawOpcode::BitNot.number(),
            Insn::Not { .. } => RawOpcode::Not.number(),
            Insn::AddImm { .. } => RawOpcode::AddImm.number(),
            Insn::Copy { .. } => RawOpcode::Copy.number(),
            Insn::SCopy { .. } => RawOpcode::SCopy.number(),
            Insn::Move { .. } => RawOpcode::Move.number(),
            Insn::IntCopy { .. } => RawOpcode::IntCopy.number(),
            Insn::Halt => RawOpcode::Halt.number(),
            Insn::HaltWithError { .. } => RawOpcode::Halt.number(),
            Insn::HaltIfNull { .. } => RawOpcode::HaltIfNull.number(),
            Insn::Goto { .. } => RawOpcode::Goto.number(),
            Insn::Gosub { .. } => RawOpcode::Gosub.number(),
            Insn::Return { .. } => RawOpcode::Return.number(),
            Insn::If { .. } => RawOpcode::If.number(),
            Insn::IfNot { .. } => RawOpcode::IfNot.number(),
            Insn::IsNull { .. } => RawOpcode::IsNull.number(),
            Insn::NotNull { .. } => RawOpcode::NotNull.number(),
            Insn::Once { .. } => RawOpcode::Once.number(),
            Insn::Jump { .. } => RawOpcode::Jump.number(),
            Insn::Eq { .. } => RawOpcode::Eq.number(),
            Insn::Ne { .. } => RawOpcode::Ne.number(),
            Insn::Lt { .. } => RawOpcode::Lt.number(),
            Insn::Le { .. } => RawOpcode::Le.number(),
            Insn::Gt { .. } => RawOpcode::Gt.number(),
            Insn::Ge { .. } => RawOpcode::Ge.number(),
            Insn::IfPos { .. } => RawOpcode::IfPos.number(),
            Insn::IfNotZero { .. } => RawOpcode::IfNotZero.number(),
            Insn::DecrJumpZero { .. } => RawOpcode::DecrJumpZero.number(),
            Insn::MustBeInt { .. } => RawOpcode::MustBeInt.number(),
            Insn::ResultRow { .. } => RawOpcode::ResultRow.number(),
            Insn::OpenRead { .. } => RawOpcode::OpenRead.number(),
            Insn::OpenWrite { .. } => RawOpcode::OpenWrite.number(),
            Insn::OpenEphemeral { .. } => RawOpcode::OpenEphemeral.number(),
            Insn::Close { .. } => RawOpcode::Close.number(),
            Insn::Rewind { .. } => RawOpcode::Rewind.number(),
            Insn::Next { .. } => RawOpcode::Next.number(),
            Insn::Prev { .. } => RawOpcode::Prev.number(),
            Insn::Last { .. } => RawOpcode::Last.number(),
            Insn::SeekGE { .. } => RawOpcode::SeekGE.number(),
            Insn::SeekGT { .. } => RawOpcode::SeekGT.number(),
            Insn::SeekLE { .. } => RawOpcode::SeekLE.number(),
            Insn::SeekLT { .. } => RawOpcode::SeekLT.number(),
            Insn::SeekRowid { .. } => RawOpcode::SeekRowid.number(),
            Insn::Column { .. } => RawOpcode::Column.number(),
            Insn::Rowid { .. } => RawOpcode::Rowid.number(),
            Insn::NewRowid { .. } => RawOpcode::NewRowid.number(),
            Insn::Insert { .. } => RawOpcode::Insert.number(),
            Insn::Delete { .. } => RawOpcode::Delete.number(),
            Insn::MakeRecord { .. } => RawOpcode::MakeRecord.number(),
            Insn::IdxInsert { .. } => RawOpcode::IdxInsert.number(),
            Insn::IdxDelete { .. } => RawOpcode::IdxDelete.number(),
            Insn::IdxRowid { .. } => RawOpcode::IdxRowid.number(),
            Insn::Init { .. } => RawOpcode::Init.number(),
            Insn::InitCoroutine { .. } => RawOpcode::InitCoroutine.number(),
            Insn::Yield { .. } => RawOpcode::Yield.number(),
            Insn::EndCoroutine { .. } => RawOpcode::EndCoroutine.number(),
            Insn::AggStep { .. } => RawOpcode::AggStep.number(),
            Insn::AggFinal { .. } => RawOpcode::AggFinal.number(),
            Insn::Noop => RawOpcode::Noop.number(),
            Insn::Explain => RawOpcode::Explain.number(),
            Insn::Raw { opcode, .. } => opcode.number(),
        }
    }

    /// The operands (P1, P2, P3, P5) of the instruction. Subtract, Divide,
    /// Remainder, Concat and the shifts compute `P2 op P1`, so their `lhs`
    /// goes to P2; comparisons jump when `P3 op P1`, so `lhs` goes to P3.
    pub open spec fn operands_of(&self) -> (i32, i32, i32, u16) {
        match self {
            Insn::Integer { value, dest } => (*value, *dest, 0i32, 0u16),
            Insn::Int64 { dest, .. } => (0i32, *dest, 0i32, 0u16),
            Insn::Real { dest, .. } => (0i32, *dest, 0i32, 0u16),
            Insn::String8 { dest, .. } => (0i32, *dest, 0i32, 0u16),
            Insn::Null { dest, count } => (0i32, *dest, (*dest + *count - 1) as i32, 0u16),
            Insn::Add { lhs, rhs, dest } => (*lhs, *rhs, *dest, 0u16),
            Insn::Subtract { lhs, rhs, dest } => (*rhs, *lhs, *dest, 0u16),
            Insn::Multiply { lhs, rhs, dest } => (*lhs, *rhs, *dest, 0u16),
            Insn::Divide { lhs, rhs, dest } => (*rhs, *lhs, *dest, 0u16),
            Insn::Remainder { lhs, rhs, dest } => (*rhs, *lhs, *dest, 0u16),
            Insn::Concat { lhs, rhs, dest } => (*rhs, *lhs, *dest, 0u16),
            Insn::BitAnd { lhs, rhs, dest } => (*lhs, *rhs, *dest, 0u16),
            Insn::BitOr { lhs, rhs, dest } => (*lhs, *rhs, *dest, 0u16),
            Insn::ShiftLeft { lhs, rhs, dest } => (*rhs, *lhs, *dest, 0u16),
            Insn::ShiftRight { lhs, rhs, dest } => (*rhs, *lhs, *dest, 0u16),
            Insn::BitNot { src, dest } => (*src, *dest, 0i32, 0u16),
            Insn::Not { src, dest } => (*src, *dest, 0i32, 0u16),
            Insn::AddImm { dest, value } => (*dest, *value, 0i32, 0u16),
            Insn::Copy { src, dest, count } => (*src, *dest, (*count - 1) as i32, 0u16),
            Insn::SCopy { src, dest } => (*src, *dest, 0i32, 0u16),
            Insn::Move { src, dest, count } => (*src, *dest, *count, 0u16),
            Insn::IntCopy { src, dest } => (*src, *dest, 0i32, 0u16),
            Insn::Halt => (0i32, 0i32, 0i32, 0u16),
            Insn::HaltWithError { error_code, on_error } => (*error_code, *on_error, 0i32, 0u16),
            Insn::HaltIfNull { src, error_code, target } => (*error_code, *target, *src, 0u16),
            Insn::Goto { target } => (0i32, *target, 0i32, 0u16),
            Insn::Gosub { return_reg, target } => (*return_reg, *target, 0i32, 0u16),
            Insn::Return { return_reg } => (*return_reg, 0i32, 0i32, 0u16),
            Insn::If { src, target, jump_if_null } => (*src, *target, if *jump_if_null { 1i32 } else { 0i32 }, 0u16),
            Insn::IfNot { src, target, jump_if_null } => (*src, *target, if *jump_if_null { 1i32 } else { 0i32 }, 0u16),
            Insn::IsNull { src, target } => (*src, *target, 0i32, 0u16),
            Insn::NotNull { src, target } => (*src, *target, 0i32, 0u16),
            Insn::Once { target } => (0i32, *target, 0i32, 0u16),
            Insn::Jump { neg, zero, pos } => (*neg, *zero, *pos, 0u16),
            Insn::Eq { lhs, rhs, target } => (*rhs, *target, *lhs, 0u16),
            Insn::Ne { lhs, rhs, target } => (*rhs, *target, *lhs, 0u16),
            Insn::Lt { lhs, rhs, target } => (*rhs, *target, *lhs, 0u16),
            Insn::Le { lhs, rhs, target } => (*rhs, *target, *lhs, 0u16),
            Insn::Gt { lhs, rhs, target } => (*rhs, *target, *lhs, 0u16),
            Insn::Ge { lhs, rhs, target } => (*rhs, *target, *lhs, 0u16),
            Insn::IfPos { src, target, decrement } => (*src, *target, *decrement, 0u16),
            Insn::IfNotZero { src, target } => (*src, *target, 0i32, 0u16),
            Insn::DecrJumpZero { src, target } => (*src, *target, 0i32, 0u16),
            Insn::MustBeInt { src, target } => (*src, *target, 0i32, 0u16),
            Insn::ResultRow { start, count } => (*start, *count, 0i32, 0u16),
            Insn::OpenRead { cursor, root_page, db_num } => (*cursor, *root_page, *db_num, 0u16),
            Insn::OpenWrite { cursor, root_page, db_num } => (*cursor, *root_page, *db_num, 0u16),
            Insn::OpenEphemeral { cursor, num_columns } => (*cursor, *num_columns, 0i32, 0u16),
            Insn::Close { cursor } => (*cursor, 0i32, 0i32, 0u16),
            Insn::Rewind { cursor, target } => (*cursor, *target, 0i32, 0u16),
            Insn::Next { cursor, target } => (*cursor, *target, 0i32, 0u16),
            Insn::Prev { cursor, target } => (*cursor, *target, 0i32, 0u16),
            Insn::Last { cursor, target } => (*cursor, *target, 0i32, 0u16),
            Insn::SeekGE { cursor, target, key, num_fields } => (*cursor, *target, *key, *num_fields as u16),
            Insn::SeekGT { cursor, target, key, num_fields } => (*cursor, *target, *key, *num_fields as u16),
            Insn::SeekLE { cursor, target, key, num_fields } => (*cursor, *target, *key, *num_fields as u16),
            Insn::SeekLT { cursor, target, key, num_fields } => (*cursor, *target, *key, *num_fields as u16),
            Insn::SeekRowid { cursor, target, rowid } => (*cursor, *target, *rowid, 0u16),
            Insn::Column { cursor, column, dest } => (*cursor, *column, *dest, 0u16),
            Insn::Rowid { cursor, dest } => (*cursor, *dest, 0i32, 0u16),
            Insn::NewRowid { cursor, dest, prev_rowid } => (*cursor, *dest, *prev_rowid, 0u16),
            Insn::Insert { cursor, data, rowid } => (*cursor, *data, *rowid, 0u16),
            Insn::Delete { cursor } => (*cursor, 0i32, 0i32, 0u16),
            Insn::MakeRecord { start, count, dest } => (*start, *count, *dest, 0u16),
            Insn::IdxInsert { cursor, key } => (*cursor, *key, 0i32, 0u16),
            Insn::IdxDelete { cursor, key, num_fields } => (*cursor, *key, *num_fields, 0u16),
            Insn::IdxRowid { cursor, dest } => (*cursor, *dest, 0i32, 0u16),
            Insn::Init { target } => (0i32, *target, 0i32, 0u16),
            Insn::InitCoroutine { coroutine, target, end } => (*coroutine, *target, *end, 0u16),
            Insn::Yield { coroutine } => (*coroutine, 0i32, 0i32, 0u16),
            Insn::EndCoroutine { coroutine } => (*coroutine, 0i32, 0i32, 0u16),
            Insn::AggStep { args, accum, num_args, .. } => (0i32, *args, *accum, *num_args as u16),
            Insn::AggFinal { accum, num_args } => (*accum, *num_args, 0i32, 0u16),
            Insn::Noop => (0i32, 0i32, 0i32, 0u16),
            Insn::Explain => (0i32, 0i32, 0i32, 0u16),
            Insn::Raw { p1, p2, p3, p5, .. } => (*p1, *p2, *p3, *p5),
        }
    }

    /// The P4 operand of the instruction, if it has one.
    pub open spec fn p4_of(&self) -> Option<InsnP4> {
        match self {
            Insn::Int64 { value, .. } => Some(InsnP4::Int64(*value)),
            Insn::Real { bits, text, .. } => Some(InsnP4::Real { bits: *bits, text: *text }),
            Insn::String8 { value, .. } => Some(InsnP4::String(*value)),
            Insn::Raw { p4: P4::Int(i), .. } => Some(InsnP4::Int(*i)),
            Insn::Raw { p4: P4::String(s), .. } => Some(InsnP4::String(*s)),
            _ => None,
        }
    }

    /// The display name of the instruction.
    pub open spec fn name_of(&self) -> &'static str {
        match self {
            Insn::Integer { .. } => "Integer",
            Insn::Int64 { .. } => "Int64",
            Insn::Real { .. } => "Real",
            Insn::String8 { .. } => "String8",
            Insn::Null { .. } => "Null",
            Insn::Add { .. } => "Add",
            Insn::Subtract { .. } => "Subtract",
            Insn::Multiply { .. } => "Multiply",
            Insn::Divide { .. } => "Divide",
            Insn::Remainder { .. } => "Remainder",
            Insn::Concat { .. } => "Concat",
            Insn::BitAnd { .. } => "BitAnd",
            Insn::BitOr { .. } => "BitOr",
            Insn::ShiftLeft { .. } => "ShiftLeft",
            Insn::ShiftRight { .. } => "ShiftRight",
            Insn::BitNot { .. } => "BitNot",
            Insn::Not { .. } => "Not",
            Insn::AddImm { .. } => "AddImm",
            Insn::Copy { .. } => "Copy",
            Insn::SCopy { .. } => "SCopy",
            Insn::Move { .. } => "Move",
            Insn::IntCopy { .. } => "IntCopy",
            Insn::Halt => "Halt",
            Insn::HaltWithError { .. } => "Halt",
            Insn::HaltIfNull { .. } => "HaltIfNull",
            Insn::Goto { .. } => "Goto",
            Insn::Gosub { .. } => "Gosub",
            Insn::Return { .. } => "Return",
            Insn::If { .. } => "If",
            Insn::IfNot { .. } => "IfNot",
            Insn::IsNull { .. } => "IsNull",
            Insn::NotNull { .. } => "NotNull",
            Insn::Once { .. } => "Once",
            Insn::Jump { .. } => "Jump",
            Insn::Eq { .. } => "Eq",
            Insn::Ne { .. } => "Ne",
            Insn::Lt { .. } => "Lt",
            Insn::Le { .. } => "Le",
            Insn::Gt { .. } => "Gt",
            Insn::Ge { .. } => "Ge",
            Insn::IfPos { .. } => "IfPos",
            Insn::IfNotZero { .. } => "IfNotZero",
            Insn::DecrJumpZero { .. } => "DecrJumpZero",
            Insn::MustBeInt { .. } => "MustBeInt",
            Insn::ResultRow { .. } => "ResultRow",
            Insn::OpenRead { .. } => "OpenRead",
            Insn::OpenWrite { .. } => "OpenWrite",
            Insn::OpenEphemeral { .. } => "OpenEphemeral",
            Insn::Close { .. } => "Close",
            Insn::Rewind { .. } => "Rewind",
            Insn::Next { .. } => "Next",
            Insn::Prev { .. } => "Prev",
            Insn::Last { .. } => "Last",
            Insn::SeekGE { .. } => "SeekGE",
            Insn::SeekGT { .. } => "SeekGT",
            Insn::SeekLE { .. } => "SeekLE",
            Insn::SeekLT { .. } => "SeekLT",
            Insn::SeekRowid { .. } => "SeekRowid",
            Insn::Column { .. } => "Column",
            Insn::Rowid { .. } => "Rowid",
            Insn::NewRowid { .. } => "NewRowid",
            Insn::Insert { .. } => "Insert",
            Insn::Delete { .. } => "Delete",
            Insn::MakeRecord { .. } => "MakeRecord",
            Insn::IdxInsert { .. } => "IdxInsert",
            Insn::IdxDelete { .. } => "IdxDelete",
            Insn::IdxRowid { .. } => "IdxRowid",
            Insn::Init { .. } => "Init",
            Insn::InitCoroutine { .. } => "InitCoroutine",
            Insn::Yield { .. } => "Yield",
            Insn::EndCoroutine { .. } => "EndCoroutine",
            Insn::AggStep { .. } => "AggStep",
            Insn::AggFinal { .. } => "AggFinal",
            Insn::Noop => "Noop",
            Insn::Explain => "Explain",
            Insn::Raw { .. } => "Raw",
        }
    }

    /// The numeric opcode for this instruction.
    pub fn raw_opcode(&self) -> (op: u8)
        ensures
            op == self.opcode_number(),
    {
        match self {
            Insn::Integer { .. } => RawOpcode::Integer.code(),
            Insn::Int64 { .. } => RawOpcode::Int64.code(),
            Insn::Real { .. } => RawOpcode::Real.code(),
            Insn::String8 { .. } => RawOpcode::String8.code(),
            Insn::Null { .. } => RawOpcode::Null.code(),
            Insn::Add { .. } => RawOpcode::Add.code(),
            Insn::Subtract { .. } => RawOpcode::Subtract.code(),
            Insn::Multiply { .. } => RawOpcode::Multiply.code(),
            Insn::Divide { .. } => RawOpcode::Divide.code(),
            Insn::Remainder { .. } => RawOpcode::Remainder.code(),
            Insn::Concat { .. } => RawOpcode::Concat.code(),
            Insn::BitAnd { .. } => RawOpcode::BitAnd.code(),
            Insn::BitOr { .. } => RawOpcode::BitOr.code(),
            Insn::ShiftLeft { .. } => RawOpcode::ShiftLeft.code(),
            Insn::ShiftRight { .. } => RawOpcode::ShiftRight.code(),
            Insn::BitNot { .. } => RawOpcode::BitNot.code(),
            Insn::Not { .. } => RawOpcode::Not.code(),
            Insn::AddImm { .. } => RawOpcode::AddImm.code(),
            Insn::Copy { .. } => RawOpcode::Copy.code(),
            Insn::SCopy { .. } => RawOpcode::SCopy.code(),
            Insn::Move { .. } => RawOpcode::Move.code(),
            Insn::IntCopy { .. } => RawOpcode::IntCopy.code(),
            Insn::Halt => RawOpcode::Halt.code(),
            Insn::HaltWithError { .. } => RawOpcode::Halt.code(),
            Insn::HaltIfNull { .. } => RawOpcode::HaltIfNull.code(),
            Insn::Goto { .. } => RawOpcode::Goto.code(),
            Insn::Gosub { .. } => RawOpcode::Gosub.code(),
            Insn::Return { .. } => RawOpcode::Return.code(),
            Insn::If { .. } => RawOpcode::If.code(),
            Insn::IfNot { .. } => RawOpcode::IfNot.code(),
            Insn::IsNull { .. } => RawOpcode::IsNull.code(),
            Insn::NotNull { .. } => RawOpcode::NotNull.code(),
            Insn::Once { .. } => RawOpcode::Once.code(),
            Insn::Jump { .. } => RawOpcode::Jump.code(),
            Insn::Eq { .. } => RawOpcode::Eq.code(),
            Insn::Ne { .. } => RawOpcode::Ne.code(),
            Insn::Lt { .. } => RawOpcode::Lt.code(),
            Insn::Le { .. } => RawOpcode::Le.code(),
            Insn::Gt { .. } => RawOpcode::Gt.code(),
            Insn::Ge { .. } => RawOpcode::Ge.code(),
            Insn::IfPos { .. } => RawOpcode::IfPos.code(),
            Insn::IfNotZero { .. } => RawOpcode::IfNotZero.code(),
            Insn::DecrJumpZero { .. } => RawOpcode::DecrJumpZero.code(),
            Insn::MustBeInt { .. } => RawOpcode::MustBeInt.code(),
            Insn::ResultRow { .. } => RawOpcode::ResultRow.code(),
            Insn::OpenRead { .. } => RawOpcode::OpenRead.code(),
            Insn::OpenWrite { .. } => RawOpcode::OpenWrite.code(),
            Insn::OpenEphemeral { .. } => RawOpcode::OpenEphemeral.code(),
            Insn::Close { .. } => RawOpcode::Close.code(),
            Insn::Rewind { .. } => RawOpcode::Rewind.code(),
            Insn::Next { .. } => RawOpcode::Next.code(),
            Insn::Prev { .. } => RawOpcode::Prev.code(),
            Insn::Last { .. } => RawOpcode::Last.code(),
            Insn::SeekGE { .. } => RawOpcode::SeekGE.code(),
            Insn::SeekGT { .. } => RawOpcode::SeekGT.code(),
            Insn::SeekLE { .. } => RawOpcode::SeekLE.code(),
            Insn::SeekLT { .. } => RawOpcode::SeekLT.code(),
            Insn::SeekRowid { .. } => RawOpcode::SeekRowid.code(),
            Insn::Column { .. } => RawOpcode::Column.code(),
            Insn::Rowid { .. } => RawOpcode::Rowid.code(),
            Insn::NewRowid { .. } => RawOpcode::NewRowid.code(),
            Insn::Insert { .. } => RawOpcode::Insert.code(),
            Insn::Delete { .. } => RawOpcode::Delete.code(),
            Insn::MakeRecord { .. } => RawOpcode::MakeRecord.code(),
            Insn::IdxInsert { .. } => RawOpcode::IdxInsert.code(),
            Insn::IdxDelete { .. } => RawOpcode::IdxDelete.code(),
            Insn::IdxRowid { .. } => RawOpcode::IdxRowid.code(),
            Insn::Init { .. } => RawOpcode::Init.code(),
            Insn::InitCoroutine { .. } => RawOpcode::InitCoroutine.code(),
            Insn::Yield { .. } => RawOpcode::Yield.code(),
            Insn::EndCoroutine { .. } => RawOpcode::EndCoroutine.code(),
            Insn::AggStep { .. } => RawOpcode::AggStep.code(),
            Insn::AggFinal { .. } => RawOpcode::AggFinal.code(),
            Insn::Noop => RawOpcode::Noop.code(),
            Insn::Explain => RawOpcode::Explain.code(),
            Insn::Raw { opcode, .. } => opcode.code(),
        }
    }

    /// The operands (P1, P2, P3, P5) of this instruction; P4 is given by `p4`.
    pub fn operands(&self) -> (r: (i32, i32, i32, u16))
        requires
            self.wf(),
        ensures
            r == self.operands_of(),
    {
        match self {
            Insn::Integer { value, dest } => (*value, *dest, 0i32, 0u16),
            Insn::Int64 { dest, .. } => (0i32, *dest, 0i32, 0u16),
            Insn::Real { dest, .. } => (0i32, *dest, 0i32, 0u16),
            Insn::String8 { dest, .. } => (0i32, *dest, 0i32, 0u16),
            Insn::Null { dest, count } => (0i32, *dest, *dest + *count - 1, 0u16),
            Insn::Add { lhs, rhs, dest } => (*lhs, *rhs, *dest, 0u16),
            Insn::Subtract { lhs, rhs, dest } => (*rhs, *lhs, *dest, 0u16),
            Insn::Multiply { lhs, rhs, dest } => (*lhs, *rhs, *dest, 0u16),
            Insn::Divide { lhs, rhs, dest } => (*rhs, *lhs, *dest, 0u16),
            Insn::Remainder { lhs, rhs, dest } => (*rhs, *lhs, *dest, 0u16),
            Insn::Concat { lhs, rhs, dest } => (*rhs, *lhs, *dest, 0u16),
            Insn::BitAnd { lhs, rhs, dest } => (*lhs, *rhs, *dest, 0u16),
            Insn::BitOr { lhs, rhs, dest } => (*lhs, *rhs, *dest, 0u16),
            Insn::ShiftLeft { lhs, rhs, dest } => (*rhs, *lhs, *dest, 0u16),
            Insn::ShiftRight { lhs, rhs, dest } => (*rhs, *lhs, *dest, 0u16),
            Insn::BitNot { src, dest } => (*src, *dest, 0i32, 0u16),
            Insn::Not { src, dest } => (*src, *dest, 0i32, 0u16),
            Insn::AddImm { dest, value } => (*dest, *value, 0i32, 0u16),
            Insn::Copy { src, dest, count } => (*src, *dest, *count - 1, 0u16),
            Insn::SCopy { src, dest } => (*src, *dest, 0i32, 0u16),
            Insn::Move { src, dest, count } => (*src, *dest, *count, 0u16),
            Insn::IntCopy { src, dest } => (*src, *dest, 0i32, 0u16),
            Insn::Halt => (0i32, 0i32, 0i32, 0u16),
            Insn::HaltWithError { error_code, on_error } => (*error_code, *on_error, 0i32, 0u16),
            Insn::HaltIfNull { src, error_code, target } => (*error_code, *target, *src, 0u16),
            Insn::Goto { target } => (0i32, *target, 0i32, 0u16),
            Insn::Gosub { return_reg, target } => (*return_reg, *target, 0i32, 0u16),
            Insn::Return { return_reg } => (*return_reg, 0i32, 0i32, 0u16),
            Insn::If { src, target, jump_if_null } => (*src, *target, if *jump_if_null { 1i32 } else { 0i32 }, 0u16),
            Insn::IfNot { src, target, jump_if_null } => (*src, *target, if *jump_if_null { 1i32 } else { 0i32 }, 0u16),
            Insn::IsNull { src, target } => (*src, *target, 0i32, 0u16),
            Insn::NotNull { src, target } => (*src, *target, 0i32, 0u16),
            Insn::Once { target } => (0i32, *target, 0i32, 0u16),
            Insn::Jump { neg, zero, pos } => (*neg, *zero, *pos, 0u16),
            Insn::Eq { lhs, rhs, target } => (*rhs, *target, *lhs, 0u16),
            Insn::Ne { lhs, rhs, target } => (*rhs, *target, *lhs, 0u16),
            Insn::Lt { lhs, rhs, target } => (*rhs, *target, *lhs, 0u16),
            Insn::Le { lhs, rhs, target } => (*rhs, *target, *lhs, 0u16),
            Insn::Gt { lhs, rhs, target } => (*rhs, *target, *lhs, 0u16),
            Insn::Ge { lhs, rhs, target } => (*rhs, *target, *lhs, 0u16),
            Insn::IfPos { src, target, decrement } => (*src, *target, *decrement, 0u16),
            Insn::IfNotZero { src, target } => (*src, *target, 0i32, 0u16),
            Insn::DecrJumpZero { src, target } => (*src, *target, 0i32, 0u16),
            Insn::MustBeInt { src, target } => (*src, *target, 0i32, 0u16),
            Insn::ResultRow { start, count } => (*start, *count, 0i32, 0u16),
            Insn::OpenRead { cursor, root_page, db_num } => (*cursor, *root_page, *db_num, 0u16),
            Insn::OpenWrite { cursor, root_page, db_num } => (*cursor, *root_page, *db_num, 0u16),
            Insn::OpenEphemeral { cursor, num_columns } => (*cursor, *num_columns, 0i32, 0u16),
            Insn::Close { cursor } => (*cursor, 0i32, 0i32, 0u16),
            Insn::Rewind { cursor, target } => (*cursor, *target, 0i32, 0u16),
            Insn::Next { cursor, target } => (*cursor, *target, 0i32, 0u16),
            Insn::Prev { cursor, target } => (*cursor, *target, 0i32, 0u16),
            Insn::Last { cursor, target } => (*cursor, *target, 0i32, 0u16),
            Insn::SeekGE { cursor, target, key, num_fields } => (*cursor, *target, *key, #[verifier::truncate] (*num_fields as u16)),
            Insn::SeekGT { cursor, target, key, num_fields } => (*cursor, *target, *key, #[verifier::truncate] (*num_fields as u16)),
            Insn::SeekLE { cursor, target, key, num_fields } => (*cursor, *target, *key, #[verifier::truncate] (*num_fields as u16)),
            Insn::SeekLT { cursor, target, key, num_fields } => (*cursor, *target, *key, #[verifier::truncate] (*num_fields as u16)),
            Insn::SeekRowid { cursor, target, rowid } => (*cursor, *target, *rowid, 0u16),
            Insn::Column { cursor, column, dest } => (*cursor, *column, *dest, 0u16),
            Insn::Rowid { cursor, dest } => (*cursor, *dest, 0i32, 0u16),
            Insn::NewRowid { cursor, dest, prev_rowid } => (*cursor, *dest, *prev_rowid, 0u16),
            Insn::Insert { cursor, data, rowid } => (*cursor, *data, *rowid, 0u16),
            Insn::Delete { cursor } => (*cursor, 0i32, 0i32, 0u16),
            Insn::MakeRecord { start, count, dest } => (*start, *count, *dest, 0u16),
            Insn::IdxInsert { cursor, key } => (*cursor, *key, 0i32, 0u16),
            Insn::IdxDelete { cursor, key, num_fields } => (*cursor, *key, *num_fields, 0u16),
            Insn::IdxRowid { cursor, dest } => (*cursor, *dest, 0i32, 0u16),
            Insn::Init { target } => (0i32, *target, 0i32, 0u16),
            Insn::InitCoroutine { coroutine, target, end } => (*coroutine, *target, *end, 0u16),
            Insn::Yield { coroutine } => (*coroutine, 0i32, 0i32, 0u16),
            Insn::EndCoroutine { coroutine } => (*coroutine, 0i32, 0i32, 0u16),
            Insn::AggStep { args, accum, num_args, .. } => (0i32, *args, *accum, #[verifier::truncate] (*num_args as u16)),
            Insn::AggFinal { accum, num_args } => (*accum, *num_args, 0i32, 0u16),
            Insn::Noop => (0i32, 0i32, 0i32, 0u16),
            Insn::Explain => (0i32, 0i32, 0i32, 0u16),
            Insn::Raw { p1, p2, p3, p5, .. } => (*p1, *p2, *p3, *p5),
        }
    }

    /// The P4 value of this instruction, if it has one.
    pub fn p4(&self) -> (r: Option<InsnP4>)
        ensures
            r == self.p4_of(),
    {
        match self {
            Insn::Int64 { value, .. } => Some(InsnP4::Int64(*value)),
            Insn::Real { bits, text, .. } => Some(InsnP4::Real { bits: *bits, text: text.clone() }),
            Insn::String8 { value, .. } => Some(InsnP4::String(value.clone())),
            Insn::Raw { p4: P4::Int(i), .. } => Some(InsnP4::Int(*i)),
            Insn::Raw { p4: P4::String(s), .. } => Some(InsnP4::String(s.clone())),
            _ => None,
        }
    }

    /// A human-readable name for this instruction.
    pub fn name(&self) -> (s: &'static str)
        ensures
            s == self.name_of(),
    {
        match self {
            Insn::Integer { .. } => "Integer",
            Insn::Int64 { .. } => "Int64",
            Insn::Real { .. } => "Real",
            Insn::String8 { .. } => "String8",
            Insn::Null { .. } => "Null",
            Insn::Add { .. } => "Add",
            Insn::Subtract { .. } => "Subtract",
            Insn::Multiply { .. } => "Multiply",
            Insn::Divide { .. } => "Divide",
            Insn::Remainder { .. } => "Remainder",
            Insn::Concat { .. } => "Concat",
            Insn::BitAnd { .. } => "BitAnd",
            Insn::BitOr { .. } => "BitOr",
            Insn::ShiftLeft { .. } => "ShiftLeft",
            Insn::ShiftRight { .. } => "ShiftRight",
            Insn::BitNot { .. } => "BitNot",
            Insn::Not { .. } => "Not",
            Insn::AddImm { .. } => "AddImm",
            Insn::Copy { .. } => "Copy",
            Insn::SCopy { .. } => "SCopy",
            Insn::Move { .. } => "Move",
            Insn::IntCopy { .. } => "IntCopy",
            Insn::Halt => "Halt",
            Insn::HaltWithError { .. } => "Halt",
            Insn::HaltIfNull { .. } => "HaltIfNull",
            Insn::Goto { .. } => "Goto",
            Insn::Gosub { .. } => "Gosub",
            Insn::Return { .. } => "Return",
            Insn::If { .. } => "If",
            Insn::IfNot { .. } => "IfNot",
            Insn::IsNull { .. } => "IsNull",
            Insn::NotNull { .. } => "NotNull",
            Insn::Once { .. } => "Once",
            Insn::Jump { .. } => "Jump",
            Insn::Eq { .. } => "Eq",
            Insn::Ne { .. } => "Ne",
            Insn::Lt { .. } => "Lt",
            Insn::Le { .. } => "Le",
            Insn::Gt { .. } => "Gt",
            Insn::Ge { .. } => "Ge",
            Insn::IfPos { .. } => "IfPos",
            Insn::IfNotZero { .. } => "IfNotZero",
            Insn::DecrJumpZero { .. } => "DecrJumpZero",
            Insn::MustBeInt { .. } => "MustBeInt",
            Insn::ResultRow { .. } => "ResultRow",
            Insn::OpenRead { .. } => "OpenRead",
            Insn::OpenWrite { .. } => "OpenWrite",
            Insn::OpenEphemeral { .. } => "OpenEphemeral",
            Insn::Close { .. } => "Close",
            Insn::Rewind { .. } => "Rewind",
            Insn::Next { .. } => "Next",
            Insn::Prev { .. } => "Prev",
            Insn::Last { .. } => "Last",
            Insn::SeekGE { .. } => "SeekGE",
            Insn::SeekGT { .. } => "SeekGT",
            Insn::SeekLE { .. } => "SeekLE",
            Insn::SeekLT { .. } => "SeekLT",
            Insn::SeekRowid { .. } => "SeekRowid",
            Insn::Column { .. } => "Column",
            Insn::Rowid { .. } => "Rowid",
            Insn::NewRowid { .. } => "NewRowid",
            Insn::Insert { .. } => "Insert",
            Insn::Delete { .. } => "Delete",
            Insn::MakeRecord { .. } => "MakeRecord",
            Insn::IdxInsert { .. } => "IdxInsert",
            Insn::IdxDelete { .. } => "IdxDelete",
            Insn::IdxRowid { .. } => "IdxRowid",
            Insn::Init { .. } => "Init",
            Insn::InitCoroutine { .. } => "InitCoroutine",
            Insn::Yield { .. } => "Yield",
            Insn::EndCoroutine { .. } => "EndCoroutine",
            Insn::AggStep { .. } => "AggStep",
            Insn::AggFinal { .. } => "AggFinal",
            Insn::Noop => "Noop",
            Insn::Explain => "Explain",
            Insn::Raw { .. } => "Raw",
        }
    }

    /// The instruction as its `Display` writes it: its name.
    pub fn display(&self) -> (s: String)
        ensures
            s@ == self.name_of()@,
    {
        String::from_str(self.name())
    }
}

/// Every instruction but `Raw` is named after its opcode: its name is the
/// name of the opcode under its opcode number.
pub proof fn law_insn_named_by_opcode(insn: Insn)
    requires
        !(insn is Raw),
    ensures
        opcode_name(insn.opcode_number()) == Some(insn.name_of()),
{
}

/// Comparison jumps compare `P3 op P1` and jump to P2, so an instruction
/// `lhs op rhs` puts `rhs` in P1, the target in P2 and `lhs` in P3: the jump
/// is taken exactly when `r[lhs] op r[rhs]`.
pub proof fn law_comparison_operands(lhs: i32, rhs: i32, target: i32)
    ensures
        (Insn::Eq { lhs, rhs, target }).operands_of() == (rhs, target, lhs, 0u16),
        (Insn::Ne { lhs, rhs, target }).operands_of() == (rhs, target, lhs, 0u16),
        (Insn::Lt { lhs, rhs, target }).operands_of() == (rhs, target, lhs, 0u16),
        (Insn::Le { lhs, rhs, target }).operands_of() == (rhs, target, lhs, 0u16),
        (Insn::Gt { lhs, rhs, target }).operands_of() == (rhs, target, lhs, 0u16),
        (Insn::Ge { lhs, rhs, target }).operands_of() == (rhs, target, lhs, 0u16),
{
}

/// Binary arithmetic stores `P2 op P1` in P3. The commutative operations
/// take `lhs` in P1; Subtract, Divide, Remainder, Concat and the shifts put
/// `lhs` in P2 and `rhs` in P1, so that the result is `r[lhs] op r[rhs]`.
pub proof fn law_arithmetic_operands(lhs: i32, rhs: i32, dest: i32)
    ensures
        (Insn::Add { lhs, rhs, dest }).operands_of() == (lhs, rhs, dest, 0u16),
        (Insn::Multiply { lhs, rhs, dest }).operands_of() == (lhs, rhs, dest, 0u16),
        (Insn::BitAnd { lhs, rhs, dest }).operands_of() == (lhs, rhs, dest, 0u16),
        (Insn::BitOr { lhs, rhs, dest }).operands_of() == (lhs, rhs, dest, 0u16),
        (Insn::Subtract { lhs, rhs, dest }).operands_of() == (rhs, lhs, dest, 0u16),
        (Insn::Divide { lhs, rhs, dest }).operands_of() == (rhs, lhs, dest, 0u16),
        (Insn::Remainder { lhs, rhs, dest }).operands_of() == (rhs, lhs, dest, 0u16),
        (Insn::Concat { lhs, rhs, dest }).operands_of() == (rhs, lhs, dest, 0u16),
        (Insn::ShiftLeft { lhs, rhs, dest }).operands_of() == (rhs, lhs, dest, 0u16),
        (Insn::ShiftRight { lhs, rhs, dest }).operands_of() == (rhs, lhs, dest, 0u16),
{
}

/// The operand layout of every instruction, field by field: which named
/// field goes to P1, P2, P3 and P5 (constants where the opcode takes none).
pub proof fn law_operand_layout(insn: Insn)
    requires
        insn.wf(),
    ensures
        insn matches Insn::Integer { value, dest } ==> insn.operands_of() == (value, dest, 0i32, 0u16),
        insn matches Insn::Int64 { dest, .. } ==> insn.operands_of() == (0i32, dest, 0i32, 0u16),
        insn matches Insn::Real { dest, .. } ==> insn.operands_of() == (0i32, dest, 0i32, 0u16),
        insn matches Insn::String8 { dest, .. } ==> insn.operands_of() == (0i32, dest, 0i32, 0u16),
        insn matches Insn::Null { dest, count } ==> insn.operands_of() == (0i32, dest, (dest + count - 1) as i32, 0u16),
        insn matches Insn::Add { lhs, rhs, dest } ==> insn.operands_of() == (lhs, rhs, dest, 0u16),
        insn matches Insn::Subtract { lhs, rhs, dest } ==> insn.operands_of() == (rhs, lhs, dest, 0u16),
        insn matches Insn::Multiply { lhs, rhs, dest } ==> insn.operands_of() == (lhs, rhs, dest, 0u16),
        insn matches Insn::Divide { lhs, rhs, dest } ==> insn.operands_of() == (rhs, lhs, dest, 0u16),
        insn matches Insn::Remainder { lhs, rhs, dest } ==> insn.operands_of() == (rhs, lhs, dest, 0u16),
        insn matches Insn::Concat { lhs, rhs, dest } ==> insn.operands_of() == (rhs, lhs, dest, 0u16),
        insn matches Insn::BitAnd { lhs, rhs, dest } ==> insn.operands_of() == (lhs, rhs, dest, 0u16),
        insn matches Insn::BitOr { lhs, rhs, dest } ==> insn.operands_of() == (lhs, rhs, dest, 0u16),
        insn matches Insn::ShiftLeft { lhs, rhs, dest } ==> insn.operands_of() == (rhs, lhs, dest, 0u16),
        insn matches Insn::ShiftRight { lhs, rhs, dest } ==> insn.operands_of() == (rhs, lhs, dest, 0u16),
        insn matches Insn::BitNot { src, dest } ==> insn.operands_of() == (src, dest, 0i32, 0u16),
        insn matches Insn::Not { src, dest } ==> insn.operands_of() == (src, dest, 0i32, 0u16),
        insn matches Insn::AddImm { dest, value } ==> insn.operands_of() == (dest, value, 0i32, 0u16),
        insn matches Insn::Copy { src, dest, count } ==> insn.operands_of() == (src, dest, (count - 1) as i32, 0u16),
        insn matches Insn::SCopy { src, dest } ==> insn.operands_of() == (src, dest, 0i32, 0u16),
        insn matches Insn::Move { src, dest, count } ==> insn.operands_of() == (src, dest, count, 0u16),
        insn matches Insn::IntCopy { src, dest } ==> insn.operands_of() == (src, dest, 0i32, 0u16),
        insn matches Insn::Halt ==> insn.operands_of() == (0i32, 0i32, 0i32, 0u16),
        insn matches Insn::HaltWithError { error_code, on_error } ==> insn.operands_of() == (error_code, on_error, 0i32, 0u16),
        insn matches Insn::HaltIfNull { src, error_code, target } ==> insn.operands_of() == (error_code, target, src, 0u16),
        insn matches Insn::Goto { target } ==> insn.operands_of() == (0i32, target, 0i32, 0u16),
        insn matches Insn::Gosub { return_reg, target } ==> insn.operands_of() == (return_reg, target, 0i32, 0u16),
        insn matches Insn::Return { return_reg } ==> insn.operands_of() == (return_reg, 0i32, 0i32, 0u16),
        insn matches Insn::If { src, target, jump_if_null } ==> insn.operands_of() == (src, target, if jump_if_null { 1i32 } else { 0i32 }, 0u16),
        insn matches Insn::IfNot { src, target, jump_if_null } ==> insn.operands_of() == (src, target, if jump_if_null { 1i32 } else { 0i32 }, 0u16),
        insn matches Insn::IsNull { src, target } ==> insn.operands_of() == (src, target, 0i32, 0u16),
        insn matches Insn::NotNull { src, target } ==> insn.operands_of() == (src, target, 0i32, 0u16),
        insn matches Insn::Once { target } ==> insn.operands_of() == (0i32, target, 0i32, 0u16),
        insn matches Insn::Jump { neg, zero, pos } ==> insn.operands_of() == (neg, zero, pos, 0u16),
        insn matches Insn::Eq { lhs, rhs, target } ==> insn.operands_of() == (rhs, target, lhs, 0u16),
        insn matches Insn::Ne { lhs, rhs, target } ==> insn.operands_of() == (rhs, target, lhs, 0u16),
        insn matches Insn::Lt { lhs, rhs, target } ==> insn.operands_of() == (rhs, target, lhs, 0u16),
        insn matches Insn::Le { lhs, rhs, target } ==> insn.operands_of() == (rhs, target, lhs, 0u16),
        insn matches Insn::Gt { lhs, rhs, target } ==> insn.operands_of() == (rhs, target, lhs, 0u16),
        insn matches Insn::Ge { lhs, rhs, target } ==> insn.operands_of() == (rhs, target, lhs, 0u16),
        insn matches Insn::IfPos { src, target, decrement } ==> insn.operands_of() == (src, target, decrement, 0u16),
        insn matches Insn::IfNotZero { src, target } ==> insn.operands_of() == (src, target, 0i32, 0u16),
        insn matches Insn::DecrJumpZero { src, target } ==> insn.operands_of() == (src, target, 0i32, 0u16),
        insn matches Insn::MustBeInt { src, target } ==> insn.operands_of() == (src, target, 0i32, 0u16),
        insn matches Insn::ResultRow { start, count } ==> insn.operands_of() == (start, count, 0i32, 0u16),
        insn matches Insn::OpenRead { cursor, root_page, db_num } ==> insn.operands_of() == (cursor, root_page, db_num, 0u16),
        insn matches Insn::OpenWrite { cursor, root_page, db_num } ==> insn.operands_of() == (cursor, root_page, db_num, 0u16),
        insn matches Insn::OpenEphemeral { cursor, num_columns } ==> insn.operands_of() == (cursor, num_columns, 0i32, 0u16),
        insn matches Insn::Close { cursor } ==> insn.operands_of() == (cursor, 0i32, 0i32, 0u16),
        insn matches Insn::Rewind { cursor, target } ==> insn.operands_of() == (cursor, target, 0i32, 0u16),
        insn matches Insn::Next { cursor, target } ==> insn.operands_of() == (cursor, target, 0i32, 0u16),
        insn matches Insn::Prev { cursor, target } ==> insn.operands_of() == (cursor, target, 0i32, 0u16),
        insn matches Insn::Last { cursor, target } ==> insn.operands_of() == (cursor, target, 0i32, 0u16),
        insn matches Insn::SeekGE { cursor, target, key, num_fields } ==> insn.operands_of() == (cursor, target, key, num_fields as u16),
        insn matches Insn::SeekGT { cursor, target, key, num_fields } ==> insn.operands_of() == (cursor, target, key, num_fields as u16),
        insn matches Insn::SeekLE { cursor, target, key, num_fields } ==> insn.operands_of() == (cursor, target, key, num_fields as u16),
        insn matches Insn::SeekLT { cursor, target, key, num_fields } ==> insn.operands_of() == (cursor, target, key, num_fields as u16),
        insn matches Insn::SeekRowid { cursor, target, rowid } ==> insn.operands_of() == (cursor, target, rowid, 0u16),
        insn matches Insn::Column { cursor, column, dest } ==> insn.operands_of() == (cursor, column, dest, 0u16),
        insn matches Insn::Rowid { cursor, dest } ==> insn.operands_of() == (cursor, dest, 0i32, 0u16),
        insn matches Insn::NewRowid { cursor, dest, prev_rowid } ==> insn.operands_of() == (cursor, dest, prev_rowid, 0u16),
        insn matches Insn::Insert { cursor, data, rowid } ==> insn.operands_of() == (cursor, data, rowid, 0u16),
        insn matches Insn::Delete { cursor } ==> insn.operands_of() == (cursor, 0i32, 0i32, 0u16),
        insn matches Insn::MakeRecord { start, count, dest } ==> insn.operands_of() == (start, count, dest, 0u16),
        insn matches Insn::IdxInsert { cursor, key } ==> insn.operands_of() == (cursor, key, 0i32, 0u16),
        insn matches Insn::IdxDelete { cursor, key, num_fields } ==> insn.operands_of() == (cursor, key, num_fields, 0u16),
        insn matches Insn::IdxRowid { cursor, dest } ==> insn.operands_of() == (cursor, dest, 0i32, 0u16),
        insn matches Insn::Init { target } ==> insn.operands_of() == (0i32, target, 0i32, 0u16),
        insn matches Insn::InitCoroutine { coroutine, target, end } ==> insn.operands_of() == (coroutine, target, end, 0u16),
        insn matches Insn::Yield { coroutine } ==> insn.operands_of() == (coroutine, 0i32, 0i32, 0u16),
        insn matches Insn::EndCoroutine { coroutine } ==> insn.operands_of() == (coroutine, 0i32, 0i32, 0u16),
        insn matches Insn::AggStep { args, accum, num_args, .. } ==> insn.operands_of() == (0i32, args, accum, num_args as u16),
        insn matches Insn::AggFinal { accum, num_args } ==> insn.operands_of() == (accum, num_args, 0i32, 0u16),
        insn matches Insn::Noop ==> insn.operands_of() == (0i32, 0i32, 0i32, 0u16),
        insn matches Insn::Explain ==> insn.operands_of() == (0i32, 0i32, 0i32, 0u16),
        insn matches Insn::Raw { p1, p2, p3, p5, .. } ==> insn.operands_of() == (p1, p2, p3, p5),
{
}

/// Every instruction is emitted with the opcode it is named after: each
/// variant has the number and the name of its opcode (`HaltWithError` is a
/// `Halt`), and `Raw` has the opcode it is given.
pub proof fn law_opcode_of_variant(insn: Insn)
    ensures
        insn matches Insn::Integer { .. } ==> insn.opcode_number() == 71u8 && insn.name_of() == "Integer",
        insn matches Insn::Int64 { .. } ==> insn.opcode_number() == 72u8 && insn.name_of() == "Int64",
        insn matches Insn::Real { .. } ==> insn.opcode_number() == 153u8 && insn.name_of() == "Real",
        insn matches Insn::String8 { .. } ==> insn.opcode_number() == 117u8 && insn.name_of() == "String8",
        insn matches Insn::Null { .. } ==> insn.opcode_number() == 75u8 && insn.name_of() == "Null",
        insn matches Insn::Add { .. } ==> insn.opcode_number() == 106u8 && insn.name_of() == "Add",
        insn matches Insn::Subtract { .. } ==> insn.opcode_number() == 107u8 && insn.name_of() == "Subtract",
        insn matches Insn::Multiply { .. } ==> insn.opcode_number() == 108u8 && insn.name_of() == "Multiply",
        insn matches Insn::Divide { .. } ==> insn.opcode_number() == 109u8 && insn.name_of() == "Divide",
        insn matches Insn::Remainder { .. } ==> insn.opcode_number() == 110u8 && insn.name_of() == "Remainder",
        insn matches Insn::Concat { .. } ==> insn.opcode_number() == 111u8 && insn.name_of() == "Concat",
        insn matches Insn::BitAnd { .. } ==> insn.opcode_number() == 102u8 && insn.name_of() == "BitAnd",
        insn matches Insn::BitOr { .. } ==> insn.opcode_number() == 103u8 && insn.name_of() == "BitOr",
        insn matches Insn::ShiftLeft { .. } ==> insn.opcode_number() == 104u8 && insn.name_of() == "ShiftLeft",
        insn matches Insn::ShiftRight { .. } ==> insn.opcode_number() == 105u8 && insn.name_of() == "ShiftRight",
        insn matches Insn::BitNot { .. } ==> insn.opcode_number() == 114u8 && insn.name_of() == "BitNot",
        insn matches Insn::Not { .. } ==> insn.opcode_number() == 19u8 && insn.name_of() == "Not",
        insn matches Insn::AddImm { .. } ==> insn.opcode_number() == 86u8 && insn.name_of() == "AddImm",
        insn matches Insn::Copy { .. } ==> insn.opcode_number() == 80u8 && insn.name_of() == "Copy",
        insn matches Insn::SCopy { .. } ==> insn.opcode_number() == 81u8 && insn.name_of() == "SCopy",
        insn matches Insn::Move { .. } ==> insn.opcode_number() == 79u8 && insn.name_of() == "Move",
        insn matches Insn::IntCopy { .. } ==> insn.opcode_number() == 82u8 && insn.name_of() == "IntCopy",
        insn matches Insn::Halt ==> insn.opcode_number() == 70u8 && insn.name_of() == "Halt",
        insn matches Insn::HaltWithError { .. } ==> insn.opcode_number() == 70u8 && insn.name_of() == "Halt",
        insn matches Insn::HaltIfNull { .. } ==> insn.opcode_number() == 69u8 && insn.name_of() == "HaltIfNull",
        insn matches Insn::Goto { .. } ==> insn.opcode_number() == 9u8 && insn.name_of() == "Goto",
        insn matches Insn::Gosub { .. } ==> insn.opcode_number() == 10u8 && insn.name_of() == "Gosub",
        insn matches Insn::Return { .. } ==> insn.opcode_number() == 67u8 && insn.name_of() == "Return",
        insn matches Insn::If { .. } ==> insn.opcode_number() == 16u8 && insn.name_of() == "If",
        insn matches Insn::IfNot { .. } ==> insn.opcode_number() == 17u8 && insn.name_of() == "IfNot",
        insn matches Insn::IsNull { .. } ==> insn.opcode_number() == 50u8 && insn.name_of() == "IsNull",
        insn matches Insn::NotNull { .. } ==> insn.opcode_number() == 51u8 && insn.name_of() == "NotNull",
        insn matches Insn::Once { .. } ==> insn.opcode_number() == 15u8 && insn.name_of() == "Once",
        insn matches Insn::Jump { .. } ==> insn.opcode_number() == 14u8 && insn.name_of() == "Jump",
        insn matches Insn::Eq { .. } ==> insn.opcode_number() == 53u8 && insn.name_of() == "Eq",
        insn matches Insn::Ne { .. } ==> insn.opcode_number() == 52u8 && insn.name_of() == "Ne",
        insn matches Insn::Lt { .. } ==> insn.opcode_number() == 56u8 && insn.name_of() == "Lt",
        insn matches Insn::Le { .. } ==> insn.opcode_number() == 55u8 && insn.name_of() == "Le",
        insn matches Insn::Gt { .. } ==> insn.opcode_number() == 54u8 && insn.name_of() == "Gt",
        insn matches Insn::Ge { .. } ==> insn.opcode_number() == 57u8 && insn.name_of() == "Ge",
        insn matches Insn::IfPos { .. } ==> insn.opcode_number() == 59u8 && insn.name_of() == "IfPos",
        insn matches Insn::IfNotZero { .. } ==> insn.opcode_number() == 60u8 && insn.name_of() == "IfNotZero",
        insn matches Insn::DecrJumpZero { .. } ==> insn.opcode_number() == 61u8 && insn.name_of() == "DecrJumpZero",
        insn matches Insn::MustBeInt { .. } ==> insn.opcode_number() == 13u8 && insn.name_of() == "MustBeInt",
        insn matches Insn::ResultRow { .. } ==> insn.opcode_number() == 84u8 && insn.name_of() == "ResultRow",
        insn matches Insn::OpenRead { .. } ==> insn.opcode_number() == 112u8 && insn.name_of() == "OpenRead",
        insn matches Insn::OpenWrite { .. } ==> insn.opcode_number() == 113u8 && insn.name_of() == "OpenWrite",
        insn matches Insn::OpenEphemeral { .. } ==> insn.opcode_number() == 118u8 && insn.name_of() == "OpenEphemeral",
        insn matches Insn::Close { .. } ==> insn.opcode_number() == 122u8 && insn.name_of() == "Close",
        insn matches Insn::Rewind { .. } ==> insn.opcode_number() == 36u8 && insn.name_of() == "Rewind",
        insn matches Insn::Next { .. } ==> insn.opcode_number() == 39u8 && insn.name_of() == "Next",
        insn matches Insn::Prev { .. } ==> insn.opcode_number() == 38u8 && insn.name_of() == "Prev",
        insn matches Insn::Last { .. } ==> insn.opcode_number() == 32u8 && insn.name_of() == "Last",
        insn matches Insn::SeekGE { .. } ==> insn.opcode_number() == 23u8 && insn.name_of() == "SeekGE",
        insn matches Insn::SeekGT { .. } ==> insn.opcode_number() == 24u8 && insn.name_of() == "SeekGT",
        insn matches Insn::SeekLE { .. } ==> insn.opcode_number() == 22u8 && insn.name_of() == "SeekLE",
        insn matches Insn::SeekLT { .. } ==> insn.opcode_number() == 21u8 && insn.name_of() == "SeekLT",
        insn matches Insn::SeekRowid { .. } ==> insn.opcode_number() == 30u8 && insn.name_of() == "SeekRowid",
        insn matches Insn::Column { .. } ==> insn.opcode_number() == 94u8 && insn.name_of() == "Column",
        insn matches Insn::Rowid { .. } ==> insn.opcode_number() == 135u8 && insn.name_of() == "Rowid",
        insn matches Insn::NewRowid { .. } ==> insn.opcode_number() == 127u8 && insn.name_of() == "NewRowid",
        insn matches Insn::Insert { .. } ==> insn.opcode_number() == 128u8 && insn.name_of() == "Insert",
        insn matches Insn::Delete { .. } ==> insn.opcode_number() == 130u8 && insn.name_of() == "Delete",
        insn matches Insn::MakeRecord { .. } ==> insn.opcode_number() == 97u8 && insn.name_of() == "MakeRecord",
        insn matches Insn::IdxInsert { .. } ==> insn.opcode_number() == 138u8 && insn.name_of() == "IdxInsert",
        insn matches Insn::IdxDelete { .. } ==> insn.opcode_number() == 140u8 && insn.name_of() == "IdxDelete",
        insn matches Insn::IdxRowid { .. } ==> insn.opcode_number() == 142u8 && insn.name_of() == "IdxRowid",
        insn matches Insn::Init { .. } ==> insn.opcode_number() == 8u8 && insn.name_of() == "Init",
        insn matches Insn::InitCoroutine { .. } ==> insn.opcode_number() == 11u8 && insn.name_of() == "InitCoroutine",
        insn matches Insn::Yield { .. } ==> insn.opcode_number() == 12u8 && insn.name_of() == "Yield",
        insn matches Insn::EndCoroutine { .. } ==> insn.opcode_number() == 68u8 && insn.name_of() == "EndCoroutine",
        insn matches Insn::AggStep { .. } ==> insn.opcode_number() == 162u8 && insn.name_of() == "AggStep",
        insn matches Insn::AggFinal { .. } ==> insn.opcode_number() == 165u8 && insn.name_of() == "AggFinal",
        insn matches Insn::Noop ==> insn.opcode_number() == 187u8 && insn.name_of() == "Noop",
        insn matches Insn::Explain ==> insn.opcode_number() == 188u8 && insn.name_of() == "Explain",
        insn matches Insn::Raw { opcode, .. } ==> insn.opcode_number() == opcode.number() && insn.name_of() == "Raw",
{
}

/// The P4 operand of an instruction is the value it carries: the 64-bit
/// integer of `Int64`, the float of `Real`, the string of `String8`, and the
/// integer or string given to `Raw`; `Raw` with `P4::NotUsed` and every
/// other instruction have none.
pub proof fn law_p4_operand(insn: Insn)
    ensures
        insn matches Insn::Int64 { value, .. } ==> insn.p4_of() == Some(InsnP4::Int64(value)),
        insn matches Insn::Real { bits, text, .. } ==> insn.p4_of() == Some(InsnP4::Real { bits, text }),
        insn matches Insn::String8 { value, .. } ==> insn.p4_of() == Some(InsnP4::String(value)),
        insn matches Insn::Raw { p4: P4::Int(i), .. } ==> insn.p4_of() == Some(InsnP4::Int(i)),
        insn matches Insn::Raw { p4: P4::String(s), .. } ==> insn.p4_of() == Some(InsnP4::String(s)),
        insn matches Insn::Raw { p4: P4::NotUsed, .. } ==> insn.p4_of() is None,
        !(insn is Int64 || insn is Real || insn is String8 || insn is Raw) ==> insn.p4_of() is None,
{
}

} // verus!
