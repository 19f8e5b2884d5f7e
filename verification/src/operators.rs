//! Instruction symbols: the opcode of an instruction without its operands.
//!
//! Two instructions that differ only in their immediates (a constant, a branch
//! target, a memory offset) have the same symbol. Symbols are what basic blocks
//! are compared and hashed by.

use vstd::prelude::*;

verus! {

/// The opcode of one instruction, with every operand dropped.
///
/// The order of the variants is part of the format: [`OperatorSymbol::code`]
/// numbers them from zero in declaration order, and block hashes are computed
/// from those numbers. New variants go at the end.
#[derive(Debug, Clone, Copy, PartialEq, Eq, Structural, Hash, PartialOrd, Ord)]
pub enum OperatorSymbol {
    // Control flow.
    Unreachable,
    Nop,
    Block,
    Loop,
    If,
    Else,
    Try,
    Catch,
    Throw,
    Rethrow,
    Unwind,
    End,
    Br,
    BrIf,
    BrTable,
    Return,
    Call,
    CallIndirect,
    ReturnCall,
    ReturnCallIndirect,
    Delegate,
    CatchAll,
    // Parametric instructions.
    Drop,
    Select,
    TypedSelect,
    // Locals and globals.
    LocalGet,
    LocalSet,
    LocalTee,
    GlobalGet,
    GlobalSet,
    // Memory loads and stores.
    I32Load,
    I64Load,
    F32Load,
    F64Load,
    I32Load8S,
    I32Load8U,
    I32Load16S,
    I32Load16U,
    I64Load8S,
    I64Load8U,
    I64Load16S,
    I64Load16U,
    I64Load32S,
    I64Load32U,
    I32Store,
    I64Store,
    F32Store,
    F64Store,
    I32Store8,
    I32Store16,
    I64Store8,
    I64Store16,
    I64Store32,
    // Memory size.
    MemorySize,
    MemoryGrow,
    // Constants.
    I32Const,
    I64Const,
    F32Const,
    F64Const,
    // References.
    RefNull,
    RefIsNull,
    RefFunc,
    // Integer comparisons.
    I32Eqz,
    I32Eq,
    I32Ne,
    I32LtS,
    I32LtU,
    I32GtS,
    I32GtU,
    I32LeS,
    I32LeU,
    I32GeS,
    I32GeU,
    I64Eqz,
    I64Eq,
    I64Ne,
    I64LtS,
    I64LtU,
    I64GtS,
    I64GtU,
    I64LeS,
    I64LeU,
    I64GeS,
    I64GeU,
    // Float comparisons.
    F32Eq,
    F32Ne,
    F32Lt,
    F32Gt,
    F32Le,
    F32Ge,
    F64Eq,
    F64Ne,
    F64Lt,
    F64Gt,
    F64Le,
    F64Ge,
    // Integer arithmetic.
    I32Clz,
    I32Ctz,
    I32Popcnt,
    I32Add,
    I32Sub,
    I32Mul,
    I32DivS,
    I32DivU,
    I32RemS,
    I32RemU,
    I32And,
    I32Or,
    I32Xor,
    I32Shl,
    I32ShrS,
    I32ShrU,
    I32Rotl,
    I32Rotr,
    I64Clz,
    I64Ctz,
    I64Popcnt,
    I64Add,
    I64Sub,
    I64Mul,
    I64DivS,
    I64DivU,
    I64RemS,
    I64RemU,
    I64And,
    I64Or,
    I64Xor,
    I64Shl,
    I64ShrS,
    I64ShrU,
    I64Rotl,
    I64Rotr,
    // Float arithmetic.
    F32Abs,
    F32Neg,
    F32Ceil,
    F32Floor,
    F32Trunc,
    F32Nearest,
    F32Sqrt,
    F32Add,
    F32Sub,
    F32Mul,
    F32Div,
    F32Min,
    F32Max,
    F32Copysign,
    F64Abs,
    F64Neg,
    F64Ceil,
    F64Floor,
    F64Trunc,
    F64Nearest,
    F64Sqrt,
    F64Add,
    F64Sub,
    F64Mul,
    F64Div,
    F64Min,
    F64Max,
    F64Copysign,
    // Conversions.
    I32WrapI64,
    I32TruncF32S,
    I32TruncF32U,
    I32TruncF64S,
    I32TruncF64U,
    I64ExtendI32S,
    I64ExtendI32U,
    I64TruncF32S,
    I64TruncF32U,
    I64TruncF64S,
    I64TruncF64U,
    F32ConvertI32S,
    F32ConvertI32U,
    F32ConvertI64S,
    F32ConvertI64U,
    F32DemoteF64,
    F64ConvertI32S,
    F64ConvertI32U,
    F64ConvertI64S,
    F64ConvertI64U,
    F64PromoteF32,
    I32ReinterpretF32,
    I64ReinterpretF64,
    F32ReinterpretI32,
    F64ReinterpretI64,
    // Sign extension.
    I32Extend8S,
    I32Extend16S,
    I64Extend8S,
    I64Extend16S,
    I64Extend32S,
    // Saturating truncation.
    I32TruncSatF32S,
    I32TruncSatF32U,
    I32TruncSatF64S,
    I32TruncSatF64U,
    I64TruncSatF32S,
    I64TruncSatF32U,
    I64TruncSatF64S,
    I64TruncSatF64U,
    // Bulk memory and tables.
    MemoryInit,
    DataDrop,
    MemoryCopy,
    MemoryFill,
    TableInit,
    ElemDrop,
    TableCopy,
    TableFill,
    TableGet,
    TableSet,
    TableGrow,
    TableSize,
    // Atomics.
    MemoryAtomicNotify,
    MemoryAtomicWait32,
    MemoryAtomicWait64,
    AtomicFence,
    I32AtomicLoad,
    I64AtomicLoad,
    I32AtomicLoad8U,
    I32AtomicLoad16U,
    I64AtomicLoad8U,
    I64AtomicLoad16U,
    I64AtomicLoad32U,
    I32AtomicStore,
    I64AtomicStore,
    I32AtomicStore8,
    I32AtomicStore16,
    I64AtomicStore8,
    I64AtomicStore16,
    I64AtomicStore32,
    I32AtomicRmwAdd,
    I64AtomicRmwAdd,
    I32AtomicRmw8AddU,
    I32AtomicRmw16AddU,
    I64AtomicRmw8AddU,
    I64AtomicRmw16AddU,
    I64AtomicRmw32AddU,
    I32AtomicRmwSub,
    I64AtomicRmwSub,
    I32AtomicRmw8SubU,
    I32AtomicRmw16SubU,
    I64AtomicRmw8SubU,
    I64AtomicRmw16SubU,
    I64AtomicRmw32SubU,
    I32AtomicRmwAnd,
    I64AtomicRmwAnd,
    I32AtomicRmw8AndU,
    I32AtomicRmw16AndU,
    I64AtomicRmw8AndU,
    I64AtomicRmw16AndU,
    I64AtomicRmw32AndU,
    I32AtomicRmwOr,
    I64AtomicRmwOr,
    I32AtomicRmw8OrU,
    I32AtomicRmw16OrU,
    I64AtomicRmw8OrU,
    I64AtomicRmw16OrU,
    I64AtomicRmw32OrU,
    I32AtomicRmwXor,
    I64AtomicRmwXor,
    I32AtomicRmw8XorU,
    I32AtomicRmw16XorU,
    I64AtomicRmw8XorU,
    I64AtomicRmw16XorU,
    I64AtomicRmw32XorU,
    I32AtomicRmwXchg,
    I64AtomicRmwXchg,
    I32AtomicRmw8XchgU,
    I32AtomicRmw16XchgU,
    I64AtomicRmw8XchgU,
    I64AtomicRmw16XchgU,
    I64AtomicRmw32XchgU,
    I32AtomicRmwCmpxchg,
    I64AtomicRmwCmpxchg,
    I32AtomicRmw8CmpxchgU,
    I32AtomicRmw16CmpxchgU,
    I64AtomicRmw8CmpxchgU,
    I64AtomicRmw16CmpxchgU,
    I64AtomicRmw32CmpxchgU,
    // Vector loads and stores.
    V128Load,
    V128Load8x8S,
    V128Load8x8U,
    V128Load16x4S,
    V128Load16x4U,
    V128Load32x2S,
    V128Load32x2U,
    V128Load8Splat,
    V128Load16Splat,
    V128Load32Splat,
    V128Load64Splat,
    V128Load32Zero,
    V128Load64Zero,
    V128Store,
    V128Load8Lane,
    V128Load16Lane,
    V128Load32Lane,
    V128Load64Lane,
    V128Store8Lane,
    V128Store16Lane,
    V128Store32Lane,
    V128Store64Lane,
    // Vector constants and lanes.
    V128Const,
    I8x16Shuffle,
    I8x16ExtractLaneS,
    I8x16ExtractLaneU,
    I8x16ReplaceLane,
    I16x8ExtractLaneS,
    I16x8ExtractLaneU,
    I16x8ReplaceLane,
    I32x4ExtractLane,
    I32x4ReplaceLane,
    I64x2ExtractLane,
    I64x2ReplaceLane,
    F32x4ExtractLane,
    F32x4ReplaceLane,
    F64x2ExtractLane,
    F64x2ReplaceLane,
    I8x16Swizzle,
    I8x16Splat,
    I16x8Splat,
    I32x4Splat,
    I64x2Splat,
    F32x4Splat,
    F64x2Splat,
    // Vector comparisons.
    I8x16Eq,
    I8x16Ne,
    I8x16LtS,
    I8x16LtU,
    I8x16GtS,
    I8x16GtU,
    I8x16LeS,
    I8x16LeU,
    I8x16GeS,
    I8x16GeU,
    I16x8Eq,
    I16x8Ne,
    I16x8LtS,
    I16x8LtU,
    I16x8GtS,
    I16x8GtU,
    I16x8LeS,
    I16x8LeU,
    I16x8GeS,
    I16x8GeU,
    I32x4Eq,
    I32x4Ne,
    I32x4LtS,
    I32x4LtU,
    I32x4GtS,
    I32x4GtU,
    I32x4LeS,
    I32x4LeU,
    I32x4GeS,
    I32x4GeU,
    I64x2Eq,
    I64x2Ne,
    I64x2LtS,
    I64x2GtS,
    I64x2LeS,
    I64x2GeS,
    F32x4Eq,
    F32x4Ne,
    F32x4Lt,
    F32x4Gt,
    F32x4Le,
    F32x4Ge,
    F64x2Eq,
    F64x2Ne,
    F64x2Lt,
    F64x2Gt,
    F64x2Le,
    F64x2Ge,
    // Vector bitwise operations.
    V128Not,
    V128And,
    V128AndNot,
    V128Or,
    V128Xor,
    V128Bitselect,
    V128AnyTrue,
    // Vector integer arithmetic.
    I8x16Abs,
    I8x16Neg,
    I8x16Popcnt,
    I8x16AllTrue,
    I8x16Bitmask,
    I8x16NarrowI16x8S,
    I8x16NarrowI16x8U,
    I8x16Shl,
    I8x16ShrS,
    I8x16ShrU,
    I8x16Add,
    I8x16AddSatS,
    I8x16AddSatU,
    I8x16Sub,
    I8x16SubSatS,
    I8x16SubSatU,
    I8x16MinS,
    I8x16MinU,
    I8x16MaxS,
    I8x16MaxU,
    I8x16RoundingAverageU,
    I16x8ExtAddPairwiseI8x16S,
    I16x8ExtAddPairwiseI8x16U,
    I16x8Abs,
    I16x8Neg,
    I16x8Q15MulrSatS,
    I16x8AllTrue,
    I16x8Bitmask,
    I16x8NarrowI32x4S,
    I16x8NarrowI32x4U,
    I16x8ExtendLowI8x16S,
    I16x8ExtendHighI8x16S,
    I16x8ExtendLowI8x16U,
    I16x8ExtendHighI8x16U,
    I16x8Shl,
    I16x8ShrS,
    I16x8ShrU,
    I16x8Add,
    I16x8AddSatS,
    I16x8AddSatU,
    I16x8Sub,
    I16x8SubSatS,
    I16x8SubSatU,
    I16x8Mul,
    I16x8MinS,
    I16x8MinU,
    I16x8MaxS,
    I16x8MaxU,
    I16x8RoundingAverageU,
    I16x8ExtMulLowI8x16S,
    I16x8ExtMulHighI8x16S,
    I16x8ExtMulLowI8x16U,
    I16x8ExtMulHighI8x16U,
    I32x4ExtAddPairwiseI16x8S,
    I32x4ExtAddPairwiseI16x8U,
    I32x4Abs,
    I32x4Neg,
    I32x4AllTrue,
    I32x4Bitmask,
    I32x4ExtendLowI16x8S,
    I32x4ExtendHighI16x8S,
    I32x4ExtendLowI16x8U,
    I32x4ExtendHighI16x8U,
    I32x4Shl,
    I32x4ShrS,
    I32x4ShrU,
    I32x4Add,
    I32x4Sub,
    I32x4Mul,
    I32x4MinS,
    I32x4MinU,
    I32x4MaxS,
    I32x4MaxU,
    I32x4DotI16x8S,
    I32x4ExtMulLowI16x8S,
    I32x4ExtMulHighI16x8S,
    I32x4ExtMulLowI16x8U,
    I32x4ExtMulHighI16x8U,
    I64x2Abs,
    I64x2Neg,
    I64x2AllTrue,
    I64x2Bitmask,
    I64x2ExtendLowI32x4S,
    I64x2ExtendHighI32x4S,
    I64x2ExtendLowI32x4U,
    I64x2ExtendHighI32x4U,
    I64x2Shl,
    I64x2ShrS,
    I64x2ShrU,
    I64x2Add,
    I64x2Sub,
    I64x2Mul,
    I64x2ExtMulLowI32x4S,
    I64x2ExtMulHighI32x4S,
    I64x2ExtMulLowI32x4U,
    I64x2ExtMulHighI32x4U,
    // Vector float arithmetic.
    F32x4Ceil,
    F32x4Floor,
    F32x4Trunc,
    F32x4Nearest,
    F32x4Abs,
    F32x4Neg,
    F32x4Sqrt,
    F32x4Add,
    F32x4Sub,
    F32x4Mul,
    F32x4Div,
    F32x4Min,
    F32x4Max,
    F32x4PMin,
    F32x4PMax,
    F64x2Ceil,
    F64x2Floor,
    F64x2Trunc,
    F64x2Nearest,
    F64x2Abs,
    F64x2Neg,
    F64x2Sqrt,
    F64x2Add,
    F64x2Sub,
    F64x2Mul,
    F64x2Div,
    F64x2Min,
    F64x2Max,
    F64x2PMin,
    F64x2PMax,
    // Vector conversions.
    I32x4TruncSatF32x4S,
    I32x4TruncSatF32x4U,
    F32x4ConvertI32x4S,
    F32x4ConvertI32x4U,
    I32x4TruncSatF64x2SZero,
    I32x4TruncSatF64x2UZero,
    F64x2ConvertLowI32x4S,
    F64x2ConvertLowI32x4U,
    F32x4DemoteF64x2Zero,
    F64x2PromoteLowF32x4,
    // Relaxed vector operations.
    I8x16RelaxedSwizzle,
    I32x4RelaxedTruncSatF32x4S,
    I32x4RelaxedTruncSatF32x4U,
    I32x4RelaxedTruncSatF64x2SZero,
    I32x4RelaxedTruncSatF64x2UZero,
    F32x4Fma,
    F32x4Fms,
    F64x2Fma,
    F64x2Fms,
    I8x16LaneSelect,
    I16x8LaneSelect,
    I32x4LaneSelect,
    I64x2LaneSelect,
    F32x4RelaxedMin,
    F32x4RelaxedMax,
    F64x2RelaxedMin,
    F64x2RelaxedMax,
}

/// The number of symbols; every code is below it.
pub const SYMBOL_COUNT: u64 = 530;

impl OperatorSymbol {
    /// Whether an instruction with this symbol ends or begins a basic block:
    /// loop headers, `end` and `else`, the three branches, both calls and
    /// `return`. Everything else is a body instruction.
    pub open spec fn boundary(self) -> bool {
        match self {
            OperatorSymbol::Loop
            | OperatorSymbol::End
            | OperatorSymbol::Else
            | OperatorSymbol::Br
            | OperatorSymbol::BrTable
            | OperatorSymbol::BrIf
            | OperatorSymbol::Call
            | OperatorSymbol::CallIndirect
            | OperatorSymbol::Return => true,
            _ => false,
        }
    }

    /// Classifies the symbol as a boundary or a body instruction.
    pub fn is_boundary(&self) -> (r: bool)
        ensures
            r == self.boundary(),
    {
        match self {
            OperatorSymbol::Loop
            | OperatorSymbol::End
            | OperatorSymbol::Else
            | OperatorSymbol::Br
            | OperatorSymbol::BrTable
            | OperatorSymbol::BrIf
            | OperatorSymbol::Call
            | OperatorSymbol::CallIndirect
            | OperatorSymbol::Return => true,
            _ => false,
        }
    }

    /// The position of the symbol in the declaration order, counted from zero.
    pub open spec fn code_of(self) -> u64 {
        match self {
            OperatorSymbol::Unreachable => 0,
            OperatorSymbol::Nop => 1,
            OperatorSymbol::Block => 2,
            OperatorSymbol::Loop => 3,
            OperatorSymbol::If => 4,
            OperatorSymbol::Else => 5,
            OperatorSymbol::Try => 6,
            OperatorSymbol::Catch => 7,
            OperatorSymbol::Throw => 8,
            OperatorSymbol::Rethrow => 9,
            OperatorSymbol::Unwind => 10,
            OperatorSymbol::End => 11,
            OperatorSymbol::Br => 12,
            OperatorSymbol::BrIf => 13,
            OperatorSymbol::BrTable => 14,
            OperatorSymbol::Return => 15,
            OperatorSymbol::Call => 16,
            OperatorSymbol::CallIndirect => 17,
            OperatorSymbol::ReturnCall => 18,
            OperatorSymbol::ReturnCallIndirect => 19,
            OperatorSymbol::Delegate => 20,
            OperatorSymbol::CatchAll => 21,
            OperatorSymbol::Drop => 22,
            OperatorSymbol::Select => 23,
            OperatorSymbol::TypedSelect => 24,
            OperatorSymbol::LocalGet => 25,
            OperatorSymbol::LocalSet => 26,
            OperatorSymbol::LocalTee => 27,
            OperatorSymbol::GlobalGet => 28,
            OperatorSymbol::GlobalSet => 29,
            OperatorSymbol::I32Load => 30,
            OperatorSymbol::I64Load => 31,
            OperatorSymbol::F32Load => 32,
            OperatorSymbol::F64Load => 33,
            OperatorSymbol::I32Load8S => 34,
            OperatorSymbol::I32Load8U => 35,
            OperatorSymbol::I32Load16S => 36,
            OperatorSymbol::I32Load16U => 37,
            OperatorSymbol::I64Load8S => 38,
            OperatorSymbol::I64Load8U => 39,
            OperatorSymbol::I64Load16S => 40,
            OperatorSymbol::I64Load16U => 41,
            OperatorSymbol::I64Load32S => 42,
            OperatorSymbol::I64Load32U => 43,
            OperatorSymbol::I32Store => 44,
            OperatorSymbol::I64Store => 45,
            OperatorSymbol::F32Store => 46,
            OperatorSymbol::F64Store => 47,
            OperatorSymbol::I32Store8 => 48,
            OperatorSymbol::I32Store16 => 49,
            OperatorSymbol::I64Store8 => 50,
            OperatorSymbol::I64Store16 => 51,
            OperatorSymbol::I64Store32 => 52,
            OperatorSymbol::MemorySize => 53,
            OperatorSymbol::MemoryGrow => 54,
            OperatorSymbol::I32Const => 55,
            OperatorSymbol::I64Const => 56,
            OperatorSymbol::F32Const => 57,
            OperatorSymbol::F64Const => 58,
            OperatorSymbol::RefNull => 59,
            OperatorSymbol::RefIsNull => 60,
            OperatorSymbol::RefFunc => 61,
            OperatorSymbol::I32Eqz => 62,
            OperatorSymbol::I32Eq => 63,
            OperatorSymbol::I32Ne => 64,
            OperatorSymbol::I32LtS => 65,
            OperatorSymbol::I32LtU => 66,
            OperatorSymbol::I32GtS => 67,
            OperatorSymbol::I32GtU => 68,
            OperatorSymbol::I32LeS => 69,
            OperatorSymbol::I32LeU => 70,
            OperatorSymbol::I32GeS => 71,
            OperatorSymbol::I32GeU => 72,
            OperatorSymbol::I64Eqz => 73,
            OperatorSymbol::I64Eq => 74,
            OperatorSymbol::I64Ne => 75,
            OperatorSymbol::I64LtS => 76,
            OperatorSymbol::I64LtU => 77,
            OperatorSymbol::I64GtS => 78,
            OperatorSymbol::I64GtU => 79,
            OperatorSymbol::I64LeS => 80,
            OperatorSymbol::I64LeU => 81,
            OperatorSymbol::I64GeS => 82,
            OperatorSymbol::I64GeU => 83,
            OperatorSymbol::F32Eq => 84,
            OperatorSymbol::F32Ne => 85,
            OperatorSymbol::F32Lt => 86,
            OperatorSymbol::F32Gt => 87,
            OperatorSymbol::F32Le => 88,
            OperatorSymbol::F32Ge => 89,
            OperatorSymbol::F64Eq => 90,
            OperatorSymbol::F64Ne => 91,
            OperatorSymbol::F64Lt => 92,
            OperatorSymbol::F64Gt => 93,
            OperatorSymbol::F64Le => 94,
            OperatorSymbol::F64Ge => 95,
            OperatorSymbol::I32Clz => 96,
            OperatorSymbol::I32Ctz => 97,
            OperatorSymbol::I32Popcnt => 98,
            OperatorSymbol::I32Add => 99,
            OperatorSymbol::I32Sub => 100,
            OperatorSymbol::I32Mul => 101,
            OperatorSymbol::I32DivS => 102,
            OperatorSymbol::I32DivU => 103,
            OperatorSymbol::I32RemS => 104,
            OperatorSymbol::I32RemU => 105,
            OperatorSymbol::I32And => 106,
            OperatorSymbol::I32Or => 107,
            OperatorSymbol::I32Xor => 108,
            OperatorSymbol::I32Shl => 109,
            OperatorSymbol::I32ShrS => 110,
            OperatorSymbol::I32ShrU => 111,
            OperatorSymbol::I32Rotl => 112,
            OperatorSymbol::I32Rotr => 113,
            OperatorSymbol::I64Clz => 114,
            OperatorSymbol::I64Ctz => 115,
            OperatorSymbol::I64Popcnt => 116,
            OperatorSymbol::I64Add => 117,
            OperatorSymbol::I64Sub => 118,
            OperatorSymbol::I64Mul => 119,
            OperatorSymbol::I64DivS => 120,
            OperatorSymbol::I64DivU => 121,
            OperatorSymbol::I64RemS => 122,
            OperatorSymbol::I64RemU => 123,
            OperatorSymbol::I64And => 124,
            OperatorSymbol::I64Or => 125,
            OperatorSymbol::I64Xor => 126,
            OperatorSymbol::I64Shl => 127,
            OperatorSymbol::I64ShrS => 128,
            OperatorSymbol::I64ShrU => 129,
            OperatorSymbol::I64Rotl => 130,
            OperatorSymbol::I64Rotr => 131,
            OperatorSymbol::F32Abs => 132,
            OperatorSymbol::F32Neg => 133,
            OperatorSymbol::F32Ceil => 134,
            OperatorSymbol::F32Floor => 135,
            OperatorSymbol::F32Trunc => 136,
            OperatorSymbol::F32Nearest => 137,
            OperatorSymbol::F32Sqrt => 138,
            OperatorSymbol::F32Add => 139,
            OperatorSymbol::F32Sub => 140,
            OperatorSymbol::F32Mul => 141,
            OperatorSymbol::F32Div => 142,
            OperatorSymbol::F32Min => 143,
            OperatorSymbol::F32Max => 144,
            OperatorSymbol::F32Copysign => 145,
            OperatorSymbol::F64Abs => 146,
            OperatorSymbol::F64Neg => 147,
            OperatorSymbol::F64Ceil => 148,
            OperatorSymbol::F64Floor => 149,
            OperatorSymbol::F64Trunc => 150,
            OperatorSymbol::F64Nearest => 151,
            OperatorSymbol::F64Sqrt => 152,
            OperatorSymbol::F64Add => 153,
            OperatorSymbol::F64Sub => 154,
            OperatorSymbol::F64Mul => 155,
            OperatorSymbol::F64Div => 156,
            OperatorSymbol::F64Min => 157,
            OperatorSymbol::F64Max => 158,
            OperatorSymbol::F64Copysign => 159,
            OperatorSymbol::I32WrapI64 => 160,
            OperatorSymbol::I32TruncF32S => 161,
            OperatorSymbol::I32TruncF32U => 162,
            OperatorSymbol::I32TruncF64S => 163,
            OperatorSymbol::I32TruncF64U => 164,
            OperatorSymbol::I64ExtendI32S => 165,
            OperatorSymbol::I64ExtendI32U => 166,
            OperatorSymbol::I64TruncF32S => 167,
            OperatorSymbol::I64TruncF32U => 168,
            OperatorSymbol::I64TruncF64S => 169,
            OperatorSymbol::I64TruncF64U => 170,
            OperatorSymbol::F32ConvertI32S => 171,
            OperatorSymbol::F32ConvertI32U => 172,
            OperatorSymbol::F32ConvertI64S => 173,
            OperatorSymbol::F32ConvertI64U => 174,
            OperatorSymbol::F32DemoteF64 => 175,
            OperatorSymbol::F64ConvertI32S => 176,
            OperatorSymbol::F64ConvertI32U => 177,
            OperatorSymbol::F64ConvertI64S => 178,
            OperatorSymbol::F64ConvertI64U => 179,
            OperatorSymbol::F64PromoteF32 => 180,
            OperatorSymbol::I32ReinterpretF32 => 181,
            OperatorSymbol::I64ReinterpretF64 => 182,
            OperatorSymbol::F32ReinterpretI32 => 183,
            OperatorSymbol::F64ReinterpretI64 => 184,
            OperatorSymbol::I32Extend8S => 185,
            OperatorSymbol::I32Extend16S => 186,
            OperatorSymbol::I64Extend8S => 187,
            OperatorSymbol::I64Extend16S => 188,
            OperatorSymbol::I64Extend32S => 189,
            OperatorSymbol::I32TruncSatF32S => 190,
            OperatorSymbol::I32TruncSatF32U => 191,
            OperatorSymbol::I32TruncSatF64S => 192,
            OperatorSymbol::I32TruncSatF64U => 193,
            OperatorSymbol::I64TruncSatF32S => 194,
            OperatorSymbol::I64TruncSatF32U => 195,
            OperatorSymbol::I64TruncSatF64S => 196,
            OperatorSymbol::I64TruncSatF64U => 197,
            OperatorSymbol::MemoryInit => 198,
            OperatorSymbol::DataDrop => 199,
            OperatorSymbol::MemoryCopy => 200,
            OperatorSymbol::MemoryFill => 201,
            OperatorSymbol::TableInit => 202,
            OperatorSymbol::ElemDrop => 203,
            OperatorSymbol::TableCopy => 204,
            OperatorSymbol::TableFill => 205,
            OperatorSymbol::TableGet => 206,
            OperatorSymbol::TableSet => 207,
            OperatorSymbol::TableGrow => 208,
            OperatorSymbol::TableSize => 209,
            OperatorSymbol::MemoryAtomicNotify => 210,
            OperatorSymbol::MemoryAtomicWait32 => 211,
            OperatorSymbol::MemoryAtomicWait64 => 212,
            OperatorSymbol::AtomicFence => 213,
            OperatorSymbol::I32AtomicLoad => 214,
            OperatorSymbol::I64AtomicLoad => 215,
            OperatorSymbol::I32AtomicLoad8U => 216,
            OperatorSymbol::I32AtomicLoad16U => 217,
            OperatorSymbol::I64AtomicLoad8U => 218,
            OperatorSymbol::I64AtomicLoad16U => 219,
            OperatorSymbol::I64AtomicLoad32U => 220,
            OperatorSymbol::I32AtomicStore => 221,
            OperatorSymbol::I64AtomicStore => 222,
            OperatorSymbol::I32AtomicStore8 => 223,
            OperatorSymbol::I32AtomicStore16 => 224,
            OperatorSymbol::I64AtomicStore8 => 225,
            OperatorSymbol::I64AtomicStore16 => 226,
            OperatorSymbol::I64AtomicStore32 => 227,
            OperatorSymbol::I32AtomicRmwAdd => 228,
            OperatorSymbol::I64AtomicRmwAdd => 229,
            OperatorSymbol::I32AtomicRmw8AddU => 230,
            OperatorSymbol::I32AtomicRmw16AddU => 231,
            OperatorSymbol::I64AtomicRmw8AddU => 232,
            OperatorSymbol::I64AtomicRmw16AddU => 233,
            OperatorSymbol::I64AtomicRmw32AddU => 234,
            OperatorSymbol::I32AtomicRmwSub => 235,
            OperatorSymbol::I64AtomicRmwSub => 236,
            OperatorSymbol::I32AtomicRmw8SubU => 237,
            OperatorSymbol::I32AtomicRmw16SubU => 238,
            OperatorSymbol::I64AtomicRmw8SubU => 239,
            OperatorSymbol::I64AtomicRmw16SubU => 240,
            OperatorSymbol::I64AtomicRmw32SubU => 241,
            OperatorSymbol::I32AtomicRmwAnd => 242,
            OperatorSymbol::I64AtomicRmwAnd => 243,
            OperatorSymbol::I32AtomicRmw8AndU => 244,
            OperatorSymbol::I32AtomicRmw16AndU => 245,
            OperatorSymbol::I64AtomicRmw8AndU => 246,
            OperatorSymbol::I64AtomicRmw16AndU => 247,
            OperatorSymbol::I64AtomicRmw32AndU => 248,
            OperatorSymbol::I32AtomicRmwOr => 249,
            OperatorSymbol::I64AtomicRmwOr => 250,
            OperatorSymbol::I32AtomicRmw8OrU => 251,
            OperatorSymbol::I32AtomicRmw16OrU => 252,
            OperatorSymbol::I64AtomicRmw8OrU => 253,
            OperatorSymbol::I64AtomicRmw16OrU => 254,
            OperatorSymbol::I64AtomicRmw32OrU => 255,
            OperatorSymbol::I32AtomicRmwXor => 256,
            OperatorSymbol::I64AtomicRmwXor => 257,
            OperatorSymbol::I32AtomicRmw8XorU => 258,
            OperatorSymbol::I32AtomicRmw16XorU => 259,
            OperatorSymbol::I64AtomicRmw8XorU => 260,
            OperatorSymbol::I64AtomicRmw16XorU => 261,
            OperatorSymbol::I64AtomicRmw32XorU => 262,
            OperatorSymbol::I32AtomicRmwXchg => 263,
            OperatorSymbol::I64AtomicRmwXchg => 264,
            OperatorSymbol::I32AtomicRmw8XchgU => 265,
            OperatorSymbol::I32AtomicRmw16XchgU => 266,
            OperatorSymbol::I64AtomicRmw8XchgU => 267,
            OperatorSymbol::I64AtomicRmw16XchgU => 268,
            OperatorSymbol::I64AtomicRmw32XchgU => 269,
            OperatorSymbol::I32AtomicRmwCmpxchg => 270,
            OperatorSymbol::I64AtomicRmwCmpxchg => 271,
            OperatorSymbol::I32AtomicRmw8CmpxchgU => 272,
            OperatorSymbol::I32AtomicRmw16CmpxchgU => 273,
            OperatorSymbol::I64AtomicRmw8CmpxchgU => 274,
            OperatorSymbol::I64AtomicRmw16CmpxchgU => 275,
            OperatorSymbol::I64AtomicRmw32CmpxchgU => 276,
            OperatorSymbol::V128Load => 277,
            OperatorSymbol::V128Load8x8S => 278,
            OperatorSymbol::V128Load8x8U => 279,
            OperatorSymbol::V128Load16x4S => 280,
            OperatorSymbol::V128Load16x4U => 281,
            OperatorSymbol::V128Load32x2S => 282,
            OperatorSymbol::V128Load32x2U => 283,
            OperatorSymbol::V128Load8Splat => 284,
            OperatorSymbol::V128Load16Splat => 285,
            OperatorSymbol::V128Load32Splat => 286,
            OperatorSymbol::V128Load64Splat => 287,
            OperatorSymbol::V128Load32Zero => 288,
            OperatorSymbol::V128Load64Zero => 289,
            OperatorSymbol::V128Store => 290,
            OperatorSymbol::V128Load8Lane => 291,
            OperatorSymbol::V128Load16Lane => 292,
            OperatorSymbol::V128Load32Lane => 293,
            OperatorSymbol::V128Load64Lane => 294,
            OperatorSymbol::V128Store8Lane => 295,
            OperatorSymbol::V128Store16Lane => 296,
            OperatorSymbol::V128Store32Lane => 297,
            OperatorSymbol::V128Store64Lane => 298,
            OperatorSymbol::V128Const => 299,
            OperatorSymbol::I8x16Shuffle => 300,
            OperatorSymbol::I8x16ExtractLaneS => 301,
            OperatorSymbol::I8x16ExtractLaneU => 302,
            OperatorSymbol::I8x16ReplaceLane => 303,
            OperatorSymbol::I16x8ExtractLaneS => 304,
            OperatorSymbol::I16x8ExtractLaneU => 305,
            OperatorSymbol::I16x8ReplaceLane => 306,
            OperatorSymbol::I32x4ExtractLane => 307,
            OperatorSymbol::I32x4ReplaceLane => 308,
            OperatorSymbol::I64x2ExtractLane => 309,
            OperatorSymbol::I64x2ReplaceLane => 310,
            OperatorSymbol::F32x4ExtractLane => 311,
            OperatorSymbol::F32x4ReplaceLane => 312,
            OperatorSymbol::F64x2ExtractLane => 313,
            OperatorSymbol::F64x2ReplaceLane => 314,
            OperatorSymbol::I8x16Swizzle => 315,
            OperatorSymbol::I8x16Splat => 316,
            OperatorSymbol::I16x8Splat => 317,
            OperatorSymbol::I32x4Splat => 318,
            OperatorSymbol::I64x2Splat => 319,
            OperatorSymbol::F32x4Splat => 320,
            OperatorSymbol::F64x2Splat => 321,
            OperatorSymbol::I8x16Eq => 322,
            OperatorSymbol::I8x16Ne => 323,
            OperatorSymbol::I8x16LtS => 324,
            OperatorSymbol::I8x16LtU => 325,
            OperatorSymbol::I8x16GtS => 326,
            OperatorSymbol::I8x16GtU => 327,
            OperatorSymbol::I8x16LeS => 328,
            OperatorSymbol::I8x16LeU => 329,
            OperatorSymbol::I8x16GeS => 330,
            OperatorSymbol::I8x16GeU => 331,
            OperatorSymbol::I16x8Eq => 332,
            OperatorSymbol::I16x8Ne => 333,
            OperatorSymbol::I16x8LtS => 334,
            OperatorSymbol::I16x8LtU => 335,
            OperatorSymbol::I16x8GtS => 336,
            OperatorSymbol::I16x8GtU => 337,
            OperatorSymbol::I16x8LeS => 338,
            OperatorSymbol::I16x8LeU => 339,
            OperatorSymbol::I16x8GeS => 340,
            OperatorSymbol::I16x8GeU => 341,
            OperatorSymbol::I32x4Eq => 342,
            OperatorSymbol::I32x4Ne => 343,
            OperatorSymbol::I32x4LtS => 344,
            OperatorSymbol::I32x4LtU => 345,
            OperatorSymbol::I32x4GtS => 346,
            OperatorSymbol::I32x4GtU => 347,
            OperatorSymbol::I32x4LeS => 348,
            OperatorSymbol::I32x4LeU => 349,
            OperatorSymbol::I32x4GeS => 350,
            OperatorSymbol::I32x4GeU => 351,
            OperatorSymbol::I64x2Eq => 352,
            OperatorSymbol::I64x2Ne => 353,
            OperatorSymbol::I64x2LtS => 354,
            OperatorSymbol::I64x2GtS => 355,
            OperatorSymbol::I64x2LeS => 356,
            OperatorSymbol::I64x2GeS => 357,
            OperatorSymbol::F32x4Eq => 358,
            OperatorSymbol::F32x4Ne => 359,
            OperatorSymbol::F32x4Lt => 360,
            OperatorSymbol::F32x4Gt => 361,
            OperatorSymbol::F32x4Le => 362,
            OperatorSymbol::F32x4Ge => 363,
            OperatorSymbol::F64x2Eq => 364,
            OperatorSymbol::F64x2Ne => 365,
            OperatorSymbol::F64x2Lt => 366,
            OperatorSymbol::F64x2Gt => 367,
            OperatorSymbol::F64x2Le => 368,
            OperatorSymbol::F64x2Ge => 369,
            OperatorSymbol::V128Not => 370,
            OperatorSymbol::V128And => 371,
            OperatorSymbol::V128AndNot => 372,
            OperatorSymbol::V128Or => 373,
            OperatorSymbol::V128Xor => 374,
            OperatorSymbol::V128Bitselect => 375,
            OperatorSymbol::V128AnyTrue => 376,
            OperatorSymbol::I8x16Abs => 377,
            OperatorSymbol::I8x16Neg => 378,
            OperatorSymbol::I8x16Popcnt => 379,
            OperatorSymbol::I8x16AllTrue => 380,
            OperatorSymbol::I8x16Bitmask => 381,
            OperatorSymbol::I8x16NarrowI16x8S => 382,
            OperatorSymbol::I8x16NarrowI16x8U => 383,
            OperatorSymbol::I8x16Shl => 384,
            OperatorSymbol::I8x16ShrS => 385,
            OperatorSymbol::I8x16ShrU => 386,
            OperatorSymbol::I8x16Add => 387,
            OperatorSymbol::I8x16AddSatS => 388,
            OperatorSymbol::I8x16AddSatU => 389,
            OperatorSymbol::I8x16Sub => 390,
            OperatorSymbol::I8x16SubSatS => 391,
            OperatorSymbol::I8x16SubSatU => 392,
            OperatorSymbol::I8x16MinS => 393,
            OperatorSymbol::I8x16MinU => 394,
            OperatorSymbol::I8x16MaxS => 395,
            OperatorSymbol::I8x16MaxU => 396,
            OperatorSymbol::I8x16RoundingAverageU => 397,
            OperatorSymbol::I16x8ExtAddPairwiseI8x16S => 398,
            OperatorSymbol::I16x8ExtAddPairwiseI8x16U => 399,
            OperatorSymbol::I16x8Abs => 400,
            OperatorSymbol::I16x8Neg => 401,
            OperatorSymbol::I16x8Q15MulrSatS => 402,
            OperatorSymbol::I16x8AllTrue => 403,
            OperatorSymbol::I16x8Bitmask => 404,
            OperatorSymbol::I16x8NarrowI32x4S => 405,
            OperatorSymbol::I16x8NarrowI32x4U => 406,
            OperatorSymbol::I16x8ExtendLowI8x16S => 407,
            OperatorSymbol::I16x8ExtendHighI8x16S => 408,
            OperatorSymbol::I16x8ExtendLowI8x16U => 409,
            OperatorSymbol::I16x8ExtendHighI8x16U => 410,
            OperatorSymbol::I16x8Shl => 411,
            OperatorSymbol::I16x8ShrS => 412,
            OperatorSymbol::I16x8ShrU => 413,
            OperatorSymbol::I16x8Add => 414,
            OperatorSymbol::I16x8AddSatS => 415,
            OperatorSymbol::I16x8AddSatU => 416,
            OperatorSymbol::I16x8Sub => 417,
            OperatorSymbol::I16x8SubSatS => 418,
            OperatorSymbol::I16x8SubSatU => 419,
            OperatorSymbol::I16x8Mul => 420,
            OperatorSymbol::I16x8MinS => 421,
            OperatorSymbol::I16x8MinU => 422,
            OperatorSymbol::I16x8MaxS => 423,
            OperatorSymbol::I16x8MaxU => 424,
            OperatorSymbol::I16x8RoundingAverageU => 425,
            OperatorSymbol::I16x8ExtMulLowI8x16S => 426,
            OperatorSymbol::I16x8ExtMulHighI8x16S => 427,
            OperatorSymbol::I16x8ExtMulLowI8x16U => 428,
            OperatorSymbol::I16x8ExtMulHighI8x16U => 429,
            OperatorSymbol::I32x4ExtAddPairwiseI16x8S => 430,
            OperatorSymbol::I32x4ExtAddPairwiseI16x8U => 431,
            OperatorSymbol::I32x4Abs => 432,
            OperatorSymbol::I32x4Neg => 433,
            OperatorSymbol::I32x4AllTrue => 434,
            OperatorSymbol::I32x4Bitmask => 435,
            OperatorSymbol::I32x4ExtendLowI16x8S => 436,
            OperatorSymbol::I32x4ExtendHighI16x8S => 437,
            OperatorSymbol::I32x4ExtendLowI16x8U => 438,
            OperatorSymbol::I32x4ExtendHighI16x8U => 439,
            OperatorSymbol::I32x4Shl => 440,
            OperatorSymbol::I32x4ShrS => 441,
            OperatorSymbol::I32x4ShrU => 442,
            OperatorSymbol::I32x4Add => 443,
            OperatorSymbol::I32x4Sub => 444,
            OperatorSymbol::I32x4Mul => 445,
            OperatorSymbol::I32x4MinS => 446,
            OperatorSymbol::I32x4MinU => 447,
            OperatorSymbol::I32x4MaxS => 448,
            OperatorSymbol::I32x4MaxU => 449,
            OperatorSymbol::I32x4DotI16x8S => 450,
            OperatorSymbol::I32x4ExtMulLowI16x8S => 451,
            OperatorSymbol::I32x4ExtMulHighI16x8S => 452,
            OperatorSymbol::I32x4ExtMulLowI16x8U => 453,
            OperatorSymbol::I32x4ExtMulHighI16x8U => 454,
            OperatorSymbol::I64x2Abs => 455,
            OperatorSymbol::I64x2Neg => 456,
            OperatorSymbol::I64x2AllTrue => 457,
            OperatorSymbol::I64x2Bitmask => 458,
            OperatorSymbol::I64x2ExtendLowI32x4S => 459,
            OperatorSymbol::I64x2ExtendHighI32x4S => 460,
            OperatorSymbol::I64x2ExtendLowI32x4U => 461,
            OperatorSymbol::I64x2ExtendHighI32x4U => 462,
            OperatorSymbol::I64x2Shl => 463,
            OperatorSymbol::I64x2ShrS => 464,
            OperatorSymbol::I64x2ShrU => 465,
            OperatorSymbol::I64x2Add => 466,
            OperatorSymbol::I64x2Sub => 467,
            OperatorSymbol::I64x2Mul => 468,
            OperatorSymbol::I64x2ExtMulLowI32x4S => 469,
            OperatorSymbol::I64x2ExtMulHighI32x4S => 470,
            OperatorSymbol::I64x2ExtMulLowI32x4U => 471,
            OperatorSymbol::I64x2ExtMulHighI32x4U => 472,
            OperatorSymbol::F32x4Ceil => 473,
            OperatorSymbol::F32x4Floor => 474,
            OperatorSymbol::F32x4Trunc => 475,
            OperatorSymbol::F32x4Nearest => 476,
            OperatorSymbol::F32x4Abs => 477,
            OperatorSymbol::F32x4Neg => 478,
            OperatorSymbol::F32x4Sqrt => 479,
            OperatorSymbol::F32x4Add => 480,
            OperatorSymbol::F32x4Sub => 481,
            OperatorSymbol::F32x4Mul => 482,
            OperatorSymbol::F32x4Div => 483,
            OperatorSymbol::F32x4Min => 484,
            OperatorSymbol::F32x4Max => 485,
            OperatorSymbol::F32x4PMin => 486,
            OperatorSymbol::F32x4PMax => 487,
            OperatorSymbol::F64x2Ceil => 488,
            OperatorSymbol::F64x2Floor => 489,
            OperatorSymbol::F64x2Trunc => 490,
            OperatorSymbol::F64x2Nearest => 491,
            OperatorSymbol::F64x2Abs => 492,
            OperatorSymbol::F64x2Neg => 493,
            OperatorSymbol::F64x2Sqrt => 494,
            OperatorSymbol::F64x2Add => 495,
            OperatorSymbol::F64x2Sub => 496,
            OperatorSymbol::F64x2Mul => 497,
            OperatorSymbol::F64x2Div => 498,
            OperatorSymbol::F64x2Min => 499,
            OperatorSymbol::F64x2Max => 500,
            OperatorSymbol::F64x2PMin => 501,
            OperatorSymbol::F64x2PMax => 502,
            OperatorSymbol::I32x4TruncSatF32x4S => 503,
            OperatorSymbol::I32x4TruncSatF32x4U => 504,
            OperatorSymbol::F32x4ConvertI32x4S => 505,
            OperatorSymbol::F32x4ConvertI32x4U => 506,
            OperatorSymbol::I32x4TruncSatF64x2SZero => 507,
            OperatorSymbol::I32x4TruncSatF64x2UZero => 508,
            OperatorSymbol::F64x2ConvertLowI32x4S => 509,
            OperatorSymbol::F64x2ConvertLowI32x4U => 510,
            OperatorSymbol::F32x4DemoteF64x2Zero => 511,
            OperatorSymbol::F64x2PromoteLowF32x4 => 512,
            OperatorSymbol::I8x16RelaxedSwizzle => 513,
            OperatorSymbol::I32x4RelaxedTruncSatF32x4S => 514,
            OperatorSymbol::I32x4RelaxedTruncSatF32x4U => 515,
            OperatorSymbol::I32x4RelaxedTruncSatF64x2SZero => 516,
            OperatorSymbol::I32x4RelaxedTruncSatF64x2UZero => 517,
            OperatorSymbol::F32x4Fma => 518,
            OperatorSymbol::F32x4Fms => 519,
            OperatorSymbol::F64x2Fma => 520,
            OperatorSymbol::F64x2Fms => 521,
            OperatorSymbol::I8x16LaneSelect => 522,
            OperatorSymbol::I16x8LaneSelect => 523,
            OperatorSymbol::I32x4LaneSelect => 524,
            OperatorSymbol::I64x2LaneSelect => 525,
            OperatorSymbol::F32x4RelaxedMin => 526,
            OperatorSymbol::F32x4RelaxedMax => 527,
            OperatorSymbol::F64x2RelaxedMin => 528,
            OperatorSymbol::F64x2RelaxedMax => 529,
        }
    }

    /// The number that stands for this symbol in a block hash.
    pub fn code(&self) -> (c: u64)
        ensures
            c == self.code_of(),
            c < SYMBOL_COUNT,
    {
        match self {
            OperatorSymbol::Unreachable => 0,
            OperatorSymbol::Nop => 1,
            OperatorSymbol::Block => 2,
            OperatorSymbol::Loop => 3,
            OperatorSymbol::If => 4,
            OperatorSymbol::Else => 5,
            OperatorSymbol::Try => 6,
            OperatorSymbol::Catch => 7,
            OperatorSymbol::Throw => 8,
            OperatorSymbol::Rethrow => 9,
            OperatorSymbol::Unwind => 10,
            OperatorSymbol::End => 11,
            OperatorSymbol::Br => 12,
            OperatorSymbol::BrIf => 13,
            OperatorSymbol::BrTable => 14,
            OperatorSymbol::Return => 15,
            OperatorSymbol::Call => 16,
            OperatorSymbol::CallIndirect => 17,
            OperatorSymbol::ReturnCall => 18,
            OperatorSymbol::ReturnCallIndirect => 19,
            OperatorSymbol::Delegate => 20,
            OperatorSymbol::CatchAll => 21,
            OperatorSymbol::Drop => 22,
            OperatorSymbol::Select => 23,
            OperatorSymbol::TypedSelect => 24,
            OperatorSymbol::LocalGet => 25,
            OperatorSymbol::LocalSet => 26,
            OperatorSymbol::LocalTee => 27,
            OperatorSymbol::GlobalGet => 28,
            OperatorSymbol::GlobalSet => 29,
            OperatorSymbol::I32Load => 30,
            OperatorSymbol::I64Load => 31,
            OperatorSymbol::F32Load => 32,
            OperatorSymbol::F64Load => 33,
            OperatorSymbol::I32Load8S => 34,
            OperatorSymbol::I32Load8U => 35,
            OperatorSymbol::I32Load16S => 36,
            OperatorSymbol::I32Load16U => 37,
            OperatorSymbol::I64Load8S => 38,
            OperatorSymbol::I64Load8U => 39,
            OperatorSymbol::I64Load16S => 40,
            OperatorSymbol::I64Load16U => 41,
            OperatorSymbol::I64Load32S => 42,
            OperatorSymbol::I64Load32U => 43,
            OperatorSymbol::I32Store => 44,
            OperatorSymbol::I64Store => 45,
            OperatorSymbol::F32Store => 46,
            OperatorSymbol::F64Store => 47,
            OperatorSymbol::I32Store8 => 48,
            OperatorSymbol::I32Store16 => 49,
            OperatorSymbol::I64Store8 => 50,
            OperatorSymbol::I64Store16 => 51,
            OperatorSymbol::I64Store32 => 52,
            OperatorSymbol::MemorySize => 53,
            OperatorSymbol::MemoryGrow => 54,
            OperatorSymbol::I32Const => 55,
            OperatorSymbol::I64Const => 56,
            OperatorSymbol::F32Const => 57,
            OperatorSymbol::F64Const => 58,
            OperatorSymbol::RefNull => 59,
            OperatorSymbol::RefIsNull => 60,
            OperatorSymbol::RefFunc => 61,
            OperatorSymbol::I32Eqz => 62,
            OperatorSymbol::I32Eq => 63,
            OperatorSymbol::I32Ne => 64,
            OperatorSymbol::I32LtS => 65,
            OperatorSymbol::I32LtU => 66,
            OperatorSymbol::I32GtS => 67,
            OperatorSymbol::I32GtU => 68,
            OperatorSymbol::I32LeS => 69,
            OperatorSymbol::I32LeU => 70,
            OperatorSymbol::I32GeS => 71,
            OperatorSymbol::I32GeU => 72,
            OperatorSymbol::I64Eqz => 73,
            OperatorSymbol::I64Eq => 74,
            OperatorSymbol::I64Ne => 75,
            OperatorSymbol::I64LtS => 76,
            OperatorSymbol::I64LtU => 77,
            OperatorSymbol::I64GtS => 78,
            OperatorSymbol::I64GtU => 79,
            OperatorSymbol::I64LeS => 80,
            OperatorSymbol::I64LeU => 81,
            OperatorSymbol::I64GeS => 82,
            OperatorSymbol::I64GeU => 83,
            OperatorSymbol::F32Eq => 84,
            OperatorSymbol::F32Ne => 85,
            OperatorSymbol::F32Lt => 86,
            OperatorSymbol::F32Gt => 87,
            OperatorSymbol::F32Le => 88,
            OperatorSymbol::F32Ge => 89,
            OperatorSymbol::F64Eq => 90,
            OperatorSymbol::F64Ne => 91,
            OperatorSymbol::F64Lt => 92,
            OperatorSymbol::F64Gt => 93,
            OperatorSymbol::F64Le => 94,
            OperatorSymbol::F64Ge => 95,
            OperatorSymbol::I32Clz => 96,
            OperatorSymbol::I32Ctz => 97,
            OperatorSymbol::I32Popcnt => 98,
            OperatorSymbol::I32Add => 99,
            OperatorSymbol::I32Sub => 100,
            OperatorSymbol::I32Mul => 101,
            OperatorSymbol::I32DivS => 102,
            OperatorSymbol::I32DivU => 103,
            OperatorSymbol::I32RemS => 104,
            OperatorSymbol::I32RemU => 105,
            OperatorSymbol::I32And => 106,
            OperatorSymbol::I32Or => 107,
            OperatorSymbol::I32Xor => 108,
            OperatorSymbol::I32Shl => 109,
            OperatorSymbol::I32ShrS => 110,
            OperatorSymbol::I32ShrU => 111,
            OperatorSymbol::I32Rotl => 112,
            OperatorSymbol::I32Rotr => 113,
            OperatorSymbol::I64Clz => 114,
            OperatorSymbol::I64Ctz => 115,
            OperatorSymbol::I64Popcnt => 116,
            OperatorSymbol::I64Add => 117,
            OperatorSymbol::I64Sub => 118,
            OperatorSymbol::I64Mul => 119,
            OperatorSymbol::I64DivS => 120,
            OperatorSymbol::I64DivU => 121,
            OperatorSymbol::I64RemS => 122,
            OperatorSymbol::I64RemU => 123,
            OperatorSymbol::I64And => 124,
            OperatorSymbol::I64Or => 125,
            OperatorSymbol::I64Xor => 126,
            OperatorSymbol::I64Shl => 127,
            OperatorSymbol::I64ShrS => 128,
            OperatorSymbol::I64ShrU => 129,
            OperatorSymbol::I64Rotl => 130,
            OperatorSymbol::I64Rotr => 131,
            OperatorSymbol::F32Abs => 132,
            OperatorSymbol::F32Neg => 133,
            OperatorSymbol::F32Ceil => 134,
            OperatorSymbol::F32Floor => 135,
            OperatorSymbol::F32Trunc => 136,
            OperatorSymbol::F32Nearest => 137,
            OperatorSymbol::F32Sqrt => 138,
            OperatorSymbol::F32Add => 139,
            OperatorSymbol::F32Sub => 140,
            OperatorSymbol::F32Mul => 141,
            OperatorSymbol::F32Div => 142,
            OperatorSymbol::F32Min => 143,
            OperatorSymbol::F32Max => 144,
            OperatorSymbol::F32Copysign => 145,
            OperatorSymbol::F64Abs => 146,
            OperatorSymbol::F64Neg => 147,
            OperatorSymbol::F64Ceil => 148,
            OperatorSymbol::F64Floor => 149,
            OperatorSymbol::F64Trunc => 150,
            OperatorSymbol::F64Nearest => 151,
            OperatorSymbol::F64Sqrt => 152,
            OperatorSymbol::F64Add => 153,
            OperatorSymbol::F64Sub => 154,
            OperatorSymbol::F64Mul => 155,
            OperatorSymbol::F64Div => 156,
            OperatorSymbol::F64Min => 157,
            OperatorSymbol::F64Max => 158,
            OperatorSymbol::F64Copysign => 159,
            OperatorSymbol::I32WrapI64 => 160,
            OperatorSymbol::I32TruncF32S => 161,
            OperatorSymbol::I32TruncF32U => 162,
            OperatorSymbol::I32TruncF64S => 163,
            OperatorSymbol::I32TruncF64U => 164,
            OperatorSymbol::I64ExtendI32S => 165,
            OperatorSymbol::I64ExtendI32U => 166,
            OperatorSymbol::I64TruncF32S => 167,
            OperatorSymbol::I64TruncF32U => 168,
            OperatorSymbol::I64TruncF64S => 169,
            OperatorSymbol::I64TruncF64U => 170,
            OperatorSymbol::F32ConvertI32S => 171,
            OperatorSymbol::F32ConvertI32U => 172,
            OperatorSymbol::F32ConvertI64S => 173,
            OperatorSymbol::F32ConvertI64U => 174,
            OperatorSymbol::F32DemoteF64 => 175,
            OperatorSymbol::F64ConvertI32S => 176,
            OperatorSymbol::F64ConvertI32U => 177,
            OperatorSymbol::F64ConvertI64S => 178,
            OperatorSymbol::F64ConvertI64U => 179,
            OperatorSymbol::F64PromoteF32 => 180,
            OperatorSymbol::I32ReinterpretF32 => 181,
            OperatorSymbol::I64ReinterpretF64 => 182,
            OperatorSymbol::F32ReinterpretI32 => 183,
            OperatorSymbol::F64ReinterpretI64 => 184,
            OperatorSymbol::I32Extend8S => 185,
            OperatorSymbol::I32Extend16S => 186,
            OperatorSymbol::I64Extend8S => 187,
            OperatorSymbol::I64Extend16S => 188,
            OperatorSymbol::I64Extend32S => 189,
            OperatorSymbol::I32TruncSatF32S => 190,
            OperatorSymbol::I32TruncSatF32U => 191,
            OperatorSymbol::I32TruncSatF64S => 192,
            OperatorSymbol::I32TruncSatF64U => 193,
            OperatorSymbol::I64TruncSatF32S => 194,
            OperatorSymbol::I64TruncSatF32U => 195,
            OperatorSymbol::I64TruncSatF64S => 196,
            OperatorSymbol::I64TruncSatF64U => 197,
            OperatorSymbol::MemoryInit => 198,
            OperatorSymbol::DataDrop => 199,
            OperatorSymbol::MemoryCopy => 200,
            OperatorSymbol::MemoryFill => 201,
            OperatorSymbol::TableInit => 202,
            OperatorSymbol::ElemDrop => 203,
            OperatorSymbol::TableCopy => 204,
            OperatorSymbol::TableFill => 205,
            OperatorSymbol::TableGet => 206,
            OperatorSymbol::TableSet => 207,
            OperatorSymbol::TableGrow => 208,
            OperatorSymbol::TableSize => 209,
            OperatorSymbol::MemoryAtomicNotify => 210,
            OperatorSymbol::MemoryAtomicWait32 => 211,
            OperatorSymbol::MemoryAtomicWait64 => 212,
            OperatorSymbol::AtomicFence => 213,
            OperatorSymbol::I32AtomicLoad => 214,
            OperatorSymbol::I64AtomicLoad => 215,
            OperatorSymbol::I32AtomicLoad8U => 216,
            OperatorSymbol::I32AtomicLoad16U => 217,
            OperatorSymbol::I64AtomicLoad8U => 218,
            OperatorSymbol::I64AtomicLoad16U => 219,
            OperatorSymbol::I64AtomicLoad32U => 220,
            OperatorSymbol::I32AtomicStore => 221,
            OperatorSymbol::I64AtomicStore => 222,
            OperatorSymbol::I32AtomicStore8 => 223,
            OperatorSymbol::I32AtomicStore16 => 224,
            OperatorSymbol::I64AtomicStore8 => 225,
            OperatorSymbol::I64AtomicStore16 => 226,
            OperatorSymbol::I64AtomicStore32 => 227,
            OperatorSymbol::I32AtomicRmwAdd => 228,
            OperatorSymbol::I64AtomicRmwAdd => 229,
            OperatorSymbol::I32AtomicRmw8AddU => 230,
            OperatorSymbol::I32AtomicRmw16AddU => 231,
            OperatorSymbol::I64AtomicRmw8AddU => 232,
            OperatorSymbol::I64AtomicRmw16AddU => 233,
            OperatorSymbol::I64AtomicRmw32AddU => 234,
            OperatorSymbol::I32AtomicRmwSub => 235,
            OperatorSymbol::I64AtomicRmwSub => 236,
            OperatorSymbol::I32AtomicRmw8SubU => 237,
            OperatorSymbol::I32AtomicRmw16SubU => 238,
            OperatorSymbol::I64AtomicRmw8SubU => 239,
            OperatorSymbol::I64AtomicRmw16SubU => 240,
            OperatorSymbol::I64AtomicRmw32SubU => 241,
            OperatorSymbol::I32AtomicRmwAnd => 242,
            OperatorSymbol::I64AtomicRmwAnd => 243,
            OperatorSymbol::I32AtomicRmw8AndU => 244,
            OperatorSymbol::I32AtomicRmw16AndU => 245,
            OperatorSymbol::I64AtomicRmw8AndU => 246,
            OperatorSymbol::I64AtomicRmw16AndU => 247,
            OperatorSymbol::I64AtomicRmw32AndU => 248,
            OperatorSymbol::I32AtomicRmwOr => 249,
            OperatorSymbol::I64AtomicRmwOr => 250,
            OperatorSymbol::I32AtomicRmw8OrU => 251,
            OperatorSymbol::I32AtomicRmw16OrU => 252,
            OperatorSymbol::I64AtomicRmw8OrU => 253,
            OperatorSymbol::I64AtomicRmw16OrU => 254,
            OperatorSymbol::I64AtomicRmw32OrU => 255,
            OperatorSymbol::I32AtomicRmwXor => 256,
            OperatorSymbol::I64AtomicRmwXor => 257,
            OperatorSymbol::I32AtomicRmw8XorU => 258,
            OperatorSymbol::I32AtomicRmw16XorU => 259,
            OperatorSymbol::I64AtomicRmw8XorU => 260,
            OperatorSymbol::I64AtomicRmw16XorU => 261,
            OperatorSymbol::I64AtomicRmw32XorU => 262,
            OperatorSymbol::I32AtomicRmwXchg => 263,
            OperatorSymbol::I64AtomicRmwXchg => 264,
            OperatorSymbol::I32AtomicRmw8XchgU => 265,
            OperatorSymbol::I32AtomicRmw16XchgU => 266,
            OperatorSymbol::I64AtomicRmw8XchgU => 267,
            OperatorSymbol::I64AtomicRmw16XchgU => 268,
            OperatorSymbol::I64AtomicRmw32XchgU => 269,
            OperatorSymbol::I32AtomicRmwCmpxchg => 270,
            OperatorSymbol::I64AtomicRmwCmpxchg => 271,
            OperatorSymbol::I32AtomicRmw8CmpxchgU => 272,
            OperatorSymbol::I32AtomicRmw16CmpxchgU => 273,
            OperatorSymbol::I64AtomicRmw8CmpxchgU => 274,
            OperatorSymbol::I64AtomicRmw16CmpxchgU => 275,
            OperatorSymbol::I64AtomicRmw32CmpxchgU => 276,
            OperatorSymbol::V128Load => 277,
            OperatorSymbol::V128Load8x8S => 278,
            OperatorSymbol::V128Load8x8U => 279,
            OperatorSymbol::V128Load16x4S => 280,
            OperatorSymbol::V128Load16x4U => 281,
            OperatorSymbol::V128Load32x2S => 282,
            OperatorSymbol::V128Load32x2U => 283,
            OperatorSymbol::V128Load8Splat => 284,
            OperatorSymbol::V128Load16Splat => 285,
            OperatorSymbol::V128Load32Splat => 286,
            OperatorSymbol::V128Load64Splat => 287,
            OperatorSymbol::V128Load32Zero => 288,
            OperatorSymbol::V128Load64Zero => 289,
            OperatorSymbol::V128Store => 290,
            OperatorSymbol::V128Load8Lane => 291,
            OperatorSymbol::V128Load16Lane => 292,
            OperatorSymbol::V128Load32Lane => 293,
            OperatorSymbol::V128Load64Lane => 294,
            OperatorSymbol::V128Store8Lane => 295,
            OperatorSymbol::V128Store16Lane => 296,
            OperatorSymbol::V128Store32Lane => 297,
            OperatorSymbol::V128Store64Lane => 298,
            OperatorSymbol::V128Const => 299,
            OperatorSymbol::I8x16Shuffle => 300,
            OperatorSymbol::I8x16ExtractLaneS => 301,
            OperatorSymbol::I8x16ExtractLaneU => 302,
            OperatorSymbol::I8x16ReplaceLane => 303,
            OperatorSymbol::I16x8ExtractLaneS => 304,
            OperatorSymbol::I16x8ExtractLaneU => 305,
            OperatorSymbol::I16x8ReplaceLane => 306,
            OperatorSymbol::I32x4ExtractLane => 307,
            OperatorSymbol::I32x4ReplaceLane => 308,
            OperatorSymbol::I64x2ExtractLane => 309,
            OperatorSymbol::I64x2ReplaceLane => 310,
            OperatorSymbol::F32x4ExtractLane => 311,
            OperatorSymbol::F32x4ReplaceLane => 312,
            OperatorSymbol::F64x2ExtractLane => 313,
            OperatorSymbol::F64x2ReplaceLane => 314,
            OperatorSymbol::I8x16Swizzle => 315,
            OperatorSymbol::I8x16Splat => 316,
            OperatorSymbol::I16x8Splat => 317,
            OperatorSymbol::I32x4Splat => 318,
            OperatorSymbol::I64x2Splat => 319,
            OperatorSymbol::F32x4Splat => 320,
            OperatorSymbol::F64x2Splat => 321,
            OperatorSymbol::I8x16Eq => 322,
            OperatorSymbol::I8x16Ne => 323,
            OperatorSymbol::I8x16LtS => 324,
            OperatorSymbol::I8x16LtU => 325,
            OperatorSymbol::I8x16GtS => 326,
            OperatorSymbol::I8x16GtU => 327,
            OperatorSymbol::I8x16LeS => 328,
            OperatorSymbol::I8x16LeU => 329,
            OperatorSymbol::I8x16GeS => 330,
            OperatorSymbol::I8x16GeU => 331,
            OperatorSymbol::I16x8Eq => 332,
            OperatorSymbol::I16x8Ne => 333,
            OperatorSymbol::I16x8LtS => 334,
            OperatorSymbol::I16x8LtU => 335,
            OperatorSymbol::I16x8GtS => 336,
            OperatorSymbol::I16x8GtU => 337,
            OperatorSymbol::I16x8LeS => 338,
            OperatorSymbol::I16x8LeU => 339,
            OperatorSymbol::I16x8GeS => 340,
            OperatorSymbol::I16x8GeU => 341,
            OperatorSymbol::I32x4Eq => 342,
            OperatorSymbol::I32x4Ne => 343,
            OperatorSymbol::I32x4LtS => 344,
            OperatorSymbol::I32x4LtU => 345,
            OperatorSymbol::I32x4GtS => 346,
            OperatorSymbol::I32x4GtU => 347,
            OperatorSymbol::I32x4LeS => 348,
            OperatorSymbol::I32x4LeU => 349,
            OperatorSymbol::I32x4GeS => 350,
            OperatorSymbol::I32x4GeU => 351,
            OperatorSymbol::I64x2Eq => 352,
            OperatorSymbol::I64x2Ne => 353,
            OperatorSymbol::I64x2LtS => 354,
            OperatorSymbol::I64x2GtS => 355,
            OperatorSymbol::I64x2LeS => 356,
            OperatorSymbol::I64x2GeS => 357,
            OperatorSymbol::F32x4Eq => 358,
            OperatorSymbol::F32x4Ne => 359,
            OperatorSymbol::F32x4Lt => 360,
            OperatorSymbol::F32x4Gt => 361,
            OperatorSymbol::F32x4Le => 362,
            OperatorSymbol::F32x4Ge => 363,
            OperatorSymbol::F64x2Eq => 364,
            OperatorSymbol::F64x2Ne => 365,
            OperatorSymbol::F64x2Lt => 366,
            OperatorSymbol::F64x2Gt => 367,
            OperatorSymbol::F64x2Le => 368,
            OperatorSymbol::F64x2Ge => 369,
            OperatorSymbol::V128Not => 370,
            OperatorSymbol::V128And => 371,
            OperatorSymbol::V128AndNot => 372,
            OperatorSymbol::V128Or => 373,
            OperatorSymbol::V128Xor => 374,
            OperatorSymbol::V128Bitselect => 375,
            OperatorSymbol::V128AnyTrue => 376,
            OperatorSymbol::I8x16Abs => 377,
            OperatorSymbol::I8x16Neg => 378,
            OperatorSymbol::I8x16Popcnt => 379,
            OperatorSymbol::I8x16AllTrue => 380,
            OperatorSymbol::I8x16Bitmask => 381,
            OperatorSymbol::I8x16NarrowI16x8S => 382,
            OperatorSymbol::I8x16NarrowI16x8U => 383,
            OperatorSymbol::I8x16Shl => 384,
            OperatorSymbol::I8x16ShrS => 385,
            OperatorSymbol::I8x16ShrU => 386,
            OperatorSymbol::I8x16Add => 387,
            OperatorSymbol::I8x16AddSatS => 388,
            OperatorSymbol::I8x16AddSatU => 389,
            OperatorSymbol::I8x16Sub => 390,
            OperatorSymbol::I8x16SubSatS => 391,
            OperatorSymbol::I8x16SubSatU => 392,
            OperatorSymbol::I8x16MinS => 393,
            OperatorSymbol::I8x16MinU => 394,
            OperatorSymbol::I8x16MaxS => 395,
            OperatorSymbol::I8x16MaxU => 396,
            OperatorSymbol::I8x16RoundingAverageU => 397,
            OperatorSymbol::I16x8ExtAddPairwiseI8x16S => 398,
            OperatorSymbol::I16x8ExtAddPairwiseI8x16U => 399,
            OperatorSymbol::I16x8Abs => 400,
            OperatorSymbol::I16x8Neg => 401,
            OperatorSymbol::I16x8Q15MulrSatS => 402,
            OperatorSymbol::I16x8AllTrue => 403,
            OperatorSymbol::I16x8Bitmask => 404,
            OperatorSymbol::I16x8NarrowI32x4S => 405,
            OperatorSymbol::I16x8NarrowI32x4U => 406,
            OperatorSymbol::I16x8ExtendLowI8x16S => 407,
            OperatorSymbol::I16x8ExtendHighI8x16S => 408,
            OperatorSymbol::I16x8ExtendLowI8x16U => 409,
            OperatorSymbol::I16x8ExtendHighI8x16U => 410,
            OperatorSymbol::I16x8Shl => 411,
            OperatorSymbol::I16x8ShrS => 412,
            OperatorSymbol::I16x8ShrU => 413,
            OperatorSymbol::I16x8Add => 414,
            OperatorSymbol::I16x8AddSatS => 415,
            OperatorSymbol::I16x8AddSatU => 416,
            OperatorSymbol::I16x8Sub => 417,
            OperatorSymbol::I16x8SubSatS => 418,
            OperatorSymbol::I16x8SubSatU => 419,
            OperatorSymbol::I16x8Mul => 420,
            OperatorSymbol::I16x8MinS => 421,
            OperatorSymbol::I16x8MinU => 422,
            OperatorSymbol::I16x8MaxS => 423,
            OperatorSymbol::I16x8MaxU => 424,
            OperatorSymbol::I16x8RoundingAverageU => 425,
            OperatorSymbol::I16x8ExtMulLowI8x16S => 426,
            OperatorSymbol::I16x8ExtMulHighI8x16S => 427,
            OperatorSymbol::I16x8ExtMulLowI8x16U => 428,
            OperatorSymbol::I16x8ExtMulHighI8x16U => 429,
            OperatorSymbol::I32x4ExtAddPairwiseI16x8S => 430,
            OperatorSymbol::I32x4ExtAddPairwiseI16x8U => 431,
            OperatorSymbol::I32x4Abs => 432,
            OperatorSymbol::I32x4Neg => 433,
            OperatorSymbol::I32x4AllTrue => 434,
            OperatorSymbol::I32x4Bitmask => 435,
            OperatorSymbol::I32x4ExtendLowI16x8S => 436,
            OperatorSymbol::I32x4ExtendHighI16x8S => 437,
            OperatorSymbol::I32x4ExtendLowI16x8U => 438,
            OperatorSymbol::I32x4ExtendHighI16x8U => 439,
            OperatorSymbol::I32x4Shl => 440,
            OperatorSymbol::I32x4ShrS => 441,
            OperatorSymbol::I32x4ShrU => 442,
            OperatorSymbol::I32x4Add => 443,
            OperatorSymbol::I32x4Sub => 444,
            OperatorSymbol::I32x4Mul => 445,
            OperatorSymbol::I32x4MinS => 446,
            OperatorSymbol::I32x4MinU => 447,
            OperatorSymbol::I32x4MaxS => 448,
            OperatorSymbol::I32x4MaxU => 449,
            OperatorSymbol::I32x4DotI16x8S => 450,
            OperatorSymbol::I32x4ExtMulLowI16x8S => 451,
            OperatorSymbol::I32x4ExtMulHighI16x8S => 452,
            OperatorSymbol::I32x4ExtMulLowI16x8U => 453,
            OperatorSymbol::I32x4ExtMulHighI16x8U => 454,
            OperatorSymbol::I64x2Abs => 455,
            OperatorSymbol::I64x2Neg => 456,
            OperatorSymbol::I64x2AllTrue => 457,
            OperatorSymbol::I64x2Bitmask => 458,
            OperatorSymbol::I64x2ExtendLowI32x4S => 459,
            OperatorSymbol::I64x2ExtendHighI32x4S => 460,
            OperatorSymbol::I64x2ExtendLowI32x4U => 461,
            OperatorSymbol::I64x2ExtendHighI32x4U => 462,
            OperatorSymbol::I64x2Shl => 463,
            OperatorSymbol::I64x2ShrS => 464,
            OperatorSymbol::I64x2ShrU => 465,
            OperatorSymbol::I64x2Add => 466,
            OperatorSymbol::I64x2Sub => 467,
            OperatorSymbol::I64x2Mul => 468,
            OperatorSymbol::I64x2ExtMulLowI32x4S => 469,
            OperatorSymbol::I64x2ExtMulHighI32x4S => 470,
            OperatorSymbol::I64x2ExtMulLowI32x4U => 471,
            OperatorSymbol::I64x2ExtMulHighI32x4U => 472,
            OperatorSymbol::F32x4Ceil => 473,
            OperatorSymbol::F32x4Floor => 474,
            OperatorSymbol::F32x4Trunc => 475,
            OperatorSymbol::F32x4Nearest => 476,
            OperatorSymbol::F32x4Abs => 477,
            OperatorSymbol::F32x4Neg => 478,
            OperatorSymbol::F32x4Sqrt => 479,
            OperatorSymbol::F32x4Add => 480,
            OperatorSymbol::F32x4Sub => 481,
            OperatorSymbol::F32x4Mul => 482,
            OperatorSymbol::F32x4Div => 483,
            OperatorSymbol::F32x4Min => 484,
            OperatorSymbol::F32x4Max => 485,
            OperatorSymbol::F32x4PMin => 486,
            OperatorSymbol::F32x4PMax => 487,
            OperatorSymbol::F64x2Ceil => 488,
            OperatorSymbol::F64x2Floor => 489,
            OperatorSymbol::F64x2Trunc => 490,
            OperatorSymbol::F64x2Nearest => 491,
            OperatorSymbol::F64x2Abs => 492,
            OperatorSymbol::F64x2Neg => 493,
            OperatorSymbol::F64x2Sqrt => 494,
            OperatorSymbol::F64x2Add => 495,
            OperatorSymbol::F64x2Sub => 496,
            OperatorSymbol::F64x2Mul => 497,
            OperatorSymbol::F64x2Div => 498,
            OperatorSymbol::F64x2Min => 499,
            OperatorSymbol::F64x2Max => 500,
            OperatorSymbol::F64x2PMin => 501,
            OperatorSymbol::F64x2PMax => 502,
            OperatorSymbol::I32x4TruncSatF32x4S => 503,
            OperatorSymbol::I32x4TruncSatF32x4U => 504,
            OperatorSymbol::F32x4ConvertI32x4S => 505,
            OperatorSymbol::F32x4ConvertI32x4U => 506,
            OperatorSymbol::I32x4TruncSatF64x2SZero => 507,
            OperatorSymbol::I32x4TruncSatF64x2UZero => 508,
            OperatorSymbol::F64x2ConvertLowI32x4S => 509,
            OperatorSymbol::F64x2ConvertLowI32x4U => 510,
            OperatorSymbol::F32x4DemoteF64x2Zero => 511,
            OperatorSymbol::F64x2PromoteLowF32x4 => 512,
            OperatorSymbol::I8x16RelaxedSwizzle => 513,
            OperatorSymbol::I32x4RelaxedTruncSatF32x4S => 514,
            OperatorSymbol::I32x4RelaxedTruncSatF32x4U => 515,
            OperatorSymbol::I32x4RelaxedTruncSatF64x2SZero => 516,
            OperatorSymbol::I32x4RelaxedTruncSatF64x2UZero => 517,
            OperatorSymbol::F32x4Fma => 518,
            OperatorSymbol::F32x4Fms => 519,
            OperatorSymbol::F64x2Fma => 520,
            OperatorSymbol::F64x2Fms => 521,
            OperatorSymbol::I8x16LaneSelect => 522,
            OperatorSymbol::I16x8LaneSelect => 523,
            OperatorSymbol::I32x4LaneSelect => 524,
            OperatorSymbol::I64x2LaneSelect => 525,
            OperatorSymbol::F32x4RelaxedMin => 526,
            OperatorSymbol::F32x4RelaxedMax => 527,
            OperatorSymbol::F64x2RelaxedMin => 528,
            OperatorSymbol::F64x2RelaxedMax => 529,
        }
    }

    /// Distinct symbols have distinct codes.
    pub proof fn lemma_code_injective(a: OperatorSymbol, b: OperatorSymbol)
        requires
            a.code_of() == b.code_of(),
        ensures
            a == b,
    {
    }
}

} // verus!
