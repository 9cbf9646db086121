//! The parts of a function and of an instruction that the interpreter reads.
use crate::types::{LaneType, Type};
use vstd::prelude::*;

verus! {

/// A reference to an SSA value.
#[derive(Clone, Copy, PartialEq, Eq, Structural, Debug, Hash)]
pub struct ValueRef(pub u32);

/// A reference to a block of the current function.
#[derive(Clone, Copy, PartialEq, Eq, Structural, Debug, Hash)]
pub struct Block(pub u32);

/// A reference to a function that the current function declares.
#[derive(Clone, Copy, PartialEq, Eq, Structural, Debug, Hash)]
pub struct FuncRef(pub u32);

/// A reference to a stack slot of the current function.
#[derive(Clone, Copy, PartialEq, Eq, Structural, Debug, Hash)]
pub struct StackSlot(pub u32);

/// A reference to a global value of the current function.
#[derive(Clone, Copy, PartialEq, Eq, Structural, Debug, Hash)]
pub struct GlobalValue(pub u32);

/// A reference to a constant in the pool of the current function.
#[derive(Clone, Copy, PartialEq, Eq, Structural, Debug, Hash)]
pub struct Constant(pub u32);

/// A reference to an out-of-line immediate of the current function.
#[derive(Clone, Copy, PartialEq, Eq, Structural, Debug, Hash)]
pub struct Immediate(pub u32);

/// A reference to a jump table of the current function.
#[derive(Clone, Copy, PartialEq, Eq, Structural, Debug, Hash)]
pub struct JumpTable(pub u32);

/// A reference to a table of the current function.
#[derive(Clone, Copy, PartialEq, Eq, Structural, Debug, Hash)]
pub struct Table(pub u32);

/// What an instruction does.
#[derive(Clone, Copy, PartialEq, Eq, Structural, Debug, Hash)]
pub enum Opcode {
    // Control flow and traps.
    Jump,
    Brif,
    BrTable,
    Trap,
    Debugtrap,
    ResumableTrap,
    Trapz,
    Trapnz,
    ResumableTrapnz,
    Return,
    Call,
    ReturnCall,
    CallIndirect,
    ReturnCallIndirect,
    FuncAddr,
    // Memory.
    Load,
    Uload8,
    Sload8,
    Uload16,
    Sload16,
    Uload32,
    Sload32,
    Uload8x8,
    Sload8x8,
    Uload16x4,
    Sload16x4,
    Uload32x2,
    Sload32x2,
    Store,
    Istore8,
    Istore16,
    Istore32,
    StackLoad,
    StackStore,
    StackAddr,
    DynamicStackAddr,
    DynamicStackLoad,
    DynamicStackStore,
    GlobalValue,
    SymbolValue,
    TlsValue,
    GetPinnedReg,
    SetPinnedReg,
    TableAddr,
    // Constants and selection.
    Iconst,
    F32const,
    F64const,
    Vconst,
    Null,
    Nop,
    Select,
    SelectSpectreGuard,
    Bitselect,
    Icmp,
    IcmpImm,
    Smin,
    Umin,
    Smax,
    Umax,
    // Integer arithmetic.
    AvgRound,
    Iadd,
    UaddSat,
    SaddSat,
    Isub,
    UsubSat,
    SsubSat,
    Ineg,
    Iabs,
    Imul,
    Umulhi,
    Smulhi,
    Udiv,
    Sdiv,
    Urem,
    Srem,
    IaddImm,
    ImulImm,
    UdivImm,
    SdivImm,
    UremImm,
    SremImm,
    IrsubImm,
    IaddCin,
    IaddCout,
    IaddCarry,
    UaddOverflowTrap,
    IsubBin,
    IsubBout,
    IsubBorrow,
    // Bits.
    Band,
    Bor,
    Bxor,
    Bnot,
    BandNot,
    BorNot,
    BxorNot,
    BandImm,
    BorImm,
    BxorImm,
    Rotl,
    Rotr,
    RotlImm,
    RotrImm,
    Ishl,
    Ushr,
    Sshr,
    IshlImm,
    UshrImm,
    SshrImm,
    Bitrev,
    Bswap,
    Clz,
    Cls,
    Ctz,
    Popcnt,
    // Floats.
    Fcmp,
    Fadd,
    Fsub,
    Fmul,
    Fdiv,
    Sqrt,
    Fma,
    Fneg,
    Fabs,
    Fcopysign,
    Fmin,
    FminPseudo,
    Fmax,
    FmaxPseudo,
    Ceil,
    Floor,
    Trunc,
    Nearest,
    // Conversions.
    IsNull,
    IsInvalid,
    Bitcast,
    ScalarToVector,
    Ireduce,
    Snarrow,
    Unarrow,
    Uunarrow,
    Bmask,
    Sextend,
    Uextend,
    Fpromote,
    Fdemote,
    FcvtToUint,
    FcvtToSint,
    FcvtToUintSat,
    FcvtToSintSat,
    FcvtFromUint,
    FcvtFromSint,
    FcvtLowFromSint,
    FvpromoteLow,
    Fvdemote,
    Isplit,
    Iconcat,
    // Vectors.
    Shuffle,
    Swizzle,
    Splat,
    Insertlane,
    Extractlane,
    VhighBits,
    VanyTrue,
    VallTrue,
    SwidenLow,
    SwidenHigh,
    UwidenLow,
    UwidenHigh,
    SqmulRoundSat,
    IaddPairwise,
    ExtractVector,
    // Atomics.
    AtomicRmw,
    AtomicCas,
    AtomicLoad,
    AtomicStore,
    Fence,
    // Machine state and target-specific operations.
    GetFramePointer,
    GetStackPointer,
    GetReturnAddress,
    X86Pshufb,
    X86Blendv,
    X86Pmulhrsw,
    X86Pmaddubsw,
    X86Cvtt2dq,
}

/// An integer condition.
#[derive(Clone, Copy, PartialEq, Eq, Structural, Debug, Hash)]
pub enum IntCC {
    Equal,
    NotEqual,
    SignedLessThan,
    SignedGreaterThanOrEqual,
    SignedGreaterThan,
    SignedLessThanOrEqual,
    UnsignedLessThan,
    UnsignedGreaterThanOrEqual,
    UnsignedGreaterThan,
    UnsignedLessThanOrEqual,
}

/// A floating point condition.
#[derive(Clone, Copy, PartialEq, Eq, Structural, Debug, Hash)]
pub enum FloatCC {
    Ordered,
    Unordered,
    Equal,
    NotEqual,
    OrderedNotEqual,
    UnorderedOrEqual,
    LessThan,
    LessThanOrEqual,
    GreaterThan,
    GreaterThanOrEqual,
    UnorderedOrLessThan,
    UnorderedOrLessThanOrEqual,
    UnorderedOrGreaterThan,
    UnorderedOrGreaterThanOrEqual,
}

/// How an atomic read-modify-write combines the old value with its operand.
#[derive(Clone, Copy, PartialEq, Eq, Structural, Debug, Hash)]
pub enum AtomicRmwOp {
    Add,
    Sub,
    And,
    Nand,
    Or,
    Xor,
    Xchg,
    Umin,
    Umax,
    Smin,
    Smax,
}

/// The reason for a trap.
#[derive(Clone, Copy, PartialEq, Eq, Structural, Debug, Hash)]
pub enum TrapCode {
    StackOverflow,
    HeapOutOfBounds,
    HeapMisaligned,
    TableOutOfBounds,
    IndirectCallToNull,
    BadSignature,
    IntegerOverflow,
    IntegerDivisionByZero,
    BadConversionToInteger,
    UnreachableCodeReached,
    Interrupt,
    User(u16),
}

/// Flags of a memory access.
#[derive(Clone, Copy, PartialEq, Eq, Structural, Debug, Hash)]
pub struct MemFlags {
    pub bits: u8,
}

impl MemFlags {
    /// No flags.
    pub open spec fn empty() -> MemFlags {
        MemFlags { bits: 0 }
    }

    /// No flags.
    pub fn new() -> (flags: MemFlags)
        ensures
            flags == MemFlags::empty(),
    {
        MemFlags { bits: 0 }
    }
}

/// A routine of the runtime library.
#[derive(Clone, Copy, PartialEq, Eq, Structural, Debug, Hash)]
pub enum LibCall {
    Probestack,
    CeilF32,
    CeilF64,
    FloorF32,
    FloorF64,
    TruncF32,
    TruncF64,
    NearestF32,
    NearestF64,
    FmaF32,
    FmaF64,
    Memcpy,
    Memset,
    Memmove,
    Memcmp,
    ElfTlsGetAddr,
    ElfTlsGetOffset,
}

/// The name of a function outside of the current one.
#[derive(Clone, PartialEq, Eq, Debug, Hash)]
pub enum ExternalName {
    /// An entry of the symbol table of the embedding.
    User(u32),
    /// A name spelled out, as test cases use it.
    TestCase(Vec<u8>),
    /// A routine of the runtime library.
    LibCall(LibCall),
    /// A symbol known to the linker, by its number.
    KnownSymbol(u32),
}

/// A parameter or a return value of a function.
#[derive(Clone, Copy, PartialEq, Eq, Structural, Debug, Hash)]
pub struct AbiParam {
    pub value_type: Type,
}

/// The parameters and the return values of a function.
#[derive(Clone, PartialEq, Eq, Debug, Hash)]
pub struct Signature {
    pub params: Vec<AbiParam>,
    pub returns: Vec<AbiParam>,
}

/// The type of the parameters and of the one return value of a library routine. Routines on memory
/// have no signature here.
pub open spec fn libcall_lane(libcall: LibCall) -> Option<LaneType> {
    match libcall {
        LibCall::CeilF32 | LibCall::FloorF32 | LibCall::TruncF32 | LibCall::NearestF32
        | LibCall::FmaF32 => Some(LaneType::F32),
        LibCall::CeilF64 | LibCall::FloorF64 | LibCall::TruncF64 | LibCall::NearestF64
        | LibCall::FmaF64 => Some(LaneType::F64),
        _ => None,
    }
}

/// The number of parameters of a library routine.
pub open spec fn libcall_arity(libcall: LibCall) -> nat {
    if libcall is FmaF32 || libcall is FmaF64 {
        3
    } else {
        1
    }
}

/// `count` parameters of the scalar type `lane`.
pub open spec fn uniform_params(lane: LaneType, count: nat) -> Seq<AbiParam> {
    Seq::new(count, |i: int| (AbiParam { value_type: Type::Lane(lane) }))
}

impl LibCall {
    /// The signature of the routine.
    pub fn signature(self) -> (signature: Signature)
        requires
            libcall_lane(self) is Some,
        ensures
            signature.params@ == uniform_params(libcall_lane(self)->0, libcall_arity(self)),
            signature.returns@ == uniform_params(libcall_lane(self)->0, 1),
    {
        let lane: LaneType = match self {
            LibCall::CeilF32 | LibCall::FloorF32 | LibCall::TruncF32 | LibCall::NearestF32
            | LibCall::FmaF32 => LaneType::F32,
            LibCall::CeilF64 | LibCall::FloorF64 | LibCall::TruncF64 | LibCall::NearestF64
            | LibCall::FmaF64 => LaneType::F64,
            _ => vstd::pervasive::unreached(),
        };
        let param = AbiParam { value_type: Type::Lane(lane) };
        let params: Vec<AbiParam> = match self {
            LibCall::FmaF32 | LibCall::FmaF64 => vec![param, param, param],
            _ => vec![param],
        };
        let returns: Vec<AbiParam> = vec![param];
        assert(returns@ =~= uniform_params(lane, 1));
        assert(params@ =~= uniform_params(lane, libcall_arity(self)));
        Signature { params, returns }
    }
}

/// A branch target with the values of its block parameters.
#[derive(Clone, PartialEq, Eq, Debug, Hash)]
pub struct BlockCall {
    pub block: Block,
    pub args: Vec<ValueRef>,
}

/// The targets of a jump table.
#[derive(Clone, PartialEq, Eq, Debug, Hash)]
pub struct JumpTableData {
    pub default_block: BlockCall,
    pub table: Vec<BlockCall>,
}

/// The declaration of a function that the current one calls.
#[derive(Clone, PartialEq, Eq, Debug, Hash)]
pub struct ExtFuncData {
    pub name: ExternalName,
}

/// The declaration of a table.
#[derive(Clone, Copy, PartialEq, Eq, Structural, Debug, Hash)]
pub struct TableData {
    pub base_gv: GlobalValue,
    pub bound_gv: GlobalValue,
    pub element_size: u64,
    pub index_type: Type,
}

/// A function, as far as the interpretation of its instructions reads it.
#[derive(Clone, PartialEq, Eq, Debug, Hash)]
pub struct Function {
    pub signature: Signature,
    /// The constant pool; a handle without a constant has `None`.
    pub constants: Vec<Option<Vec<u8>>>,
    pub immediates: Vec<Vec<u8>>,
    pub jump_tables: Vec<JumpTableData>,
    pub ext_funcs: Vec<ExtFuncData>,
    pub tables: Vec<TableData>,
}

impl Function {
    /// The bytes of a constant.
    pub open spec fn constant(&self, handle: Constant) -> Option<Seq<u8>> {
        if handle.0 < self.constants@.len() {
            match self.constants@[handle.0 as int] {
                Some(bytes) => Some(bytes@),
                None => None,
            }
        } else {
            None
        }
    }

    /// The bytes of an out-of-line immediate.
    pub open spec fn immediate(&self, handle: Immediate) -> Option<Seq<u8>> {
        if handle.0 < self.immediates@.len() {
            Some(self.immediates@[handle.0 as int]@)
        } else {
            None
        }
    }

    /// A jump table.
    pub open spec fn jump_table(&self, handle: JumpTable) -> Option<JumpTableData> {
        if handle.0 < self.jump_tables@.len() {
            Some(self.jump_tables@[handle.0 as int])
        } else {
            None
        }
    }

    /// A function declaration.
    pub open spec fn ext_func(&self, handle: FuncRef) -> Option<ExtFuncData> {
        if handle.0 < self.ext_funcs@.len() {
            Some(self.ext_funcs@[handle.0 as int])
        } else {
            None
        }
    }

    /// A table declaration.
    pub open spec fn table(&self, handle: Table) -> Option<TableData> {
        if handle.0 < self.tables@.len() {
            Some(self.tables@[handle.0 as int])
        } else {
            None
        }
    }
}

/// An instruction by its format: the opcode and what it holds besides its value arguments.
#[derive(Clone, PartialEq, Eq, Debug, Hash)]
pub enum InstructionData {
    Unary { opcode: Opcode },
    UnaryImm { opcode: Opcode, imm: i64 },
    UnaryIeee32 { opcode: Opcode, imm: u32 },
    UnaryIeee64 { opcode: Opcode, imm: u64 },
    UnaryConst { opcode: Opcode, constant_handle: Constant },
    UnaryGlobalValue { opcode: Opcode, global_value: GlobalValue },
    Binary { opcode: Opcode },
    BinaryImm8 { opcode: Opcode, imm: u8 },
    BinaryImm64 { opcode: Opcode, imm: i64 },
    Ternary { opcode: Opcode },
    TernaryImm8 { opcode: Opcode, imm: u8 },
    MultiAry { opcode: Opcode },
    NullAry { opcode: Opcode },
    Shuffle { opcode: Opcode, imm: Immediate },
    IntCompare { opcode: Opcode, cond: IntCC },
    IntCompareImm { opcode: Opcode, cond: IntCC, imm: i64 },
    FloatCompare { opcode: Opcode, cond: FloatCC },
    Jump { opcode: Opcode, destination: BlockCall },
    Brif { opcode: Opcode, arg: ValueRef, block_then: BlockCall, block_else: BlockCall },
    BranchTable { opcode: Opcode, table: JumpTable },
    Call { opcode: Opcode, func_ref: FuncRef },
    CallIndirect { opcode: Opcode },
    FuncAddr { opcode: Opcode, func_ref: FuncRef },
    AtomicRmw { opcode: Opcode, flags: MemFlags, op: AtomicRmwOp },
    AtomicCas { opcode: Opcode, flags: MemFlags },
    Load { opcode: Opcode, flags: MemFlags, offset: i32 },
    LoadNoOffset { opcode: Opcode, flags: MemFlags },
    Store { opcode: Opcode, flags: MemFlags, offset: i32 },
    StoreNoOffset { opcode: Opcode, flags: MemFlags },
    StackLoad { opcode: Opcode, stack_slot: StackSlot, offset: i32 },
    StackStore { opcode: Opcode, stack_slot: StackSlot, offset: i32 },
    DynamicStackLoad { opcode: Opcode },
    DynamicStackStore { opcode: Opcode },
    TableAddr { opcode: Opcode, table: Table, offset: i32 },
    Trap { opcode: Opcode, code: TrapCode },
    CondTrap { opcode: Opcode, code: TrapCode },
    IntAddTrap { opcode: Opcode, code: TrapCode },
}

impl InstructionData {
    /// What the instruction does.
    pub open spec fn spec_opcode(&self) -> Opcode {
        match self {
            InstructionData::Unary { opcode, .. }
            | InstructionData::UnaryImm { opcode, .. }
            | InstructionData::UnaryIeee32 { opcode, .. }
            | InstructionData::UnaryIeee64 { opcode, .. }
            | InstructionData::UnaryConst { opcode, .. }
            | InstructionData::UnaryGlobalValue { opcode, .. }
            | InstructionData::Binary { opcode, .. }
            | InstructionData::BinaryImm8 { opcode, .. }
            | InstructionData::BinaryImm64 { opcode, .. }
            | InstructionData::Ternary { opcode, .. }
            | InstructionData::TernaryImm8 { opcode, .. }
            | InstructionData::MultiAry { opcode, .. }
            | InstructionData::NullAry { opcode, .. }
            | InstructionData::Shuffle { opcode, .. }
            | InstructionData::IntCompare { opcode, .. }
            | InstructionData::IntCompareImm { opcode, .. }
            | InstructionData::FloatCompare { opcode, .. }
            | InstructionData::Jump { opcode, .. }
            | InstructionData::Brif { opcode, .. }
            | InstructionData::BranchTable { opcode, .. }
            | InstructionData::Call { opcode, .. }
            | InstructionData::CallIndirect { opcode, .. }
            | InstructionData::FuncAddr { opcode, .. }
            | InstructionData::AtomicRmw { opcode, .. }
            | InstructionData::AtomicCas { opcode, .. }
            | InstructionData::Load { opcode, .. }
            | InstructionData::LoadNoOffset { opcode, .. }
            | InstructionData::Store { opcode, .. }
            | InstructionData::StoreNoOffset { opcode, .. }
            | InstructionData::StackLoad { opcode, .. }
            | InstructionData::StackStore { opcode, .. }
            | InstructionData::DynamicStackLoad { opcode, .. }
            | InstructionData::DynamicStackStore { opcode, .. }
            | InstructionData::TableAddr { opcode, .. }
            | InstructionData::Trap { opcode, .. }
            | InstructionData::CondTrap { opcode, .. }
            | InstructionData::IntAddTrap { opcode, .. } => *opcode,
        }
    }

    /// What the instruction does.
    #[verifier::when_used_as_spec(spec_opcode)]
    pub fn opcode(&self) -> (op: Opcode)
        ensures
            op == self.spec_opcode(),
    {
        match self {
            InstructionData::Unary { opcode, .. }
            | InstructionData::UnaryImm { opcode, .. }
            | InstructionData::UnaryIeee32 { opcode, .. }
            | InstructionData::UnaryIeee64 { opcode, .. }
            | InstructionData::UnaryConst { opcode, .. }
            | InstructionData::UnaryGlobalValue { opcode, .. }
            | InstructionData::Binary { opcode, .. }
            | InstructionData::BinaryImm8 { opcode, .. }
            | InstructionData::BinaryImm64 { opcode, .. }
            | InstructionData::Ternary { opcode, .. }
            | InstructionData::TernaryImm8 { opcode, .. }
            | InstructionData::MultiAry { opcode, .. }
            | InstructionData::NullAry { opcode, .. }
            | InstructionData::Shuffle { opcode, .. }
            | InstructionData::IntCompare { opcode, .. }
            | InstructionData::IntCompareImm { opcode, .. }
            | InstructionData::FloatCompare { opcode, .. }
            | InstructionData::Jump { opcode, .. }
            | InstructionData::Brif { opcode, .. }
            | InstructionData::BranchTable { opcode, .. }
            | InstructionData::Call { opcode, .. }
            | InstructionData::CallIndirect { opcode, .. }
            | InstructionData::FuncAddr { opcode, .. }
            | InstructionData::AtomicRmw { opcode, .. }
            | InstructionData::AtomicCas { opcode, .. }
            | InstructionData::Load { opcode, .. }
            | InstructionData::LoadNoOffset { opcode, .. }
            | InstructionData::Store { opcode, .. }
            | InstructionData::StoreNoOffset { opcode, .. }
            | InstructionData::StackLoad { opcode, .. }
            | InstructionData::StackStore { opcode, .. }
            | InstructionData::DynamicStackLoad { opcode, .. }
            | InstructionData::DynamicStackStore { opcode, .. }
            | InstructionData::TableAddr { opcode, .. }
            | InstructionData::Trap { opcode, .. }
            | InstructionData::CondTrap { opcode, .. }
            | InstructionData::IntAddTrap { opcode, .. } => *opcode,
        }
    }

    /// The trap code of a trapping instruction.
    pub open spec fn spec_trap_code(&self) -> Option<TrapCode> {
        match self {
            InstructionData::Trap { code, .. }
            | InstructionData::CondTrap { code, .. }
            | InstructionData::IntAddTrap { code, .. } => Some(*code),
            _ => None,
        }
    }

    /// The trap code of a trapping instruction.
    #[verifier::when_used_as_spec(spec_trap_code)]
    pub fn trap_code(&self) -> (r: Option<TrapCode>)
        ensures
            r == self.spec_trap_code(),
    {
        match self {
            InstructionData::Trap { code, .. }
            | InstructionData::CondTrap { code, .. }
            | InstructionData::IntAddTrap { code, .. } => Some(*code),
            _ => None,
        }
    }

    /// The condition of an integer comparison.
    pub open spec fn spec_cond_code(&self) -> Option<IntCC> {
        match self {
            InstructionData::IntCompare { cond, .. }
            | InstructionData::IntCompareImm { cond, .. } => Some(*cond),
            _ => None,
        }
    }

    /// The condition of an integer comparison.
    #[verifier::when_used_as_spec(spec_cond_code)]
    pub fn cond_code(&self) -> (r: Option<IntCC>)
        ensures
            r == self.spec_cond_code(),
    {
        match self {
            InstructionData::IntCompare { cond, .. }
            | InstructionData::IntCompareImm { cond, .. } => Some(*cond),
            _ => None,
        }
    }

    /// The condition of a floating point comparison.
    pub open spec fn spec_fp_cond_code(&self) -> Option<FloatCC> {
        match self {
            InstructionData::FloatCompare { cond, .. } => Some(*cond),
            _ => None,
        }
    }

    /// The condition of a floating point comparison.
    #[verifier::when_used_as_spec(spec_fp_cond_code)]
    pub fn fp_cond_code(&self) -> (r: Option<FloatCC>)
        ensures
            r == self.spec_fp_cond_code(),
    {
        match self {
            InstructionData::FloatCompare { cond, .. } => Some(*cond),
            _ => None,
        }
    }

    /// The operation of an atomic read-modify-write.
    pub open spec fn spec_atomic_rmw_op(&self) -> Option<AtomicRmwOp> {
        match self {
            InstructionData::AtomicRmw { op, .. } => Some(*op),
            _ => None,
        }
    }

    /// The operation of an atomic read-modify-write.
    #[verifier::when_used_as_spec(spec_atomic_rmw_op)]
    pub fn atomic_rmw_op(&self) -> (r: Option<AtomicRmwOp>)
        ensures
            r == self.spec_atomic_rmw_op(),
    {
        match self {
            InstructionData::AtomicRmw { op, .. } => Some(*op),
            _ => None,
        }
    }

    /// The flags of a memory access.
    pub open spec fn spec_memflags(&self) -> Option<MemFlags> {
        match self {
            InstructionData::Load { flags, .. }
            | InstructionData::LoadNoOffset { flags, .. }
            | InstructionData::Store { flags, .. }
            | InstructionData::StoreNoOffset { flags, .. }
            | InstructionData::AtomicCas { flags, .. }
            | InstructionData::AtomicRmw { flags, .. } => Some(*flags),
            _ => None,
        }
    }

    /// The flags of a memory access.
    #[verifier::when_used_as_spec(spec_memflags)]
    pub fn memflags(&self) -> (r: Option<MemFlags>)
        ensures
            r == self.spec_memflags(),
    {
        match self {
            InstructionData::Load { flags, .. }
            | InstructionData::LoadNoOffset { flags, .. }
            | InstructionData::Store { flags, .. }
            | InstructionData::StoreNoOffset { flags, .. }
            | InstructionData::AtomicCas { flags, .. }
            | InstructionData::AtomicRmw { flags, .. } => Some(*flags),
            _ => None,
        }
    }

    /// The stack slot of a stack access.
    pub open spec fn spec_stack_slot(&self) -> Option<StackSlot> {
        match self {
            InstructionData::StackLoad { stack_slot, .. }
            | InstructionData::StackStore { stack_slot, .. } => Some(*stack_slot),
            _ => None,
        }
    }

    /// The stack slot of a stack access.
    #[verifier::when_used_as_spec(spec_stack_slot)]
    pub fn stack_slot(&self) -> (r: Option<StackSlot>)
        ensures
            r == self.spec_stack_slot(),
    {
        match self {
            InstructionData::StackLoad { stack_slot, .. }
            | InstructionData::StackStore { stack_slot, .. } => Some(*stack_slot),
            _ => None,
        }
    }
}

} // verus!
