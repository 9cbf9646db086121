//! Single steps on concrete values, for each instruction.
use cranelift_step::arith::{
    apply_binary, apply_fold, apply_pairwise, apply_unary, bitselect, fcmp, icmp, sum,
};
use cranelift_step::control::validate_signature_params;
use cranelift_step::flow::{ControlFlow, CraneliftTrap, StepError};
use cranelift_step::ir::{
    AbiParam, AtomicRmwOp, Block, BlockCall, Constant, ExtFuncData, ExternalName, FloatCC, FuncRef,
    Function, GlobalValue, Immediate, InstructionData, IntCC, JumpTable, JumpTableData, LibCall,
    MemFlags, Opcode, Signature, StackSlot, Table, TableData, TrapCode, ValueRef,
};
use cranelift_step::lanes::{extractlanes, vectorizelanes, vectorizelanes_all};
use cranelift_step::lanewise::{binary_arith, binary_pairwise, fold_vector, unary_arith};
use cranelift_step::state::{
    Address, AddressSize, InstructionContext, InterpreterFunctionRef, MemoryError, State,
};
use cranelift_step::step::{finish_libcall, step};
use cranelift_step::types::{LaneType, Lanes, Type};
use cranelift_step::value::{
    BinaryOp, DataValue, UnaryOp, Value, ValueConversionKind, ValueError, ValueResult,
    ValueTypeClass,
};
use std::collections::HashMap;

const I8: Type = Type::Lane(LaneType::I8);
const I16: Type = Type::Lane(LaneType::I16);
const I32: Type = Type::Lane(LaneType::I32);
const I64: Type = Type::Lane(LaneType::I64);
const I128: Type = Type::Lane(LaneType::I128);
const F32: Type = Type::Lane(LaneType::F32);
const F64: Type = Type::Lane(LaneType::F64);
const I8X16: Type = Type::Vector(LaneType::I8, Lanes::X16);
const I16X8: Type = Type::Vector(LaneType::I16, Lanes::X8);
const I32X4: Type = Type::Vector(LaneType::I32, Lanes::X4);
const I64X2: Type = Type::Vector(LaneType::I64, Lanes::X2);
const F32X4: Type = Type::Vector(LaneType::F32, Lanes::X4);
const F64X2: Type = Type::Vector(LaneType::F64, Lanes::X2);

/// Values for the tests: integers with their width and signedness, floats by their bits, vectors.
#[derive(Clone, Copy, Debug, PartialEq)]
enum Val {
    Int { raw: u128, bits: u32, signed: bool },
    F32(u32),
    F64(u64),
    Vec([u8; 16]),
}

fn mask(bits: u32) -> u128 {
    if bits == 128 {
        u128::MAX
    } else {
        (1 << bits) - 1
    }
}

fn int_of(n: i128, bits: u32) -> Val {
    Val::Int { raw: n as u128 & mask(bits), bits, signed: true }
}

fn int_type(bits: u32) -> Type {
    match bits {
        8 => I8,
        16 => I16,
        32 => I32,
        64 => I64,
        _ => I128,
    }
}

fn int_bits(ty: Type) -> ValueResult<u32> {
    if ty.is_int() {
        Ok(ty.lane_bits())
    } else {
        Err(ValueError::InvalidType(ValueTypeClass::Integer, ty))
    }
}

fn f(x: f32) -> Val {
    Val::F32(x.to_bits())
}

fn d(x: f64) -> Val {
    Val::F64(x.to_bits())
}

impl Val {
    fn number(self) -> ValueResult<i128> {
        match self {
            Val::Int { raw, bits, signed } => Ok(if signed && bits < 128 && raw >> (bits - 1) == 1 {
                raw as i128 - (1i128 << bits)
            } else {
                raw as i128
            }),
            other => Err(ValueError::InvalidType(ValueTypeClass::Integer, other.ty())),
        }
    }

    fn double(self) -> ValueResult<f64> {
        match self {
            Val::F32(bits) => Ok(f32::from_bits(bits) as f64),
            Val::F64(bits) => Ok(f64::from_bits(bits)),
            other => Err(ValueError::InvalidType(ValueTypeClass::Float, other.ty())),
        }
    }

    /// The result of an operation on integers or on floats, in the type of `self`.
    fn both(
        self,
        other: Val,
        int: fn(i128, i128) -> i128,
        float: fn(f64, f64) -> f64,
    ) -> ValueResult<Val> {
        match (self, other) {
            (Val::Int { bits, signed, .. }, Val::Int { bits: other_bits, .. }) if bits == other_bits => {
                Ok(Val::Int { raw: int(self.number()?, other.number()?) as u128 & mask(bits), bits, signed })
            }
            (Val::F32(_), Val::F32(_)) => Ok(f(float(self.double()?, other.double()?) as f32)),
            (Val::F64(_), Val::F64(_)) => Ok(d(float(self.double()?, other.double()?))),
            (Val::Vec(_), _) => Err(ValueError::InvalidType(ValueTypeClass::Integer, self.ty())),
            _ => Err(ValueError::InvalidDataValueCast(self.ty(), other.ty())),
        }
    }

    fn ints(self, other: Val, int: fn(i128, i128) -> i128) -> ValueResult<Val> {
        self.number()?;
        self.both(other, int, |x, _| x)
    }

    /// An operation on bits, which works on vectors, too.
    fn bits(self, other: Val, op: fn(u128, u128) -> u128) -> ValueResult<Val> {
        match (self, other) {
            (Val::Int { raw, bits, signed }, Val::Int { raw: other_raw, .. }) => {
                Ok(Val::Int { raw: op(raw, other_raw) & mask(bits), bits, signed })
            }
            (Val::Vec(a), Val::Vec(b)) => {
                Ok(Val::Vec(op(u128::from_le_bytes(a), u128::from_le_bytes(b)).to_le_bytes()))
            }
            _ => Err(ValueError::InvalidDataValueCast(self.ty(), other.ty())),
        }
    }

    fn float_op(self, op: fn(f64) -> f64) -> ValueResult<Val> {
        match self {
            Val::F32(_) => Ok(f(op(self.double()?) as f32)),
            _ => Ok(d(op(self.double()?))),
        }
    }

    /// A count of bits, in the type of `self`.
    fn count(self, op: fn(u128, u32) -> u32) -> ValueResult<Val> {
        self.number()?;
        match self {
            Val::Int { raw, bits, signed } => Ok(Val::Int { raw: op(raw, bits) as u128, bits, signed }),
            other => Ok(other),
        }
    }

    fn compare(
        &self,
        other: &Val,
        int: fn(&i128, &i128) -> bool,
        float: fn(&f64, &f64) -> bool,
    ) -> ValueResult<bool> {
        match (self, other) {
            (Val::Int { .. }, Val::Int { .. }) => Ok(int(&self.number()?, &other.number()?)),
            _ => Ok(float(&self.double()?, &other.double()?)),
        }
    }
}

impl Value for Val {
    fn ty(&self) -> Type {
        match self {
            Val::Int { bits, .. } => int_type(*bits),
            Val::F32(_) => F32,
            Val::F64(_) => F64,
            Val::Vec(_) => I8X16,
        }
    }
    fn duplicate(&self) -> Val {
        *self
    }
    fn from_data(data: DataValue) -> Val {
        match data {
            DataValue::I8(n) => int_of(n as i128, 8),
            DataValue::I32(n) => int_of(n as i128, 32),
            DataValue::I64(n) => int_of(n as i128, 64),
            DataValue::U64(n) => int_of(n as i128, 64),
            DataValue::F32(bits) => Val::F32(bits),
            DataValue::F64(bits) => Val::F64(bits),
            DataValue::V128(bytes) => Val::Vec(bytes),
            other => panic!("{:?}", other),
        }
    }
    fn integer(n: i128, ty: Type) -> ValueResult<Val> {
        Ok(int_of(n, int_bits(ty)?))
    }
    fn into_int(self) -> ValueResult<i128> {
        self.number()
    }
    fn float(bits: u64, ty: Type) -> ValueResult<Val> {
        if ty == F32 {
            Ok(Val::F32(bits as u32))
        } else if ty == F64 {
            Ok(Val::F64(bits))
        } else {
            Err(ValueError::InvalidType(ValueTypeClass::Float, ty))
        }
    }
    fn into_float(self) -> ValueResult<u64> {
        Ok(self.double()?.to_bits())
    }
    fn boolean(b: bool, vec_elem: bool, ty: Type) -> ValueResult<Val> {
        let truth = if vec_elem { -1 } else { 1 };
        Ok(int_of(if b { truth } else { 0 }, int_bits(ty)?))
    }
    fn into_bool(self) -> ValueResult<bool> {
        match self {
            Val::Int { raw, .. } => Ok(raw != 0),
            other => Err(ValueError::InvalidType(ValueTypeClass::Boolean, other.ty())),
        }
    }
    fn vector(bytes: [u8; 16], ty: Type) -> ValueResult<Val> {
        if ty.is_vector() {
            Ok(Val::Vec(bytes))
        } else {
            Err(ValueError::InvalidType(ValueTypeClass::Vector, ty))
        }
    }
    fn into_array(&self) -> ValueResult<[u8; 16]> {
        match self {
            Val::Vec(bytes) => Ok(*bytes),
            other => Err(ValueError::InvalidType(ValueTypeClass::Vector, other.ty())),
        }
    }
    fn convert(self, kind: ValueConversionKind) -> ValueResult<Val> {
        match (self, kind) {
            (Val::Int { raw, bits, .. }, ValueConversionKind::Exact(ty)) => {
                if ty == F32 && bits == 32 {
                    Ok(Val::F32(raw as u32))
                } else if ty == F64 && bits == 64 {
                    Ok(Val::F64(raw as u64))
                } else {
                    let result = int_of(self.number()?, int_bits(ty)?);
                    if result.number()? == self.number()? || bits == ty.lane_bits() {
                        Ok(result)
                    } else {
                        Err(ValueError::InvalidInteger)
                    }
                }
            }
            (Val::F32(x), ValueConversionKind::Exact(ty)) if ty == I32 => Ok(int_of(x as i128, 32)),
            (Val::F64(x), ValueConversionKind::Exact(ty)) if ty == I64 => Ok(int_of(x as i128, 64)),
            (Val::F32(_), ValueConversionKind::Exact(ty)) if ty == F64 => Ok(d(self.double()?)),
            (_, ValueConversionKind::Exact(ty)) if ty == self.ty() => Ok(self),
            (Val::Int { raw, .. }, ValueConversionKind::Truncate(ty)) => Ok(int_of(raw as i128, int_bits(ty)?)),
            (Val::Int { raw, bits, .. }, ValueConversionKind::ExtractUpper(ty)) => {
                Ok(int_of((raw >> (bits - int_bits(ty)?)) as i128, int_bits(ty)?))
            }
            (Val::Int { raw, bits, .. }, ValueConversionKind::SignExtend(ty)) => {
                let signed = Val::Int { raw, bits, signed: true };
                Ok(int_of(signed.number()?, int_bits(ty)?))
            }
            (Val::Int { raw, .. }, ValueConversionKind::ZeroExtend(ty)) => Ok(int_of(raw as i128, int_bits(ty)?)),
            (Val::Int { raw, bits, .. }, ValueConversionKind::ToUnsigned) => Ok(Val::Int { raw, bits, signed: false }),
            (Val::Int { raw, bits, .. }, ValueConversionKind::ToSigned) => Ok(Val::Int { raw, bits, signed: true }),
            (Val::F64(_), ValueConversionKind::RoundNearestEven(_)) => Ok(f(self.double()? as f32)),
            (Val::Int { raw, .. }, ValueConversionKind::ToBoolean) => Ok(int_of((raw != 0) as i128, 8)),
            (Val::Int { raw, .. }, ValueConversionKind::Mask(ty)) => {
                Ok(int_of(if raw != 0 { -1 } else { 0 }, int_bits(ty)?))
            }
            _ => Err(ValueError::InvalidValue(self.ty())),
        }
    }
    fn is_nan(&self) -> ValueResult<bool> {
        Ok(self.double()?.is_nan())
    }
    fn is_zero(&self) -> ValueResult<bool> {
        Ok(self.double()? == 0.0)
    }
    fn is_negative(&self) -> ValueResult<bool> {
        Ok(self.double()?.is_sign_negative())
    }
    fn eq(&self, other: &Val) -> ValueResult<bool> {
        self.compare(other, |x, y| x == y, |x, y| x == y)
    }
    fn gt(&self, other: &Val) -> ValueResult<bool> {
        self.compare(other, |x, y| x > y, |x, y| x > y)
    }
    fn ge(&self, other: &Val) -> ValueResult<bool> {
        Ok(Value::eq(self, other)? || Value::gt(self, other)?)
    }
    fn lt(&self, other: &Val) -> ValueResult<bool> {
        self.compare(other, |x, y| x < y, |x, y| x < y)
    }
    fn le(&self, other: &Val) -> ValueResult<bool> {
        Ok(Value::eq(self, other)? || Value::lt(self, other)?)
    }
    fn uno(&self, other: &Val) -> ValueResult<bool> {
        self.compare(other, |_, _| false, |x, y| x.is_nan() || y.is_nan())
    }
    fn not(self) -> ValueResult<Val> {
        self.bits(self, |x, _| !x)
    }
    fn neg(self) -> ValueResult<Val> {
        self.float_op(|x| -x)
    }
    fn abs(self) -> ValueResult<Val> {
        self.float_op(|x| x.abs())
    }
    fn sqrt(self) -> ValueResult<Val> {
        self.float_op(|x| x.sqrt())
    }
    fn ceil(self) -> ValueResult<Val> {
        self.float_op(|x| x.ceil())
    }
    fn floor(self) -> ValueResult<Val> {
        self.float_op(|x| x.floor())
    }
    fn trunc(self) -> ValueResult<Val> {
        self.float_op(|x| x.trunc())
    }
    fn nearest(self) -> ValueResult<Val> {
        self.float_op(|x| {
            let r = x.round();
            if (x - x.trunc()).abs() == 0.5 && r % 2.0 != 0.0 {
                r - x.signum()
            } else {
                r
            }
        })
    }
    fn count_ones(self) -> ValueResult<Val> {
        self.count(|raw, _| raw.count_ones())
    }
    fn leading_ones(self) -> ValueResult<Val> {
        self.count(|raw, bits| (raw << (128 - bits)).leading_ones())
    }
    fn leading_zeros(self) -> ValueResult<Val> {
        self.count(|raw, bits| raw.leading_zeros() - (128 - bits))
    }
    fn trailing_zeros(self) -> ValueResult<Val> {
        self.count(|raw, bits| raw.trailing_zeros().min(bits))
    }
    fn reverse_bits(self) -> ValueResult<Val> {
        match self {
            Val::Int { raw, bits, signed } => {
                Ok(Val::Int { raw: raw.reverse_bits() >> (128 - bits), bits, signed })
            }
            other => Err(ValueError::InvalidType(ValueTypeClass::Integer, other.ty())),
        }
    }
    fn swap_bytes(self) -> ValueResult<Val> {
        match self {
            Val::Int { raw, bits, signed } => {
                Ok(Val::Int { raw: raw.swap_bytes() >> (128 - bits), bits, signed })
            }
            other => Err(ValueError::InvalidType(ValueTypeClass::Integer, other.ty())),
        }
    }
    fn add(self, other: Val) -> ValueResult<Val> {
        self.both(other, i128::wrapping_add, |x, y| x + y)
    }
    fn sub(self, other: Val) -> ValueResult<Val> {
        self.both(other, i128::wrapping_sub, |x, y| x - y)
    }
    fn mul(self, other: Val) -> ValueResult<Val> {
        self.both(other, i128::wrapping_mul, |x, y| x * y)
    }
    fn div(self, other: Val) -> ValueResult<Val> {
        if let (Val::Int { bits, signed, .. }, Val::Int { .. }) = (self, other) {
            if other.number()? == 0 {
                return Err(ValueError::IntegerDivisionByZero);
            }
            if signed && other.number()? == -1 && self.number()? == -(1i128 << (bits - 1)) {
                return Err(ValueError::IntegerOverflow);
            }
        }
        self.both(other, i128::wrapping_div, |x, y| x / y)
    }
    fn rem(self, other: Val) -> ValueResult<Val> {
        if other.number()? == 0 {
            return Err(ValueError::IntegerDivisionByZero);
        }
        self.ints(other, i128::wrapping_rem)
    }
    fn add_sat(self, other: Val) -> ValueResult<Val> {
        let n = self.number()? + other.number()?;
        Ok(self.saturate(n))
    }
    fn sub_sat(self, other: Val) -> ValueResult<Val> {
        let n = self.number()? - other.number()?;
        Ok(self.saturate(n))
    }
    fn and(self, other: Val) -> ValueResult<Val> {
        self.bits(other, |x, y| x & y)
    }
    fn or(self, other: Val) -> ValueResult<Val> {
        self.bits(other, |x, y| x | y)
    }
    fn xor(self, other: Val) -> ValueResult<Val> {
        self.bits(other, |x, y| x ^ y)
    }
    fn shl(self, other: Val) -> ValueResult<Val> {
        let amount = other.amount(self);
        self.shift(amount, |raw, _, n| raw << n)
    }
    fn ushr(self, other: Val) -> ValueResult<Val> {
        let amount = other.amount(self);
        self.shift(amount, |raw, _, n| raw >> n)
    }
    fn ishr(self, other: Val) -> ValueResult<Val> {
        let amount = other.amount(self);
        let n = self.number()? >> amount;
        self.shift(0, |raw, _, _| raw)?;
        Ok(int_of(n, self.ty().lane_bits()))
    }
    fn rotl(self, other: Val) -> ValueResult<Val> {
        let amount = other.amount(self);
        self.shift(amount, |raw, bits, n| if n == 0 { raw } else { raw << n | raw >> (bits - n) })
    }
    fn rotr(self, other: Val) -> ValueResult<Val> {
        let amount = other.amount(self);
        self.shift(amount, |raw, bits, n| if n == 0 { raw } else { raw >> n | raw << (bits - n) })
    }
    fn max(self, other: Val) -> ValueResult<Val> {
        Ok(if Value::gt(&self, &other)? { self } else { other })
    }
    fn min(self, other: Val) -> ValueResult<Val> {
        Ok(if Value::lt(&self, &other)? { self } else { other })
    }
    fn copysign(self, other: Val) -> ValueResult<Val> {
        self.both(other, |x, _| x, |x, y| x.copysign(y))
    }
    fn concat(self, other: Val) -> ValueResult<Val> {
        match (self, other) {
            (Val::Int { raw, bits, .. }, Val::Int { raw: high, .. }) => {
                Ok(int_of((raw | high << bits) as i128, 2 * bits))
            }
            _ => Err(ValueError::InvalidType(ValueTypeClass::Integer, self.ty())),
        }
    }
    fn checked_add(self, other: Val) -> ValueResult<Option<Val>> {
        let n = self.number()? + other.number()?;
        let sum = self.add(other)?;
        Ok(if sum.number()? == n { Some(sum) } else { None })
    }
    fn fma(self, factor: Val, term: Val) -> ValueResult<Val> {
        match self {
            Val::F32(x) => match (factor, term) {
                (Val::F32(y), Val::F32(z)) => {
                    Ok(f(f32::from_bits(x).mul_add(f32::from_bits(y), f32::from_bits(z))))
                }
                _ => Err(ValueError::InvalidType(ValueTypeClass::Float, factor.ty())),
            },
            _ => Ok(d(self.double()?.mul_add(factor.double()?, term.double()?))),
        }
    }
}

impl Val {
    fn saturate(self, n: i128) -> Val {
        match self {
            Val::Int { bits, signed, .. } => {
                let (min, max) = if signed {
                    (-(1i128 << (bits - 1)), (1i128 << (bits - 1)) - 1)
                } else {
                    (0, (1i128 << bits) - 1)
                };
                Val::Int { raw: n.clamp(min, max) as u128 & mask(bits), bits, signed }
            }
            other => other,
        }
    }

    fn amount(self, shifted: Val) -> u32 {
        match self {
            Val::Int { raw, .. } => raw as u32 % shifted.ty().lane_bits(),
            other => panic!("{:?}", other),
        }
    }

    fn shift(self, n: u32, op: fn(u128, u32, u32) -> u128) -> ValueResult<Val> {
        match self {
            Val::Int { raw, bits, signed } => Ok(Val::Int { raw: op(raw, bits, n) & mask(bits), bits, signed }),
            other => Err(ValueError::InvalidType(ValueTypeClass::Integer, other.ty())),
        }
    }
}

fn i8v(n: i8) -> Val {
    int_of(n as i128, 8)
}

fn i16v(n: i16) -> Val {
    int_of(n as i128, 16)
}

fn i32v(n: i32) -> Val {
    int_of(n as i128, 32)
}

fn i64v(n: i64) -> Val {
    int_of(n as i128, 64)
}

fn i128v(n: i128) -> Val {
    int_of(n, 128)
}

fn i32x4(lanes: [i32; 4]) -> Val {
    let mut bytes = [0; 16];
    for (i, lane) in lanes.iter().enumerate() {
        bytes[4 * i..4 * i + 4].copy_from_slice(&lane.to_le_bytes());
    }
    Val::Vec(bytes)
}

fn i16x8(lanes: [i16; 8]) -> Val {
    let mut bytes = [0; 16];
    for (i, lane) in lanes.iter().enumerate() {
        bytes[2 * i..2 * i + 2].copy_from_slice(&lane.to_le_bytes());
    }
    Val::Vec(bytes)
}

fn i64x2(lanes: [i64; 2]) -> Val {
    let mut bytes = [0; 16];
    for (i, lane) in lanes.iter().enumerate() {
        bytes[8 * i..8 * i + 8].copy_from_slice(&lane.to_le_bytes());
    }
    Val::Vec(bytes)
}

fn i8x16(lanes: [i8; 16]) -> Val {
    Val::Vec(lanes.map(|lane| lane as u8))
}

fn f32x4(lanes: [f32; 4]) -> Val {
    i32x4(lanes.map(|lane| lane.to_bits() as i32))
}

fn f64x2(lanes: [f64; 2]) -> Val {
    i64x2(lanes.map(|lane| lane.to_bits() as i64))
}

/// A state with a small flat memory. Addresses from `0x1000` on are functions.
struct TestState<'a> {
    function: &'a Function,
    functions: Vec<&'a Function>,
    values: HashMap<u32, Val>,
    memory: Vec<u8>,
    globals: HashMap<u32, Val>,
    pinned: Val,
    reply: Result<Vec<Val>, TrapCode>,
}

fn state(function: &Function) -> TestState<'_> {
    TestState {
        function,
        functions: Vec::new(),
        values: HashMap::new(),
        memory: (0..64).collect(),
        globals: HashMap::new(),
        pinned: i64v(0),
        reply: Ok(Vec::new()),
    }
}

fn empty_function() -> Function {
    Function {
        signature: Signature { params: Vec::new(), returns: Vec::new() },
        constants: Vec::new(),
        immediates: Vec::new(),
        jump_tables: Vec::new(),
        ext_funcs: Vec::new(),
        tables: Vec::new(),
    }
}

fn absolute(offset: u64) -> Address {
    Address { size: AddressSize::Bits64, region: 0, entry: 0, offset }
}

impl<'a> TestState<'a> {
    fn range(&self, addr: Address, size: usize, store: bool) -> Result<usize, MemoryError> {
        let start = addr.offset as usize;
        let load_size = size;
        if start + size > self.memory.len() {
            Err(if store {
                MemoryError::OutOfBoundsStore { addr, load_size }
            } else {
                MemoryError::OutOfBoundsLoad { addr, load_size }
            })
        } else {
            Ok(start)
        }
    }
}

/// The flag that asks for aligned accesses.
const ALIGNED: MemFlags = MemFlags { bits: 1 };
const PLAIN: MemFlags = MemFlags { bits: 0 };

impl<'a> State<'a, Val> for TestState<'a> {
    fn get_current_function(&self) -> &'a Function {
        self.function
    }
    fn get_function(&self, func_ref: FuncRef) -> Option<&'a Function> {
        self.functions.get(func_ref.0 as usize).copied()
    }
    fn get_function_from_address(&self, addr: Address) -> Option<InterpreterFunctionRef<'a>> {
        if addr.offset == 0x2000 {
            return Some(InterpreterFunctionRef::LibCall(LibCall::FloorF32));
        }
        let index = (addr.offset as usize).checked_sub(0x1000)?;
        self.functions.get(index).map(|func| InterpreterFunctionRef::Function(func))
    }
    fn get_value(&self, value: ValueRef) -> Option<Val> {
        self.values.get(&value.0).copied()
    }
    fn call_libcall(&self, libcall: LibCall, args: Vec<Val>) -> Result<Vec<Val>, TrapCode> {
        match libcall {
            LibCall::FloorF32 => Ok(vec![args[0].floor().unwrap()]),
            _ => self.reply.clone(),
        }
    }
    fn address_size(&self, ty: Type) -> Result<AddressSize, MemoryError> {
        if ty == I64 {
            Ok(AddressSize::Bits64)
        } else if ty == I32 {
            Ok(AddressSize::Bits32)
        } else {
            Err(MemoryError::InvalidAddressType(ty))
        }
    }
    fn decode_address(&self, bits: u64) -> Result<Address, MemoryError> {
        if bits < 0x1_0000 {
            Ok(absolute(bits))
        } else {
            Err(MemoryError::InvalidAddress(DataValue::U64(bits)))
        }
    }
    fn address_from_data(&self, data: DataValue) -> Result<Address, MemoryError> {
        match data {
            DataValue::U64(bits) => self.decode_address(bits),
            other => Err(MemoryError::InvalidAddress(other)),
        }
    }
    fn address_to_data(&self, addr: Address) -> Result<DataValue, MemoryError> {
        Ok(match addr.size {
            AddressSize::Bits32 => DataValue::I32(addr.offset as i32),
            AddressSize::Bits64 => DataValue::I64(addr.offset as i64),
        })
    }
    fn stack_address(
        &self,
        size: AddressSize,
        slot: StackSlot,
        offset: u64,
    ) -> Result<Address, MemoryError> {
        if offset >= 16 {
            return Err(MemoryError::InvalidOffset { offset, max: 16 });
        }
        Ok(Address { size, region: 0, entry: 0, offset: 32 + 16 * slot.0 as u64 + offset })
    }
    fn function_address(
        &self,
        size: AddressSize,
        name: &ExternalName,
    ) -> Result<Address, MemoryError> {
        match name {
            ExternalName::User(index) => {
                Ok(Address { size, region: 0, entry: 0, offset: 0x1000 + *index as u64 })
            }
            _ => Err(MemoryError::InvalidEntry { entry: 7, max: 1 }),
        }
    }
    fn checked_load(&self, addr: Address, ty: Type, flags: MemFlags) -> Result<Val, MemoryError> {
        let load_size = ty.bytes() as usize;
        if flags == ALIGNED && addr.offset % ty.bytes() as u64 != 0 {
            return Err(MemoryError::MisalignedLoad { addr, load_size });
        }
        let start = self.range(addr, load_size, false)?;
        let mut bytes = [0; 16];
        bytes[..load_size].copy_from_slice(&self.memory[start..start + load_size]);
        if ty.is_vector() {
            Ok(Val::Vec(bytes))
        } else {
            Ok(int_of(i128::from_le_bytes(bytes), ty.lane_bits()))
        }
    }
    fn checked_store(&mut self, addr: Address, v: Val, flags: MemFlags) -> Result<(), MemoryError> {
        let load_size = v.ty().bytes() as usize;
        if flags == ALIGNED && addr.offset % load_size as u64 != 0 {
            return Err(MemoryError::MisalignedStore { addr, load_size });
        }
        let start = self.range(addr, load_size, true)?;
        let bytes = match v {
            Val::Int { raw, .. } => raw.to_le_bytes(),
            Val::F32(bits) => (bits as u128).to_le_bytes(),
            Val::F64(bits) => (bits as u128).to_le_bytes(),
            Val::Vec(bytes) => bytes,
        };
        self.memory[start..start + load_size].copy_from_slice(&bytes[..load_size]);
        Ok(())
    }
    fn resolve_global_value(&self, gv: GlobalValue) -> Result<Val, MemoryError> {
        match self.globals.get(&gv.0) {
            Some(v) => Ok(*v),
            None => Err(MemoryError::InvalidEntry { entry: gv.0 as u64, max: 0 }),
        }
    }
    fn get_pinned_reg(&self) -> Val {
        self.pinned
    }
    fn set_pinned_reg(&mut self, v: Val) {
        self.pinned = v;
    }
}

/// An instruction whose arguments are numbered from zero on.
struct Inst {
    data: InstructionData,
    args: Vec<ValueRef>,
    arg_ty: Option<Type>,
    ctrl_ty: Option<Type>,
}

impl InstructionContext for Inst {
    fn data(&self) -> &InstructionData {
        &self.data
    }
    fn args(&self) -> &[ValueRef] {
        &self.args
    }
    fn type_of(&self, _value: ValueRef) -> Option<Type> {
        self.arg_ty
    }
    fn controlling_type(&self) -> Option<Type> {
        self.ctrl_ty
    }
}

fn inst(data: InstructionData, count: u32, ty: Type) -> Inst {
    Inst { data, args: (0..count).map(ValueRef).collect(), arg_ty: None, ctrl_ty: Some(ty) }
}

type Outcome<'a> = Result<ControlFlow<'a, Val>, StepError>;

/// Perform an instruction on the given arguments, whose type is `arg_ty`.
fn run<'a>(
    s: &mut TestState<'a>,
    data: InstructionData,
    args: &[Val],
    ty: Type,
    arg_ty: Option<Type>,
) -> Outcome<'a> {
    for (i, v) in args.iter().enumerate() {
        s.values.insert(i as u32, *v);
    }
    let mut c = inst(data, args.len() as u32, ty);
    c.arg_ty = arg_ty;
    step(s, c)
}

/// The values that an instruction assigns.
fn assigned(outcome: Outcome) -> Vec<Val> {
    match outcome {
        Ok(ControlFlow::Assign(values)) => values,
        other => panic!("{:?}", other),
    }
}

/// The one value that an instruction without immediates assigns.
fn value(opcode: Opcode, args: &[Val], ty: Type) -> Val {
    let values = values(opcode, args, ty);
    assert_eq!(values.len(), 1);
    values[0]
}

fn values(opcode: Opcode, args: &[Val], ty: Type) -> Vec<Val> {
    let function = empty_function();
    let data = match args.len() {
        1 => InstructionData::Unary { opcode },
        2 => InstructionData::Binary { opcode },
        _ => InstructionData::Ternary { opcode },
    };
    assigned(run(&mut state(&function), data, args, ty, None))
}

/// The one value that a conversion from `arg_ty` assigns.
fn converted(opcode: Opcode, arg: Val, arg_ty: Type, ty: Type) -> Val {
    let function = empty_function();
    let data = InstructionData::Unary { opcode };
    assigned(run(&mut state(&function), data, &[arg], ty, Some(arg_ty)))[0]
}

/// The one value that an instruction with an immediate assigns.
fn with_imm(opcode: Opcode, arg: Val, imm: i64, ty: Type) -> Val {
    let function = empty_function();
    let data = InstructionData::BinaryImm64 { opcode, imm };
    assigned(run(&mut state(&function), data, &[arg], ty, None))[0]
}

/// The trap that an instruction without immediates runs into.
fn trap(opcode: Opcode, args: &[Val], ty: Type) -> CraneliftTrap {
    let function = empty_function();
    let data = InstructionData::Binary { opcode };
    let outcome = run(&mut state(&function), data, args, ty, None);
    outcome.unwrap().unwrap_trap()
}

/// The error that an instruction without immediates fails with.
fn error(opcode: Opcode, args: &[Val], ty: Type) -> StepError {
    let function = empty_function();
    let data = InstructionData::Binary { opcode };
    let outcome = run(&mut state(&function), data, args, ty, None);
    outcome.unwrap_err()
}

#[test]
fn integer_arithmetic() {
    assert_eq!(value(Opcode::Iadd, &[i32v(i32::MAX), i32v(1)], I32), i32v(i32::MIN));
    assert_eq!(value(Opcode::Isub, &[i8v(-128), i8v(1)], I8), i8v(127));
    assert_eq!(value(Opcode::Imul, &[i32v(-3), i32v(7)], I32), i32v(-21));
    assert_eq!(value(Opcode::Ineg, &[i32v(5)], I32), i32v(-5));
    assert_eq!(value(Opcode::SaddSat, &[i8v(100), i8v(100)], I8), i8v(127));
    assert_eq!(value(Opcode::SsubSat, &[i8v(-100), i8v(100)], I8), i8v(-128));
    assert_eq!(
        value(Opcode::UaddSat, &[i8v(-1), i8v(1)], I8),
        Val::Int { raw: 255, bits: 8, signed: false }
    );
    assert_eq!(
        value(Opcode::UsubSat, &[i8v(1), i8v(2)], I8),
        Val::Int { raw: 0, bits: 8, signed: false }
    );
    assert_eq!(value(Opcode::AvgRound, &[i32v(3), i32v(6)], I32), i32v(5));
}

#[test]
fn vector_arithmetic() {
    assert_eq!(
        value(Opcode::Iadd, &[i32x4([1, 2, 3, -4]), i32x4([10, 20, 30, 4])], I32X4),
        i32x4([11, 22, 33, 0])
    );
    assert_eq!(
        value(Opcode::Imul, &[i16x8([1, 2, 3, 4, 5, 6, 7, 8]), i16x8([-1; 8])], I16X8),
        i16x8([-1, -2, -3, -4, -5, -6, -7, -8])
    );
    assert_eq!(
        value(Opcode::Fadd, &[f32x4([1.0, 2.0, 3.0, 4.0]), f32x4([0.5; 4])], F32X4),
        f32x4([1.5, 2.5, 3.5, 4.5])
    );
    assert_eq!(value(Opcode::Ineg, &[i8v(1)], I8), i8v(-1));
    assert_eq!(value(Opcode::Bnot, &[i32x4([0, -1, 1, 2])], I32X4), i32x4([-1, 0, -2, -3]));
}

#[test]
fn divisions() {
    assert_eq!(value(Opcode::Sdiv, &[i32v(-7), i32v(2)], I32), i32v(-3));
    assert_eq!(value(Opcode::Srem, &[i32v(-7), i32v(2)], I32), i32v(-1));
    assert_eq!(value(Opcode::Udiv, &[i8v(-2), i8v(2)], I8), i8v(127));
    assert_eq!(value(Opcode::Urem, &[i8v(-1), i8v(16)], I8), i8v(15));
    assert_eq!(with_imm(Opcode::SdivImm, i32v(-9), 3, I32), i32v(-3));
    assert_eq!(with_imm(Opcode::SremImm, i32v(-9), 4, I32), i32v(-1));
    assert_eq!(with_imm(Opcode::UdivImm, i8v(-2), 2, I8), i8v(127));
    assert_eq!(with_imm(Opcode::UremImm, i8v(-1), 16, I8), i8v(15));
}

#[test]
fn division_failures_are_traps() {
    let by_zero = CraneliftTrap::User(TrapCode::IntegerDivisionByZero);
    let overflow = CraneliftTrap::User(TrapCode::IntegerOverflow);
    for opcode in [Opcode::Sdiv, Opcode::Udiv, Opcode::Srem, Opcode::Urem] {
        assert_eq!(trap(opcode, &[i32v(1), i32v(0)], I32), by_zero);
    }
    assert_eq!(trap(Opcode::Sdiv, &[i32v(i32::MIN), i32v(-1)], I32), overflow);
    // The same division of other types is an error.
    assert!(matches!(
        error(Opcode::Sdiv, &[i32v(1), i64v(1)], I32),
        StepError::ValueError(ValueError::InvalidDataValueCast(_, _))
    ));
}

#[test]
fn immediate_forms() {
    assert_eq!(with_imm(Opcode::IaddImm, i32v(40), 2, I32), i32v(42));
    assert_eq!(with_imm(Opcode::ImulImm, i32v(6), -7, I32), i32v(-42));
    assert_eq!(with_imm(Opcode::IrsubImm, i32v(1), 10, I32), i32v(9));
    assert_eq!(with_imm(Opcode::BandImm, i32v(0b1100), 0b1010, I32), i32v(0b1000));
    assert_eq!(with_imm(Opcode::BorImm, i32v(0b1100), 0b1010, I32), i32v(0b1110));
    assert_eq!(with_imm(Opcode::BxorImm, i32v(0b1100), 0b1010, I32), i32v(0b0110));
    assert_eq!(with_imm(Opcode::RotlImm, i8v(-127), 1, I8), i8v(3));
    assert_eq!(with_imm(Opcode::RotrImm, i8v(1), 1, I8), i8v(-128));
    assert_eq!(with_imm(Opcode::IshlImm, i8v(3), 2, I8), i8v(12));
    assert_eq!(with_imm(Opcode::UshrImm, i8v(-128), 7, I8), i8v(1));
    assert_eq!(with_imm(Opcode::SshrImm, i8v(-128), 7, I8), i8v(-1));
    // As with two arguments.
    assert_eq!(
        with_imm(Opcode::IaddImm, i32v(40), 2, I32),
        value(Opcode::Iadd, &[i32v(40), i32v(2)], I32)
    );
    // The immediate has to fit the controlling type.
    let function = empty_function();
    let data = InstructionData::BinaryImm64 { opcode: Opcode::IaddImm, imm: 300 };
    let outcome = run(&mut state(&function), data, &[i8v(1)], I8, None);
    assert!(matches!(outcome, Err(StepError::ValueError(ValueError::InvalidInteger))));
}

#[test]
fn bit_operations() {
    let (x, y) = (i32v(0b1100), i32v(0b1010));
    assert_eq!(value(Opcode::Band, &[x, y], I32), i32v(0b1000));
    assert_eq!(value(Opcode::Bor, &[x, y], I32), i32v(0b1110));
    assert_eq!(value(Opcode::Bxor, &[x, y], I32), i32v(0b0110));
    assert_eq!(value(Opcode::BandNot, &[x, y], I32), i32v(0b0100));
    assert_eq!(value(Opcode::BorNot, &[x, y], I32), i32v(!0b0010));
    assert_eq!(value(Opcode::BxorNot, &[x, y], I32), i32v(!0b0110));
    assert_eq!(value(Opcode::Bnot, &[x], I32), i32v(!0b1100));
    assert_eq!(value(Opcode::Rotl, &[i8v(-127), i8v(1)], I8), i8v(3));
    assert_eq!(value(Opcode::Rotr, &[i8v(1), i8v(1)], I8), i8v(-128));
    assert_eq!(value(Opcode::Ishl, &[i8v(3), i8v(2)], I8), i8v(12));
    assert_eq!(value(Opcode::Ushr, &[i8v(-128), i8v(7)], I8), i8v(1));
    assert_eq!(value(Opcode::Sshr, &[i8v(-128), i8v(7)], I8), i8v(-1));
    assert_eq!(value(Opcode::Bitrev, &[i8v(1)], I8), i8v(-128));
    assert_eq!(value(Opcode::Bswap, &[i32v(0x0102_0304)], I32), i32v(0x0403_0201));
    assert_eq!(value(Opcode::Clz, &[i32v(1)], I32), i32v(31));
    assert_eq!(value(Opcode::Ctz, &[i32v(8)], I32), i32v(3));
    assert_eq!(value(Opcode::Cls, &[i8v(-1)], I8), i8v(7));
    assert_eq!(value(Opcode::Cls, &[i8v(1)], I8), i8v(6));
    assert_eq!(value(Opcode::Popcnt, &[i8v(-1)], I8), i8v(8));
    assert_eq!(
        value(Opcode::Popcnt, &[i32x4([0, 1, 3, -1])], I32X4),
        i32x4([0, 1, 2, 32])
    );
    assert_eq!(
        value(Opcode::Bitselect, &[i8v(0x0f), i8v(0x55), i8v(0x33)], I8),
        i8v(0x35)
    );
}

#[test]
fn high_halves_of_products() {
    assert_eq!(value(Opcode::Smulhi, &[i8v(-128), i8v(2)], I8), i8v(-1));
    assert_eq!(value(Opcode::Umulhi, &[i8v(-128), i8v(2)], I8), i8v(1));
    assert_eq!(value(Opcode::Umulhi, &[i64v(-1), i64v(-1)], I64), i64v(-2));
    assert_eq!(
        value(Opcode::Smulhi, &[i16x8([0x4000; 8]), i16x8([4; 8])], I16X8),
        i16x8([1; 8])
    );
}

#[test]
fn absolute_values() {
    assert_eq!(value(Opcode::Iabs, &[i8v(-5)], I8), i8v(5));
    assert_eq!(value(Opcode::Iabs, &[i8v(-128)], I8), i8v(-128));
    assert_eq!(
        value(Opcode::Iabs, &[i32x4([1, -1, 0, i32::MIN])], I32X4),
        i32x4([1, 1, 0, i32::MIN])
    );
}

#[test]
fn carries() {
    let (yes, no) = (i8v(1), i8v(0));
    assert_eq!(value(Opcode::IaddCin, &[i8v(1), i8v(2), yes], I8), i8v(4));
    assert_eq!(value(Opcode::IaddCin, &[i8v(1), i8v(2), no], I8), i8v(3));
    assert_eq!(values(Opcode::IaddCout, &[i8v(127), i8v(1)], I8), [i8v(-128), yes]);
    assert_eq!(values(Opcode::IaddCout, &[i8v(126), i8v(1)], I8), [i8v(127), no]);
    assert_eq!(values(Opcode::IaddCarry, &[i8v(126), i8v(1), yes], I8), [i8v(-128), yes]);
    assert_eq!(values(Opcode::IaddCarry, &[i8v(126), i8v(1), no], I8), [i8v(127), no]);
    assert_eq!(values(Opcode::IaddCarry, &[i8v(127), i8v(1), yes], I8), [i8v(-127), yes]);
    assert_eq!(value(Opcode::IsubBin, &[i8v(5), i8v(2), yes], I8), i8v(2));
    assert_eq!(value(Opcode::IsubBin, &[i8v(5), i8v(2), no], I8), i8v(3));
    assert_eq!(values(Opcode::IsubBout, &[i8v(2), i8v(5)], I8), [i8v(-3), yes]);
    assert_eq!(values(Opcode::IsubBout, &[i8v(5), i8v(2)], I8), [i8v(3), no]);
    assert_eq!(values(Opcode::IsubBorrow, &[i8v(2), i8v(2), yes], I8), [i8v(-1), yes]);
    assert_eq!(values(Opcode::IsubBorrow, &[i8v(2), i8v(2), no], I8), [i8v(0), no]);
}

#[test]
fn addition_that_traps_on_overflow() {
    let function = empty_function();
    let data = InstructionData::IntAddTrap {
        opcode: Opcode::UaddOverflowTrap,
        code: TrapCode::User(3),
    };
    let small = |n: u8| Val::Int { raw: n as u128, bits: 8, signed: false };
    let sum = run(&mut state(&function), data.clone(), &[small(250), small(5)], I8, None);
    assert_eq!(assigned(sum), [small(255)]);
    let wrapped = run(&mut state(&function), data, &[small(250), small(6)], I8, None);
    assert_eq!(wrapped.unwrap().unwrap_trap(), CraneliftTrap::User(TrapCode::User(3)));
}

#[test]
fn halves_of_integers() {
    let wide = i128v((7 << 64) | 5);
    assert_eq!(values(Opcode::Isplit, &[wide], I128), [i64v(5), i64v(7)]);
    assert_eq!(value(Opcode::Iconcat, &[i64v(5), i64v(7)], I64), wide);
}

#[test]
fn fixed_point_products() {
    assert_eq!(
        value(
            Opcode::SqmulRoundSat,
            &[
                i16x8([0x4000, -0x8000, 0x7fff, 1, -1, 0, 0x4000, 2]),
                i16x8([0x4000, -0x8000, 0x7fff, 1, 1, 5, -0x4000, 0x4000])
            ],
            I16X8
        ),
        i16x8([0x2000, 0x7fff, 0x7ffe, 0, 0, 0, -0x2000, 1])
    );
}

#[test]
fn pairwise_sums() {
    assert_eq!(
        value(Opcode::IaddPairwise, &[i32x4([1, 2, 3, 4]), i32x4([10, 20, 30, 40])], I32X4),
        i32x4([3, 7, 30, 70])
    );
}

#[test]
fn constants() {
    let function = Function {
        constants: vec![Some((0..16).collect())],
        ..empty_function()
    };
    let mut s = state(&function);
    let data = InstructionData::UnaryImm { opcode: Opcode::Iconst, imm: -3 };
    assert_eq!(assigned(run(&mut s, data, &[], I16, None)), [i16v(-3)]);
    let data = InstructionData::UnaryIeee32 { opcode: Opcode::F32const, imm: 0x3f80_0000 };
    assert_eq!(assigned(run(&mut s, data, &[], F32, None)), [f(1.0)]);
    let data = InstructionData::UnaryIeee64 {
        opcode: Opcode::F64const,
        imm: 0x4000_0000_0000_0000,
    };
    assert_eq!(assigned(run(&mut s, data, &[], F64, None)), [d(2.0)]);
    let data = InstructionData::UnaryConst {
        opcode: Opcode::Vconst,
        constant_handle: Constant(0),
    };
    let bytes = Val::Vec([0, 1, 2, 3, 4, 5, 6, 7, 8, 9, 10, 11, 12, 13, 14, 15]);
    assert_eq!(assigned(run(&mut s, data, &[], I8X16, None)), [bytes]);
    let data = InstructionData::NullAry { opcode: Opcode::Nop };
    assert!(matches!(run(&mut s, data, &[], Type::Special, None), Ok(ControlFlow::Continue)));
}

#[test]
fn selection() {
    assert_eq!(value(Opcode::Select, &[i8v(1), i32v(5), i32v(6)], I32), i32v(5));
    assert_eq!(value(Opcode::Select, &[i8v(0), i32v(5), i32v(6)], I32), i32v(6));
    assert_eq!(value(Opcode::SelectSpectreGuard, &[i8v(0), i32v(5), i32v(6)], I32), i32v(6));
}

#[test]
fn minima_and_maxima() {
    assert_eq!(value(Opcode::Smin, &[i8v(-1), i8v(1)], I8), i8v(-1));
    assert_eq!(value(Opcode::Umin, &[i8v(-1), i8v(1)], I8), i8v(1));
    assert_eq!(value(Opcode::Smax, &[i8v(-1), i8v(1)], I8), i8v(1));
    assert_eq!(value(Opcode::Umax, &[i8v(-1), i8v(1)], I8), i8v(-1));
    let (x, y) = (i32x4([1, -2, 3, -4]), i32x4([-1, 2, 3, 4]));
    assert_eq!(value(Opcode::Smin, &[x, y], I32X4), i32x4([-1, -2, 3, -4]));
    assert_eq!(value(Opcode::Smax, &[x, y], I32X4), i32x4([1, 2, 3, 4]));
    assert_eq!(value(Opcode::Umin, &[x, y], I32X4), i32x4([1, 2, 3, 4]));
    assert_eq!(value(Opcode::Umax, &[x, y], I32X4), i32x4([-1, -2, 3, -4]));
}

fn compared(cond: IntCC, x: Val, y: Val, ty: Type) -> Val {
    let function = empty_function();
    let data = InstructionData::IntCompare { opcode: Opcode::Icmp, cond };
    assigned(run(&mut state(&function), data, &[x, y], ty, None))[0]
}

#[test]
fn integer_comparisons() {
    let cases = [
        (IntCC::Equal, 0, 1, 0),
        (IntCC::NotEqual, 1, 0, 1),
        (IntCC::SignedLessThan, 1, 0, 0),
        (IntCC::SignedLessThanOrEqual, 1, 1, 0),
        (IntCC::SignedGreaterThan, 0, 0, 1),
        (IntCC::SignedGreaterThanOrEqual, 0, 1, 1),
        (IntCC::UnsignedLessThan, 0, 0, 1),
        (IntCC::UnsignedLessThanOrEqual, 0, 1, 1),
        (IntCC::UnsignedGreaterThan, 1, 0, 0),
        (IntCC::UnsignedGreaterThanOrEqual, 1, 1, 0),
    ];
    for (cond, less, equal, greater) in cases {
        assert_eq!(compared(cond, i32v(-1), i32v(1), I32), i8v(less));
        assert_eq!(compared(cond, i32v(1), i32v(1), I32), i8v(equal));
        assert_eq!(compared(cond, i32v(1), i32v(-1), I32), i8v(greater));
    }
    assert_eq!(
        compared(IntCC::Equal, i32x4([1, 2, 3, 4]), i32x4([1, 0, 3, 0]), I32X4),
        i32x4([-1, 0, -1, 0])
    );
    let function = empty_function();
    let data = InstructionData::IntCompareImm {
        opcode: Opcode::IcmpImm,
        cond: IntCC::SignedLessThan,
        imm: 7,
    };
    assert_eq!(assigned(run(&mut state(&function), data, &[i32v(6)], I32, None)), [i8v(1)]);
}

fn float_compared(cond: FloatCC, x: Val, y: Val, ty: Type) -> Val {
    let function = empty_function();
    let data = InstructionData::FloatCompare { opcode: Opcode::Fcmp, cond };
    assigned(run(&mut state(&function), data, &[x, y], ty, None))[0]
}

#[test]
fn float_comparisons() {
    // Less, equal, greater, unordered.
    let cases = [
        (FloatCC::Ordered, [1, 1, 1, 0]),
        (FloatCC::Unordered, [0, 0, 0, 1]),
        (FloatCC::Equal, [0, 1, 0, 0]),
        (FloatCC::NotEqual, [1, 0, 1, 1]),
        (FloatCC::OrderedNotEqual, [1, 0, 1, 0]),
        (FloatCC::UnorderedOrEqual, [0, 1, 0, 1]),
        (FloatCC::LessThan, [1, 0, 0, 0]),
        (FloatCC::LessThanOrEqual, [1, 1, 0, 0]),
        (FloatCC::GreaterThan, [0, 0, 1, 0]),
        (FloatCC::GreaterThanOrEqual, [0, 1, 1, 0]),
        (FloatCC::UnorderedOrLessThan, [1, 0, 0, 1]),
        (FloatCC::UnorderedOrLessThanOrEqual, [1, 1, 0, 1]),
        (FloatCC::UnorderedOrGreaterThan, [0, 0, 1, 1]),
        (FloatCC::UnorderedOrGreaterThanOrEqual, [0, 1, 1, 1]),
    ];
    let operands = [(1.0, 2.0), (2.0, 2.0), (3.0, 2.0), (f64::NAN, 2.0)];
    for (cond, expected) in cases {
        for (i, (x, y)) in operands.iter().enumerate() {
            assert_eq!(float_compared(cond, d(*x), d(*y), F64), i8v(expected[i]));
            assert_eq!(fcmp(cond, &d(*x), &d(*y)), Ok(expected[i] == 1));
        }
    }
    assert_eq!(
        float_compared(
            FloatCC::LessThan,
            f32x4([1.0, 2.0, 3.0, f32::NAN]),
            f32x4([2.0; 4]),
            F32X4
        ),
        i32x4([-1, 0, 0, 0])
    );
}

#[test]
fn float_arithmetic() {
    assert_eq!(value(Opcode::Fadd, &[f(1.5), f(2.0)], F32), f(3.5));
    assert_eq!(value(Opcode::Fsub, &[d(1.5), d(2.0)], F64), d(-0.5));
    assert_eq!(value(Opcode::Fmul, &[d(1.5), d(2.0)], F64), d(3.0));
    assert_eq!(value(Opcode::Fdiv, &[d(1.0), d(4.0)], F64), d(0.25));
    assert_eq!(value(Opcode::Sqrt, &[d(9.0)], F64), d(3.0));
    assert_eq!(value(Opcode::Fma, &[d(2.0), d(3.0), d(4.0)], F64), d(10.0));
    assert_eq!(
        value(Opcode::Fma, &[f64x2([1.0, 2.0]), f64x2([3.0, 4.0]), f64x2([0.5, -8.0])], F64X2),
        f64x2([3.5, 0.0])
    );
    assert_eq!(value(Opcode::Fneg, &[d(1.0)], F64), d(-1.0));
    assert_eq!(value(Opcode::Fabs, &[d(-1.0)], F64), d(1.0));
    assert_eq!(value(Opcode::Fcopysign, &[d(1.0), d(-5.0)], F64), d(-1.0));
    assert_eq!(value(Opcode::Ceil, &[d(1.2)], F64), d(2.0));
    assert_eq!(value(Opcode::Floor, &[d(1.8)], F64), d(1.0));
    assert_eq!(value(Opcode::Trunc, &[d(-1.8)], F64), d(-1.0));
    assert_eq!(value(Opcode::Nearest, &[d(2.5)], F64), d(2.0));
}

#[test]
fn float_minima_and_maxima() {
    let nan = d(f64::NAN);
    assert_eq!(value(Opcode::Fmin, &[d(1.0), d(2.0)], F64), d(1.0));
    assert_eq!(value(Opcode::Fmax, &[d(1.0), d(2.0)], F64), d(2.0));
    assert_eq!(value(Opcode::Fmin, &[d(1.0), nan], F64), nan);
    assert_eq!(value(Opcode::Fmax, &[nan, d(1.0)], F64), nan);
    assert_eq!(value(Opcode::Fmin, &[d(0.0), d(-0.0)], F64), d(-0.0));
    assert_eq!(value(Opcode::Fmin, &[d(-0.0), d(0.0)], F64), d(-0.0));
    assert_eq!(value(Opcode::Fmax, &[d(0.0), d(-0.0)], F64), d(0.0));
    assert_eq!(value(Opcode::Fmax, &[d(-0.0), d(0.0)], F64), d(0.0));
    assert_eq!(value(Opcode::FminPseudo, &[d(1.0), nan], F64), d(1.0));
    assert_eq!(value(Opcode::FmaxPseudo, &[nan, d(1.0)], F64), nan);
    assert_eq!(value(Opcode::FminPseudo, &[d(0.0), d(-0.0)], F64), d(0.0));
    assert_eq!(value(Opcode::FmaxPseudo, &[d(-0.0), d(0.0)], F64), d(-0.0));
    assert_eq!(value(Opcode::FminPseudo, &[d(3.0), d(2.0)], F64), d(2.0));
    assert_eq!(value(Opcode::FmaxPseudo, &[d(3.0), d(2.0)], F64), d(3.0));
}

#[test]
fn scalar_conversions() {
    assert_eq!(value(Opcode::Ireduce, &[i32v(0x1ff)], I8), i8v(-1));
    assert_eq!(value(Opcode::Sextend, &[i8v(-1)], I32), i32v(-1));
    assert_eq!(value(Opcode::Uextend, &[i8v(-1)], I32), i32v(255));
    assert_eq!(value(Opcode::Fpromote, &[f(1.5)], F64), d(1.5));
    assert_eq!(value(Opcode::Fdemote, &[d(0.1)], F32), f(0.1));
    assert_eq!(converted(Opcode::Bitcast, f(1.0), F32, I32), i32v(0x3f80_0000));
    assert_eq!(value(Opcode::Bmask, &[i8v(1)], I32), i32v(-1));
    assert_eq!(value(Opcode::Bmask, &[i8v(0)], I32), i32v(0));
}

#[test]
fn lane_conversions() {
    assert_eq!(
        converted(Opcode::ScalarToVector, i32v(7), I32, I32X4),
        i32x4([7, 0, 0, 0])
    );
    assert_eq!(
        value(Opcode::Snarrow, &[i16x8([300, -300, 1, 2, 3, 4, 5, 6]), i16x8([7; 8])], I16X8),
        i8x16([127, -128, 1, 2, 3, 4, 5, 6, 7, 7, 7, 7, 7, 7, 7, 7])
    );
    assert_eq!(
        value(Opcode::Unarrow, &[i16x8([300, -300, 1, 2, 3, 4, 5, 6]), i16x8([7; 8])], I16X8),
        i8x16([-1, 0, 1, 2, 3, 4, 5, 6, 7, 7, 7, 7, 7, 7, 7, 7])
    );
    assert_eq!(
        value(Opcode::Uunarrow, &[i16x8([300, -300, 1, 2, 3, 4, 5, 6]), i16x8([7; 8])], I16X8),
        i8x16([-1, -1, 1, 2, 3, 4, 5, 6, 7, 7, 7, 7, 7, 7, 7, 7])
    );
    let lanes = i16x8([-1, 2, -3, 4, -5, 6, -7, 8]);
    assert_eq!(value(Opcode::SwidenLow, &[lanes], I16X8), i32x4([-1, 2, -3, 4]));
    assert_eq!(value(Opcode::SwidenHigh, &[lanes], I16X8), i32x4([-5, 6, -7, 8]));
    assert_eq!(value(Opcode::UwidenLow, &[lanes], I16X8), i32x4([0xffff, 2, 0xfffd, 4]));
    assert_eq!(value(Opcode::UwidenHigh, &[lanes], I16X8), i32x4([0xfffb, 6, 0xfff9, 8]));
    assert_eq!(value(Opcode::Bmask, &[i32x4([0, 1, 2, 0])], I32X4), i32x4([0, -1, -1, 0]));
}

#[test]
fn floats_to_integers_or_traps() {
    let bad = CraneliftTrap::User(TrapCode::BadConversionToInteger);
    let overflow = CraneliftTrap::User(TrapCode::IntegerOverflow);
    assert_eq!(value(Opcode::FcvtToSint, &[d(-1.9)], I32), i32v(-1));
    assert_eq!(value(Opcode::FcvtToUint, &[d(255.9)], I8), i8v(-1));
    assert_eq!(trap(Opcode::FcvtToSint, &[d(f64::NAN)], I32), bad);
    assert_eq!(trap(Opcode::FcvtToUint, &[d(-1.0)], I32), overflow);
    assert_eq!(trap(Opcode::FcvtToUint, &[d(256.0)], I8), overflow);
    assert_eq!(trap(Opcode::FcvtToSint, &[d(128.0)], I8), overflow);
    assert_eq!(trap(Opcode::FcvtToSint, &[d(-129.0)], I8), overflow);
    assert_eq!(value(Opcode::FcvtToSint, &[d(-128.0)], I8), i8v(-128));
}

#[test]
fn saturating_conversions() {
    let sat = |x: f64, opcode: Opcode| converted(opcode, d(x), F64, I8);
    assert_eq!(sat(f64::NAN, Opcode::FcvtToSintSat), i8v(0));
    assert_eq!(sat(1000.0, Opcode::FcvtToSintSat), i8v(127));
    assert_eq!(sat(-1000.0, Opcode::FcvtToSintSat), i8v(-128));
    assert_eq!(sat(-5.5, Opcode::FcvtToSintSat), i8v(-5));
    assert_eq!(sat(1000.0, Opcode::FcvtToUintSat), i8v(-1));
    assert_eq!(sat(-1000.0, Opcode::FcvtToUintSat), i8v(0));
    // The trapping conversion agrees where it does not trap.
    assert_eq!(sat(100.7, Opcode::FcvtToSintSat), value(Opcode::FcvtToSint, &[d(100.7)], I8));
    assert_eq!(
        converted(Opcode::FcvtToSintSat, f32x4([1.5, -1e30, 1e30, f32::NAN]), F32X4, I32X4),
        i32x4([1, i32::MIN, i32::MAX, 0])
    );
}

#[test]
fn integers_to_floats() {
    assert_eq!(converted(Opcode::FcvtFromSint, i32v(-3), I32, F32), f(-3.0));
    assert_eq!(converted(Opcode::FcvtFromUint, i8v(-1), I8, F64), d(255.0));
    assert_eq!(
        converted(Opcode::FcvtFromSint, i32x4([1, -1, 2, 16_777_217]), I32X4, F32X4),
        f32x4([1.0, -1.0, 2.0, 16_777_216.0])
    );
    assert_eq!(
        converted(Opcode::FcvtLowFromSint, i32x4([1, -2, 3, 4]), I32X4, F64X2),
        f64x2([1.0, -2.0])
    );
    assert_eq!(
        converted(Opcode::FvpromoteLow, f32x4([1.5, -2.5, 3.0, 4.0]), F32X4, F64X2),
        f64x2([1.5, -2.5])
    );
    assert_eq!(
        converted(Opcode::Fvdemote, f64x2([1.5, -2.5]), F64X2, F32X4),
        f32x4([1.5, -2.5, 0.0, 0.0])
    );
}

#[test]
fn rearranged_bytes() {
    let reverse: Vec<u8> = (0..16).rev().collect();
    let mut second: Vec<u8> = (16..32).collect();
    second[0] = 200;
    let function = Function { immediates: vec![reverse, second], ..empty_function() };
    let a: [i8; 16] = [0, 1, 2, 3, 4, 5, 6, 7, 8, 9, 10, 11, 12, 13, 14, 15];
    let b = a.map(|n| n + 100);
    let data = InstructionData::Shuffle { opcode: Opcode::Shuffle, imm: Immediate(0) };
    let shuffled = run(&mut state(&function), data, &[i8x16(a), i8x16(b)], I8X16, None);
    let mut reversed = a;
    reversed.reverse();
    assert_eq!(assigned(shuffled), [i8x16(reversed)]);
    let data = InstructionData::Shuffle { opcode: Opcode::Shuffle, imm: Immediate(1) };
    let shuffled = run(&mut state(&function), data, &[i8x16(a), i8x16(b)], I8X16, None);
    let mut expected = b;
    expected[0] = 0;
    assert_eq!(assigned(shuffled), [i8x16(expected)]);
    // Counting up selects the operand itself.
    assert_eq!(value(Opcode::Swizzle, &[i8x16(b), i8x16(a)], I8X16), i8x16(b));
    let mut selector = a;
    selector[1] = 16;
    selector[2] = -1;
    let mut expected = b;
    expected[1] = 0;
    expected[2] = 0;
    assert_eq!(
        value(Opcode::Swizzle, &[i8x16(b), i8x16(selector)], I8X16),
        i8x16(expected)
    );
}

#[test]
fn single_lanes() {
    let function = empty_function();
    let mut s = state(&function);
    assert_eq!(value(Opcode::Splat, &[i32v(7)], I32X4), i32x4([7; 4]));
    let data = InstructionData::TernaryImm8 { opcode: Opcode::Insertlane, imm: 2 };
    let inserted = run(&mut s, data, &[i32x4([1, 2, 3, 4]), i32v(9)], I32X4, None);
    assert_eq!(assigned(inserted), [i32x4([1, 2, 9, 4])]);
    let data = InstructionData::BinaryImm8 { opcode: Opcode::Extractlane, imm: 3 };
    let extracted = run(&mut s, data, &[i32x4([1, 2, 3, 4])], I32X4, None);
    assert_eq!(assigned(extracted), [i32v(4)]);
}

#[test]
fn summaries_of_lanes() {
    assert_eq!(
        converted(Opcode::VhighBits, i32x4([-1, 0, 1, -5]), I32X4, I8),
        i8v(0b1001)
    );
    assert_eq!(
        converted(Opcode::VhighBits, i8x16([-1; 16]), I8X16, I32),
        i32v(0xffff)
    );
    assert_eq!(value(Opcode::VanyTrue, &[i32x4([0, 0, 5, 0])], I32X4), i8v(1));
    assert_eq!(value(Opcode::VanyTrue, &[i32x4([0; 4])], I32X4), i8v(0));
    assert_eq!(value(Opcode::VallTrue, &[i32x4([-1; 4])], I32X4), i8v(1));
    assert_eq!(value(Opcode::VallTrue, &[i32x4([-1, -1, 0, -1])], I32X4), i8v(0));
}

#[test]
fn lanes_round_trip() {
    let x = i32x4([1, -2, 3, -4]);
    let lanes = extractlanes(&x, I32X4).unwrap();
    assert_eq!(lanes, [i32v(1), i32v(-2), i32v(3), i32v(-4)]);
    assert_eq!(vectorizelanes(&lanes, I32X4), Ok(x));
    let floats = f64x2([0.5, -0.5]);
    let lanes = extractlanes(&floats, F64X2).unwrap();
    assert_eq!(lanes, [d(0.5), d(-0.5)]);
    assert_eq!(vectorizelanes(&lanes, F64X2), Ok(floats));
    // A scalar is its own single lane.
    assert_eq!(extractlanes(&i32v(5), I32X4).unwrap(), [i32v(5)]);
    assert_eq!(vectorizelanes(&vec![i32v(5)], I32X4), Ok(i32v(5)));
    assert_eq!(vectorizelanes_all(&vec![i32v(5)], I32X4), Ok(i32x4([5, 0, 0, 0])));
}

#[test]
fn short_vectors_round_trip() {
    let i16x4 = Type::Vector(LaneType::I16, Lanes::X4);
    let lanes = vec![i16v(1), i16v(-2), i16v(3), i16v(-4)];
    let v = vectorizelanes(&lanes, i16x4).unwrap();
    assert_eq!(v, i16x8([1, -2, 3, -4, 0, 0, 0, 0]));
    assert_eq!(extractlanes(&v, i16x4).unwrap(), lanes);
    assert_eq!(vectorizelanes(&extractlanes(&v, i16x4).unwrap(), i16x4), Ok(v));
    let f32x2 = Type::Vector(LaneType::F32, Lanes::X2);
    let floats = vec![f(0.5), f(f32::NAN)];
    let v = vectorizelanes_all(&floats, f32x2).unwrap();
    assert_eq!(extractlanes(&v, f32x2).unwrap(), floats);
}

#[test]
fn involutions() {
    let vector = i16x8([1, -2, 3, -4, 0x7fff, -0x8000, 0, -1]);
    for op in [UnaryOp::Not, UnaryOp::ReverseBits, UnaryOp::SwapBytes] {
        let once = apply_unary(vector, I16X8, op, false).unwrap();
        assert_ne!(once, vector);
        assert_eq!(apply_unary(once, I16X8, op, false), Ok(vector));
        let once = apply_unary(i32v(77), I32, op, false).unwrap();
        assert_eq!(apply_unary(once, I32, op, false), Ok(i32v(77)));
    }
    // Taking a value from -1 is not one of the operations that instructions name.
    let mirror = |x: Val| Value::integer(-1, Value::ty(&x)).and_then(|m: Val| Value::sub(m, x));
    let once = unary_arith(vector, I16X8, mirror, false).unwrap();
    assert_eq!(once, i16x8([-2, 1, -4, 3, -0x8000, 0x7fff, -1, 0]));
    assert_eq!(unary_arith(once, I16X8, mirror, false), Ok(vector));
    assert_eq!(unary_arith(i32v(77), I32, mirror, false), Ok(i32v(-78)));
    assert_eq!(unary_arith(i32v(-78), I32, mirror, false), Ok(i32v(77)));
}

#[test]
fn opposite_and_mirrored_integer_conditions() {
    // A condition, its opposite, and its mirror image.
    let cases = [
        (IntCC::Equal, IntCC::NotEqual, IntCC::Equal),
        (IntCC::NotEqual, IntCC::Equal, IntCC::NotEqual),
        (IntCC::SignedLessThan, IntCC::SignedGreaterThanOrEqual, IntCC::SignedGreaterThan),
        (IntCC::SignedGreaterThan, IntCC::SignedLessThanOrEqual, IntCC::SignedLessThan),
        (IntCC::UnsignedLessThan, IntCC::UnsignedGreaterThanOrEqual, IntCC::UnsignedGreaterThan),
        (IntCC::UnsignedGreaterThan, IntCC::UnsignedLessThanOrEqual, IntCC::UnsignedLessThan),
        (
            IntCC::SignedLessThanOrEqual,
            IntCC::SignedGreaterThan,
            IntCC::SignedGreaterThanOrEqual,
        ),
        (
            IntCC::UnsignedLessThanOrEqual,
            IntCC::UnsignedGreaterThan,
            IntCC::UnsignedGreaterThanOrEqual,
        ),
    ];
    let (x, y) = (i32x4([1, -2, 3, -4]), i32x4([-1, 2, 3, 4]));
    for (code, opposite, mirror) in cases {
        let r = icmp(I32X4, code, &x, &y).unwrap();
        assert_eq!(icmp(I32X4, opposite, &x, &y), r.not());
        assert_eq!(icmp(I32X4, mirror, &y, &x), Ok(r));
        for (a, b) in [(i32v(1), i32v(-1)), (i32v(-1), i32v(1)), (i32v(1), i32v(1))] {
            let one = icmp(I32, code, &a, &b).unwrap();
            let other = icmp(I32, opposite, &a, &b).unwrap();
            assert_eq!(one.add(other), Ok(i8v(1)));
            assert_eq!(icmp(I32, mirror, &b, &a), Ok(one));
        }
    }
}

#[test]
fn opposite_and_mirrored_float_conditions() {
    // A condition, its opposite, and its mirror image.
    let cases = [
        (FloatCC::Ordered, FloatCC::Unordered, FloatCC::Ordered),
        (FloatCC::Equal, FloatCC::NotEqual, FloatCC::Equal),
        (FloatCC::OrderedNotEqual, FloatCC::UnorderedOrEqual, FloatCC::OrderedNotEqual),
        (
            FloatCC::LessThan,
            FloatCC::UnorderedOrGreaterThanOrEqual,
            FloatCC::GreaterThan,
        ),
        (
            FloatCC::LessThanOrEqual,
            FloatCC::UnorderedOrGreaterThan,
            FloatCC::GreaterThanOrEqual,
        ),
        (
            FloatCC::UnorderedOrLessThan,
            FloatCC::GreaterThanOrEqual,
            FloatCC::UnorderedOrGreaterThan,
        ),
        (
            FloatCC::UnorderedOrLessThanOrEqual,
            FloatCC::GreaterThan,
            FloatCC::UnorderedOrGreaterThanOrEqual,
        ),
    ];
    let floats = [d(1.0), d(2.0), d(f64::NAN)];
    for (code, opposite, mirror) in cases {
        for x in &floats {
            for y in &floats {
                let b = fcmp(code, x, y).unwrap();
                assert_eq!(fcmp(opposite, x, y), Ok(!b));
                assert_eq!(fcmp(mirror, y, x), Ok(b));
            }
        }
    }
}

#[test]
fn complemented_masks() {
    let (c, x, y) = (i8v(0x3c), i8v(0x55), i8v(0x0f));
    let selected = bitselect(c, x, y);
    assert_eq!(selected, Ok(i8v(0x17)));
    assert_eq!(bitselect(c.not().unwrap(), y, x), selected);
}

#[test]
fn any_operation_lane_by_lane() {
    let (x, y) = (i32x4([1, 2, 3, 4]), i32x4([5, 6, 7, 8]));
    // The square of each lane.
    let square = |a: Val| Value::mul(a, a);
    assert_eq!(unary_arith(y, I32X4, square, false), Ok(i32x4([25, 36, 49, 64])));
    // Twice the first operand less the second one.
    let op = |a: Val, b: Val| Value::add(a, a).and_then(|twice: Val| Value::sub(twice, b));
    assert_eq!(binary_arith(x, y, I32X4, op, false), Ok(i32x4([-3, -2, -1, 0])));
    assert_eq!(binary_arith(i32v(1), i32v(5), I32, op, false), Ok(i32v(-3)));
    assert_eq!(binary_pairwise(x, y, I32X4, op), Ok(i32x4([0, 2, 4, 6])));
    assert_eq!(fold_vector(x, I32X4, i32v(1), op), Ok(i32v(-10)));
    assert_eq!(fold_vector(i32v(5), I32, i32v(1), op), Ok(i32v(-3)));
    // A function of the trait serves as well as a closure.
    assert_eq!(unary_arith(x, I32X4, Value::not, false), Ok(i32x4([-2, -3, -4, -5])));
    assert_eq!(binary_arith(x, y, I32X4, Value::add, false), Ok(i32x4([6, 8, 10, 12])));
    // An operand that is read as unsigned reaches the operation as such.
    assert_eq!(
        unary_arith(i8v(-1), I8, |a: Val| Ok(a), true),
        Ok(Val::Int { raw: 255, bits: 8, signed: false })
    );
}

#[test]
fn first_failing_lane_decides() {
    let (x, y) = (i32x4([1, 2, 3, 4]), i32x4([4, 3, 2, 1]));
    let check = |a: Val| {
        if a == i32v(2) {
            Err(ValueError::IntegerOverflow)
        } else if a == i32v(3) {
            Err(ValueError::InvalidInteger)
        } else {
            Ok(a)
        }
    };
    let both = |a: Val, b: Val| check(a).and_then(|_| check(b));
    assert_eq!(unary_arith(x, I32X4, check, false), Err(ValueError::IntegerOverflow));
    assert_eq!(unary_arith(y, I32X4, check, false), Err(ValueError::InvalidInteger));
    assert_eq!(binary_arith(x, y, I32X4, both, false), Err(ValueError::IntegerOverflow));
    assert_eq!(binary_pairwise(y, x, I32X4, both), Err(ValueError::InvalidInteger));
    // An operation that keeps count sees the lanes in order, up to the one that fails.
    let mut seen: Vec<Val> = Vec::new();
    let result = fold_vector(y, I32X4, i32v(0), |acc: Val, lane: Val| {
        seen.push(lane);
        check(lane).map(|_| acc)
    });
    assert_eq!(result, Err(ValueError::InvalidInteger));
    assert_eq!(seen, [i32v(4), i32v(3)]);
}

#[test]
fn helpers_on_values() {
    assert_eq!(bitselect(i8v(0x0f), i8v(0x55), i8v(0x33)), Ok(i8v(0x35)));
    assert_eq!(sum(i32v(1), &vec![i32v(2), i32v(3)]), Ok(6));
    assert_eq!(sum(i32v(1), &Vec::new()), Ok(1));
    assert_eq!(
        apply_unary(i8v(1), I8, UnaryOp::LeadingZeros, false),
        Ok(i8v(7))
    );
    assert_eq!(
        apply_binary(i8v(-1), i8v(2), I8, BinaryOp::Div, true),
        Ok(Val::Int { raw: 127, bits: 8, signed: false })
    );
    assert_eq!(
        apply_pairwise(i32x4([1, 2, 3, 4]), i32x4([5, 6, 7, 8]), I32X4, BinaryOp::Mul),
        Ok(i32x4([2, 12, 30, 56]))
    );
    assert_eq!(
        apply_fold(i32x4([1, 2, 3, 4]), I32X4, i32v(100), BinaryOp::Sub),
        Ok(i32v(90))
    );
    assert_eq!(icmp(I32, IntCC::Equal, &i32v(1), &i32v(1)), Ok(i8v(1)));
    assert_eq!(
        sum(i32v(1), &vec![i64v(2)]),
        Err(ValueError::InvalidDataValueCast(I32, I64))
    );
}

#[test]
fn signatures() {
    let param = |ty: Type| AbiParam { value_type: ty };
    let sig = [param(I32), param(I16X8)];
    assert!(validate_signature_params(&sig, &vec![i32v(1), i32x4([0; 4])]));
    assert!(!validate_signature_params(&sig, &vec![i64v(1), i32x4([0; 4])]));
    assert!(!validate_signature_params(&sig, &vec![i32v(1), i32v(0)]));
    // Only what both lists have is compared.
    assert!(validate_signature_params(&sig, &vec![i32v(1)]));
    assert!(validate_signature_params(&sig[..1], &vec![i32v(1), i64v(1)]));
}

fn target(block: u32, args: &[u32]) -> BlockCall {
    BlockCall { block: Block(block), args: args.iter().map(|n| ValueRef(*n)).collect() }
}

fn destination(outcome: Outcome) -> (u32, Vec<Val>) {
    match outcome {
        Ok(ControlFlow::ContinueAt(block, args)) => (block.0, args),
        other => panic!("{:?}", other),
    }
}

#[test]
fn branches() {
    let function = Function {
        jump_tables: vec![JumpTableData {
            default_block: target(9, &[]),
            table: vec![target(1, &[0]), target(2, &[])],
        }],
        ..empty_function()
    };
    let mut s = state(&function);
    s.values.insert(5, i32v(50));
    let data = InstructionData::Jump { opcode: Opcode::Jump, destination: target(3, &[5]) };
    assert_eq!(destination(run(&mut s, data, &[], Type::Special, None)), (3, vec![i32v(50)]));
    let brif = InstructionData::Brif {
        opcode: Opcode::Brif,
        arg: ValueRef(0),
        block_then: target(1, &[5, 5]),
        block_else: target(2, &[]),
    };
    let taken = run(&mut s, brif.clone(), &[i32v(4)], I32, None);
    assert_eq!(destination(taken), (1, vec![i32v(50), i32v(50)]));
    let not_taken = run(&mut s, brif, &[i32v(0)], I32, None);
    assert_eq!(destination(not_taken), (2, vec![]));
    let table = InstructionData::BranchTable { opcode: Opcode::BrTable, table: JumpTable(0) };
    for (index, block) in [(0, 1), (1, 2), (2, 9), (-1, 9), (i32::MAX, 9)] {
        let outcome = run(&mut s, table.clone(), &[i32v(index)], I32, None);
        assert_eq!(destination(outcome).0, block);
    }
    // A parameter without a value is an error.
    let data = InstructionData::Jump { opcode: Opcode::Jump, destination: target(3, &[77]) };
    let outcome = run(&mut s, data, &[], Type::Special, None);
    assert!(matches!(outcome, Err(StepError::UnknownValue(ValueRef(77)))));
}

#[test]
fn traps() {
    let function = empty_function();
    let mut s = state(&function);
    let code = TrapCode::UnreachableCodeReached;
    let data = InstructionData::Trap { opcode: Opcode::Trap, code };
    let outcome = run(&mut s, data, &[], Type::Special, None);
    assert_eq!(outcome.unwrap().unwrap_trap(), CraneliftTrap::User(code));
    let data = InstructionData::NullAry { opcode: Opcode::Debugtrap };
    let outcome = run(&mut s, data, &[], Type::Special, None);
    assert_eq!(outcome.unwrap().unwrap_trap(), CraneliftTrap::Debug);
    let data = InstructionData::Trap { opcode: Opcode::ResumableTrap, code };
    let outcome = run(&mut s, data, &[], Type::Special, None);
    assert_eq!(outcome.unwrap().unwrap_trap(), CraneliftTrap::Resumable);
    let conditional = [
        (Opcode::Trapz, 0, Some(CraneliftTrap::User(code))),
        (Opcode::Trapz, 1, None),
        (Opcode::Trapnz, 0, None),
        (Opcode::Trapnz, 1, Some(CraneliftTrap::User(code))),
        (Opcode::ResumableTrapnz, 0, None),
        (Opcode::ResumableTrapnz, 1, Some(CraneliftTrap::Resumable)),
    ];
    for (opcode, n, expected) in conditional {
        let data = InstructionData::CondTrap { opcode, code };
        match run(&mut s, data, &[i8v(n)], I8, None) {
            Ok(ControlFlow::Trap(trap)) => assert_eq!(Some(trap), expected),
            Ok(ControlFlow::Continue) => assert_eq!(None, expected),
            other => panic!("{:?}", other),
        }
    }
}

#[test]
fn returned_values() {
    let function = empty_function();
    let mut s = state(&function);
    let data = InstructionData::MultiAry { opcode: Opcode::Return };
    let outcome = run(&mut s, data, &[i32v(1), i64v(2)], Type::Special, None);
    assert_eq!(outcome.unwrap().unwrap_return(), [i32v(1), i64v(2)]);
}

fn callee() -> Function {
    Function {
        signature: Signature {
            params: vec![AbiParam { value_type: I32 }],
            returns: vec![AbiParam { value_type: I32 }],
        },
        ..empty_function()
    }
}

fn caller() -> Function {
    let names = [
        ExternalName::User(0),
        ExternalName::LibCall(LibCall::FloorF32),
        ExternalName::TestCase(vec![b'f']),
        ExternalName::LibCall(LibCall::CeilF64),
    ];
    let ext_funcs = names.iter().map(|name| ExtFuncData { name: name.clone() }).collect();
    Function { ext_funcs, ..empty_function() }
}

#[test]
fn calls() {
    let (caller, callee) = (caller(), callee());
    let mut s = state(&caller);
    s.functions.push(&callee);
    let call = |opcode: Opcode, n: u32| InstructionData::Call { opcode, func_ref: FuncRef(n) };
    match run(&mut s, call(Opcode::Call, 0), &[i32v(5)], Type::Special, None) {
        Ok(ControlFlow::Call(func, args)) => {
            assert_eq!(*func, callee);
            assert_eq!(args, [i32v(5)]);
        }
        other => panic!("{:?}", other),
    }
    match run(&mut s, call(Opcode::ReturnCall, 0), &[i32v(5)], Type::Special, None) {
        Ok(ControlFlow::ReturnCall(func, args)) => {
            assert_eq!(*func, callee);
            assert_eq!(args, [i32v(5)]);
        }
        other => panic!("{:?}", other),
    }
    let bad = run(&mut s, call(Opcode::Call, 0), &[i64v(5)], Type::Special, None);
    assert_eq!(bad.unwrap().unwrap_trap(), CraneliftTrap::User(TrapCode::BadSignature));
    // Declared, but not in the store of functions; and not even declared.
    for n in [2, 77] {
        let unknown = run(&mut s, call(Opcode::Call, n), &[i32v(5)], Type::Special, None);
        assert!(matches!(unknown, Err(StepError::UnknownFunction(FuncRef(m))) if m == n));
    }
}

#[test]
fn library_calls() {
    let caller = caller();
    let mut s = state(&caller);
    let call = |n: u32| InstructionData::Call { opcode: Opcode::Call, func_ref: FuncRef(n) };
    let floor = run(&mut s, call(1), &[f(1.5)], Type::Special, None);
    assert_eq!(assigned(floor), [f(1.0)]);
    // The reply of the routine decides, if it has the right type.
    let bad_signature = CraneliftTrap::User(TrapCode::BadSignature);
    s.reply = Ok(vec![d(2.0)]);
    assert_eq!(assigned(run(&mut s, call(3), &[d(1.5)], Type::Special, None)), [d(2.0)]);
    s.reply = Ok(vec![f(2.0)]);
    let outcome = run(&mut s, call(3), &[d(1.5)], Type::Special, None);
    assert_eq!(outcome.unwrap().unwrap_trap(), bad_signature);
    s.reply = Err(TrapCode::Interrupt);
    let outcome = run(&mut s, call(3), &[d(1.5)], Type::Special, None);
    assert_eq!(outcome.unwrap().unwrap_trap(), CraneliftTrap::User(TrapCode::Interrupt));
    let outcome = run(&mut s, call(3), &[f(1.5)], Type::Special, None);
    assert_eq!(outcome.unwrap().unwrap_trap(), bad_signature);
    // The part after the call, on its own.
    let ret_params = vec![AbiParam { value_type: F64 }];
    assert!(matches!(
        finish_libcall(&ret_params, Ok(vec![d(1.0)])),
        ControlFlow::Assign(values) if values == [d(1.0)]
    ));
    let wrong: ControlFlow<'_, Val> = finish_libcall(&ret_params, Ok(vec![f(1.0)]));
    assert_eq!(wrong.unwrap_trap(), bad_signature);
}

#[test]
fn indirect_calls() {
    let (caller, callee) = (caller(), callee());
    let mut s = state(&caller);
    s.functions.push(&callee);
    let data = |opcode: Opcode| InstructionData::CallIndirect { opcode };
    let args = [i64v(0x1000), i32v(5)];
    match run(&mut s, data(Opcode::CallIndirect), &args, Type::Special, None) {
        Ok(ControlFlow::Call(func, args)) => {
            assert_eq!(*func, callee);
            assert_eq!(args, [i32v(5)]);
        }
        other => panic!("{:?}", other),
    }
    let tail = run(&mut s, data(Opcode::ReturnCallIndirect), &args, Type::Special, None);
    assert!(matches!(tail, Ok(ControlFlow::ReturnCall(_, _))));
    let args = [i64v(0x2000), f(2.5)];
    let floor = run(&mut s, data(Opcode::CallIndirect), &args, Type::Special, None);
    assert_eq!(assigned(floor), [f(2.0)]);
    // No function there, and no address at all.
    for addr in [0x1234, 0x12_3456] {
        let args = [i64v(addr), i32v(5)];
        let outcome = run(&mut s, data(Opcode::CallIndirect), &args, Type::Special, None);
        let expected = MemoryError::InvalidAddress(DataValue::U64(addr as u64));
        assert!(matches!(outcome, Err(StepError::MemoryError(e)) if e == expected));
    }
}

#[test]
fn function_addresses() {
    let caller = caller();
    let mut s = state(&caller);
    let addr = |n: u32| InstructionData::FuncAddr {
        opcode: Opcode::FuncAddr,
        func_ref: FuncRef(n),
    };
    assert_eq!(assigned(run(&mut s, addr(0), &[], I64, None)), [i64v(0x1000)]);
    assert_eq!(assigned(run(&mut s, addr(0), &[], I32, None)), [i32v(0x1000)]);
    let out_of_bounds = CraneliftTrap::User(TrapCode::HeapOutOfBounds);
    for (n, ty) in [(2, I64), (0, I8)] {
        let outcome = run(&mut s, addr(n), &[], ty, None);
        assert_eq!(outcome.unwrap().unwrap_trap(), out_of_bounds);
    }
    let outcome = run(&mut s, addr(77), &[], I64, None);
    assert!(matches!(outcome, Err(StepError::UnknownFunction(FuncRef(77)))));
}

fn load(opcode: Opcode, offset: i32, flags: MemFlags) -> InstructionData {
    InstructionData::Load { opcode, flags, offset }
}

fn store(opcode: Opcode, offset: i32, flags: MemFlags) -> InstructionData {
    InstructionData::Store { opcode, flags, offset }
}

#[test]
fn loads() {
    let function = empty_function();
    let mut s = state(&function);
    s.memory[8] = 0xff;
    s.memory[9] = 0xfe;
    let at = [i64v(6)];
    let mut loaded = |opcode: Opcode, ty: Type| {
        assigned(run(&mut s, load(opcode, 2, PLAIN), &at, ty, None))[0]
    };
    assert_eq!(loaded(Opcode::Load, I16), int_of(0xfeff, 16));
    assert_eq!(loaded(Opcode::Uload8, I32), i32v(0xff));
    assert_eq!(loaded(Opcode::Sload8, I32), i32v(-1));
    assert_eq!(loaded(Opcode::Uload16, I32), i32v(0xfeff));
    assert_eq!(loaded(Opcode::Sload16, I32), i32v(-257));
    assert_eq!(loaded(Opcode::Uload32, I64), i64v(0x0b0a_feff));
    assert_eq!(loaded(Opcode::Sload32, I64), i64v(0x0b0a_feff));
}

#[test]
fn stores() {
    let function = empty_function();
    let mut s = state(&function);
    let cases = [
        (Opcode::Store, vec![0x44, 0x33, 0x22, 0x11]),
        (Opcode::Istore8, vec![0x44, 0, 0, 0]),
        (Opcode::Istore16, vec![0x44, 0x33, 0, 0]),
        (Opcode::Istore32, vec![0x44, 0x33, 0x22, 0x11]),
    ];
    for (opcode, expected) in cases {
        s.memory = vec![0; 64];
        let args = [i32v(0x1122_3344), i64v(8), i64v(1)];
        let outcome = run(&mut s, store(opcode, 3, PLAIN), &args, I32, None);
        assert!(matches!(outcome, Ok(ControlFlow::Continue)));
        assert_eq!(s.memory[12..16], expected);
        assert!(s.memory[..12].iter().chain(&s.memory[16..]).all(|b| *b == 0));
    }
}

#[test]
fn failed_accesses_are_traps() {
    let function = empty_function();
    let mut s = state(&function);
    let out_of_bounds = CraneliftTrap::User(TrapCode::HeapOutOfBounds);
    let misaligned = CraneliftTrap::User(TrapCode::HeapMisaligned);
    let cases = [
        (load(Opcode::Load, 0, PLAIN), vec![i64v(62)], out_of_bounds),
        (load(Opcode::Load, 0, PLAIN), vec![i64v(0x100_0000)], out_of_bounds),
        (load(Opcode::Sload32, 0, ALIGNED), vec![i64v(2)], misaligned),
        (store(Opcode::Store, 0, PLAIN), vec![i32v(1), i64v(62)], out_of_bounds),
        (store(Opcode::Store, 0, PLAIN), vec![i32v(1), i64v(-1)], out_of_bounds),
        (store(Opcode::Store, 0, ALIGNED), vec![i32v(1), i64v(2)], misaligned),
    ];
    for (data, args, expected) in cases {
        let before = s.memory.clone();
        let outcome = run(&mut s, data, &args, I32, None);
        assert_eq!(outcome.unwrap().unwrap_trap(), expected);
        assert_eq!(s.memory, before);
    }
}

#[test]
fn stack_slots() {
    let function = empty_function();
    let mut s = state(&function);
    let slot = StackSlot(1);
    let data = InstructionData::StackStore { opcode: Opcode::StackStore, stack_slot: slot, offset: 4 };
    let outcome = run(&mut s, data, &[i32v(-2)], I32, None);
    assert!(matches!(outcome, Ok(ControlFlow::Continue)));
    assert_eq!(s.memory[52..56], [0xfe, 0xff, 0xff, 0xff]);
    let at = |opcode: Opcode, offset: i32| InstructionData::StackLoad {
        opcode,
        stack_slot: slot,
        offset,
    };
    assert_eq!(assigned(run(&mut s, at(Opcode::StackLoad, 4), &[], I32, None)), [i32v(-2)]);
    assert_eq!(assigned(run(&mut s, at(Opcode::StackAddr, 4), &[], I64, None)), [i64v(52)]);
    for opcode in [Opcode::StackLoad, Opcode::StackAddr] {
        let outcome = run(&mut s, at(opcode, 16), &[], I64, None);
        let expected = CraneliftTrap::User(TrapCode::HeapOutOfBounds);
        assert_eq!(outcome.unwrap().unwrap_trap(), expected);
    }
}

#[test]
fn globals_and_the_pinned_register() {
    let function = empty_function();
    let mut s = state(&function);
    s.globals.insert(3, i64v(33));
    let global = |n: u32| InstructionData::UnaryGlobalValue {
        opcode: Opcode::GlobalValue,
        global_value: GlobalValue(n),
    };
    assert_eq!(assigned(run(&mut s, global(3), &[], I64, None)), [i64v(33)]);
    let outcome = run(&mut s, global(4), &[], I64, None);
    assert_eq!(
        outcome.unwrap().unwrap_trap(),
        CraneliftTrap::User(TrapCode::HeapOutOfBounds)
    );
    let data = InstructionData::Unary { opcode: Opcode::SetPinnedReg };
    let outcome = run(&mut s, data, &[i64v(12)], I64, None);
    assert!(matches!(outcome, Ok(ControlFlow::Continue)));
    assert_eq!(s.pinned, i64v(12));
    let data = InstructionData::NullAry { opcode: Opcode::GetPinnedReg };
    assert_eq!(assigned(run(&mut s, data, &[], I64, None)), [i64v(12)]);
}

#[test]
fn table_addresses() {
    let table = |base: u32| TableData {
        base_gv: GlobalValue(base),
        bound_gv: GlobalValue(1),
        element_size: 8,
        index_type: I64,
    };
    let function = Function { tables: vec![table(0), table(7)], ..empty_function() };
    let mut s = state(&function);
    s.globals.insert(0, i64v(1000));
    s.globals.insert(1, i64v(4));
    let data = |n: u32, offset: i32| InstructionData::TableAddr {
        opcode: Opcode::TableAddr,
        table: Table(n),
        offset,
    };
    let addr = run(&mut s, data(0, 4), &[i64v(3)], I64, None);
    assert_eq!(assigned(addr), [i64v(1028)]);
    // One past the end is still inside.
    let addr = run(&mut s, data(0, 0), &[i64v(4)], I64, None);
    assert_eq!(assigned(addr), [i64v(1032)]);
    let outside = run(&mut s, data(0, 1), &[i64v(4)], I64, None);
    assert_eq!(
        outside.unwrap().unwrap_trap(),
        CraneliftTrap::User(TrapCode::HeapOutOfBounds)
    );
    // A base that cannot be resolved is an error, not a trap.
    let unresolved = run(&mut s, data(1, 0), &[i64v(0)], I64, None);
    let expected = MemoryError::InvalidEntry { entry: 7, max: 0 };
    assert!(matches!(unresolved, Err(StepError::MemoryError(e)) if e == expected));
}

#[test]
fn atomic_updates() {
    let function = empty_function();
    let mut s = state(&function);
    let cases = [
        (AtomicRmwOp::Xchg, 10, -3, -3),
        (AtomicRmwOp::Add, 10, -3, 7),
        (AtomicRmwOp::Sub, 10, -3, 13),
        (AtomicRmwOp::And, 0b1100, 0b1010, 0b1000),
        (AtomicRmwOp::Nand, 0b1100, 0b1010, !0b1000),
        (AtomicRmwOp::Or, 0b1100, 0b1010, 0b1110),
        (AtomicRmwOp::Xor, 0b1100, 0b1010, 0b0110),
        (AtomicRmwOp::Smax, 10, -3, 10),
        (AtomicRmwOp::Smin, 10, -3, -3),
        (AtomicRmwOp::Umax, 10, -3, -3),
        (AtomicRmwOp::Umin, 10, -3, 10),
    ];
    for (op, before, operand, after) in cases {
        s.memory[8] = before as u8;
        let data = InstructionData::AtomicRmw { opcode: Opcode::AtomicRmw, flags: PLAIN, op };
        let previous = run(&mut s, data, &[i64v(8), i8v(operand)], I8, None);
        assert_eq!(assigned(previous), [i8v(before)]);
        assert_eq!(s.memory[8], after as u8);
    }
}

#[test]
fn compare_and_swap() {
    let function = empty_function();
    let mut s = state(&function);
    s.memory[8] = 5;
    let data = InstructionData::AtomicCas { opcode: Opcode::AtomicCas, flags: PLAIN };
    let unequal = run(&mut s, data.clone(), &[i64v(8), i8v(4), i8v(9)], I8, None);
    assert_eq!(assigned(unequal), [i8v(5)]);
    assert_eq!(s.memory[8], 5);
    let equal = run(&mut s, data.clone(), &[i64v(8), i8v(5), i8v(9)], I8, None);
    assert_eq!(assigned(equal), [i8v(5)]);
    assert_eq!(s.memory[8], 9);
    let outside = run(&mut s, data, &[i64v(64), i8v(5), i8v(9)], I8, None);
    assert_eq!(
        outside.unwrap().unwrap_trap(),
        CraneliftTrap::User(TrapCode::HeapOutOfBounds)
    );
}

#[test]
fn atomic_accesses() {
    let function = empty_function();
    let mut s = state(&function);
    let data = InstructionData::StoreNoOffset { opcode: Opcode::AtomicStore, flags: PLAIN };
    let outcome = run(&mut s, data, &[i16v(0x1234), i64v(20)], I16, None);
    assert!(matches!(outcome, Ok(ControlFlow::Continue)));
    let data = InstructionData::LoadNoOffset { opcode: Opcode::AtomicLoad, flags: PLAIN };
    assert_eq!(assigned(run(&mut s, data, &[i64v(20)], I16, None)), [i16v(0x1234)]);
    let data = InstructionData::NullAry { opcode: Opcode::Fence };
    let outcome = run(&mut s, data, &[], Type::Special, None);
    assert!(matches!(outcome, Ok(ControlFlow::Continue)));
}

#[test]
fn missing_values_are_errors() {
    let function = empty_function();
    let mut s = state(&function);
    s.values.insert(0, i32v(1));
    let c = inst(InstructionData::Binary { opcode: Opcode::Iadd }, 2, I32);
    assert!(matches!(step(&mut s, c), Err(StepError::UnknownValue(ValueRef(1)))));
    // A minimum looks at its second argument first.
    s.values.clear();
    let c = inst(InstructionData::Binary { opcode: Opcode::Smin }, 2, I32);
    assert!(matches!(step(&mut s, c), Err(StepError::UnknownValue(ValueRef(1)))));
    let c = inst(InstructionData::Binary { opcode: Opcode::Smax }, 2, I32);
    assert!(matches!(step(&mut s, c), Err(StepError::UnknownValue(ValueRef(0)))));
}

#[test]
fn only_stores_change_the_memory() {
    let function = empty_function();
    let mut s = state(&function);
    let before = s.memory.clone();
    for opcode in [Opcode::Iadd, Opcode::Imul, Opcode::Band, Opcode::Smin] {
        let data = InstructionData::Binary { opcode };
        assigned(run(&mut s, data, &[i32v(3), i32v(4)], I32, None));
    }
    assigned(run(&mut s, load(Opcode::Load, 0, PLAIN), &[i64v(4)], I32, None));
    assert_eq!(s.memory, before);
    assert_eq!(s.pinned, i64v(0));
}
