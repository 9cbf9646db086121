//! Values: what the interpreter asks of the values that instructions compute with.
use crate::types::Type;
use vstd::prelude::*;

verus! {

/// An immediate operand. Floats are given by their bits.
#[derive(Clone, PartialEq, Eq, Debug, Hash)]
pub enum DataValue {
    I8(i8),
    I16(i16),
    I32(i32),
    I64(i64),
    I128(i128),
    U8(u8),
    U16(u16),
    U32(u32),
    U64(u64),
    U128(u128),
    F32(u32),
    F64(u64),
    V128([u8; 16]),
    V64([u8; 8]),
}

/// The mathematical content of an immediate operand.
pub enum Datum {
    I8(i8),
    I16(i16),
    I32(i32),
    I64(i64),
    I128(i128),
    U8(u8),
    U16(u16),
    U32(u32),
    U64(u64),
    U128(u128),
    F32(u32),
    F64(u64),
    V128(Seq<u8>),
    V64(Seq<u8>),
}

impl View for DataValue {
    type V = Datum;

    open spec fn view(&self) -> Datum {
        match *self {
            DataValue::I8(n) => Datum::I8(n),
            DataValue::I16(n) => Datum::I16(n),
            DataValue::I32(n) => Datum::I32(n),
            DataValue::I64(n) => Datum::I64(n),
            DataValue::I128(n) => Datum::I128(n),
            DataValue::U8(n) => Datum::U8(n),
            DataValue::U16(n) => Datum::U16(n),
            DataValue::U32(n) => Datum::U32(n),
            DataValue::U64(n) => Datum::U64(n),
            DataValue::U128(n) => Datum::U128(n),
            DataValue::F32(bits) => Datum::F32(bits),
            DataValue::F64(bits) => Datum::F64(bits),
            DataValue::V128(bytes) => Datum::V128(bytes@),
            DataValue::V64(bytes) => Datum::V64(bytes@),
        }
    }
}

/// A class of types, named in errors.
#[derive(Clone, Copy, PartialEq, Eq, Structural, Debug, Hash)]
pub enum ValueTypeClass {
    Integer,
    Boolean,
    Float,
    Vector,
}

/// Why an operation on values failed.
#[derive(Clone, Copy, PartialEq, Eq, Structural, Debug, Hash)]
pub enum ValueError {
    /// A value of the given type is not of the class that the operation needs.
    InvalidType(ValueTypeClass, Type),
    /// The value has no counterpart in the given type.
    InvalidValue(Type),
    /// An integer did not fit.
    InvalidInteger,
    /// A value of the first type cannot be cast to the second.
    InvalidDataValueCast(Type, Type),
    /// A division by zero.
    IntegerDivisionByZero,
    /// An operation that overflowed its integer type.
    IntegerOverflow,
}

/// What an operation on values gives.
pub type ValueResult<T> = Result<T, ValueError>;

/// The ways to convert a value.
#[derive(Clone, Copy, PartialEq, Eq, Structural, Debug, Hash)]
pub enum ValueConversionKind {
    /// Keep the bits.
    Exact(Type),
    /// Keep the low bits.
    Truncate(Type),
    /// Keep the high bits.
    ExtractUpper(Type),
    /// Widen, repeating the sign.
    SignExtend(Type),
    /// Widen with zeros.
    ZeroExtend(Type),
    /// Read as an unsigned integer.
    ToUnsigned,
    /// Read as a signed integer.
    ToSigned,
    /// Round a float to the nearest one of the given type.
    RoundNearestEven(Type),
    /// Whether the value is not zero.
    ToBoolean,
    /// All bits set if the value is true, none otherwise.
    Mask(Type),
}

/// The bytes in a result.
pub open spec fn bytes_of(r: ValueResult<[u8; 16]>) -> ValueResult<Seq<u8>> {
    match r {
        Ok(bytes) => Ok(bytes@),
        Err(e) => Err(e),
    }
}

/// A value that instructions compute with.
///
/// The interpreter asks only that each operation is a function of its operands: what an operation
/// gives, and when it fails, is up to the implementation. The specification function that goes
/// with an operation names what it gives; as it stands here it says nothing about that, and an
/// implementation that is verified itself defines it.
pub trait Value: Sized {
    /// The type of the value.
    closed spec fn spec_ty(self) -> Type {
        arbitrary()
    }

    /// The type of the value.
    fn ty(&self) -> (ty: Type)
        ensures
            ty == self.spec_ty(),
    ;

    /// Another copy of the value.
    fn duplicate(&self) -> (copy: Self)
        ensures
            copy == *self,
    ;

    /// The value that an immediate stands for.
    closed spec fn spec_from_data(data: Datum) -> Self {
        arbitrary()
    }

    /// The value that an immediate stands for.
    fn from_data(data: DataValue) -> (v: Self)
        ensures
            v == Self::spec_from_data(data@),
    ;

    /// The integer `n` as a value of type `ty`.
    closed spec fn spec_integer(n: int, ty: Type) -> ValueResult<Self> {
        arbitrary()
    }

    /// The integer `n` as a value of type `ty`.
    fn integer(n: i128, ty: Type) -> (r: ValueResult<Self>)
        ensures
            r == Self::spec_integer(n as int, ty),
    ;

    /// The value as an integer.
    closed spec fn spec_into_int(self) -> ValueResult<i128> {
        arbitrary()
    }

    /// The value as an integer.
    fn into_int(self) -> (r: ValueResult<i128>)
        ensures
            r == self.spec_into_int(),
    ;

    /// The float with the given bits as a value of type `ty`.
    closed spec fn spec_float(bits: u64, ty: Type) -> ValueResult<Self> {
        arbitrary()
    }

    /// The float with the given bits as a value of type `ty`.
    fn float(bits: u64, ty: Type) -> (r: ValueResult<Self>)
        ensures
            r == Self::spec_float(bits, ty),
    ;

    /// The bits of the value as a float of double precision.
    closed spec fn spec_into_float(self) -> ValueResult<u64> {
        arbitrary()
    }

    /// The bits of the value as a float of double precision.
    fn into_float(self) -> (r: ValueResult<u64>)
        ensures
            r == self.spec_into_float(),
    ;

    /// The truth value `b` as a value of type `ty`; an element of a vector if `vec_elem`.
    closed spec fn spec_boolean(b: bool, vec_elem: bool, ty: Type) -> ValueResult<Self> {
        arbitrary()
    }

    /// The truth value `b` as a value of type `ty`; an element of a vector if `vec_elem`.
    fn boolean(b: bool, vec_elem: bool, ty: Type) -> (r: ValueResult<Self>)
        ensures
            r == Self::spec_boolean(b, vec_elem, ty),
    ;

    /// The value as a truth value.
    closed spec fn spec_into_bool(self) -> ValueResult<bool> {
        arbitrary()
    }

    /// The value as a truth value.
    fn into_bool(self) -> (r: ValueResult<bool>)
        ensures
            r == self.spec_into_bool(),
    ;

    /// The vector of type `ty` with the given bytes.
    closed spec fn spec_vector(bytes: Seq<u8>, ty: Type) -> ValueResult<Self> {
        arbitrary()
    }

    /// The vector of type `ty` with the given bytes.
    fn vector(bytes: [u8; 16], ty: Type) -> (r: ValueResult<Self>)
        ensures
            r == Self::spec_vector(bytes@, ty),
    ;

    /// The bytes of a vector.
    closed spec fn spec_into_array(self) -> ValueResult<Seq<u8>> {
        arbitrary()
    }

    /// The bytes of a vector.
    fn into_array(&self) -> (r: ValueResult<[u8; 16]>)
        ensures
            bytes_of(r) == self.spec_into_array(),
    ;

    /// The value converted to another type.
    closed spec fn spec_convert(self, kind: ValueConversionKind) -> ValueResult<Self> {
        arbitrary()
    }

    /// The value converted to another type.
    fn convert(self, kind: ValueConversionKind) -> (r: ValueResult<Self>)
        ensures
            r == self.spec_convert(kind),
    ;

    /// Whether the value is not a number.
    closed spec fn spec_is_nan(self) -> ValueResult<bool> {
        arbitrary()
    }

    /// Whether the value is not a number.
    fn is_nan(&self) -> (r: ValueResult<bool>)
        ensures
            r == self.spec_is_nan(),
    ;

    /// Whether the value is zero.
    closed spec fn spec_is_zero(self) -> ValueResult<bool> {
        arbitrary()
    }

    /// Whether the value is zero.
    fn is_zero(&self) -> (r: ValueResult<bool>)
        ensures
            r == self.spec_is_zero(),
    ;

    /// Whether the value is negative.
    closed spec fn spec_is_negative(self) -> ValueResult<bool> {
        arbitrary()
    }

    /// Whether the value is negative.
    fn is_negative(&self) -> (r: ValueResult<bool>)
        ensures
            r == self.spec_is_negative(),
    ;

    /// Whether the two values are equal.
    closed spec fn spec_eq(self, other: Self) -> ValueResult<bool> {
        arbitrary()
    }

    /// Whether the two values are equal.
    fn eq(&self, other: &Self) -> (r: ValueResult<bool>)
        ensures
            r == self.spec_eq(*other),
    ;

    /// Whether the value is greater than the other.
    closed spec fn spec_gt(self, other: Self) -> ValueResult<bool> {
        arbitrary()
    }

    /// Whether the value is greater than the other.
    fn gt(&self, other: &Self) -> (r: ValueResult<bool>)
        ensures
            r == self.spec_gt(*other),
    ;

    /// Whether the value is greater than or equal to the other.
    closed spec fn spec_ge(self, other: Self) -> ValueResult<bool> {
        arbitrary()
    }

    /// Whether the value is greater than or equal to the other.
    fn ge(&self, other: &Self) -> (r: ValueResult<bool>)
        ensures
            r == self.spec_ge(*other),
    ;

    /// Whether the value is less than the other.
    closed spec fn spec_lt(self, other: Self) -> ValueResult<bool> {
        arbitrary()
    }

    /// Whether the value is less than the other.
    fn lt(&self, other: &Self) -> (r: ValueResult<bool>)
        ensures
            r == self.spec_lt(*other),
    ;

    /// Whether the value is less than or equal to the other.
    closed spec fn spec_le(self, other: Self) -> ValueResult<bool> {
        arbitrary()
    }

    /// Whether the value is less than or equal to the other.
    fn le(&self, other: &Self) -> (r: ValueResult<bool>)
        ensures
            r == self.spec_le(*other),
    ;

    /// Whether the two values are unordered.
    closed spec fn spec_uno(self, other: Self) -> ValueResult<bool> {
        arbitrary()
    }

    /// Whether the two values are unordered.
    fn uno(&self, other: &Self) -> (r: ValueResult<bool>)
        ensures
            r == self.spec_uno(*other),
    ;

    /// Give the bitwise complement.
    closed spec fn spec_not(self) -> ValueResult<Self> {
        arbitrary()
    }

    /// Give the bitwise complement.
    fn not(self) -> (r: ValueResult<Self>)
        ensures
            r == self.spec_not(),
    ;

    /// Give the negation.
    closed spec fn spec_neg(self) -> ValueResult<Self> {
        arbitrary()
    }

    /// Give the negation.
    fn neg(self) -> (r: ValueResult<Self>)
        ensures
            r == self.spec_neg(),
    ;

    /// Give the absolute value.
    closed spec fn spec_abs(self) -> ValueResult<Self> {
        arbitrary()
    }

    /// Give the absolute value.
    fn abs(self) -> (r: ValueResult<Self>)
        ensures
            r == self.spec_abs(),
    ;

    /// Give the square root.
    closed spec fn spec_sqrt(self) -> ValueResult<Self> {
        arbitrary()
    }

    /// Give the square root.
    fn sqrt(self) -> (r: ValueResult<Self>)
        ensures
            r == self.spec_sqrt(),
    ;

    /// Give rounding up.
    closed spec fn spec_ceil(self) -> ValueResult<Self> {
        arbitrary()
    }

    /// Give rounding up.
    fn ceil(self) -> (r: ValueResult<Self>)
        ensures
            r == self.spec_ceil(),
    ;

    /// Give rounding down.
    closed spec fn spec_floor(self) -> ValueResult<Self> {
        arbitrary()
    }

    /// Give rounding down.
    fn floor(self) -> (r: ValueResult<Self>)
        ensures
            r == self.spec_floor(),
    ;

    /// Give rounding towards zero.
    closed spec fn spec_trunc(self) -> ValueResult<Self> {
        arbitrary()
    }

    /// Give rounding towards zero.
    fn trunc(self) -> (r: ValueResult<Self>)
        ensures
            r == self.spec_trunc(),
    ;

    /// Give rounding to the nearest integer.
    closed spec fn spec_nearest(self) -> ValueResult<Self> {
        arbitrary()
    }

    /// Give rounding to the nearest integer.
    fn nearest(self) -> (r: ValueResult<Self>)
        ensures
            r == self.spec_nearest(),
    ;

    /// Give the number of bits that are set.
    closed spec fn spec_count_ones(self) -> ValueResult<Self> {
        arbitrary()
    }

    /// Give the number of bits that are set.
    fn count_ones(self) -> (r: ValueResult<Self>)
        ensures
            r == self.spec_count_ones(),
    ;

    /// Give the number of leading bits that are set.
    closed spec fn spec_leading_ones(self) -> ValueResult<Self> {
        arbitrary()
    }

    /// Give the number of leading bits that are set.
    fn leading_ones(self) -> (r: ValueResult<Self>)
        ensures
            r == self.spec_leading_ones(),
    ;

    /// Give the number of leading bits that are clear.
    closed spec fn spec_leading_zeros(self) -> ValueResult<Self> {
        arbitrary()
    }

    /// Give the number of leading bits that are clear.
    fn leading_zeros(self) -> (r: ValueResult<Self>)
        ensures
            r == self.spec_leading_zeros(),
    ;

    /// Give the number of trailing bits that are clear.
    closed spec fn spec_trailing_zeros(self) -> ValueResult<Self> {
        arbitrary()
    }

    /// Give the number of trailing bits that are clear.
    fn trailing_zeros(self) -> (r: ValueResult<Self>)
        ensures
            r == self.spec_trailing_zeros(),
    ;

    /// Give the bits in reverse order.
    closed spec fn spec_reverse_bits(self) -> ValueResult<Self> {
        arbitrary()
    }

    /// Give the bits in reverse order.
    fn reverse_bits(self) -> (r: ValueResult<Self>)
        ensures
            r == self.spec_reverse_bits(),
    ;

    /// Give the bytes in reverse order.
    closed spec fn spec_swap_bytes(self) -> ValueResult<Self> {
        arbitrary()
    }

    /// Give the bytes in reverse order.
    fn swap_bytes(self) -> (r: ValueResult<Self>)
        ensures
            r == self.spec_swap_bytes(),
    ;

    /// Give the sum.
    closed spec fn spec_add(self, other: Self) -> ValueResult<Self> {
        arbitrary()
    }

    /// Give the sum.
    fn add(self, other: Self) -> (r: ValueResult<Self>)
        ensures
            r == self.spec_add(other),
    ;

    /// Give the difference.
    closed spec fn spec_sub(self, other: Self) -> ValueResult<Self> {
        arbitrary()
    }

    /// Give the difference.
    fn sub(self, other: Self) -> (r: ValueResult<Self>)
        ensures
            r == self.spec_sub(other),
    ;

    /// Give the product.
    closed spec fn spec_mul(self, other: Self) -> ValueResult<Self> {
        arbitrary()
    }

    /// Give the product.
    fn mul(self, other: Self) -> (r: ValueResult<Self>)
        ensures
            r == self.spec_mul(other),
    ;

    /// Give the quotient.
    closed spec fn spec_div(self, other: Self) -> ValueResult<Self> {
        arbitrary()
    }

    /// Give the quotient.
    fn div(self, other: Self) -> (r: ValueResult<Self>)
        ensures
            r == self.spec_div(other),
    ;

    /// Give the remainder.
    closed spec fn spec_rem(self, other: Self) -> ValueResult<Self> {
        arbitrary()
    }

    /// Give the remainder.
    fn rem(self, other: Self) -> (r: ValueResult<Self>)
        ensures
            r == self.spec_rem(other),
    ;

    /// Give the sum, saturating.
    closed spec fn spec_add_sat(self, other: Self) -> ValueResult<Self> {
        arbitrary()
    }

    /// Give the sum, saturating.
    fn add_sat(self, other: Self) -> (r: ValueResult<Self>)
        ensures
            r == self.spec_add_sat(other),
    ;

    /// Give the difference, saturating.
    closed spec fn spec_sub_sat(self, other: Self) -> ValueResult<Self> {
        arbitrary()
    }

    /// Give the difference, saturating.
    fn sub_sat(self, other: Self) -> (r: ValueResult<Self>)
        ensures
            r == self.spec_sub_sat(other),
    ;

    /// Give the bitwise conjunction.
    closed spec fn spec_and(self, other: Self) -> ValueResult<Self> {
        arbitrary()
    }

    /// Give the bitwise conjunction.
    fn and(self, other: Self) -> (r: ValueResult<Self>)
        ensures
            r == self.spec_and(other),
    ;

    /// Give the bitwise disjunction.
    closed spec fn spec_or(self, other: Self) -> ValueResult<Self> {
        arbitrary()
    }

    /// Give the bitwise disjunction.
    fn or(self, other: Self) -> (r: ValueResult<Self>)
        ensures
            r == self.spec_or(other),
    ;

    /// Give the bitwise exclusive disjunction.
    closed spec fn spec_xor(self, other: Self) -> ValueResult<Self> {
        arbitrary()
    }

    /// Give the bitwise exclusive disjunction.
    fn xor(self, other: Self) -> (r: ValueResult<Self>)
        ensures
            r == self.spec_xor(other),
    ;

    /// Give a shift to the left.
    closed spec fn spec_shl(self, other: Self) -> ValueResult<Self> {
        arbitrary()
    }

    /// Give a shift to the left.
    fn shl(self, other: Self) -> (r: ValueResult<Self>)
        ensures
            r == self.spec_shl(other),
    ;

    /// Give a logical shift to the right.
    closed spec fn spec_ushr(self, other: Self) -> ValueResult<Self> {
        arbitrary()
    }

    /// Give a logical shift to the right.
    fn ushr(self, other: Self) -> (r: ValueResult<Self>)
        ensures
            r == self.spec_ushr(other),
    ;

    /// Give an arithmetic shift to the right.
    closed spec fn spec_ishr(self, other: Self) -> ValueResult<Self> {
        arbitrary()
    }

    /// Give an arithmetic shift to the right.
    fn ishr(self, other: Self) -> (r: ValueResult<Self>)
        ensures
            r == self.spec_ishr(other),
    ;

    /// Give a rotation to the left.
    closed spec fn spec_rotl(self, other: Self) -> ValueResult<Self> {
        arbitrary()
    }

    /// Give a rotation to the left.
    fn rotl(self, other: Self) -> (r: ValueResult<Self>)
        ensures
            r == self.spec_rotl(other),
    ;

    /// Give a rotation to the right.
    closed spec fn spec_rotr(self, other: Self) -> ValueResult<Self> {
        arbitrary()
    }

    /// Give a rotation to the right.
    fn rotr(self, other: Self) -> (r: ValueResult<Self>)
        ensures
            r == self.spec_rotr(other),
    ;

    /// Give the greater of two values.
    closed spec fn spec_max(self, other: Self) -> ValueResult<Self> {
        arbitrary()
    }

    /// Give the greater of two values.
    fn max(self, other: Self) -> (r: ValueResult<Self>)
        ensures
            r == self.spec_max(other),
    ;

    /// Give the lesser of two values.
    closed spec fn spec_min(self, other: Self) -> ValueResult<Self> {
        arbitrary()
    }

    /// Give the lesser of two values.
    fn min(self, other: Self) -> (r: ValueResult<Self>)
        ensures
            r == self.spec_min(other),
    ;

    /// Give the magnitude of the first with the sign of the second.
    closed spec fn spec_copysign(self, other: Self) -> ValueResult<Self> {
        arbitrary()
    }

    /// Give the magnitude of the first with the sign of the second.
    fn copysign(self, other: Self) -> (r: ValueResult<Self>)
        ensures
            r == self.spec_copysign(other),
    ;

    /// Give the value whose low half is the first and whose high half is the second.
    closed spec fn spec_concat(self, other: Self) -> ValueResult<Self> {
        arbitrary()
    }

    /// Give the value whose low half is the first and whose high half is the second.
    fn concat(self, other: Self) -> (r: ValueResult<Self>)
        ensures
            r == self.spec_concat(other),
    ;

    /// The sum, or `None` if it overflows.
    closed spec fn spec_checked_add(self, other: Self) -> ValueResult<Option<Self>> {
        arbitrary()
    }

    /// The sum, or `None` if it overflows.
    fn checked_add(self, other: Self) -> (r: ValueResult<Option<Self>>)
        ensures
            r == self.spec_checked_add(other),
    ;

    /// The product with `factor`, plus `term`, rounded once.
    closed spec fn spec_fma(self, factor: Self, term: Self) -> ValueResult<Self> {
        arbitrary()
    }

    /// The product with `factor`, plus `term`, rounded once.
    fn fma(self, factor: Self, term: Self) -> (r: ValueResult<Self>)
        ensures
            r == self.spec_fma(factor, term),
    ;
}

/// An operation on one value.
#[derive(Clone, Copy, PartialEq, Eq, Structural, Debug, Hash)]
pub enum UnaryOp {
    Not,
    Neg,
    Abs,
    Sqrt,
    Ceil,
    Floor,
    Trunc,
    Nearest,
    CountOnes,
    LeadingZeros,
    TrailingZeros,
    ReverseBits,
    SwapBytes,
}

/// An operation on two values.
#[derive(Clone, Copy, PartialEq, Eq, Structural, Debug, Hash)]
pub enum BinaryOp {
    Add,
    Sub,
    Mul,
    Div,
    Rem,
    AddSat,
    SubSat,
    And,
    Or,
    Xor,
    Shl,
    Ushr,
    Ishr,
    Rotl,
    Rotr,
    Copysign,
}

impl UnaryOp {
    /// What the operation gives on `x`.
    pub open spec fn result<V: Value>(self, x: V) -> ValueResult<V> {
        match self {
            UnaryOp::Not => x.spec_not(),
            UnaryOp::Neg => x.spec_neg(),
            UnaryOp::Abs => x.spec_abs(),
            UnaryOp::Sqrt => x.spec_sqrt(),
            UnaryOp::Ceil => x.spec_ceil(),
            UnaryOp::Floor => x.spec_floor(),
            UnaryOp::Trunc => x.spec_trunc(),
            UnaryOp::Nearest => x.spec_nearest(),
            UnaryOp::CountOnes => x.spec_count_ones(),
            UnaryOp::LeadingZeros => x.spec_leading_zeros(),
            UnaryOp::TrailingZeros => x.spec_trailing_zeros(),
            UnaryOp::ReverseBits => x.spec_reverse_bits(),
            UnaryOp::SwapBytes => x.spec_swap_bytes(),
        }
    }

    /// Perform the operation on `x`.
    pub fn apply<V: Value>(self, x: V) -> (r: ValueResult<V>)
        ensures
            r == self.result(x),
    {
        match self {
            UnaryOp::Not => V::not(x),
            UnaryOp::Neg => V::neg(x),
            UnaryOp::Abs => V::abs(x),
            UnaryOp::Sqrt => V::sqrt(x),
            UnaryOp::Ceil => V::ceil(x),
            UnaryOp::Floor => V::floor(x),
            UnaryOp::Trunc => V::trunc(x),
            UnaryOp::Nearest => V::nearest(x),
            UnaryOp::CountOnes => V::count_ones(x),
            UnaryOp::LeadingZeros => V::leading_zeros(x),
            UnaryOp::TrailingZeros => V::trailing_zeros(x),
            UnaryOp::ReverseBits => V::reverse_bits(x),
            UnaryOp::SwapBytes => V::swap_bytes(x),
        }
    }
}

impl BinaryOp {
    /// What the operation gives on `x` and `y`.
    pub open spec fn result<V: Value>(self, x: V, y: V) -> ValueResult<V> {
        match self {
            BinaryOp::Add => x.spec_add(y),
            BinaryOp::Sub => x.spec_sub(y),
            BinaryOp::Mul => x.spec_mul(y),
            BinaryOp::Div => x.spec_div(y),
            BinaryOp::Rem => x.spec_rem(y),
            BinaryOp::AddSat => x.spec_add_sat(y),
            BinaryOp::SubSat => x.spec_sub_sat(y),
            BinaryOp::And => x.spec_and(y),
            BinaryOp::Or => x.spec_or(y),
            BinaryOp::Xor => x.spec_xor(y),
            BinaryOp::Shl => x.spec_shl(y),
            BinaryOp::Ushr => x.spec_ushr(y),
            BinaryOp::Ishr => x.spec_ishr(y),
            BinaryOp::Rotl => x.spec_rotl(y),
            BinaryOp::Rotr => x.spec_rotr(y),
            BinaryOp::Copysign => x.spec_copysign(y),
        }
    }

    /// Perform the operation on `x` and `y`.
    pub fn apply<V: Value>(self, x: V, y: V) -> (r: ValueResult<V>)
        ensures
            r == self.result(x, y),
    {
        match self {
            BinaryOp::Add => V::add(x, y),
            BinaryOp::Sub => V::sub(x, y),
            BinaryOp::Mul => V::mul(x, y),
            BinaryOp::Div => V::div(x, y),
            BinaryOp::Rem => V::rem(x, y),
            BinaryOp::AddSat => V::add_sat(x, y),
            BinaryOp::SubSat => V::sub_sat(x, y),
            BinaryOp::And => V::and(x, y),
            BinaryOp::Or => V::or(x, y),
            BinaryOp::Xor => V::xor(x, y),
            BinaryOp::Shl => V::shl(x, y),
            BinaryOp::Ushr => V::ushr(x, y),
            BinaryOp::Ishr => V::ishr(x, y),
            BinaryOp::Rotl => V::rotl(x, y),
            BinaryOp::Rotr => V::rotr(x, y),
            BinaryOp::Copysign => V::copysign(x, y),
        }
    }
}

} // verus!
