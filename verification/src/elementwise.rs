//! Instructions that apply one operation to each lane of their operands: most of integer, bitwise
//! and floating point arithmetic.
use crate::arith::{apply_binary, apply_unary, binary_vector, unary_vector};
use crate::eval::{eval, Eval};
use crate::flow::{
    assign_or_trap, assign_result, assigned_or_trapped, assigned_result, eval_action, lift, lifted,
    ActionResult, Effect, StepError,
};
use crate::ir::Opcode;
use crate::operands::{arg, arg_value, imm_as_ctrl_ty, imm_as_ctrl_value};
use crate::state::{InstructionContext, State};
use crate::types::Type;
use crate::value::{BinaryOp, UnaryOp, Value, ValueConversionKind, ValueError, ValueResult};
use vstd::prelude::*;

verus! {

/// Where the two operands of an operation come from.
#[derive(Clone, Copy, PartialEq, Eq, Structural, Debug, Hash)]
pub enum Operands {
    /// Both are arguments.
    Values,
    /// The second one is the immediate.
    Immediate,
    /// The first one is the immediate.
    ImmediateFirst,
    /// Both are arguments, the second one with all bits flipped.
    InvertedSecond,
    /// The first one is zero.
    FromZero,
}

/// How an instruction combines two operands.
#[derive(Clone, Copy, PartialEq, Eq, Structural, Debug, Hash)]
pub struct BinaryShape {
    pub op: BinaryOp,
    pub operands: Operands,
    /// Whether the operands are read as unsigned integers.
    pub unsigned: bool,
    /// Whether the result is read as a signed integer again.
    pub to_signed: bool,
    /// Whether a division by zero and an overflow are traps, rather than errors.
    pub traps: bool,
}

impl BinaryShape {
    /// An operation on the operands as they are.
    pub open spec fn spec_plain(op: BinaryOp, operands: Operands) -> BinaryShape {
        BinaryShape { op, operands, unsigned: false, to_signed: false, traps: false }
    }

    /// An operation on the operands as they are.
    #[verifier::when_used_as_spec(spec_plain)]
    pub fn plain(op: BinaryOp, operands: Operands) -> (shape: BinaryShape)
        ensures
            shape == BinaryShape::spec_plain(op, operands),
    {
        BinaryShape { op, operands, unsigned: false, to_signed: false, traps: false }
    }

    /// An operation on the unsigned form of the operands. Since Cranelift types have no notion of
    /// signedness, this enables operations that depend on sign; `to_signed` converts the result
    /// back to signed form.
    pub open spec fn spec_unsigned(op: BinaryOp, operands: Operands, to_signed: bool) -> BinaryShape {
        BinaryShape { op, operands, unsigned: true, to_signed, traps: false }
    }

    /// An operation on the unsigned form of the operands.
    #[verifier::when_used_as_spec(spec_unsigned)]
    pub fn unsigned(op: BinaryOp, operands: Operands, to_signed: bool) -> (shape: BinaryShape)
        ensures
            shape == BinaryShape::spec_unsigned(op, operands, to_signed),
    {
        BinaryShape { op, operands, unsigned: true, to_signed, traps: false }
    }

    /// A division of integers; an unsigned one gives its result back in signed form.
    pub open spec fn spec_division(op: BinaryOp, operands: Operands, unsigned: bool) -> BinaryShape {
        BinaryShape { op, operands, unsigned, to_signed: unsigned, traps: true }
    }

    /// A division of integers; an unsigned one gives its result back in signed form.
    #[verifier::when_used_as_spec(spec_division)]
    pub fn division(op: BinaryOp, operands: Operands, unsigned: bool) -> (shape: BinaryShape)
        ensures
            shape == BinaryShape::spec_division(op, operands, unsigned),
    {
        BinaryShape { op, operands, unsigned, to_signed: unsigned, traps: true }
    }

    /// The result on two operands, which are vectors of type `ty` or scalars.
    pub open spec fn result<V: Value>(self, x: V, y: V, ty: Type) -> Eval<V, ValueError> {
        let r = binary_vector(x, y, ty, self.op, self.unsigned);
        if self.to_signed {
            r.bind(|v: V| eval(v.spec_convert(ValueConversionKind::ToSigned)))
        } else {
            r
        }
    }

    fn apply<V: Value>(self, x: V, y: V, ty: Type) -> (r: ValueResult<V>)
        requires
            self.result(x, y, ty).defined(),
        ensures
            eval(r) == self.result(x, y, ty),
    {
        let v: V = apply_binary(x, y, ty, self.op, self.unsigned)?;
        if self.to_signed {
            v.convert(ValueConversionKind::ToSigned)
        } else {
            Ok(v)
        }
    }
}

/// How an instruction combines two operands, if that is what it does.
pub open spec fn binary_shape(op: Opcode) -> Option<BinaryShape> {
    match op {
        Opcode::Iadd | Opcode::Fadd => Some(BinaryShape::plain(BinaryOp::Add, Operands::Values)),
        Opcode::IaddImm => Some(BinaryShape::plain(BinaryOp::Add, Operands::Immediate)),
        Opcode::Isub | Opcode::Fsub => Some(BinaryShape::plain(BinaryOp::Sub, Operands::Values)),
        Opcode::IrsubImm => Some(BinaryShape::plain(BinaryOp::Sub, Operands::ImmediateFirst)),
        Opcode::Ineg => Some(BinaryShape::plain(BinaryOp::Sub, Operands::FromZero)),
        Opcode::Imul | Opcode::Fmul => Some(BinaryShape::plain(BinaryOp::Mul, Operands::Values)),
        Opcode::ImulImm => Some(BinaryShape::plain(BinaryOp::Mul, Operands::Immediate)),
        Opcode::Fdiv => Some(BinaryShape::plain(BinaryOp::Div, Operands::Values)),
        Opcode::Udiv => Some(BinaryShape::division(BinaryOp::Div, Operands::Values, true)),
        Opcode::UdivImm => Some(BinaryShape::division(BinaryOp::Div, Operands::Immediate, true)),
        Opcode::Sdiv => Some(BinaryShape::division(BinaryOp::Div, Operands::Values, false)),
        Opcode::SdivImm => Some(BinaryShape::division(BinaryOp::Div, Operands::Immediate, false)),
        Opcode::Urem => Some(BinaryShape::division(BinaryOp::Rem, Operands::Values, true)),
        Opcode::UremImm => Some(BinaryShape::division(BinaryOp::Rem, Operands::Immediate, true)),
        Opcode::Srem => Some(BinaryShape::division(BinaryOp::Rem, Operands::Values, false)),
        Opcode::SremImm => Some(BinaryShape::division(BinaryOp::Rem, Operands::Immediate, false)),
        Opcode::UaddSat => Some(BinaryShape::unsigned(BinaryOp::AddSat, Operands::Values, false)),
        Opcode::SaddSat => Some(BinaryShape::plain(BinaryOp::AddSat, Operands::Values)),
        Opcode::UsubSat => Some(BinaryShape::unsigned(BinaryOp::SubSat, Operands::Values, false)),
        Opcode::SsubSat => Some(BinaryShape::plain(BinaryOp::SubSat, Operands::Values)),
        Opcode::Band => Some(BinaryShape::plain(BinaryOp::And, Operands::Values)),
        Opcode::BandNot => Some(BinaryShape::plain(BinaryOp::And, Operands::InvertedSecond)),
        Opcode::BandImm => Some(BinaryShape::plain(BinaryOp::And, Operands::Immediate)),
        Opcode::Bor => Some(BinaryShape::plain(BinaryOp::Or, Operands::Values)),
        Opcode::BorNot => Some(BinaryShape::plain(BinaryOp::Or, Operands::InvertedSecond)),
        Opcode::BorImm => Some(BinaryShape::plain(BinaryOp::Or, Operands::Immediate)),
        Opcode::Bxor => Some(BinaryShape::plain(BinaryOp::Xor, Operands::Values)),
        Opcode::BxorNot => Some(BinaryShape::plain(BinaryOp::Xor, Operands::InvertedSecond)),
        Opcode::BxorImm => Some(BinaryShape::plain(BinaryOp::Xor, Operands::Immediate)),
        Opcode::Rotl => Some(BinaryShape::plain(BinaryOp::Rotl, Operands::Values)),
        Opcode::RotlImm => Some(BinaryShape::plain(BinaryOp::Rotl, Operands::Immediate)),
        Opcode::Rotr => Some(BinaryShape::plain(BinaryOp::Rotr, Operands::Values)),
        Opcode::RotrImm => Some(BinaryShape::plain(BinaryOp::Rotr, Operands::Immediate)),
        Opcode::Ishl => Some(BinaryShape::plain(BinaryOp::Shl, Operands::Values)),
        Opcode::IshlImm => Some(BinaryShape::plain(BinaryOp::Shl, Operands::Immediate)),
        Opcode::Sshr => Some(BinaryShape::plain(BinaryOp::Ishr, Operands::Values)),
        Opcode::SshrImm => Some(BinaryShape::plain(BinaryOp::Ishr, Operands::Immediate)),
        Opcode::Ushr => Some(BinaryShape::unsigned(BinaryOp::Ushr, Operands::Values, true)),
        Opcode::UshrImm => Some(BinaryShape::unsigned(BinaryOp::Ushr, Operands::Immediate, true)),
        Opcode::Fcopysign => Some(BinaryShape::plain(BinaryOp::Copysign, Operands::Values)),
        _ => None,
    }
}

fn get_binary_shape(op: Opcode) -> (shape: Option<BinaryShape>)
    ensures
        shape == binary_shape(op),
{
    match op {
        Opcode::Iadd | Opcode::Fadd => Some(BinaryShape::plain(BinaryOp::Add, Operands::Values)),
        Opcode::IaddImm => Some(BinaryShape::plain(BinaryOp::Add, Operands::Immediate)),
        Opcode::Isub | Opcode::Fsub => Some(BinaryShape::plain(BinaryOp::Sub, Operands::Values)),
        Opcode::IrsubImm => Some(BinaryShape::plain(BinaryOp::Sub, Operands::ImmediateFirst)),
        Opcode::Ineg => Some(BinaryShape::plain(BinaryOp::Sub, Operands::FromZero)),
        Opcode::Imul | Opcode::Fmul => Some(BinaryShape::plain(BinaryOp::Mul, Operands::Values)),
        Opcode::ImulImm => Some(BinaryShape::plain(BinaryOp::Mul, Operands::Immediate)),
        Opcode::Fdiv => Some(BinaryShape::plain(BinaryOp::Div, Operands::Values)),
        Opcode::Udiv => Some(BinaryShape::division(BinaryOp::Div, Operands::Values, true)),
        Opcode::UdivImm => Some(BinaryShape::division(BinaryOp::Div, Operands::Immediate, true)),
        Opcode::Sdiv => Some(BinaryShape::division(BinaryOp::Div, Operands::Values, false)),
        Opcode::SdivImm => Some(BinaryShape::division(BinaryOp::Div, Operands::Immediate, false)),
        Opcode::Urem => Some(BinaryShape::division(BinaryOp::Rem, Operands::Values, true)),
        Opcode::UremImm => Some(BinaryShape::division(BinaryOp::Rem, Operands::Immediate, true)),
        Opcode::Srem => Some(BinaryShape::division(BinaryOp::Rem, Operands::Values, false)),
        Opcode::SremImm => Some(BinaryShape::division(BinaryOp::Rem, Operands::Immediate, false)),
        Opcode::UaddSat => Some(BinaryShape::unsigned(BinaryOp::AddSat, Operands::Values, false)),
        Opcode::SaddSat => Some(BinaryShape::plain(BinaryOp::AddSat, Operands::Values)),
        Opcode::UsubSat => Some(BinaryShape::unsigned(BinaryOp::SubSat, Operands::Values, false)),
        Opcode::SsubSat => Some(BinaryShape::plain(BinaryOp::SubSat, Operands::Values)),
        Opcode::Band => Some(BinaryShape::plain(BinaryOp::And, Operands::Values)),
        Opcode::BandNot => Some(BinaryShape::plain(BinaryOp::And, Operands::InvertedSecond)),
        Opcode::BandImm => Some(BinaryShape::plain(BinaryOp::And, Operands::Immediate)),
        Opcode::Bor => Some(BinaryShape::plain(BinaryOp::Or, Operands::Values)),
        Opcode::BorNot => Some(BinaryShape::plain(BinaryOp::Or, Operands::InvertedSecond)),
        Opcode::BorImm => Some(BinaryShape::plain(BinaryOp::Or, Operands::Immediate)),
        Opcode::Bxor => Some(BinaryShape::plain(BinaryOp::Xor, Operands::Values)),
        Opcode::BxorNot => Some(BinaryShape::plain(BinaryOp::Xor, Operands::InvertedSecond)),
        Opcode::BxorImm => Some(BinaryShape::plain(BinaryOp::Xor, Operands::Immediate)),
        Opcode::Rotl => Some(BinaryShape::plain(BinaryOp::Rotl, Operands::Values)),
        Opcode::RotlImm => Some(BinaryShape::plain(BinaryOp::Rotl, Operands::Immediate)),
        Opcode::Rotr => Some(BinaryShape::plain(BinaryOp::Rotr, Operands::Values)),
        Opcode::RotrImm => Some(BinaryShape::plain(BinaryOp::Rotr, Operands::Immediate)),
        Opcode::Ishl => Some(BinaryShape::plain(BinaryOp::Shl, Operands::Values)),
        Opcode::IshlImm => Some(BinaryShape::plain(BinaryOp::Shl, Operands::Immediate)),
        Opcode::Sshr => Some(BinaryShape::plain(BinaryOp::Ishr, Operands::Values)),
        Opcode::SshrImm => Some(BinaryShape::plain(BinaryOp::Ishr, Operands::Immediate)),
        Opcode::Ushr => Some(BinaryShape::unsigned(BinaryOp::Ushr, Operands::Values, true)),
        Opcode::UshrImm => Some(BinaryShape::unsigned(BinaryOp::Ushr, Operands::Immediate, true)),
        Opcode::Fcopysign => Some(BinaryShape::plain(BinaryOp::Copysign, Operands::Values)),
        _ => None,
    }
}

/// The operation that an instruction applies to its argument, if that is what it does.
pub open spec fn unary_op(op: Opcode) -> Option<UnaryOp> {
    match op {
        Opcode::Bnot => Some(UnaryOp::Not),
        Opcode::Fneg => Some(UnaryOp::Neg),
        Opcode::Fabs => Some(UnaryOp::Abs),
        Opcode::Sqrt => Some(UnaryOp::Sqrt),
        Opcode::Ceil => Some(UnaryOp::Ceil),
        Opcode::Floor => Some(UnaryOp::Floor),
        Opcode::Trunc => Some(UnaryOp::Trunc),
        Opcode::Nearest => Some(UnaryOp::Nearest),
        Opcode::Bitrev => Some(UnaryOp::ReverseBits),
        Opcode::Bswap => Some(UnaryOp::SwapBytes),
        Opcode::Clz => Some(UnaryOp::LeadingZeros),
        Opcode::Ctz => Some(UnaryOp::TrailingZeros),
        _ => None,
    }
}

fn get_unary_op(op: Opcode) -> (r: Option<UnaryOp>)
    ensures
        r == unary_op(op),
{
    match op {
        Opcode::Bnot => Some(UnaryOp::Not),
        Opcode::Fneg => Some(UnaryOp::Neg),
        Opcode::Fabs => Some(UnaryOp::Abs),
        Opcode::Sqrt => Some(UnaryOp::Sqrt),
        Opcode::Ceil => Some(UnaryOp::Ceil),
        Opcode::Floor => Some(UnaryOp::Floor),
        Opcode::Trunc => Some(UnaryOp::Trunc),
        Opcode::Nearest => Some(UnaryOp::Nearest),
        Opcode::Bitrev => Some(UnaryOp::ReverseBits),
        Opcode::Bswap => Some(UnaryOp::SwapBytes),
        Opcode::Clz => Some(UnaryOp::LeadingZeros),
        Opcode::Ctz => Some(UnaryOp::TrailingZeros),
        _ => None,
    }
}

/// The conversion to type `ty` that an instruction makes of its argument, if that is what it does.
pub open spec fn conversion(op: Opcode, ty: Type) -> Option<ValueConversionKind> {
    match op {
        Opcode::Ireduce => Some(ValueConversionKind::Truncate(ty)),
        Opcode::Sextend => Some(ValueConversionKind::SignExtend(ty)),
        Opcode::Uextend => Some(ValueConversionKind::ZeroExtend(ty)),
        Opcode::Fpromote => Some(ValueConversionKind::Exact(ty)),
        Opcode::Fdemote => Some(ValueConversionKind::RoundNearestEven(ty)),
        _ => None,
    }
}

fn get_conversion(op: Opcode, ty: Type) -> (r: Option<ValueConversionKind>)
    ensures
        r == conversion(op, ty),
{
    match op {
        Opcode::Ireduce => Some(ValueConversionKind::Truncate(ty)),
        Opcode::Sextend => Some(ValueConversionKind::SignExtend(ty)),
        Opcode::Uextend => Some(ValueConversionKind::ZeroExtend(ty)),
        Opcode::Fpromote => Some(ValueConversionKind::Exact(ty)),
        Opcode::Fdemote => Some(ValueConversionKind::RoundNearestEven(ty)),
        _ => None,
    }
}

/// The first operand.
pub open spec fn first_operand<'a, V: Value, S: State<'a, V>, I: InstructionContext>(
    s: S,
    c: I,
    ty: Type,
    operands: Operands,
) -> Eval<V, StepError> {
    match operands {
        Operands::ImmediateFirst => imm_as_ctrl_value(s, c, ty),
        Operands::FromZero => lifted(eval(V::spec_integer(0, ty))),
        _ => arg_value(s, c, 0),
    }
}

/// The second operand.
pub open spec fn second_operand<'a, V: Value, S: State<'a, V>, I: InstructionContext>(
    s: S,
    c: I,
    ty: Type,
    operands: Operands,
) -> Eval<V, StepError> {
    match operands {
        Operands::Values => arg_value(s, c, 1),
        Operands::Immediate => imm_as_ctrl_value(s, c, ty),
        Operands::InvertedSecond => arg_value(s, c, 1).bind(|v: V| lifted(eval(v.spec_not()))),
        Operands::ImmediateFirst | Operands::FromZero => arg_value(s, c, 0),
    }
}

/// Instructions with two operands.
pub open spec fn binary_effect<'a, V: Value, S: State<'a, V>, I: InstructionContext>(
    s: S,
    c: I,
    shape: BinaryShape,
    ty: Type,
) -> Eval<Effect<V>, StepError> {
    first_operand::<V, S, I>(s, c, ty, shape.operands).bind(
        |x: V|
            second_operand::<V, S, I>(s, c, ty, shape.operands).bind(
                |y: V|
                    if shape.traps {
                        assigned_or_trapped(shape.result(x, y, ty))
                    } else {
                        assigned_result(shape.result(x, y, ty))
                    },
            ),
    )
}

fn eval_binary<'a, V: Value, S: State<'a, V>, I: InstructionContext>(
    s: &S,
    c: &I,
    shape: BinaryShape,
    ty: Type,
) -> (r: ActionResult<'a, V>)
    requires
        binary_effect::<V, S, I>(*s, *c, shape, ty).defined(),
    ensures
        eval_action(r) == binary_effect::<V, S, I>(*s, *c, shape, ty),
{
    let x: V = match shape.operands {
        Operands::ImmediateFirst => imm_as_ctrl_ty(s, c, ty)?,
        Operands::FromZero => lift(V::integer(0, ty))?,
        _ => arg(s, c, 0)?,
    };
    let y: V = match shape.operands {
        Operands::Values => arg(s, c, 1)?,
        Operands::Immediate => imm_as_ctrl_ty(s, c, ty)?,
        Operands::InvertedSecond => {
            let v: V = arg(s, c, 1)?;
            lift(v.not())?
        },
        Operands::ImmediateFirst | Operands::FromZero => arg(s, c, 0)?,
    };
    if shape.traps {
        assign_or_trap(shape.apply(x, y, ty))
    } else {
        assign_result(shape.apply(x, y, ty))
    }
}

/// Instructions that apply one operation to each lane, or one conversion to a value.
pub open spec fn elementwise_effect<'a, V: Value, S: State<'a, V>, I: InstructionContext>(
    s: S,
    c: I,
    op: Opcode,
    ty: Type,
) -> Eval<Effect<V>, StepError> {
    match (binary_shape(op), unary_op(op), conversion(op, ty)) {
        (Some(shape), _, _) => binary_effect::<V, S, I>(s, c, shape, ty),
        (None, Some(unary), _) => arg_value(s, c, 0).bind(
            |x: V| assigned_result(unary_vector(x, ty, unary, false)),
        ),
        (None, None, Some(kind)) => arg_value(s, c, 0).bind(
            |x: V| assigned_result(eval(x.spec_convert(kind))),
        ),
        (None, None, None) => Eval::Undefined,
    }
}

/// Evaluate an instruction that applies one operation to each lane, or one conversion to a value.
pub fn eval_elementwise<'a, V: Value, S: State<'a, V>, I: InstructionContext>(
    s: &S,
    c: &I,
    op: Opcode,
    ty: Type,
) -> (r: ActionResult<'a, V>)
    requires
        elementwise_effect::<V, S, I>(*s, *c, op, ty).defined(),
    ensures
        eval_action(r) == elementwise_effect::<V, S, I>(*s, *c, op, ty),
{
    match get_binary_shape(op) {
        Some(shape) => eval_binary(s, c, shape, ty),
        None => match get_unary_op(op) {
            Some(unary) => {
                let x: V = arg(s, c, 0)?;
                assign_result(apply_unary(x, ty, unary, false))
            },
            None => match get_conversion(op, ty) {
                Some(kind) => {
                    let x: V = arg(s, c, 0)?;
                    assign_result(x.convert(kind))
                },
                None => vstd::pervasive::unreached(),
            },
        },
    }
}

} // verus!
