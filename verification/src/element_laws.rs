//! What the instructions do that apply one operation to each lane, or one conversion to a value.
use crate::arith::{binary_results, binary_vector, operand, unary_results};
use crate::elementwise::{binary_shape, unary_op};
use crate::eval::{eval, Eval};
use crate::flow::{Effect, StepError};
use crate::ir::{InstructionData, Opcode, TrapCode};
use crate::lanes::{lanes_of, vector_of};
use crate::state::{InstructionContext, State};
use crate::step::{group, step_effect};
use crate::terms::{
    all_become, arg_is, arg_unknown, assigns, collects, fails_first, fails_with, is_instruction,
    lemma_lanes, misses, traps, yields,
};
use crate::types::Type;
use crate::value::{Datum, Value, ValueConversionKind, ValueError, ValueResult};
use vstd::prelude::*;

verus! {

/// What an operation gives on `a` and `b`, both read as unsigned integers.
pub open spec fn on_unsigned<V: Value>(
    a: V,
    b: V,
    op: spec_fn(V, V) -> ValueResult<V>,
) -> ValueResult<V> {
    match a.spec_convert(ValueConversionKind::ToUnsigned) {
        Err(e) => Err(e),
        Ok(x) => match b.spec_convert(ValueConversionKind::ToUnsigned) {
            Err(e) => Err(e),
            Ok(y) => op(x, y),
        },
    }
}

/// What an instruction with two operands makes of two lanes.
pub open spec fn lane_of_two<V: Value>(op: Opcode, a: V, b: V) -> Option<ValueResult<V>> {
    match op {
        Opcode::Iadd | Opcode::IaddImm | Opcode::Fadd => Some(a.spec_add(b)),
        Opcode::Isub | Opcode::IrsubImm | Opcode::Ineg | Opcode::Fsub => Some(a.spec_sub(b)),
        Opcode::Imul | Opcode::ImulImm | Opcode::Fmul => Some(a.spec_mul(b)),
        Opcode::Sdiv | Opcode::SdivImm | Opcode::Fdiv => Some(a.spec_div(b)),
        Opcode::Srem | Opcode::SremImm => Some(a.spec_rem(b)),
        Opcode::Udiv | Opcode::UdivImm => Some(on_unsigned(a, b, |x: V, y: V| x.spec_div(y))),
        Opcode::Urem | Opcode::UremImm => Some(on_unsigned(a, b, |x: V, y: V| x.spec_rem(y))),
        Opcode::SaddSat => Some(a.spec_add_sat(b)),
        Opcode::UaddSat => Some(on_unsigned(a, b, |x: V, y: V| x.spec_add_sat(y))),
        Opcode::SsubSat => Some(a.spec_sub_sat(b)),
        Opcode::UsubSat => Some(on_unsigned(a, b, |x: V, y: V| x.spec_sub_sat(y))),
        Opcode::Band | Opcode::BandImm | Opcode::BandNot => Some(a.spec_and(b)),
        Opcode::Bor | Opcode::BorImm | Opcode::BorNot => Some(a.spec_or(b)),
        Opcode::Bxor | Opcode::BxorImm | Opcode::BxorNot => Some(a.spec_xor(b)),
        Opcode::Rotl | Opcode::RotlImm => Some(a.spec_rotl(b)),
        Opcode::Rotr | Opcode::RotrImm => Some(a.spec_rotr(b)),
        Opcode::Ishl | Opcode::IshlImm => Some(a.spec_shl(b)),
        Opcode::Sshr | Opcode::SshrImm => Some(a.spec_ishr(b)),
        Opcode::Ushr | Opcode::UshrImm => Some(on_unsigned(a, b, |x: V, y: V| x.spec_ushr(y))),
        Opcode::Fcopysign => Some(a.spec_copysign(b)),
        _ => None,
    }
}

/// The integer divisions and remainders: dividing by zero and an overflow are traps of the program.
pub open spec fn divides(op: Opcode) -> bool {
    ||| op is Udiv
    ||| op is UdivImm
    ||| op is Sdiv
    ||| op is SdivImm
    ||| op is Urem
    ||| op is UremImm
    ||| op is Srem
    ||| op is SremImm
}

/// The instructions that compute with unsigned integers and give a signed one.
pub open spec fn becomes_signed(op: Opcode) -> bool {
    ||| op is Udiv
    ||| op is UdivImm
    ||| op is Urem
    ||| op is UremImm
    ||| op is Ushr
    ||| op is UshrImm
}

/// Whether the step fails with `e`; a division traps instead where `e` is a division by zero or an
/// overflow.
pub open spec fn fails_or_traps<V>(
    op: Opcode,
    r: Eval<Effect<V>, StepError>,
    e: ValueError,
) -> bool {
    if divides(op) && e is IntegerDivisionByZero {
        traps(r, TrapCode::IntegerDivisionByZero)
    } else if divides(op) && e is IntegerOverflow {
        traps(r, TrapCode::IntegerOverflow)
    } else {
        fails_with(r, e)
    }
}

/// Whether the step assigns the value of a computation, read as a signed integer again where the
/// instruction computes with unsigned ones, or fails or traps with its error.
pub open spec fn finishes<V: Value>(
    op: Opcode,
    r: Eval<Effect<V>, StepError>,
    outcome: Eval<V, ValueError>,
) -> bool {
    match outcome {
        Eval::Undefined => r is Undefined,
        Eval::Error(e) => fails_or_traps(op, r, e),
        Eval::Value(v) => if becomes_signed(op) {
            match v.spec_convert(ValueConversionKind::ToSigned) {
                Ok(w) => assigns(r, w),
                Err(e) => fails_or_traps(op, r, e),
            }
        } else {
            assigns(r, v)
        },
    }
}

/// The instructions whose second operand is an immediate of 64 bits.
pub open spec fn has_immediate(op: Opcode) -> bool {
    ||| op is IaddImm
    ||| op is ImulImm
    ||| op is UdivImm
    ||| op is SdivImm
    ||| op is UremImm
    ||| op is SremImm
    ||| op is BandImm
    ||| op is BorImm
    ||| op is BxorImm
    ||| op is RotlImm
    ||| op is RotrImm
    ||| op is IshlImm
    ||| op is UshrImm
    ||| op is SshrImm
}

/// Whether the immediate of 64 bits, converted to the controlling type, is `y`.
pub open spec fn immediate_is<V: Value, I: InstructionContext>(c: I, ty: Type, y: V) -> bool {
    c.spec_data() matches InstructionData::BinaryImm64 { imm, .. } && V::spec_from_data(
        Datum::I64(imm),
    ).spec_convert(ValueConversionKind::Exact(ty)) == Ok::<V, ValueError>(y)
}

/// Whether the operands of the instruction are `x` and `y`: its two arguments; its argument and its
/// immediate, which a reversed subtraction takes from; zero and its argument, for a negation; or its
/// first argument and the complement of the second one.
pub open spec fn operands_are<'a, V: Value, S: State<'a, V>, I: InstructionContext>(
    s: S,
    c: I,
    op: Opcode,
    ty: Type,
    x: V,
    y: V,
) -> bool {
    if has_immediate(op) {
        arg_is::<V, S, I>(s, c, 0, x) && immediate_is(c, ty, y)
    } else if op is IrsubImm {
        immediate_is(c, ty, x) && arg_is::<V, S, I>(s, c, 0, y)
    } else if op is Ineg {
        V::spec_integer(0, ty) == Ok::<V, ValueError>(x) && arg_is::<V, S, I>(s, c, 0, y)
    } else if op is BandNot || op is BorNot || op is BxorNot {
        arg_is::<V, S, I>(s, c, 0, x) && 1 < c.spec_args().len() && (s.value_of(
            c.spec_args()[1],
        ) matches Some(z) && z.spec_not() == Ok::<V, ValueError>(y))
    } else {
        arg_is::<V, S, I>(s, c, 0, x) && arg_is::<V, S, I>(s, c, 1, y)
    }
}

proof fn lemma_lane_of_two<V: Value>(op: Opcode, a: V, b: V)
    requires
        lane_of_two(op, a, b) is Some,
    ensures
        binary_shape(op) is Some,
        ({
            let shape = binary_shape(op)->0;
            &&& operand(a, shape.unsigned).bind(
                |l: V| operand(b, shape.unsigned).bind(|r: V| eval(shape.op.result(l, r))),
            ) == eval(lane_of_two(op, a, b)->0)
            &&& shape.traps == divides(op)
            &&& shape.to_signed == becomes_signed(op)
            &&& group(op) is Elementwise
        }),
{
}

/// An instruction with two operands applies its operation to corresponding lanes, as far as both
/// operands have lanes; the first lane that fails decides.
pub proof fn law_two_operands<'a, V: Value, S: State<'a, V>, I: InstructionContext>(
    s: S,
    c: I,
    op: Opcode,
    ty: Type,
    x: V,
    y: V,
    xs: Seq<V>,
    ys: Seq<V>,
    n: nat,
)
    requires
        is_instruction(c, op, ty),
        lane_of_two(op, x, y) is Some,
        operands_are::<V, S, I>(s, c, op, ty, x, y),
        lanes_of(x, ty) == Eval::<Seq<V>, ValueError>::Value(xs),
        lanes_of(y, ty) == Eval::<Seq<V>, ValueError>::Value(ys),
        n <= xs.len() && n <= ys.len() && (n == xs.len() || n == ys.len()),
    ensures
        ({
            let r = step_effect::<V, S, I>(s, c);
            let lane = |i: int| lane_of_two(op, xs[i], ys[i])->0;
            &&& forall|zs: Seq<V>|
                zs.len() == n && #[trigger] all_become(lane, zs) ==> finishes(op, r, vector_of(zs, ty))
            &&& forall|k: int, e: ValueError|
                k < n && #[trigger] fails_first(lane, k, e) ==> fails_or_traps(op, r, e)
        }),
{
    lemma_lane_of_two(op, x, y);
    let shape = binary_shape(op)->0;
    let lane = |i: int| lane_of_two(op, xs[i], ys[i])->0;
    let evals = binary_results(xs, ys, shape.op, shape.unsigned);
    assert forall|i: int| 0 <= i < evals.len() implies (#[trigger] evals[i]) == eval(lane(i)) by {
        lemma_lane_of_two(op, xs[i], ys[i]);
    }
    lemma_lanes(evals, lane);
    lemma_binary_step::<V, S, I>(s, c, op, ty, x, y);
}

proof fn lemma_binary_step<'a, V: Value, S: State<'a, V>, I: InstructionContext>(
    s: S,
    c: I,
    op: Opcode,
    ty: Type,
    x: V,
    y: V,
)
    requires
        is_instruction(c, op, ty),
        lane_of_two(op, x, y) is Some,
        operands_are::<V, S, I>(s, c, op, ty, x, y),
    ensures
        binary_shape(op) is Some,
        finishes(
            op,
            step_effect::<V, S, I>(s, c),
            binary_vector(x, y, ty, binary_shape(op)->0.op, binary_shape(op)->0.unsigned),
        ),
{
    lemma_lane_of_two(op, x, y);
    let shape = binary_shape(op)->0;
    assert(step_effect::<V, S, I>(s, c) == crate::elementwise::binary_effect::<V, S, I>(
        s,
        c,
        shape,
        ty,
    ));
    assert(crate::elementwise::first_operand::<V, S, I>(s, c, ty, shape.operands) == Eval::<
        V,
        StepError,
    >::Value(x));
    assert(crate::elementwise::second_operand::<V, S, I>(s, c, ty, shape.operands) == Eval::<
        V,
        StepError,
    >::Value(y));
}

/// An instruction with two operands fails or traps where one of them cannot be taken apart, the first
/// one before the second.
pub proof fn law_two_operands_lanes<'a, V: Value, S: State<'a, V>, I: InstructionContext>(
    s: S,
    c: I,
    op: Opcode,
    ty: Type,
    x: V,
    y: V,
    e: ValueError,
)
    requires
        is_instruction(c, op, ty),
        lane_of_two(op, x, y) is Some,
        operands_are::<V, S, I>(s, c, op, ty, x, y),
        lanes_of(x, ty) == Eval::<Seq<V>, ValueError>::Error(e) || lanes_of(x, ty) is Value
            && lanes_of(y, ty) == Eval::<Seq<V>, ValueError>::Error(e),
    ensures
        fails_or_traps(op, step_effect::<V, S, I>(s, c), e),
{
    lemma_binary_step::<V, S, I>(s, c, op, ty, x, y);
}

/// On scalars, an instruction with two operands performs its operation on them.
pub proof fn law_two_scalars<'a, V: Value, S: State<'a, V>, I: InstructionContext>(
    s: S,
    c: I,
    op: Opcode,
    ty: Type,
    x: V,
    y: V,
)
    requires
        is_instruction(c, op, ty),
        lane_of_two(op, x, y) is Some,
        operands_are::<V, S, I>(s, c, op, ty, x, y),
        !(x.spec_ty() is Vector),
        !(y.spec_ty() is Vector),
    ensures
        finishes(op, step_effect::<V, S, I>(s, c), eval(lane_of_two(op, x, y)->0)),
{
    let xs = seq![x];
    let ys = seq![y];
    law_two_operands::<V, S, I>(s, c, op, ty, x, y, xs, ys, 1);
    let lane = |i: int| lane_of_two(op, xs[i], ys[i])->0;
    match lane_of_two(op, x, y)->0 {
        Ok(z) => {
            assert(all_become(lane, seq![z]));
        },
        Err(e) => {
            assert(fails_first(lane, 0, e));
        },
    }
}

/// An instruction with two operands misses an argument without a value, the first one before the
/// second, and fails where the immediate has no counterpart in the controlling type.
pub proof fn law_two_operands_failure<'a, V: Value, S: State<'a, V>, I: InstructionContext>(
    s: S,
    c: I,
    op: Opcode,
    ty: Type,
    x: V,
    imm: i64,
    e: ValueError,
)
    requires
        is_instruction(c, op, ty),
        lane_of_two(op, x, x) is Some,
    ensures
        !(op is IrsubImm) && !(op is Ineg) && arg_unknown::<V, S, I>(s, c, 0) ==> misses(
            step_effect::<V, S, I>(s, c),
            c.spec_args()[0],
        ),
        !has_immediate(op) && !(op is IrsubImm) && !(op is Ineg) && arg_is::<V, S, I>(s, c, 0, x)
            && arg_unknown::<V, S, I>(s, c, 1) ==> misses(
            step_effect::<V, S, I>(s, c),
            c.spec_args()[1],
        ),
        has_immediate(op) && arg_is::<V, S, I>(s, c, 0, x) && c.spec_data() == (
        InstructionData::BinaryImm64 { opcode: op, imm }) && V::spec_from_data(
            Datum::I64(imm),
        ).spec_convert(ValueConversionKind::Exact(ty)) == Err::<V, ValueError>(e) ==> fails_with(
            step_effect::<V, S, I>(s, c),
            e,
        ),
{
    lemma_lane_of_two(op, x, x);
    let shape = binary_shape(op)->0;
    assert(step_effect::<V, S, I>(s, c) == crate::elementwise::binary_effect::<V, S, I>(
        s,
        c,
        shape,
        ty,
    ));
}

/// The instruction with two arguments that an instruction with an immediate stands for.
pub open spec fn without_immediate(op: Opcode) -> Option<Opcode> {
    match op {
        Opcode::IaddImm => Some(Opcode::Iadd),
        Opcode::ImulImm => Some(Opcode::Imul),
        Opcode::UdivImm => Some(Opcode::Udiv),
        Opcode::SdivImm => Some(Opcode::Sdiv),
        Opcode::UremImm => Some(Opcode::Urem),
        Opcode::SremImm => Some(Opcode::Srem),
        Opcode::BandImm => Some(Opcode::Band),
        Opcode::BorImm => Some(Opcode::Bor),
        Opcode::BxorImm => Some(Opcode::Bxor),
        Opcode::RotlImm => Some(Opcode::Rotl),
        Opcode::RotrImm => Some(Opcode::Rotr),
        Opcode::IshlImm => Some(Opcode::Ishl),
        Opcode::UshrImm => Some(Opcode::Ushr),
        Opcode::SshrImm => Some(Opcode::Sshr),
        _ => None,
    }
}

/// An instruction with an immediate does what the one with two arguments does if the second argument
/// has the value of the immediate; a reversed subtraction does what a subtraction does with the
/// immediate as its first argument, a negation what one does with zero as its first argument.
pub proof fn law_immediate_forms<'a, V: Value, S: State<'a, V>, I: InstructionContext>(
    s: S,
    c: I,
    plain: I,
    op: Opcode,
    ty: Type,
    x: V,
    y: V,
)
    requires
        is_instruction(c, op, ty),
        operands_are::<V, S, I>(s, c, op, ty, x, y),
        without_immediate(op) matches Some(plain_op) && is_instruction(plain, plain_op, ty) || (
        op is IrsubImm || op is Ineg) && is_instruction(plain, Opcode::Isub, ty),
        arg_is::<V, S, I>(s, plain, 0, x),
        arg_is::<V, S, I>(s, plain, 1, y),
    ensures
        step_effect::<V, S, I>(s, c) == step_effect::<V, S, I>(s, plain),
{
    let plain_op = plain.spec_data().opcode();
    lemma_lane_of_two(op, x, y);
    lemma_lane_of_two(plain_op, x, y);
    let shape = binary_shape(op)->0;
    let plain_shape = binary_shape(plain_op)->0;
    assert(shape.op == plain_shape.op && shape.unsigned == plain_shape.unsigned && shape.to_signed
        == plain_shape.to_signed && shape.traps == plain_shape.traps);
    assert(step_effect::<V, S, I>(s, c) == crate::elementwise::binary_effect::<V, S, I>(
        s,
        c,
        shape,
        ty,
    ));
    assert(step_effect::<V, S, I>(s, plain) == crate::elementwise::binary_effect::<V, S, I>(
        s,
        plain,
        plain_shape,
        ty,
    ));
    assert(shape.result(x, y, ty) == plain_shape.result(x, y, ty));
}

/// What an instruction with one operand makes of a lane.
pub open spec fn lane_of_one<V: Value>(op: Opcode, a: V) -> Option<ValueResult<V>> {
    match op {
        Opcode::Bnot => Some(a.spec_not()),
        Opcode::Fneg => Some(a.spec_neg()),
        Opcode::Fabs => Some(a.spec_abs()),
        Opcode::Sqrt => Some(a.spec_sqrt()),
        Opcode::Ceil => Some(a.spec_ceil()),
        Opcode::Floor => Some(a.spec_floor()),
        Opcode::Trunc => Some(a.spec_trunc()),
        Opcode::Nearest => Some(a.spec_nearest()),
        Opcode::Bitrev => Some(a.spec_reverse_bits()),
        Opcode::Bswap => Some(a.spec_swap_bytes()),
        Opcode::Clz => Some(a.spec_leading_zeros()),
        Opcode::Ctz => Some(a.spec_trailing_zeros()),
        _ => None,
    }
}

/// An instruction with one operand applies its operation to each lane; the first lane that fails
/// decides.
pub proof fn law_one_operand<'a, V: Value, S: State<'a, V>, I: InstructionContext>(
    s: S,
    c: I,
    op: Opcode,
    ty: Type,
    x: V,
    xs: Seq<V>,
)
    requires
        is_instruction(c, op, ty),
        lane_of_one(op, x) is Some,
        arg_is::<V, S, I>(s, c, 0, x),
        lanes_of(x, ty) == Eval::<Seq<V>, ValueError>::Value(xs),
    ensures
        collects(
            step_effect::<V, S, I>(s, c),
            xs.len(),
            |i: int| lane_of_one(op, xs[i])->0,
            ty,
        ),
{
    let lane = |i: int| lane_of_one(op, xs[i])->0;
    let evals = unary_results(xs, unary_op(op)->0, false);
    assert(binary_shape(op) is None && unary_op(op) is Some && group(op) is Elementwise);
    lemma_lanes(evals, lane);
}

/// On a scalar, an instruction with one operand performs its operation on it, and it misses an
/// argument without a value.
pub proof fn law_one_scalar<'a, V: Value, S: State<'a, V>, I: InstructionContext>(
    s: S,
    c: I,
    op: Opcode,
    ty: Type,
    x: V,
)
    requires
        is_instruction(c, op, ty),
        lane_of_one(op, x) is Some,
    ensures
        arg_is::<V, S, I>(s, c, 0, x) && !(x.spec_ty() is Vector) ==> yields(
            step_effect::<V, S, I>(s, c),
            lane_of_one(op, x)->0,
        ),
        arg_unknown::<V, S, I>(s, c, 0) ==> misses(step_effect::<V, S, I>(s, c), c.spec_args()[0]),
{
    assert(binary_shape(op) is None && unary_op(op) is Some && group(op) is Elementwise);
    if arg_is::<V, S, I>(s, c, 0, x) && !(x.spec_ty() is Vector) {
        let xs = seq![x];
        law_one_operand::<V, S, I>(s, c, op, ty, x, xs);
        let lane = |i: int| lane_of_one(op, xs[i])->0;
        match lane_of_one(op, x)->0 {
            Ok(z) => {
                assert(all_become(lane, seq![z]));
            },
            Err(e) => {
                assert(fails_first(lane, 0, e));
            },
        }
    }
}

/// The conversions of a whole value to the controlling type: truncating, extending with the sign or
/// with zeros, promoting a float, and rounding one to the nearest.
pub proof fn law_conversions<'a, V: Value, S: State<'a, V>, I: InstructionContext>(
    s: S,
    c: I,
    op: Opcode,
    ty: Type,
    x: V,
)
    requires
        is_instruction(c, op, ty),
        arg_is::<V, S, I>(s, c, 0, x),
    ensures
        ({
            let r = step_effect::<V, S, I>(s, c);
            &&& op is Ireduce ==> yields(r, x.spec_convert(ValueConversionKind::Truncate(ty)))
            &&& op is Sextend ==> yields(r, x.spec_convert(ValueConversionKind::SignExtend(ty)))
            &&& op is Uextend ==> yields(r, x.spec_convert(ValueConversionKind::ZeroExtend(ty)))
            &&& op is Fpromote ==> yields(r, x.spec_convert(ValueConversionKind::Exact(ty)))
            &&& op is Fdemote ==> yields(
                r,
                x.spec_convert(ValueConversionKind::RoundNearestEven(ty)),
            )
        }),
{
}

} // verus!
