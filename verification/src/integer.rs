//! Integer arithmetic beyond one operation per lane: carries, averages, products and bit counts.
use crate::arith::{
    apply_binary, apply_pairwise, apply_unary, binary_vector, map_lanes, map_vector,
    pairwise_vector, unary_vector, LaneMap, LaneZip,
};
use crate::eval::{eval, present, sequence, Eval};
use crate::flow::{
    assign, assign_both, assign_result, assigned, assigned_both, assigned_result, eval_action, lift,
    lifted, trap_with, trapped, ActionResult, CraneliftTrap, Effect, StepError,
};
use crate::ir::{Opcode, TrapCode};
use crate::lanes::{vector_of, vectorizelanes};
use crate::operands::{arg, arg_lanes, arg_value, read_lanes};
use crate::state::{InstructionContext, State};
use crate::types::{LaneType, Type};
use crate::value::{BinaryOp, UnaryOp, Value, ValueConversionKind, ValueError, ValueResult};
use vstd::prelude::*;

verus! {

/// One more than `x`.
pub open spec fn incremented<V: Value>(x: V, ty: Type) -> Eval<V, ValueError> {
    eval(V::spec_integer(1, ty)).bind(|one: V| eval(x.spec_add(one)))
}

fn increment<V: Value>(x: V, ty: Type) -> (r: ValueResult<V>)
    ensures
        eval(r) == incremented(x, ty),
{
    let one: V = V::integer(1, ty)?;
    x.add(one)
}

/// The sum of two values, plus one if there is a carry. Both sums have to exist.
pub open spec fn sum_with_carry<V: Value>(x: V, y: V, carry: bool, ty: Type) -> Eval<V, ValueError> {
    eval(x.spec_add(y)).bind(
        |sum: V|
            incremented(sum, ty).bind(
                |more: V|
                    Eval::Value(
                        if carry {
                            more
                        } else {
                            sum
                        },
                    ),
            ),
    )
}

fn add_with_carry<V: Value>(x: V, y: V, carry: bool, ty: Type) -> (r: ValueResult<V>)
    ensures
        eval(r) == sum_with_carry(x, y, carry, ty),
{
    let sum: V = x.add(y)?;
    let more: V = increment(sum.duplicate(), ty)?;
    if carry {
        Ok(more)
    } else {
        Ok(sum)
    }
}

/// The difference of two values, less one if there is a borrow. Both differences have to exist.
pub open spec fn difference_with_borrow<V: Value>(x: V, y: V, borrow: bool, ty: Type) -> Eval<
    V,
    ValueError,
> {
    incremented(y, ty).bind(
        |more: V|
            eval(x.spec_sub(more)).bind(
                |less: V|
                    eval(x.spec_sub(y)).bind(
                        |difference: V|
                            Eval::Value(
                                if borrow {
                                    less
                                } else {
                                    difference
                                },
                            ),
                    ),
            ),
    )
}

fn sub_with_borrow<V: Value>(x: V, y: V, borrow: bool, ty: Type) -> (r: ValueResult<V>)
    ensures
        eval(r) == difference_with_borrow(x, y, borrow, ty),
{
    let more: V = increment(y.duplicate(), ty)?;
    let less: V = x.duplicate().sub(more)?;
    let difference: V = x.sub(y)?;
    if borrow {
        Ok(less)
    } else {
        Ok(difference)
    }
}

/// Whether the sum of two values overflows.
pub open spec fn overflows<V: Value>(x: V, y: V) -> Eval<bool, ValueError> {
    eval(x.spec_checked_add(y)).bind(|sum: Option<V>| Eval::Value(sum is None))
}

fn add_overflows<V: Value>(x: V, y: V) -> (r: ValueResult<bool>)
    ensures
        eval(r) == overflows(x, y),
{
    let sum: Option<V> = x.checked_add(y)?;
    Ok(sum.is_none())
}

/// A value, and a flag of type `i8`.
pub open spec fn value_and_flag<V: Value>(v: V, flag: bool) -> Eval<(V, V), ValueError> {
    eval(V::spec_boolean(flag, false, Type::Lane(LaneType::I8))).bind(
        |f: V| Eval::Value((v, f)),
    )
}

fn with_flag<V: Value>(v: V, flag: bool) -> (r: ValueResult<(V, V)>)
    ensures
        eval(r) == value_and_flag(v, flag),
{
    let f: V = V::boolean(flag, false, Type::Lane(LaneType::I8))?;
    Ok((v, f))
}

/// Assign two values that an operation gives.
pub open spec fn assigned_pair<V>(e: Eval<(V, V), ValueError>) -> Eval<Effect<V>, StepError> {
    lifted(e).bind(|pair: (V, V)| Eval::Value(assigned_both(pair.0, pair.1)))
}

fn assign_pair<'a, V>(r: ValueResult<(V, V)>) -> (action: ActionResult<'a, V>)
    ensures
        eval_action(action) == assigned_pair(eval(r)),
{
    let (v, w): (V, V) = lift(r)?;
    Ok(assign_both(v, w))
}

/// The sum of two values, and whether it overflows.
pub open spec fn sum_and_carry<V: Value>(x: V, y: V) -> Eval<(V, V), ValueError> {
    overflows(x, y).bind(
        |carry: bool| eval(x.spec_add(y)).bind(|sum: V| value_and_flag(sum, carry)),
    )
}

fn add_carry_out<V: Value>(x: V, y: V) -> (r: ValueResult<(V, V)>)
    ensures
        eval(r) == sum_and_carry(x, y),
{
    let carry: bool = add_overflows(x.duplicate(), y.duplicate())?;
    let sum: V = x.add(y)?;
    with_flag(sum, carry)
}

/// The sum of two values and of a carry, and whether it overflows.
pub open spec fn sum_through_carry<V: Value>(sum: V, carry: bool, carry_in: bool, ty: Type) -> Eval<
    (V, V),
    ValueError,
> {
    if carry_in {
        eval(V::spec_integer(1, ty)).bind(
            |one: V|
                overflows(sum, one).bind(
                    |more: bool|
                        eval(sum.spec_add(one)).bind(
                            |total: V| value_and_flag(total, carry || more),
                        ),
                ),
        )
    } else {
        value_and_flag(sum, carry)
    }
}

fn add_carry_through<V: Value>(sum: V, carry: bool, carry_in: bool, ty: Type) -> (r: ValueResult<
    (V, V),
>)
    ensures
        eval(r) == sum_through_carry(sum, carry, carry_in, ty),
{
    if carry_in {
        let one: V = V::integer(1, ty)?;
        let more: bool = add_overflows(sum.duplicate(), one.duplicate())?;
        let total: V = sum.add(one)?;
        with_flag(total, carry || more)
    } else {
        with_flag(sum, carry)
    }
}

/// The difference of two values, and whether the first is less than the second.
pub open spec fn difference_and_borrow<V: Value>(x: V, y: V) -> Eval<(V, V), ValueError> {
    eval(x.spec_sub(y)).bind(
        |difference: V|
            eval(x.spec_lt(y)).bind(|borrow: bool| value_and_flag(difference, borrow)),
    )
}

fn sub_borrow_out<V: Value>(x: V, y: V) -> (r: ValueResult<(V, V)>)
    ensures
        eval(r) == difference_and_borrow(x, y),
{
    let difference: V = x.duplicate().sub(y.duplicate())?;
    let borrow: bool = x.lt(&y)?;
    with_flag(difference, borrow)
}

/// Whether the first value is less than the second, and their difference.
pub open spec fn borrow_and_difference<V: Value>(x: V, y: V) -> Eval<(V, V), ValueError> {
    eval(x.spec_lt(y)).bind(
        |borrow: bool|
            eval(x.spec_sub(y)).bind(|difference: V| value_and_flag(difference, borrow)),
    )
}

fn sub_borrow_through<V: Value>(x: V, y: V) -> (r: ValueResult<(V, V)>)
    ensures
        eval(r) == borrow_and_difference(x, y),
{
    let borrow: bool = x.lt(&y)?;
    let difference: V = x.sub(y)?;
    with_flag(difference, borrow)
}

/// Whether the sum of `x` and `y` is less than each of them.
pub open spec fn wrapped<V: Value>(sum: V, x: V, y: V) -> Eval<bool, ValueError> {
    eval(sum.spec_lt(x)).bind(
        |below: bool|
            if below {
                eval(sum.spec_lt(y))
            } else {
                Eval::Value(false)
            },
    )
}

fn has_wrapped<V: Value>(sum: &V, x: &V, y: &V) -> (r: ValueResult<bool>)
    ensures
        eval(r) == wrapped(*sum, *x, *y),
{
    Ok(sum.lt(x)? && sum.lt(y)?)
}

/// Additions and subtractions with a carry.
pub open spec fn carry_effect<'a, V: Value, S: State<'a, V>, I: InstructionContext>(
    s: S,
    c: I,
    op: Opcode,
    ty: Type,
) -> Eval<Effect<V>, StepError> {
    let flag = arg_value(s, c, 2).bind(|v: V| lifted(eval(v.spec_into_bool())));
    let arg0 = arg_value::<V, S, I>(s, c, 0);
    let arg1 = arg_value::<V, S, I>(s, c, 1);
    match op {
        Opcode::IaddCin => flag.bind(
            |carry: bool|
                arg0.bind(
                    |x: V| arg1.bind(|y: V| assigned_result(sum_with_carry(x, y, carry, ty))),
                ),
        ),
        Opcode::IaddCout => arg0.bind(
            |x: V| arg1.bind(|y: V| assigned_pair(sum_and_carry(x, y))),
        ),
        Opcode::IaddCarry => arg0.bind(
            |x: V|
                arg1.bind(
                    |y: V|
                        lifted(eval(x.spec_add(y))).bind(
                            |sum: V|
                                lifted(overflows(x, y)).bind(
                                    |carry: bool|
                                        flag.bind(
                                            |carry_in: bool|
                                                assigned_pair(
                                                    sum_through_carry(sum, carry, carry_in, ty),
                                                ),
                                        ),
                                ),
                        ),
                ),
        ),
        Opcode::UaddOverflowTrap => arg0.bind(
            |x: V|
                arg1.bind(
                    |y: V|
                        lifted(eval(x.spec_add(y))).bind(
                            |sum: V|
                                lifted(wrapped(sum, x, y)).bind(
                                    |carry: bool|
                                        if carry {
                                            present(c.spec_data().trap_code()).bind(
                                                |code: TrapCode|
                                                    Eval::Value(trapped(CraneliftTrap::User(code))),
                                            )
                                        } else {
                                            Eval::Value(assigned(sum))
                                        },
                                ),
                        ),
                ),
        ),
        Opcode::IsubBin => flag.bind(
            |borrow: bool|
                arg0.bind(
                    |x: V|
                        arg1.bind(
                            |y: V| assigned_result(difference_with_borrow(x, y, borrow, ty)),
                        ),
                ),
        ),
        Opcode::IsubBout => arg0.bind(
            |x: V| arg1.bind(|y: V| assigned_pair(difference_and_borrow(x, y))),
        ),
        Opcode::IsubBorrow => flag.bind(
            |borrow_in: bool|
                arg1.bind(
                    |y: V|
                        lifted(
                            if borrow_in {
                                incremented(y, ty)
                            } else {
                                Eval::Value(y)
                            },
                        ).bind(
                            |rhs: V| arg0.bind(|x: V| assigned_pair(borrow_and_difference(x, rhs))),
                        ),
                ),
        ),
        _ => Eval::Undefined,
    }
}

fn read_flag<'a, V: Value, S: State<'a, V>, I: InstructionContext>(s: &S, c: &I) -> (b: Result<
    bool,
    StepError,
>)
    requires
        c.spec_args().len() > 2,
    ensures
        eval(b) == arg_value::<V, S, I>(*s, *c, 2).bind(|v: V| lifted(eval(v.spec_into_bool()))),
{
    let v: V = arg(s, c, 2)?;
    lift(v.into_bool())
}

/// Evaluate an addition or a subtraction with a carry.
pub fn eval_carry<'a, V: Value, S: State<'a, V>, I: InstructionContext>(
    s: &S,
    c: &I,
    op: Opcode,
    ty: Type,
) -> (r: ActionResult<'a, V>)
    requires
        carry_effect::<V, S, I>(*s, *c, op, ty).defined(),
    ensures
        eval_action(r) == carry_effect::<V, S, I>(*s, *c, op, ty),
{
    match op {
        Opcode::IaddCin => {
            let carry: bool = read_flag::<V, S, I>(s, c)?;
            let x: V = arg(s, c, 0)?;
            let y: V = arg(s, c, 1)?;
            assign_result(add_with_carry(x, y, carry, ty))
        },
        Opcode::IaddCout => {
            let x: V = arg(s, c, 0)?;
            let y: V = arg(s, c, 1)?;
            assign_pair(add_carry_out(x, y))
        },
        Opcode::IaddCarry => {
            let x: V = arg(s, c, 0)?;
            let y: V = arg(s, c, 1)?;
            let sum: V = lift(x.duplicate().add(y.duplicate()))?;
            let carry: bool = lift(add_overflows(x, y))?;
            let carry_in: bool = read_flag::<V, S, I>(s, c)?;
            assign_pair(add_carry_through(sum, carry, carry_in, ty))
        },
        Opcode::UaddOverflowTrap => {
            let x: V = arg(s, c, 0)?;
            let y: V = arg(s, c, 1)?;
            let sum: V = lift(x.duplicate().add(y.duplicate()))?;
            let carry: bool = lift(has_wrapped(&sum, &x, &y))?;
            if carry {
                Ok(trap_with(CraneliftTrap::User(c.data().trap_code().unwrap())))
            } else {
                Ok(assign(sum))
            }
        },
        Opcode::IsubBin => {
            let borrow: bool = read_flag::<V, S, I>(s, c)?;
            let x: V = arg(s, c, 0)?;
            let y: V = arg(s, c, 1)?;
            assign_result(sub_with_borrow(x, y, borrow, ty))
        },
        Opcode::IsubBout => {
            let x: V = arg(s, c, 0)?;
            let y: V = arg(s, c, 1)?;
            assign_pair(sub_borrow_out(x, y))
        },
        Opcode::IsubBorrow => {
            let borrow_in: bool = read_flag::<V, S, I>(s, c)?;
            let y: V = arg(s, c, 1)?;
            let rhs: V = if borrow_in {
                lift(increment(y, ty))?
            } else {
                y
            };
            let x: V = arg(s, c, 0)?;
            assign_pair(sub_borrow_through(x, rhs))
        },
        _ => vstd::pervasive::unreached(),
    }
}

/// The integer type of twice the width of an integer lane.
pub open spec fn product_type(ty: Type) -> Option<Type> {
    match ty.lane_bits() {
        8 => Some(Type::Lane(LaneType::I16)),
        16 => Some(Type::Lane(LaneType::I32)),
        32 => Some(Type::Lane(LaneType::I64)),
        64 => Some(Type::Lane(LaneType::I128)),
        _ => None,
    }
}

fn get_product_type(ty: Type) -> (wide: Type)
    requires
        product_type(ty) is Some,
    ensures
        Some(wide) == product_type(ty),
{
    match ty.lane_bits() {
        8 => Type::Lane(LaneType::I16),
        16 => Type::Lane(LaneType::I32),
        32 => Type::Lane(LaneType::I64),
        64 => Type::Lane(LaneType::I128),
        _ => vstd::pervasive::unreached(),
    }
}

/// Combine the lanes of the two arguments.
pub open spec fn zipped_args<'a, V: Value, S: State<'a, V>, I: InstructionContext>(
    s: S,
    c: I,
    ty: Type,
    zip: LaneZip<V>,
) -> Eval<Effect<V>, StepError> {
    arg_lanes::<V, S, I>(s, c, 0, ty).bind(
        |xs: Seq<V>|
            arg_lanes::<V, S, I>(s, c, 1, ty).bind(
                |ys: Seq<V>|
                    assigned_result(
                        sequence(zip.results(xs, ys)).bind(|lanes: Seq<V>| vector_of(lanes, ty)),
                    ),
            ),
    )
}

/// Combine the lanes of the two arguments.
pub fn zip_args<'a, V: Value, S: State<'a, V>, I: InstructionContext>(
    s: &S,
    c: &I,
    ty: Type,
    zip: LaneZip<V>,
) -> (r: ActionResult<'a, V>)
    requires
        zip.supported(),
        zipped_args::<V, S, I>(*s, *c, ty, zip).defined(),
    ensures
        eval_action(r) == zipped_args::<V, S, I>(*s, *c, ty, zip),
{
    let xs: Vec<V> = read_lanes(s, c, 0, ty)?;
    let ys: Vec<V> = read_lanes(s, c, 1, ty)?;
    let lanes: Vec<V> = lift(zip.apply_all(&xs, &ys))?;
    assign_result(vectorizelanes(&lanes, ty))
}

/// The average of two values, rounded up.
pub open spec fn rounded_average<V: Value>(x: V, y: V, ty: Type) -> Eval<V, ValueError> {
    eval(x.spec_add(y)).bind(
        |sum: V|
            incremented(sum, x.spec_ty()).bind(
                |inc: V|
                    eval(V::spec_integer(2, x.spec_ty())).bind(
                        |two: V| binary_vector(inc, two, ty, BinaryOp::Div, false),
                    ),
            ),
    )
}

fn average<V: Value>(x: V, y: V, ty: Type) -> (r: ValueResult<V>)
    requires
        rounded_average(x, y, ty).defined(),
    ensures
        eval(r) == rounded_average(x, y, ty),
{
    let value_ty: Type = x.ty();
    let sum: V = x.add(y)?;
    let inc: V = increment(sum, value_ty)?;
    let two: V = V::integer(2, value_ty)?;
    apply_binary(inc, two, ty, BinaryOp::Div, false)
}

/// The number of leading bits that equal the sign bit, besides the sign bit itself.
pub open spec fn leading_sign_bits<V: Value>(x: V, ty: Type) -> Eval<V, ValueError> {
    eval(V::spec_integer(0, ty)).bind(
        |zero: V|
            eval(x.spec_lt(zero)).bind(
                |negative: bool|
                    eval(
                        if negative {
                            x.spec_leading_ones()
                        } else {
                            x.spec_leading_zeros()
                        },
                    ).bind(
                        |count: V|
                            eval(V::spec_integer(1, ty)).bind(|one: V| eval(count.spec_sub(one))),
                    ),
            ),
    )
}

fn count_leading_sign_bits<V: Value>(x: V, ty: Type) -> (r: ValueResult<V>)
    ensures
        eval(r) == leading_sign_bits(x, ty),
{
    let zero: V = V::integer(0, ty)?;
    let count: V = if x.lt(&zero)? {
        x.leading_ones()?
    } else {
        x.leading_zeros()?
    };
    let one: V = V::integer(1, ty)?;
    count.sub(one)
}

/// The number of set bits: of an integer, or of each lane.
pub open spec fn population<V: Value>(x: V, ty: Type) -> Eval<V, ValueError> {
    if x.spec_ty().is_int() {
        eval(x.spec_count_ones())
    } else {
        unary_vector(x, ty, UnaryOp::CountOnes, false)
    }
}

fn count_population<V: Value>(x: V, ty: Type) -> (r: ValueResult<V>)
    requires
        population(x, ty).defined(),
    ensures
        eval(r) == population(x, ty),
{
    if x.ty().is_int() {
        x.count_ones()
    } else {
        apply_unary(x, ty, UnaryOp::CountOnes, false)
    }
}

/// The saturating product of fixed point numbers.
pub open spec fn fixed_point_effect<'a, V: Value, S: State<'a, V>, I: InstructionContext>(
    s: S,
    c: I,
    ty: Type,
) -> Eval<Effect<V>, StepError> {
    present(ty.double_width()).bind(
        |double: Type|
            arg_lanes::<V, S, I>(s, c, 0, ty).bind(
                |xs: Seq<V>|
                    arg_lanes::<V, S, I>(s, c, 1, ty).bind(
                        |ys: Seq<V>|
                            present(ty.int_lane()).bind(
                                |lane: LaneType|
                                    assigned_result(
                                        fixed_point_lanes(xs, ys, lane, double.lane_type(), ty),
                                    ),
                            ),
                    ),
            ),
    )
}

/// The saturating products of the fixed point numbers in the lanes `xs` and `ys`, computed in type
/// `wide`.
pub open spec fn fixed_point_lanes<V: Value>(
    xs: Seq<V>,
    ys: Seq<V>,
    lane: LaneType,
    wide: Type,
    ty: Type,
) -> Eval<V, ValueError> {
    eval(V::spec_integer(lane.min_value(true), wide)).bind(
        |min: V|
            eval(V::spec_integer(lane.max_value(true), wide)).bind(
                |max: V|
                    sequence(LaneZip::FixedMul { lane, wide, min, max }.results(xs, ys)).bind(
                        |lanes: Seq<V>| vector_of(lanes, ty),
                    ),
            ),
    )
}

fn multiply_fixed_point<V: Value>(xs: &Vec<V>, ys: &Vec<V>, lane: LaneType, wide: Type, ty: Type) -> (
r: ValueResult<V>)
    requires
        lane is I8 || lane is I16 || lane is I32 || lane is I64,
        fixed_point_lanes(xs@, ys@, lane, wide, ty).defined(),
    ensures
        eval(r) == fixed_point_lanes(xs@, ys@, lane, wide, ty),
{
    let (min, max): (i128, i128) = Type::Lane(lane).signed_bounds();
    let min: V = V::integer(min, wide)?;
    let max: V = V::integer(max, wide)?;
    let zip: LaneZip<V> = LaneZip::FixedMul { lane, wide, min, max };
    let lanes: Vec<V> = zip.apply_all(xs, ys)?;
    vectorizelanes(&lanes, ty)
}

fn eval_fixed_point<'a, V: Value, S: State<'a, V>, I: InstructionContext>(s: &S, c: &I, ty: Type) -> (
r: ActionResult<'a, V>)
    requires
        fixed_point_effect::<V, S, I>(*s, *c, ty).defined(),
    ensures
        eval_action(r) == fixed_point_effect::<V, S, I>(*s, *c, ty),
{
    let wide: Type = ty.double_width().unwrap().lane_type();
    let xs: Vec<V> = read_lanes(s, c, 0, ty)?;
    let ys: Vec<V> = read_lanes(s, c, 1, ty)?;
    let lane: LaneType = match ty {
        Type::Lane(lane) | Type::Vector(lane, _) | Type::Dynamic(lane, _) => lane,
        Type::Special => vstd::pervasive::unreached(),
    };
    assign_result(multiply_fixed_point(&xs, &ys, lane, wide, ty))
}

/// Averages, products, absolute values, bit counts, and halves of integers.
pub open spec fn integer_effect<'a, V: Value, S: State<'a, V>, I: InstructionContext>(
    s: S,
    c: I,
    op: Opcode,
    ty: Type,
) -> Eval<Effect<V>, StepError> {
    let arg0 = arg_value::<V, S, I>(s, c, 0);
    let arg1 = arg_value::<V, S, I>(s, c, 1);
    match op {
        Opcode::AvgRound => arg0.bind(
            |x: V| arg1.bind(|y: V| assigned_result(rounded_average(x, y, ty))),
        ),
        Opcode::Iabs => present(ty.int_lane()).bind(
            |lane: LaneType|
                lifted(eval(V::spec_integer(lane.min_value(true), ty.lane_type()))).bind(
                    |min: V|
                        arg0.bind(
                            |x: V|
                                assigned_result(
                                    map_vector(
                                        x,
                                        ty,
                                        LaneMap::Abs { min, lane: ty.lane_type() },
                                        ty,
                                    ),
                                ),
                        ),
                ),
        ),
        Opcode::Umulhi => present(product_type(ty)).bind(
            |wide: Type|
                zipped_args::<V, S, I>(
                    s,
                    c,
                    ty,
                    LaneZip::MulHigh {
                        kind: ValueConversionKind::ZeroExtend(wide),
                        lane: ty.lane_type(),
                    },
                ),
        ),
        Opcode::Smulhi => present(product_type(ty)).bind(
            |wide: Type|
                zipped_args::<V, S, I>(
                    s,
                    c,
                    ty,
                    LaneZip::MulHigh {
                        kind: ValueConversionKind::SignExtend(wide),
                        lane: ty.lane_type(),
                    },
                ),
        ),
        Opcode::Cls => arg0.bind(|x: V| assigned_result(leading_sign_bits(x, ty))),
        Opcode::Popcnt => arg0.bind(|x: V| assigned_result(population(x, ty))),
        Opcode::Isplit => arg0.bind(
            |x: V|
                lifted(
                    eval(x.spec_convert(ValueConversionKind::Truncate(Type::Lane(LaneType::I64)))),
                ).bind(
                    |low: V|
                        lifted(
                            eval(
                                x.spec_convert(
                                    ValueConversionKind::ExtractUpper(Type::Lane(LaneType::I64)),
                                ),
                            ),
                        ).bind(|high: V| Eval::Value(assigned_both(low, high))),
                ),
        ),
        Opcode::Iconcat => arg0.bind(
            |low: V| arg1.bind(|high: V| assigned_result(eval(low.spec_concat(high)))),
        ),
        Opcode::SqmulRoundSat => fixed_point_effect::<V, S, I>(s, c, ty),
        Opcode::IaddPairwise => arg0.bind(
            |x: V|
                arg1.bind(|y: V| assigned_result(pairwise_vector(x, y, ty, BinaryOp::Add))),
        ),
        _ => Eval::Undefined,
    }
}

/// Evaluate an average, a product, an absolute value, a bit count or a half of an integer.
pub fn eval_integer<'a, V: Value, S: State<'a, V>, I: InstructionContext>(
    s: &S,
    c: &I,
    op: Opcode,
    ty: Type,
) -> (r: ActionResult<'a, V>)
    requires
        integer_effect::<V, S, I>(*s, *c, op, ty).defined(),
    ensures
        eval_action(r) == integer_effect::<V, S, I>(*s, *c, op, ty),
{
    match op {
        Opcode::AvgRound => {
            let x: V = arg(s, c, 0)?;
            let y: V = arg(s, c, 1)?;
            assign_result(average(x, y, ty))
        },
        Opcode::Iabs => {
            let (min, _): (i128, i128) = ty.lane_type().signed_bounds();
            let min: V = lift(V::integer(min, ty.lane_type()))?;
            let x: V = arg(s, c, 0)?;
            let map: LaneMap<V> = LaneMap::Abs { min, lane: ty.lane_type() };
            assign_result(map_lanes(&x, ty, &map, ty))
        },
        Opcode::Umulhi => {
            let kind = ValueConversionKind::ZeroExtend(get_product_type(ty));
            zip_args(s, c, ty, LaneZip::MulHigh { kind, lane: ty.lane_type() })
        },
        Opcode::Smulhi => {
            let kind = ValueConversionKind::SignExtend(get_product_type(ty));
            zip_args(s, c, ty, LaneZip::MulHigh { kind, lane: ty.lane_type() })
        },
        Opcode::Cls => {
            let x: V = arg(s, c, 0)?;
            assign_result(count_leading_sign_bits(x, ty))
        },
        Opcode::Popcnt => {
            let x: V = arg(s, c, 0)?;
            assign_result(count_population(x, ty))
        },
        Opcode::Isplit => {
            let x: V = arg(s, c, 0)?;
            let low: V = lift(
                x.duplicate().convert(ValueConversionKind::Truncate(Type::Lane(LaneType::I64))),
            )?;
            let high: V = lift(
                x.convert(ValueConversionKind::ExtractUpper(Type::Lane(LaneType::I64))),
            )?;
            Ok(assign_both(low, high))
        },
        Opcode::Iconcat => {
            let low: V = arg(s, c, 0)?;
            let high: V = arg(s, c, 1)?;
            assign_result(low.concat(high))
        },
        Opcode::SqmulRoundSat => eval_fixed_point(s, c, ty),
        Opcode::IaddPairwise => {
            let x: V = arg(s, c, 0)?;
            let y: V = arg(s, c, 1)?;
            assign_result(apply_pairwise(x, y, ty, BinaryOp::Add))
        },
        _ => vstd::pervasive::unreached(),
    }
}

} // verus!
