//! Conversions between types: narrowing, widening, masks, and between integers and floats.
use crate::arith::{map_lanes, map_vector, operand, read_operand, LaneMap};
use crate::eval::{eval, eval_list, present, sequence, Eval};
use crate::float::{f64_to_int, float_to_int};
use crate::flow::{
    assign, assign_result, assigned, assigned_result, eval_action, lift, lifted, trap_with, trapped,
    ActionResult, CraneliftTrap, Effect, StepError,
};
use crate::ir::{Opcode, TrapCode};
use crate::lanes::{vector_of, vector_of_all, vectorizelanes, vectorizelanes_all};
use crate::operands::{arg, arg_lanes, arg_type, arg_value, get_arg_type, read_lanes};
use crate::state::{InstructionContext, State};
use crate::types::{LaneType, Lanes, Type};
use crate::value::{Value, ValueConversionKind, ValueError, ValueResult};
use vstd::prelude::*;

verus! {

/// Convert the lanes `xs` and make a vector of type `ty` of them.
pub open spec fn collected<V: Value>(xs: Seq<V>, map: LaneMap<V>, ty: Type) -> Eval<V, ValueError> {
    sequence(map.results(xs)).bind(|lanes: Seq<V>| vector_of(lanes, ty))
}

/// Convert the lanes `xs` and make a vector of type `ty` of them.
pub fn collect<V: Value>(xs: &Vec<V>, map: &LaneMap<V>, ty: Type) -> (r: ValueResult<V>)
    requires
        collected(xs@, *map, ty).defined(),
    ensures
        eval(r) == collected(xs@, *map, ty),
{
    let lanes: Vec<V> = map.apply_all(xs)?;
    vectorizelanes(&lanes, ty)
}

/// The lanes `xs`, which have type `wide`, clamped to the range of the lanes of `ty` and narrowed
/// to them. `signed` says how the bounds are read; `from_unsigned` reads the lanes as unsigned
/// integers, too.
pub open spec fn narrowed<V: Value>(
    xs: Seq<V>,
    wide: Type,
    ty: Type,
    signed: bool,
    from_unsigned: bool,
) -> Eval<V, ValueError> {
    present(ty.int_lane()).bind(
        |lane: LaneType|
            eval(V::spec_integer(lane.min_value(signed), wide)).bind(
                |low: V|
                    eval(V::spec_integer(lane.max_value(signed), wide)).bind(
                        |high: V|
                            operand(low, from_unsigned).bind(
                                |min: V|
                                    operand(high, from_unsigned).bind(
                                        |max: V|
                                            collected(
                                                xs,
                                                LaneMap::Narrow {
                                                    from_unsigned,
                                                    to_unsigned: !signed,
                                                    min,
                                                    max,
                                                    lane: ty.lane_type(),
                                                },
                                                ty,
                                            ),
                                    ),
                            ),
                    ),
            ),
    )
}

fn narrow<V: Value>(xs: &Vec<V>, wide: Type, ty: Type, signed: bool, from_unsigned: bool) -> (r:
    ValueResult<V>)
    requires
        ty.int_lane() != Some(LaneType::I128),
        narrowed(xs@, wide, ty, signed, from_unsigned).defined(),
    ensures
        eval(r) == narrowed(xs@, wide, ty, signed, from_unsigned),
{
    let (min, max): (u128, u128) = ty.bounds(signed);
    let low: V = V::integer(min as i128, wide)?;
    let high: V = V::integer(max as i128, wide)?;
    let min: V = read_operand(low, from_unsigned)?;
    let max: V = read_operand(high, from_unsigned)?;
    let map: LaneMap<V> = LaneMap::Narrow {
        from_unsigned,
        to_unsigned: !signed,
        min,
        max,
        lane: ty.lane_type(),
    };
    collect(xs, &map, ty)
}

/// Append `more` to `xs`.
fn append<V: Value>(xs: &mut Vec<V>, more: &Vec<V>)
    ensures
        final(xs)@ == old(xs)@ + more@,
{
    let ghost before = xs@;
    let mut i: usize = 0;
    assert(xs@ =~= before + more@.take(0));
    while i < more.len()
        invariant
            i <= more.len(),
            xs@ == before + more@.take(i as int),
        decreases more.len() - i,
    {
        xs.push(more[i].duplicate());
        i = i + 1;
        assert(xs@ =~= before + more@.take(i as int));
    }
    assert(more@.take(i as int) =~= more@);
}

/// The lanes from `start` up to `end`.
fn copy_range<V: Value>(xs: &Vec<V>, start: usize, end: usize) -> (part: Vec<V>)
    requires
        start <= end <= xs.len(),
    ensures
        part@ == xs@.subrange(start as int, end as int),
{
    let mut part: Vec<V> = Vec::new();
    let mut i: usize = start;
    while i < end
        invariant
            start <= i <= end <= xs.len(),
            part@ == xs@.subrange(start as int, i as int),
        decreases end - i,
    {
        part.push(xs[i].duplicate());
        i = i + 1;
        assert(part@ =~= xs@.subrange(start as int, i as int));
    }
    part
}

/// The lesser of two positions.
pub open spec fn at_most(n: int, len: nat) -> int {
    if n < len {
        n
    } else {
        len as int
    }
}

/// Conversions lane by lane, where the result has another number of lanes or lanes of another
/// type.
pub open spec fn reshape_effect<'a, V: Value, S: State<'a, V>, I: InstructionContext>(
    s: S,
    c: I,
    op: Opcode,
    ty: Type,
) -> Eval<Effect<V>, StepError> {
    match op {
        Opcode::Bitcast => arg_type(c, 0).bind(
            |in_ty: Type|
                arg_value(s, c, 0).bind(
                    |x: V|
                        assigned_result(
                            map_vector(
                                x,
                                in_ty,
                                LaneMap::Convert { kind: ValueConversionKind::Exact(ty.lane_type()) },
                                ty,
                            ),
                        ),
                ),
        ),
        Opcode::ScalarToVector => arg_type(c, 0).bind(
            |in_ty: Type|
                arg_lanes::<V, S, I>(s, c, 0, in_ty).bind(
                    |xs: Seq<V>|
                        assigned_result(
                            sequence(
                                LaneMap::Convert {
                                    kind: ValueConversionKind::Exact(ty.lane_type()),
                                }.results(xs),
                            ).bind(|lanes: Seq<V>| vector_of_all(lanes, ty)),
                        ),
                ),
        ),
        Opcode::Snarrow | Opcode::Unarrow | Opcode::Uunarrow => arg_lanes::<V, S, I>(
            s,
            c,
            0,
            ty,
        ).bind(
            |xs: Seq<V>|
                arg_lanes::<V, S, I>(s, c, 1, ty).bind(
                    |ys: Seq<V>|
                        present(ty.split_lanes()).bind(
                            |narrow: Type|
                                assigned_result(
                                    narrowed(
                                        xs + ys,
                                        ty.lane_type(),
                                        narrow,
                                        op is Snarrow,
                                        op is Uunarrow,
                                    ),
                                ),
                        ),
                ),
        ),
        Opcode::Bmask => arg_value(s, c, 0).bind(
            |x: V|
                present(ty.int_lanes()).bind(
                    |bool_ty: Type|
                        assigned_result(
                            map_vector(
                                x,
                                bool_ty,
                                LaneMap::Convert { kind: ValueConversionKind::Mask(ty.lane_type()) },
                                ty,
                            ),
                        ),
                ),
        ),
        Opcode::SwidenLow | Opcode::SwidenHigh | Opcode::UwidenLow | Opcode::UwidenHigh => present(
            ty.merge_lanes(),
        ).bind(
            |wide: Type|
                arg_lanes::<V, S, I>(s, c, 0, ty).bind(
                    |xs: Seq<V>|
                        assigned_result(
                            collected(
                                widened_part(op, xs, wide.lane_count() as int),
                                LaneMap::Convert { kind: widening(op, wide.lane_type()) },
                                wide,
                            ),
                        ),
                ),
        ),
        _ => Eval::Undefined,
    }
}

/// The lanes that a widening keeps: the first `count` of them, or those behind.
pub open spec fn widened_part<V>(op: Opcode, xs: Seq<V>, count: int) -> Seq<V> {
    let middle = at_most(count, xs.len());
    if op is SwidenLow || op is UwidenLow {
        xs.subrange(0, middle)
    } else {
        xs.subrange(middle, xs.len() as int)
    }
}

/// How a widening extends the lanes to type `lane`.
pub open spec fn widening(op: Opcode, lane: Type) -> ValueConversionKind {
    if op is SwidenLow || op is SwidenHigh {
        ValueConversionKind::SignExtend(lane)
    } else {
        ValueConversionKind::ZeroExtend(lane)
    }
}

/// Evaluate a conversion lane by lane, where the result has another number of lanes or lanes of
/// another type.
pub fn eval_reshape<'a, V: Value, S: State<'a, V>, I: InstructionContext>(
    s: &S,
    c: &I,
    op: Opcode,
    ty: Type,
) -> (r: ActionResult<'a, V>)
    requires
        reshape_effect::<V, S, I>(*s, *c, op, ty).defined(),
    ensures
        eval_action(r) == reshape_effect::<V, S, I>(*s, *c, op, ty),
{
    match op {
        Opcode::Bitcast => {
            let in_ty: Type = get_arg_type(c, 0);
            let x: V = arg(s, c, 0)?;
            let map: LaneMap<V> = LaneMap::Convert {
                kind: ValueConversionKind::Exact(ty.lane_type()),
            };
            assign_result(map_lanes(&x, in_ty, &map, ty))
        },
        Opcode::ScalarToVector => {
            let in_ty: Type = get_arg_type(c, 0);
            let xs: Vec<V> = read_lanes(s, c, 0, in_ty)?;
            let map: LaneMap<V> = LaneMap::Convert {
                kind: ValueConversionKind::Exact(ty.lane_type()),
            };
            let lanes: Vec<V> = lift(map.apply_all(&xs))?;
            assign_result(vectorizelanes_all(&lanes, ty))
        },
        Opcode::Snarrow | Opcode::Unarrow | Opcode::Uunarrow => {
            let mut xs: Vec<V> = read_lanes(s, c, 0, ty)?;
            let ys: Vec<V> = read_lanes(s, c, 1, ty)?;
            let narrow_ty: Type = ty.split_lanes().unwrap();
            append(&mut xs, &ys);
            assign_result(
                narrow(
                    &xs,
                    ty.lane_type(),
                    narrow_ty,
                    matches!(op, Opcode::Snarrow),
                    matches!(op, Opcode::Uunarrow),
                ),
            )
        },
        Opcode::Bmask => {
            let x: V = arg(s, c, 0)?;
            let bool_ty: Type = ty.as_truthy_pedantic();
            let map: LaneMap<V> = LaneMap::Convert {
                kind: ValueConversionKind::Mask(ty.lane_type()),
            };
            assign_result(map_lanes(&x, bool_ty, &map, ty))
        },
        Opcode::SwidenLow | Opcode::SwidenHigh | Opcode::UwidenLow | Opcode::UwidenHigh => {
            let wide: Type = ty.merge_lanes().unwrap();
            let kind = match op {
                Opcode::SwidenLow | Opcode::SwidenHigh => ValueConversionKind::SignExtend(
                    wide.lane_type(),
                ),
                _ => ValueConversionKind::ZeroExtend(wide.lane_type()),
            };
            let xs: Vec<V> = read_lanes(s, c, 0, ty)?;
            let count: usize = wide.lane_count() as usize;
            let middle: usize = if count < xs.len() {
                count
            } else {
                xs.len()
            };
            let part: Vec<V> = match op {
                Opcode::SwidenLow | Opcode::UwidenLow => copy_range(&xs, 0, middle),
                _ => copy_range(&xs, middle, xs.len()),
            };
            let map: LaneMap<V> = LaneMap::Convert { kind };
            assign_result(collect(&part, &map, wide))
        },
        _ => vstd::pervasive::unreached(),
    }
}

/// The float `x` as an integer of type `ty`; a trap if it is not a number, or out of range.
pub open spec fn exact_integer<V: Value>(x: V, ty: Type, signed: bool) -> Eval<
    Result<V, TrapCode>,
    ValueError,
> {
    eval(x.spec_is_nan()).bind(
        |nan: bool|
            if nan {
                Eval::Value(Err(TrapCode::BadConversionToInteger))
            } else {
                eval(x.spec_into_float()).bind(
                    |bits: u64|
                        present(ty.int_lane()).bind(
                            |lane: LaneType|
                                {
                                    let n = f64_to_int(bits);
                                    if lane.min_value(signed) <= n <= lane.max_value(signed) {
                                        eval(V::spec_integer(n, ty)).bind(
                                            |v: V| Eval::Value(Ok(v)),
                                        )
                                    } else {
                                        Eval::Value(Err(TrapCode::IntegerOverflow))
                                    }
                                },
                        ),
                )
            },
    )
}

fn to_exact_integer<V: Value>(x: V, ty: Type, signed: bool) -> (r: ValueResult<Result<V, TrapCode>>)
    requires
        exact_integer(x, ty, signed).defined(),
    ensures
        eval(r) == exact_integer(x, ty, signed),
{
    // NaN check
    if x.is_nan()? {
        return Ok(Err(TrapCode::BadConversionToInteger));
    }
    let n: i128 = float_to_int(x.into_float()?);
    let (min, max): (u128, u128) = ty.bounds(signed);
    let overflow: bool = if signed {
        n < min as i128 || n > max as i128
    } else {
        n < 0 || n as u128 > max
    };
    // bounds check
    if overflow {
        return Ok(Err(TrapCode::IntegerOverflow));
    }
    // perform the conversion.
    let v: V = V::integer(n, ty)?;
    Ok(Ok(v))
}

/// A list of lanes, filled up with zeros of type `f32` to four lanes.
pub open spec fn zero_filled<V: Value>(xs: Seq<V>) -> Eval<Seq<V>, ValueError> {
    if xs.len() < 4 {
        eval(V::spec_float(0, Type::Lane(LaneType::F32))).bind(
            |zero: V| Eval::Value(xs + Seq::new((4 - xs.len()) as nat, |i: int| zero)),
        )
    } else {
        Eval::Value(xs)
    }
}

fn fill_with_zeros<V: Value>(xs: Vec<V>) -> (r: ValueResult<Vec<V>>)
    ensures
        eval_list(r) == zero_filled(xs@),
{
    let mut lanes: Vec<V> = xs;
    while lanes.len() < 4
        invariant
            xs@.len() <= lanes@.len(),
            xs@.len() < 4 ==> lanes@.len() <= 4,
            xs@.len() >= 4 ==> lanes@.len() == xs@.len(),
            lanes@.len() > xs@.len() ==> V::spec_float(0, Type::Lane(LaneType::F32)) is Ok,
            lanes@ == xs@ + Seq::new(
                (lanes@.len() - xs@.len()) as nat,
                |i: int| V::spec_float(0, Type::Lane(LaneType::F32))->Ok_0,
            ),
        decreases 4 - lanes.len(),
    {
        let zero: V = V::float(0, Type::Lane(LaneType::F32))?;
        lanes.push(zero);
        assert(lanes@ =~= xs@ + Seq::new(
            (lanes@.len() - xs@.len()) as nat,
            |i: int| V::spec_float(0, Type::Lane(LaneType::F32))->Ok_0,
        ));
    }
    proof {
        if xs@.len() < 4 {
            let zero = V::spec_float(0, Type::Lane(LaneType::F32))->Ok_0;
            assert(lanes@ =~= xs@ + Seq::new((4 - xs@.len()) as nat, |i: int| zero));
        } else {
            assert(lanes@ =~= xs@);
        }
    }
    Ok(lanes)
}

/// The first `count` lanes; there have to be as many.
pub open spec fn first_lanes<V>(xs: Seq<V>, count: int) -> Eval<Seq<V>, ValueError> {
    if count <= xs.len() {
        Eval::Value(xs.subrange(0, count))
    } else {
        Eval::Undefined
    }
}

/// Conversions between integers and floats, and between floats.
pub open spec fn float_conversion_effect<'a, V: Value, S: State<'a, V>, I: InstructionContext>(
    s: S,
    c: I,
    op: Opcode,
    ty: Type,
) -> Eval<Effect<V>, StepError> {
    let f32x4 = Type::Vector(LaneType::F32, Lanes::X4);
    let f64x2 = Type::Vector(LaneType::F64, Lanes::X2);
    match op {
        Opcode::FcvtToUint | Opcode::FcvtToSint => arg_value(s, c, 0).bind(
            |x: V|
                lifted(exact_integer(x, ty, op is FcvtToSint)).bind(
                    |r: Result<V, TrapCode>|
                        Eval::Value(
                            match r {
                                Ok(v) => assigned(v),
                                Err(code) => trapped(CraneliftTrap::User(code)),
                            },
                        ),
                ),
        ),
        Opcode::FcvtToUintSat | Opcode::FcvtToSintSat => arg_type(c, 0).bind(
            |in_ty: Type|
                arg_value(s, c, 0).bind(
                    |x: V|
                        assigned_result(
                            map_vector(
                                x,
                                in_ty,
                                LaneMap::FloatToInt { signed: op is FcvtToSintSat, ty },
                                ty,
                            ),
                        ),
                ),
        ),
        Opcode::FcvtFromUint | Opcode::FcvtFromSint => arg_value(s, c, 0).bind(
            |x: V|
                arg_type(c, 0).bind(
                    |in_ty: Type|
                        assigned_result(
                            map_vector(
                                x,
                                in_ty,
                                LaneMap::IntToFloat {
                                    unsigned: op is FcvtFromUint,
                                    lane: ty.lane_type(),
                                },
                                ty,
                            ),
                        ),
                ),
        ),
        Opcode::FcvtLowFromSint => arg_type(c, 0).bind(
            |in_ty: Type|
                arg_lanes::<V, S, I>(s, c, 0, in_ty).bind(
                    |xs: Seq<V>|
                        assigned_result(
                            first_lanes(xs, ty.lane_count() as int).bind(
                                |low: Seq<V>|
                                    collected(
                                        low,
                                        LaneMap::IntToFloat {
                                            unsigned: false,
                                            lane: ty.lane_type(),
                                        },
                                        ty,
                                    ),
                            ),
                        ),
                ),
        ),
        Opcode::FvpromoteLow => arg_type(c, 0).bind(
            |in_ty: Type|
                if in_ty != f32x4 {
                    Eval::Undefined
                } else {
                    arg_lanes::<V, S, I>(s, c, 0, in_ty).bind(
                        |xs: Seq<V>|
                            assigned_result(
                                first_lanes(xs, 2).bind(
                                    |low: Seq<V>|
                                        collected(
                                            low,
                                            LaneMap::Convert {
                                                kind: ValueConversionKind::Exact(
                                                    Type::Lane(LaneType::F64),
                                                ),
                                            },
                                            f64x2,
                                        ),
                                ),
                            ),
                    )
                },
        ),
        Opcode::Fvdemote => arg_type(c, 0).bind(
            |in_ty: Type|
                if in_ty != f64x2 {
                    Eval::Undefined
                } else {
                    arg_lanes::<V, S, I>(s, c, 0, in_ty).bind(
                        |xs: Seq<V>|
                            assigned_result(
                                sequence(
                                    LaneMap::Convert {
                                        kind: ValueConversionKind::RoundNearestEven(
                                            Type::Lane(LaneType::F32),
                                        ),
                                    }.results(xs),
                                ).bind(
                                    |lanes: Seq<V>|
                                        zero_filled(lanes).bind(
                                            |filled: Seq<V>| vector_of(filled, f32x4),
                                        ),
                                ),
                            ),
                    )
                },
        ),
        _ => Eval::Undefined,
    }
}

/// Evaluate a conversion between integers and floats, or between floats.
pub fn eval_float_conversion<'a, V: Value, S: State<'a, V>, I: InstructionContext>(
    s: &S,
    c: &I,
    op: Opcode,
    ty: Type,
) -> (r: ActionResult<'a, V>)
    requires
        float_conversion_effect::<V, S, I>(*s, *c, op, ty).defined(),
    ensures
        eval_action(r) == float_conversion_effect::<V, S, I>(*s, *c, op, ty),
{
    match op {
        Opcode::FcvtToUint | Opcode::FcvtToSint => {
            let x: V = arg(s, c, 0)?;
            match lift(to_exact_integer(x, ty, matches!(op, Opcode::FcvtToSint)))? {
                Ok(v) => Ok(assign(v)),
                Err(code) => Ok(trap_with(CraneliftTrap::User(code))),
            }
        },
        Opcode::FcvtToUintSat | Opcode::FcvtToSintSat => {
            let in_ty: Type = get_arg_type(c, 0);
            let x: V = arg(s, c, 0)?;
            let map: LaneMap<V> = LaneMap::FloatToInt {
                signed: matches!(op, Opcode::FcvtToSintSat),
                ty,
            };
            assign_result(map_lanes(&x, in_ty, &map, ty))
        },
        Opcode::FcvtFromUint | Opcode::FcvtFromSint => {
            let x: V = arg(s, c, 0)?;
            let in_ty: Type = get_arg_type(c, 0);
            let map: LaneMap<V> = LaneMap::IntToFloat {
                unsigned: matches!(op, Opcode::FcvtFromUint),
                lane: ty.lane_type(),
            };
            assign_result(map_lanes(&x, in_ty, &map, ty))
        },
        Opcode::FcvtLowFromSint => {
            let in_ty: Type = get_arg_type(c, 0);
            let xs: Vec<V> = read_lanes(s, c, 0, in_ty)?;
            let low: Vec<V> = copy_range(&xs, 0, ty.lane_count() as usize);
            let map: LaneMap<V> = LaneMap::IntToFloat { unsigned: false, lane: ty.lane_type() };
            assign_result(collect(&low, &map, ty))
        },
        Opcode::FvpromoteLow => {
            let in_ty: Type = get_arg_type(c, 0);
            if in_ty != Type::Vector(LaneType::F32, Lanes::X4) {
                return vstd::pervasive::unreached();
            }
            let out_ty: Type = Type::Vector(LaneType::F64, Lanes::X2);
            let xs: Vec<V> = read_lanes(s, c, 0, in_ty)?;
            let low: Vec<V> = copy_range(&xs, 0, out_ty.lane_count() as usize);
            let map: LaneMap<V> = LaneMap::Convert {
                kind: ValueConversionKind::Exact(out_ty.lane_type()),
            };
            assign_result(collect(&low, &map, out_ty))
        },
        Opcode::Fvdemote => {
            let in_ty: Type = get_arg_type(c, 0);
            if in_ty != Type::Vector(LaneType::F64, Lanes::X2) {
                return vstd::pervasive::unreached();
            }
            let out_ty: Type = Type::Vector(LaneType::F32, Lanes::X4);
            let xs: Vec<V> = read_lanes(s, c, 0, in_ty)?;
            let map: LaneMap<V> = LaneMap::Convert {
                kind: ValueConversionKind::RoundNearestEven(out_ty.lane_type()),
            };
            let lanes: Vec<V> = lift(map.apply_all(&xs))?;
            // zero the high bits.
            let filled: Vec<V> = lift(fill_with_zeros(lanes))?;
            assign_result(vectorizelanes(&filled, out_ty))
        },
        _ => vstd::pervasive::unreached(),
    }
}

} // verus!
