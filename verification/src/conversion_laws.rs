//! What comparisons and extremes of floats, and conversions of lanes do.
use crate::arith::{float_compare, LaneMap, LaneZip};
use crate::condition_laws::{compares_as, FloatOrder};
use crate::convert::narrowed;
use crate::eval::{eval, sequence, Eval};
use crate::float::{f32_from_int, f64_from_int, f64_to_int};
use crate::floating::fused_lanes;
use crate::ir::{FloatCC, InstructionData, Opcode, TrapCode};
use crate::lanes::{lanes_of, vector_of, vector_of_all};
use crate::layout_laws::law_bounds;
use crate::state::{InstructionContext, State};
use crate::step::step_effect;
use crate::terms::{
    all_become, arg_is, assigns, collects, comes_to, fails_first, fails_with, is_instruction,
    lemma_lanes, traps, yields,
};
use crate::types::{LaneType, Lanes, Type};
use crate::value::{Value, ValueConversionKind, ValueError, ValueResult};
use vstd::arithmetic::power2::*;
use vstd::prelude::*;

verus! {

/// Whether a floating point condition holds of two floats that compare as `order` says.
pub open spec fn holds_in_order(code: FloatCC, order: FloatOrder) -> bool {
    match code {
        FloatCC::Ordered => !(order is Unordered),
        FloatCC::Unordered => order is Unordered,
        FloatCC::Equal => order is Equal,
        FloatCC::NotEqual => !(order is Equal),
        FloatCC::OrderedNotEqual => order is Less || order is Greater,
        FloatCC::UnorderedOrEqual => order is Unordered || order is Equal,
        FloatCC::LessThan => order is Less,
        FloatCC::LessThanOrEqual => order is Less || order is Equal,
        FloatCC::GreaterThan => order is Greater,
        FloatCC::GreaterThanOrEqual => order is Greater || order is Equal,
        FloatCC::UnorderedOrLessThan => order is Unordered || order is Less,
        FloatCC::UnorderedOrLessThanOrEqual => !(order is Greater),
        FloatCC::UnorderedOrGreaterThan => order is Unordered || order is Greater,
        FloatCC::UnorderedOrGreaterThanOrEqual => !(order is Less),
    }
}

/// A floating point condition holds exactly in the orders that its name says.
pub proof fn law_float_condition<V: Value>(code: FloatCC, x: V, y: V, order: FloatOrder)
    requires
        compares_as(x, y, order),
    ensures
        float_compare(code, x, y) == Ok::<bool, ValueError>(holds_in_order(code, order)),
{
}

/// A comparison of floats assigns the truth value of its condition for each pair of corresponding
/// lanes.
pub proof fn law_fcmp<'a, V: Value, S: State<'a, V>, I: InstructionContext>(
    s: S,
    c: I,
    cond: FloatCC,
    ty: Type,
    x: V,
    y: V,
    xs: Seq<V>,
    ys: Seq<V>,
    orders: Seq<FloatOrder>,
)
    requires
        c.spec_data() == (InstructionData::FloatCompare { opcode: Opcode::Fcmp, cond }),
        c.spec_controlling_type() == Some(ty),
        arg_is::<V, S, I>(s, c, 0, x),
        arg_is::<V, S, I>(s, c, 1, y),
        lanes_of(x, ty) == Eval::<Seq<V>, ValueError>::Value(xs),
        lanes_of(y, ty) == Eval::<Seq<V>, ValueError>::Value(ys),
        xs.len() == ys.len(),
        orders.len() == xs.len(),
        forall|i: int| 0 <= i < xs.len() ==> compares_as(#[trigger] xs[i], ys[i], orders[i]),
    ensures
        collects(
            step_effect::<V, S, I>(s, c),
            xs.len(),
            |i: int|
                V::spec_boolean(
                    holds_in_order(cond, orders[i]),
                    ty is Vector,
                    Type::Lane(LaneType::I8),
                ),
            ty,
        ),
{
    let lane = |i: int|
        V::spec_boolean(
            holds_in_order(cond, orders[i]),
            ty is Vector,
            Type::Lane(LaneType::I8),
        );
    let evals = LaneZip::<V>::FloatCompare {
        code: Some(cond),
        vec_elem: ty is Vector,
        lane: Type::Lane(LaneType::I8),
    }.results(xs, ys);
    assert forall|i: int| 0 <= i < evals.len() implies (#[trigger] evals[i]) == eval(lane(i)) by {
        law_float_condition(cond, xs[i], ys[i], orders[i]);
    }
    lemma_lanes(evals, lane);
}

/// The fused product assigns the product of corresponding lanes of the first two arguments, plus that
/// of the third.
pub proof fn law_fma<'a, V: Value, S: State<'a, V>, I: InstructionContext>(
    s: S,
    c: I,
    ty: Type,
    x: V,
    y: V,
    z: V,
    xs: Seq<V>,
    ys: Seq<V>,
    zs: Seq<V>,
)
    requires
        is_instruction(c, Opcode::Fma, ty),
        arg_is::<V, S, I>(s, c, 0, x),
        arg_is::<V, S, I>(s, c, 1, y),
        arg_is::<V, S, I>(s, c, 2, z),
        lanes_of(x, ty) == Eval::<Seq<V>, ValueError>::Value(xs),
        lanes_of(y, ty) == Eval::<Seq<V>, ValueError>::Value(ys),
        lanes_of(z, ty) == Eval::<Seq<V>, ValueError>::Value(zs),
        xs.len() == ys.len(),
        ys.len() == zs.len(),
    ensures
        collects(
            step_effect::<V, S, I>(s, c),
            xs.len(),
            |i: int| xs[i].spec_fma(ys[i], zs[i]),
            ty,
        ),
{
    lemma_lanes(fused_lanes(xs, ys, zs), |i: int| xs[i].spec_fma(ys[i], zs[i]));
}

/// The minimum and the maximum of two floats: the first one if it is no number, or else the second
/// one if that is none; of two zeros, the negative one is less; otherwise the lesser or the greater
/// one.
pub proof fn law_float_extremes<'a, V: Value, S: State<'a, V>, I: InstructionContext>(
    s: S,
    c: I,
    op: Opcode,
    ty: Type,
    a: V,
    b: V,
    a_nan: bool,
    b_nan: bool,
    a_zero: bool,
    b_zero: bool,
    a_negative: bool,
    b_negative: bool,
)
    requires
        is_instruction(c, op, ty),
        op is Fmin || op is Fmax,
        arg_is::<V, S, I>(s, c, 0, a),
        arg_is::<V, S, I>(s, c, 1, b),
        a.spec_is_nan() == Ok::<bool, ValueError>(a_nan),
        b.spec_is_nan() == Ok::<bool, ValueError>(b_nan),
        a.spec_is_zero() == Ok::<bool, ValueError>(a_zero),
        b.spec_is_zero() == Ok::<bool, ValueError>(b_zero),
        a.spec_is_negative() == Ok::<bool, ValueError>(a_negative),
        b.spec_is_negative() == Ok::<bool, ValueError>(b_negative),
    ensures
        ({
            let r = step_effect::<V, S, I>(s, c);
            &&& a_nan ==> assigns(r, a)
            &&& !a_nan && b_nan ==> assigns(r, b)
            &&& !a_nan && !b_nan && a_zero && b_zero && a_negative ==> assigns(
                r,
                if op is Fmin {
                    a
                } else {
                    b
                },
            )
            &&& !a_nan && !b_nan && a_zero && b_zero && !a_negative && b_negative ==> assigns(
                r,
                if op is Fmin {
                    b
                } else {
                    a
                },
            )
            &&& !a_nan && !b_nan && !(a_zero && b_zero && (a_negative || b_negative)) ==> yields(
                r,
                if op is Fmin {
                    a.spec_min(b)
                } else {
                    a.spec_max(b)
                },
            )
        }),
{
}

/// The pseudo-minimum and -maximum of two floats: the first one if one of them is no number, or both
/// are zero; otherwise the lesser or the greater one.
pub proof fn law_pseudo_extremes<'a, V: Value, S: State<'a, V>, I: InstructionContext>(
    s: S,
    c: I,
    op: Opcode,
    ty: Type,
    a: V,
    b: V,
    a_nan: bool,
    b_nan: bool,
    a_zero: bool,
    b_zero: bool,
)
    requires
        is_instruction(c, op, ty),
        op is FminPseudo || op is FmaxPseudo,
        arg_is::<V, S, I>(s, c, 0, a),
        arg_is::<V, S, I>(s, c, 1, b),
        a.spec_is_nan() == Ok::<bool, ValueError>(a_nan),
        b.spec_is_nan() == Ok::<bool, ValueError>(b_nan),
        a.spec_is_zero() == Ok::<bool, ValueError>(a_zero),
        b.spec_is_zero() == Ok::<bool, ValueError>(b_zero),
    ensures
        ({
            let r = step_effect::<V, S, I>(s, c);
            &&& a_nan || b_nan || (a_zero && b_zero) ==> assigns(r, a)
            &&& !a_nan && !b_nan && !(a_zero && b_zero) ==> yields(
                r,
                if op is FminPseudo {
                    a.spec_min(b)
                } else {
                    a.spec_max(b)
                },
            )
        }),
{
}

/// Converting a float to an integer truncates it. It is a trap if the float is no number, and another
/// one if the integer is out of the range of its type.
pub proof fn law_float_to_int<'a, V: Value, S: State<'a, V>, I: InstructionContext>(
    s: S,
    c: I,
    op: Opcode,
    ty: Type,
    lane_ty: LaneType,
    x: V,
    nan: bool,
    bits: u64,
)
    requires
        is_instruction(c, op, ty),
        op is FcvtToUint || op is FcvtToSint,
        ty.lane_type() == Type::Lane(lane_ty),
        lane_ty.spec_is_int(),
        arg_is::<V, S, I>(s, c, 0, x),
        x.spec_is_nan() == Ok::<bool, ValueError>(nan),
        x.spec_into_float() == Ok::<u64, ValueError>(bits),
    ensures
        ({
            let r = step_effect::<V, S, I>(s, c);
            let n = f64_to_int(bits);
            let half = pow2((lane_ty.bits() - 1) as nat) as int;
            let fits = if op is FcvtToSint {
                -half <= n < half
            } else {
                0 <= n < pow2(lane_ty.bits() as nat)
            };
            &&& nan ==> traps(r, TrapCode::BadConversionToInteger)
            &&& !nan && !fits ==> traps(r, TrapCode::IntegerOverflow)
            &&& !nan && fits ==> yields(r, V::spec_integer(n, ty))
        }),
{
    law_bounds(lane_ty);
    assert(ty.int_lane() == Some(lane_ty));
}

/// Whether `m` is the number nearest to `n` from `low` up to `high`.
pub open spec fn is_clamped(m: int, n: int, low: int, high: int) -> bool {
    &&& low <= n <= high ==> m == n
    &&& n < low ==> m == low
    &&& n > high ==> m == high
}

/// Converting floats to integers with saturation, lane by lane: what is no number becomes zero, what
/// is out of range the bound that it exceeds.
pub proof fn law_saturating_float_to_int<'a, V: Value, S: State<'a, V>, I: InstructionContext>(
    s: S,
    c: I,
    op: Opcode,
    ty: Type,
    in_ty: Type,
    lane_ty: LaneType,
    x: V,
    xs: Seq<V>,
    nans: Seq<bool>,
    bits: Seq<u64>,
    ms: Seq<int>,
)
    requires
        is_instruction(c, op, ty),
        op is FcvtToUintSat || op is FcvtToSintSat,
        ty.lane_type() == Type::Lane(lane_ty),
        lane_ty.spec_is_int(),
        arg_is::<V, S, I>(s, c, 0, x),
        c.spec_type_of(c.spec_args()[0]) == Some(in_ty),
        lanes_of(x, in_ty) == Eval::<Seq<V>, ValueError>::Value(xs),
        nans.len() == xs.len() && bits.len() == xs.len() && ms.len() == xs.len(),
        forall|i: int|
            0 <= i < xs.len() ==> (#[trigger] xs[i]).spec_is_nan() == Ok::<bool, ValueError>(nans[i])
                && xs[i].spec_into_float() == Ok::<u64, ValueError>(bits[i]) && if nans[i] {
                ms[i] == 0
            } else if op is FcvtToSintSat {
                is_clamped(
                    ms[i],
                    f64_to_int(bits[i]),
                    -pow2((lane_ty.bits() - 1) as nat),
                    pow2((lane_ty.bits() - 1) as nat) - 1,
                )
            } else {
                is_clamped(ms[i], f64_to_int(bits[i]), 0, pow2(lane_ty.bits() as nat) - 1)
            },
    ensures
        collects(
            step_effect::<V, S, I>(s, c),
            xs.len(),
            |i: int| V::spec_integer(ms[i], ty.lane_type()),
            ty,
        ),
{
    law_bounds(lane_ty);
    assert(ty.int_lane() == Some(lane_ty));
    let lane = |i: int| V::spec_integer(ms[i], ty.lane_type());
    let evals = LaneMap::<V>::FloatToInt { signed: op is FcvtToSintSat, ty }.results(xs);
    assert forall|i: int| 0 <= i < evals.len() implies (#[trigger] evals[i]) == eval(lane(i)) by {
        assert(xs[i].spec_is_nan() == Ok::<bool, ValueError>(nans[i]));
    }
    lemma_lanes(evals, lane);
}

/// The float of type `lane` nearest to the number `n`.
pub open spec fn nearest_float<V: Value>(n: int, lane: Type) -> ValueResult<V> {
    if lane == Type::Lane(LaneType::F32) {
        V::spec_float(f32_from_int(n) as u64, lane)
    } else {
        V::spec_float(f64_from_int(n) as u64, lane)
    }
}

/// The float of type `lane` nearest to the integer `a`, which is read as an unsigned one if
/// `unsigned`.
pub open spec fn float_of<V: Value>(a: V, unsigned: bool, lane: Type) -> ValueResult<V> {
    let read: ValueResult<V> = if unsigned {
        a.spec_convert(ValueConversionKind::ToUnsigned)
    } else {
        Ok(a)
    };
    match read {
        Err(e) => Err(e),
        Ok(y) => match y.spec_into_int() {
            Err(e) => Err(e),
            Ok(n) => nearest_float(n as int, lane),
        },
    }
}

/// Converting integers to floats gives the nearest float of each lane; the low half of a vector is
/// converted alone where the instruction says so.
pub proof fn law_int_to_float<'a, V: Value, S: State<'a, V>, I: InstructionContext>(
    s: S,
    c: I,
    op: Opcode,
    ty: Type,
    in_ty: Type,
    x: V,
    xs: Seq<V>,
)
    requires
        is_instruction(c, op, ty),
        ty.lane_type() == Type::Lane(LaneType::F32) || ty.lane_type() == Type::Lane(LaneType::F64),
        arg_is::<V, S, I>(s, c, 0, x),
        c.spec_type_of(c.spec_args()[0]) == Some(in_ty),
        lanes_of(x, in_ty) == Eval::<Seq<V>, ValueError>::Value(xs),
    ensures
        op is FcvtFromUint ==> collects(
            step_effect::<V, S, I>(s, c),
            xs.len(),
            |i: int| float_of(xs[i], true, ty.lane_type()),
            ty,
        ),
        op is FcvtFromSint ==> collects(
            step_effect::<V, S, I>(s, c),
            xs.len(),
            |i: int| float_of(xs[i], false, ty.lane_type()),
            ty,
        ),
        op is FcvtLowFromSint && ty.lane_count() <= xs.len() ==> collects(
            step_effect::<V, S, I>(s, c),
            ty.lane_count() as nat,
            |i: int| float_of(xs[i], false, ty.lane_type()),
            ty,
        ),
{
    let lane = ty.lane_type();
    lemma_lanes(
        LaneMap::<V>::IntToFloat { unsigned: true, lane }.results(xs),
        |i: int| float_of(xs[i], true, ty.lane_type()),
    );
    lemma_lanes(
        LaneMap::<V>::IntToFloat { unsigned: false, lane }.results(xs),
        |i: int| float_of(xs[i], false, ty.lane_type()),
    );
    if ty.lane_count() <= xs.len() {
        let low = xs.subrange(0, ty.lane_count() as int);
        lemma_lanes(
            LaneMap::<V>::IntToFloat { unsigned: false, lane }.results(low),
            |i: int| float_of(xs[i], false, ty.lane_type()),
        );
    }
}

/// Promoting the low half of a vector of four single floats makes a vector of two double ones;
/// demoting a vector of two double floats rounds them to single ones, and fills up with zeros.
pub proof fn law_float_vectors<'a, V: Value, S: State<'a, V>, I: InstructionContext>(
    s: S,
    c: I,
    op: Opcode,
    ty: Type,
    x: V,
    xs: Seq<V>,
    low: V,
    high: V,
    zero: V,
)
    requires
        is_instruction(c, op, ty),
        arg_is::<V, S, I>(s, c, 0, x),
    ensures
        op is FvpromoteLow && c.spec_type_of(c.spec_args()[0]) == Some(
            Type::Vector(LaneType::F32, Lanes::X4),
        ) && lanes_of(x, Type::Vector(LaneType::F32, Lanes::X4)) == Eval::<
            Seq<V>,
            ValueError,
        >::Value(xs) && xs.len() == 4 ==> collects(
            step_effect::<V, S, I>(s, c),
            2,
            |i: int| xs[i].spec_convert(ValueConversionKind::Exact(Type::Lane(LaneType::F64))),
            Type::Vector(LaneType::F64, Lanes::X2),
        ),
        op is Fvdemote && c.spec_type_of(c.spec_args()[0]) == Some(
            Type::Vector(LaneType::F64, Lanes::X2),
        ) && lanes_of(x, Type::Vector(LaneType::F64, Lanes::X2)) == Eval::<
            Seq<V>,
            ValueError,
        >::Value(xs) && xs.len() == 2 && xs[0].spec_convert(
            ValueConversionKind::RoundNearestEven(Type::Lane(LaneType::F32)),
        ) == Ok::<V, ValueError>(low) && xs[1].spec_convert(
            ValueConversionKind::RoundNearestEven(Type::Lane(LaneType::F32)),
        ) == Ok::<V, ValueError>(high) && V::spec_float(0, Type::Lane(LaneType::F32)) == Ok::<
            V,
            ValueError,
        >(zero) ==> comes_to(
            step_effect::<V, S, I>(s, c),
            vector_of(seq![low, high, zero, zero], Type::Vector(LaneType::F32, Lanes::X4)),
        ),
{
    if op is FvpromoteLow && xs.len() == 4 {
        let kind = ValueConversionKind::Exact(Type::Lane(LaneType::F64));
        lemma_lanes(
            LaneMap::<V>::Convert { kind }.results(xs.subrange(0, 2)),
            |i: int| xs[i].spec_convert(ValueConversionKind::Exact(Type::Lane(LaneType::F64))),
        );
    }
    if op is Fvdemote && xs.len() == 2 && xs[0].spec_convert(
        ValueConversionKind::RoundNearestEven(Type::Lane(LaneType::F32)),
    ) == Ok::<V, ValueError>(low) && xs[1].spec_convert(
        ValueConversionKind::RoundNearestEven(Type::Lane(LaneType::F32)),
    ) == Ok::<V, ValueError>(high) {
        let kind = ValueConversionKind::RoundNearestEven(Type::Lane(LaneType::F32));
        let lane = |i: int| xs[i].spec_convert(kind);
        lemma_lanes(LaneMap::<V>::Convert { kind }.results(xs), lane);
        assert(all_become(lane, seq![low, high]));
        assert(seq![low, high] + Seq::new((4 - 2) as nat, |i: int| zero) =~= seq![
            low,
            high,
            zero,
            zero,
        ]);
    }
}

/// Reading a value as another type converts each lane exactly and makes a vector of the controlling
/// type; a mask converts each lane to all bits or none.
pub proof fn law_bitcast_and_mask<'a, V: Value, S: State<'a, V>, I: InstructionContext>(
    s: S,
    c: I,
    op: Opcode,
    ty: Type,
    in_ty: Type,
    x: V,
    xs: Seq<V>,
)
    requires
        is_instruction(c, op, ty),
        arg_is::<V, S, I>(s, c, 0, x),
        op is Bitcast || op is ScalarToVector ==> c.spec_type_of(c.spec_args()[0]) == Some(in_ty),
        op is Bmask ==> ty.int_lanes() == Some(in_ty),
        lanes_of(x, in_ty) == Eval::<Seq<V>, ValueError>::Value(xs),
    ensures
        op is Bitcast ==> collects(
            step_effect::<V, S, I>(s, c),
            xs.len(),
            |i: int| xs[i].spec_convert(ValueConversionKind::Exact(ty.lane_type())),
            ty,
        ),
        op is Bmask ==> collects(
            step_effect::<V, S, I>(s, c),
            xs.len(),
            |i: int| xs[i].spec_convert(ValueConversionKind::Mask(ty.lane_type())),
            ty,
        ),
        op is ScalarToVector ==> forall|zs: Seq<V>|
            zs.len() == xs.len() && (forall|i: int|
                0 <= i < zs.len() ==> xs[i].spec_convert(
                    ValueConversionKind::Exact(ty.lane_type()),
                ) == Ok::<V, ValueError>(#[trigger] zs[i])) ==> comes_to(
                step_effect::<V, S, I>(s, c),
                #[trigger] vector_of_all(zs, ty),
            ),
        op is ScalarToVector ==> forall|k: int, e: ValueError|
            #![trigger xs[k], fails_with(step_effect::<V, S, I>(s, c), e)]
            0 <= k < xs.len() && (forall|i: int|
                0 <= i < k ==> (#[trigger] xs[i]).spec_convert(
                    ValueConversionKind::Exact(ty.lane_type()),
                ) is Ok) && xs[k].spec_convert(ValueConversionKind::Exact(ty.lane_type())) == Err::<
                V,
                ValueError,
            >(e) ==> fails_with(step_effect::<V, S, I>(s, c), e),
{
    let exact = |i: int| xs[i].spec_convert(ValueConversionKind::Exact(ty.lane_type()));
    lemma_lanes(
        LaneMap::<V>::Convert { kind: ValueConversionKind::Exact(ty.lane_type()) }.results(xs),
        exact,
    );
    lemma_lanes(
        LaneMap::<V>::Convert { kind: ValueConversionKind::Mask(ty.lane_type()) }.results(xs),
        |i: int| xs[i].spec_convert(ValueConversionKind::Mask(ty.lane_type())),
    );
    lemma_lanes(
        LaneMap::<V>::Convert { kind: ValueConversionKind::Exact(ty.lane_type()) }.results(xs),
        |i: int| xs[i].spec_convert(ValueConversionKind::Exact(ty.lane_type())),
    );
    if op is ScalarToVector {
        assert forall|zs: Seq<V>|
            zs.len() == xs.len() && (forall|i: int|
                0 <= i < zs.len() ==> xs[i].spec_convert(
                    ValueConversionKind::Exact(ty.lane_type()),
                ) == Ok::<V, ValueError>(#[trigger] zs[i])) implies comes_to(
            step_effect::<V, S, I>(s, c),
            #[trigger] vector_of_all(zs, ty),
        ) by {
            assert(all_become(exact, zs));
        }
        assert forall|k: int, e: ValueError|
            #![trigger xs[k], fails_with(step_effect::<V, S, I>(s, c), e)]
            0 <= k < xs.len() && (forall|i: int|
                0 <= i < k ==> (#[trigger] xs[i]).spec_convert(
                    ValueConversionKind::Exact(ty.lane_type()),
                ) is Ok) && xs[k].spec_convert(ValueConversionKind::Exact(ty.lane_type())) == Err::<
                V,
                ValueError,
            >(e) implies fails_with(step_effect::<V, S, I>(s, c), e) by {
            assert forall|i: int| 0 <= i < k implies (#[trigger] exact(i)) is Ok by {
                assert(xs[i].spec_convert(ValueConversionKind::Exact(ty.lane_type())) is Ok);
            }
            assert(fails_first(exact, k, e));
        }
    }
}

/// The value of type `lane` nearest to `a` from `min` up to `max`; `from_unsigned` reads `a` as an
/// unsigned integer, `to_unsigned` the result.
pub open spec fn squeezed<V: Value>(
    a: V,
    min: V,
    max: V,
    lane: Type,
    from_unsigned: bool,
    to_unsigned: bool,
) -> ValueResult<V> {
    let read: ValueResult<V> = if from_unsigned {
        a.spec_convert(ValueConversionKind::ToUnsigned)
    } else {
        Ok(a)
    };
    match read {
        Err(e) => Err(e),
        Ok(y) => match y.spec_max(min) {
            Err(e) => Err(e),
            Ok(low) => match low.spec_min(max) {
                Err(e) => Err(e),
                Ok(high) => match high.spec_convert(ValueConversionKind::Truncate(lane)) {
                    Err(e) => Err(e),
                    Ok(cut) => if to_unsigned {
                        cut.spec_convert(ValueConversionKind::ToUnsigned)
                    } else {
                        Ok(cut)
                    },
                },
            },
        },
    }
}

/// Narrowing squeezes the lanes of the first argument and then those of the second one into lanes of
/// half the width: between the signed bounds, from signed to unsigned ones, or between unsigned
/// ones.
pub proof fn law_narrow<'a, V: Value, S: State<'a, V>, I: InstructionContext>(
    s: S,
    c: I,
    op: Opcode,
    ty: Type,
    narrow: Type,
    lane_ty: LaneType,
    x: V,
    y: V,
    xs: Seq<V>,
    ys: Seq<V>,
    low: V,
    high: V,
    min: V,
    max: V,
)
    requires
        is_instruction(c, op, ty),
        op is Snarrow || op is Unarrow || op is Uunarrow,
        ty.split_lanes() == Some(narrow),
        narrow.lane_type() == Type::Lane(lane_ty),
        lane_ty.spec_is_int(),
        arg_is::<V, S, I>(s, c, 0, x),
        arg_is::<V, S, I>(s, c, 1, y),
        lanes_of(x, ty) == Eval::<Seq<V>, ValueError>::Value(xs),
        lanes_of(y, ty) == Eval::<Seq<V>, ValueError>::Value(ys),
        V::spec_integer(
            if op is Snarrow {
                -pow2((lane_ty.bits() - 1) as nat)
            } else {
                0
            },
            ty.lane_type(),
        ) == Ok::<V, ValueError>(low),
        V::spec_integer(
            if op is Snarrow {
                pow2((lane_ty.bits() - 1) as nat) - 1
            } else {
                pow2(lane_ty.bits() as nat) - 1
            },
            ty.lane_type(),
        ) == Ok::<V, ValueError>(high),
        op is Uunarrow ==> low.spec_convert(ValueConversionKind::ToUnsigned) == Ok::<V, ValueError>(
            min,
        ) && high.spec_convert(ValueConversionKind::ToUnsigned) == Ok::<V, ValueError>(max),
        !(op is Uunarrow) ==> min == low && max == high,
    ensures
        collects(
            step_effect::<V, S, I>(s, c),
            xs.len() + ys.len(),
            |i: int|
                squeezed(
                    if i < xs.len() {
                        xs[i]
                    } else {
                        ys[i - xs.len()]
                    },
                    min,
                    max,
                    narrow.lane_type(),
                    op is Uunarrow,
                    !(op is Snarrow),
                ),
            narrow,
        ),
{
    law_bounds(lane_ty);
    let lane = |i: int|
        squeezed(
            if i < xs.len() {
                xs[i]
            } else {
                ys[i - xs.len()]
            },
            min,
            max,
            narrow.lane_type(),
            op is Uunarrow,
            !(op is Snarrow),
        );
    assert(narrow.int_lane() == Some(lane_ty));
    let evals = LaneMap::Narrow {
        from_unsigned: op is Uunarrow,
        to_unsigned: !(op is Snarrow),
        min,
        max,
        lane: narrow.lane_type(),
    }.results(xs + ys);
    assert forall|i: int| 0 <= i < evals.len() implies (#[trigger] evals[i]) == eval(lane(i)) by {
        if i < xs.len() {
            assert((xs + ys)[i] == xs[i]);
        } else {
            assert((xs + ys)[i] == ys[i - xs.len()]);
        }
    }
    lemma_lanes(evals, lane);
    let r = narrowed(xs + ys, ty.lane_type(), narrow, op is Snarrow, op is Uunarrow);
    assert(r == sequence(evals).bind(|lanes: Seq<V>| vector_of(lanes, narrow)));
    assert(step_effect::<V, S, I>(s, c) == crate::flow::assigned_result(r));
}

/// Widening extends the first half of the lanes, or the second half, to lanes of twice the width: with
/// the sign, or with zeros.
pub proof fn law_widen<'a, V: Value, S: State<'a, V>, I: InstructionContext>(
    s: S,
    c: I,
    op: Opcode,
    ty: Type,
    wide: Type,
    x: V,
    xs: Seq<V>,
)
    requires
        is_instruction(c, op, ty),
        ty.merge_lanes() == Some(wide),
        arg_is::<V, S, I>(s, c, 0, x),
        lanes_of(x, ty) == Eval::<Seq<V>, ValueError>::Value(xs),
        wide.lane_count() <= xs.len(),
    ensures
        ({
            let r = step_effect::<V, S, I>(s, c);
            let count = wide.lane_count() as int;
            let rest = (xs.len() - count) as nat;
            &&& op is SwidenLow ==> collects(
                r,
                count as nat,
                |i: int| xs[i].spec_convert(ValueConversionKind::SignExtend(wide.lane_type())),
                wide,
            )
            &&& op is UwidenLow ==> collects(
                r,
                count as nat,
                |i: int| xs[i].spec_convert(ValueConversionKind::ZeroExtend(wide.lane_type())),
                wide,
            )
            &&& op is SwidenHigh ==> collects(
                r,
                rest,
                |i: int|
                    xs[count + i].spec_convert(ValueConversionKind::SignExtend(wide.lane_type())),
                wide,
            )
            &&& op is UwidenHigh ==> collects(
                r,
                rest,
                |i: int|
                    xs[count + i].spec_convert(ValueConversionKind::ZeroExtend(wide.lane_type())),
                wide,
            )
        }),
{
    let count = wide.lane_count() as int;
    let sign = ValueConversionKind::SignExtend(wide.lane_type());
    let zero = ValueConversionKind::ZeroExtend(wide.lane_type());
    let low = xs.subrange(0, count);
    let high = xs.subrange(count, xs.len() as int);
    if op is SwidenLow {
        lemma_lanes(
            LaneMap::<V>::Convert { kind: sign }.results(low),
            |i: int| xs[i].spec_convert(ValueConversionKind::SignExtend(wide.lane_type())),
        );
    } else if op is UwidenLow {
        lemma_lanes(
            LaneMap::<V>::Convert { kind: zero }.results(low),
            |i: int| xs[i].spec_convert(ValueConversionKind::ZeroExtend(wide.lane_type())),
        );
    } else if op is SwidenHigh {
        lemma_lanes(
            LaneMap::<V>::Convert { kind: sign }.results(high),
            |i: int| xs[count + i].spec_convert(ValueConversionKind::SignExtend(wide.lane_type())),
        );
    } else if op is UwidenHigh {
        lemma_lanes(
            LaneMap::<V>::Convert { kind: zero }.results(high),
            |i: int| xs[count + i].spec_convert(ValueConversionKind::ZeroExtend(wide.lane_type())),
        );
    }
}

} // verus!
