//! What additions with carries, products, averages, absolute values and bit counts do.
use crate::arith::{
    binary_results, fixed_point_product, pair_results, unary_results, LaneMap, LaneZip,
};
use crate::eval::{eval, Eval};
use crate::ir::{InstructionData, Opcode, TrapCode};
use crate::lane_laws::law_fixed_point_product;
use crate::lanes::lanes_of;
use crate::state::{InstructionContext, State};
use crate::step::step_effect;
use crate::terms::{
    arg_is, assigns, assigns_two, collects, fails_with, is_instruction, lemma_lanes, traps, yields,
};
use crate::types::{LaneType, Type};
use crate::value::{BinaryOp, UnaryOp, Value, ValueConversionKind, ValueError, ValueResult};
use vstd::arithmetic::power2::*;
use vstd::prelude::*;

verus! {

/// Adding with a carry assigns the sum of the first two arguments, and one more if the third one is
/// true; subtracting with a borrow assigns their difference, and one less if the third one is true.
pub proof fn law_carry_in<'a, V: Value, S: State<'a, V>, I: InstructionContext>(
    s: S,
    c: I,
    op: Opcode,
    ty: Type,
    x: V,
    y: V,
    z: V,
    flag: bool,
    one: V,
)
    requires
        is_instruction(c, op, ty),
        arg_is::<V, S, I>(s, c, 0, x),
        arg_is::<V, S, I>(s, c, 1, y),
        arg_is::<V, S, I>(s, c, 2, z),
        z.spec_into_bool() == Ok::<bool, ValueError>(flag),
        V::spec_integer(1, ty) == Ok::<V, ValueError>(one),
    ensures
        op is IaddCin ==> (x.spec_add(y) matches Ok(sum) ==> (sum.spec_add(one) matches Ok(more)
            ==> assigns(
            step_effect::<V, S, I>(s, c),
            if flag {
                more
            } else {
                sum
            },
        ))),
        op is IsubBin ==> (x.spec_sub(y) matches Ok(difference) ==> (y.spec_add(one) matches Ok(more)
            ==> (x.spec_sub(more) matches Ok(less) ==> assigns(
            step_effect::<V, S, I>(s, c),
            if flag {
                less
            } else {
                difference
            },
        )))),
{
}

/// Adding with a carry out assigns the sum of the two arguments, and whether it overflows.
pub proof fn law_carry_out<'a, V: Value, S: State<'a, V>, I: InstructionContext>(
    s: S,
    c: I,
    ty: Type,
    x: V,
    y: V,
    sum: V,
    checked: Option<V>,
    flag: V,
)
    requires
        is_instruction(c, Opcode::IaddCout, ty),
        arg_is::<V, S, I>(s, c, 0, x),
        arg_is::<V, S, I>(s, c, 1, y),
        x.spec_add(y) == Ok::<V, ValueError>(sum),
        x.spec_checked_add(y) == Ok::<Option<V>, ValueError>(checked),
        V::spec_boolean(checked is None, false, Type::Lane(LaneType::I8)) == Ok::<V, ValueError>(
            flag,
        ),
    ensures
        assigns_two(step_effect::<V, S, I>(s, c), sum, flag),
{
}

/// Adding with a carry in and out assigns the sum, one more if the third argument is true, and
/// whether one of these additions overflows.
pub proof fn law_carry_through<'a, V: Value, S: State<'a, V>, I: InstructionContext>(
    s: S,
    c: I,
    ty: Type,
    x: V,
    y: V,
    z: V,
    carry_in: bool,
    sum: V,
    checked: Option<V>,
    one: V,
    more: V,
    checked_more: Option<V>,
    flag: V,
)
    requires
        is_instruction(c, Opcode::IaddCarry, ty),
        arg_is::<V, S, I>(s, c, 0, x),
        arg_is::<V, S, I>(s, c, 1, y),
        arg_is::<V, S, I>(s, c, 2, z),
        z.spec_into_bool() == Ok::<bool, ValueError>(carry_in),
        x.spec_add(y) == Ok::<V, ValueError>(sum),
        x.spec_checked_add(y) == Ok::<Option<V>, ValueError>(checked),
        V::spec_integer(1, ty) == Ok::<V, ValueError>(one),
        sum.spec_add(one) == Ok::<V, ValueError>(more),
        sum.spec_checked_add(one) == Ok::<Option<V>, ValueError>(checked_more),
        V::spec_boolean(
            checked is None || (carry_in && checked_more is None),
            false,
            Type::Lane(LaneType::I8),
        ) == Ok::<V, ValueError>(flag),
    ensures
        assigns_two(
            step_effect::<V, S, I>(s, c),
            if carry_in {
                more
            } else {
                sum
            },
            flag,
        ),
{
}

/// An addition that traps on overflow assigns the sum, or traps with its code if the sum is less than
/// both arguments.
pub proof fn law_overflow_trap<'a, V: Value, S: State<'a, V>, I: InstructionContext>(
    s: S,
    c: I,
    code: TrapCode,
    x: V,
    y: V,
    sum: V,
    below_x: bool,
    below_y: bool,
)
    requires
        c.spec_data() == (InstructionData::IntAddTrap { opcode: Opcode::UaddOverflowTrap, code }),
        c.spec_controlling_type() is Some,
        arg_is::<V, S, I>(s, c, 0, x),
        arg_is::<V, S, I>(s, c, 1, y),
        x.spec_add(y) == Ok::<V, ValueError>(sum),
        sum.spec_lt(x) == Ok::<bool, ValueError>(below_x),
        sum.spec_lt(y) == Ok::<bool, ValueError>(below_y),
    ensures
        below_x && below_y ==> traps(step_effect::<V, S, I>(s, c), code),
        !(below_x && below_y) ==> assigns(step_effect::<V, S, I>(s, c), sum),
{
}

/// Subtracting with a borrow out assigns the difference of the first argument and the second, plus
/// one if there is a borrow coming in, and whether the first is less than that.
pub proof fn law_borrow_out<'a, V: Value, S: State<'a, V>, I: InstructionContext>(
    s: S,
    c: I,
    op: Opcode,
    ty: Type,
    x: V,
    y: V,
    subtrahend: V,
    difference: V,
    borrow: bool,
    flag: V,
)
    requires
        is_instruction(c, op, ty),
        arg_is::<V, S, I>(s, c, 0, x),
        arg_is::<V, S, I>(s, c, 1, y),
        op is IsubBout && subtrahend == y || op is IsubBorrow && 2 < c.spec_args().len() && (
        s.value_of(c.spec_args()[2]) matches Some(z) && (z.spec_into_bool() matches Ok(borrow_in)
            && if borrow_in {
            V::spec_integer(1, ty) matches Ok(one) && y.spec_add(one) == Ok::<V, ValueError>(
                subtrahend,
            )
        } else {
            subtrahend == y
        })),
        x.spec_sub(subtrahend) == Ok::<V, ValueError>(difference),
        x.spec_lt(subtrahend) == Ok::<bool, ValueError>(borrow),
        V::spec_boolean(borrow, false, Type::Lane(LaneType::I8)) == Ok::<V, ValueError>(flag),
    ensures
        assigns_two(step_effect::<V, S, I>(s, c), difference, flag),
{
}

/// The rounded average adds both arguments and one, and halves the sum lane by lane.
pub proof fn law_average<'a, V: Value, S: State<'a, V>, I: InstructionContext>(
    s: S,
    c: I,
    ty: Type,
    x: V,
    y: V,
    sum: V,
    one: V,
    more: V,
    two: V,
    xs: Seq<V>,
    twos: Seq<V>,
    n: nat,
)
    requires
        is_instruction(c, Opcode::AvgRound, ty),
        arg_is::<V, S, I>(s, c, 0, x),
        arg_is::<V, S, I>(s, c, 1, y),
        x.spec_add(y) == Ok::<V, ValueError>(sum),
        V::spec_integer(1, x.spec_ty()) == Ok::<V, ValueError>(one),
        sum.spec_add(one) == Ok::<V, ValueError>(more),
        V::spec_integer(2, x.spec_ty()) == Ok::<V, ValueError>(two),
        lanes_of(more, ty) == Eval::<Seq<V>, ValueError>::Value(xs),
        lanes_of(two, ty) == Eval::<Seq<V>, ValueError>::Value(twos),
        n <= xs.len() && n <= twos.len() && (n == xs.len() || n == twos.len()),
    ensures
        collects(step_effect::<V, S, I>(s, c), n, |i: int| xs[i].spec_div(twos[i]), ty),
{
    let lane = |i: int| xs[i].spec_div(twos[i]);
    lemma_lanes(binary_results(xs, twos, BinaryOp::Div, false), lane);
}

/// What the absolute value makes of a lane: the least number stays as it is, any other one becomes
/// the distance from zero.
pub open spec fn distance_from_zero<V: Value>(a: V, min: V, lane: Type) -> ValueResult<V> {
    match a.spec_eq(min) {
        Err(e) => Err(e),
        Ok(true) => Ok(min),
        Ok(false) => match a.spec_into_int() {
            Err(e) => Err(e),
            Ok(n) => if n >= 0 {
                V::spec_integer(n as int, lane)
            } else {
                V::spec_integer(0 - n, lane)
            },
        },
    }
}

/// The absolute value of each lane.
pub proof fn law_iabs<'a, V: Value, S: State<'a, V>, I: InstructionContext>(
    s: S,
    c: I,
    ty: Type,
    lane_ty: LaneType,
    min: V,
    x: V,
    xs: Seq<V>,
)
    requires
        is_instruction(c, Opcode::Iabs, ty),
        ty.lane_type() == Type::Lane(lane_ty),
        lane_ty.spec_is_int(),
        V::spec_integer(-pow2((lane_ty.bits() - 1) as nat), ty.lane_type()) == Ok::<V, ValueError>(
            min,
        ),
        arg_is::<V, S, I>(s, c, 0, x),
        lanes_of(x, ty) == Eval::<Seq<V>, ValueError>::Value(xs),
        forall|i: int|
            0 <= i < xs.len() ==> (#[trigger] xs[i]).spec_into_int() != Ok::<i128, ValueError>(
                i128::MIN,
            ),
    ensures
        collects(
            step_effect::<V, S, I>(s, c),
            xs.len(),
            |i: int| distance_from_zero(xs[i], min, ty.lane_type()),
            ty,
        ),
{
    crate::layout_laws::law_bounds(lane_ty);
    let lane = |i: int| distance_from_zero(xs[i], min, ty.lane_type());
    let evals = LaneMap::Abs { min, lane: ty.lane_type() }.results(xs);
    assert(ty.int_lane() == Some(lane_ty));
    assert forall|i: int| 0 <= i < evals.len() implies (#[trigger] evals[i]) == eval(lane(i)) by {
        assert(xs[i].spec_into_int() != Ok::<i128, ValueError>(i128::MIN));
    }
    lemma_lanes(evals, lane);
}

/// The integer type of twice as many bits as a lane of `bits` bits.
pub open spec fn product_type_of(bits: u32) -> Option<Type> {
    if bits == 8 {
        Some(Type::Lane(LaneType::I16))
    } else if bits == 16 {
        Some(Type::Lane(LaneType::I32))
    } else if bits == 32 {
        Some(Type::Lane(LaneType::I64))
    } else if bits == 64 {
        Some(Type::Lane(LaneType::I128))
    } else {
        None
    }
}

/// The upper half of the product of `a` and `b`, both widened by `kind` first.
pub open spec fn upper_half<V: Value>(
    a: V,
    b: V,
    kind: ValueConversionKind,
    lane: Type,
) -> ValueResult<V> {
    match a.spec_convert(kind) {
        Err(e) => Err(e),
        Ok(x) => match b.spec_convert(kind) {
            Err(e) => Err(e),
            Ok(y) => match x.spec_mul(y) {
                Err(e) => Err(e),
                Ok(p) => p.spec_convert(ValueConversionKind::ExtractUpper(lane)),
            },
        },
    }
}

/// The high product assigns the upper halves of the products of corresponding lanes, which are widened
/// with zeros for an unsigned product, and with the sign for a signed one.
pub proof fn law_mulhi<'a, V: Value, S: State<'a, V>, I: InstructionContext>(
    s: S,
    c: I,
    op: Opcode,
    ty: Type,
    wide: Type,
    x: V,
    y: V,
    xs: Seq<V>,
    ys: Seq<V>,
    n: nat,
)
    requires
        is_instruction(c, op, ty),
        op is Umulhi || op is Smulhi,
        product_type_of(ty.lane_bits()) == Some(wide),
        arg_is::<V, S, I>(s, c, 0, x),
        arg_is::<V, S, I>(s, c, 1, y),
        lanes_of(x, ty) == Eval::<Seq<V>, ValueError>::Value(xs),
        lanes_of(y, ty) == Eval::<Seq<V>, ValueError>::Value(ys),
        n <= xs.len() && n <= ys.len() && (n == xs.len() || n == ys.len()),
    ensures
        op is Umulhi ==> collects(
            step_effect::<V, S, I>(s, c),
            n,
            |i: int|
                upper_half(xs[i], ys[i], ValueConversionKind::ZeroExtend(wide), ty.lane_type()),
            ty,
        ),
        op is Smulhi ==> collects(
            step_effect::<V, S, I>(s, c),
            n,
            |i: int|
                upper_half(xs[i], ys[i], ValueConversionKind::SignExtend(wide), ty.lane_type()),
            ty,
        ),
{
    let kind = if op is Umulhi {
        ValueConversionKind::ZeroExtend(wide)
    } else {
        ValueConversionKind::SignExtend(wide)
    };
    let zip = LaneZip::<V>::MulHigh { kind, lane: ty.lane_type() };
    if op is Umulhi {
        lemma_lanes(
            zip.results(xs, ys),
            |i: int|
                upper_half(xs[i], ys[i], ValueConversionKind::ZeroExtend(wide), ty.lane_type()),
        );
    } else {
        lemma_lanes(
            zip.results(xs, ys),
            |i: int|
                upper_half(xs[i], ys[i], ValueConversionKind::SignExtend(wide), ty.lane_type()),
        );
    }
}

/// The leading sign bits are the leading ones of a negative number and the leading zeros of any other
/// one, less one.
pub proof fn law_cls<'a, V: Value, S: State<'a, V>, I: InstructionContext>(
    s: S,
    c: I,
    ty: Type,
    x: V,
    zero: V,
    negative: bool,
    one: V,
)
    requires
        is_instruction(c, Opcode::Cls, ty),
        arg_is::<V, S, I>(s, c, 0, x),
        V::spec_integer(0, ty) == Ok::<V, ValueError>(zero),
        x.spec_lt(zero) == Ok::<bool, ValueError>(negative),
        V::spec_integer(1, ty) == Ok::<V, ValueError>(one),
    ensures
        negative ==> match x.spec_leading_ones() {
            Ok(count) => yields(step_effect::<V, S, I>(s, c), count.spec_sub(one)),
            Err(e) => fails_with(step_effect::<V, S, I>(s, c), e),
        },
        !negative ==> match x.spec_leading_zeros() {
            Ok(count) => yields(step_effect::<V, S, I>(s, c), count.spec_sub(one)),
            Err(e) => fails_with(step_effect::<V, S, I>(s, c), e),
        },
{
}

/// The number of ones is that of an integer, or of each lane of a vector.
pub proof fn law_popcnt<'a, V: Value, S: State<'a, V>, I: InstructionContext>(
    s: S,
    c: I,
    ty: Type,
    x: V,
    xs: Seq<V>,
)
    requires
        is_instruction(c, Opcode::Popcnt, ty),
        arg_is::<V, S, I>(s, c, 0, x),
    ensures
        x.spec_ty().is_int() ==> yields(step_effect::<V, S, I>(s, c), x.spec_count_ones()),
        !x.spec_ty().is_int() && lanes_of(x, ty) == Eval::<Seq<V>, ValueError>::Value(xs)
            ==> collects(
            step_effect::<V, S, I>(s, c),
            xs.len(),
            |i: int| xs[i].spec_count_ones(),
            ty,
        ),
{
    lemma_lanes(
        unary_results(xs, UnaryOp::CountOnes, false),
        |i: int| xs[i].spec_count_ones(),
    );
}

/// Splitting an integer assigns its low half and then its high half, both of 64 bits; concatenating
/// takes the low half first.
pub proof fn law_halves<'a, V: Value, S: State<'a, V>, I: InstructionContext>(
    s: S,
    c: I,
    op: Opcode,
    ty: Type,
    x: V,
    y: V,
    low: V,
    high: V,
)
    requires
        is_instruction(c, op, ty),
        arg_is::<V, S, I>(s, c, 0, x),
    ensures
        op is Isplit && x.spec_convert(ValueConversionKind::Truncate(Type::Lane(LaneType::I64)))
            == Ok::<V, ValueError>(low) && x.spec_convert(
            ValueConversionKind::ExtractUpper(Type::Lane(LaneType::I64)),
        ) == Ok::<V, ValueError>(high) ==> assigns_two(step_effect::<V, S, I>(s, c), low, high),
        op is Iconcat && arg_is::<V, S, I>(s, c, 1, y) ==> yields(
            step_effect::<V, S, I>(s, c),
            x.spec_concat(y),
        ),
{
}

/// Splitting an integer that was put together of two halves gives these halves back in order, if
/// truncating and extracting undo the concatenation.
pub proof fn law_split_concat<'a, V: Value, S: State<'a, V>, I: InstructionContext>(
    s: S,
    concat: I,
    later: S,
    split: I,
    ty: Type,
    split_ty: Type,
    low: V,
    high: V,
    whole: V,
)
    requires
        is_instruction(concat, Opcode::Iconcat, ty),
        arg_is::<V, S, I>(s, concat, 0, low),
        arg_is::<V, S, I>(s, concat, 1, high),
        assigns(step_effect::<V, S, I>(s, concat), whole),
        is_instruction(split, Opcode::Isplit, split_ty),
        arg_is::<V, S, I>(later, split, 0, whole),
        low.spec_concat(high) matches Ok(w) ==> w.spec_convert(
            ValueConversionKind::Truncate(Type::Lane(LaneType::I64)),
        ) == Ok::<V, ValueError>(low) && w.spec_convert(
            ValueConversionKind::ExtractUpper(Type::Lane(LaneType::I64)),
        ) == Ok::<V, ValueError>(high),
    ensures
        assigns_two(step_effect::<V, S, I>(later, split), low, high),
{
    if low.spec_concat(high) is Ok {
        let w = low.spec_concat(high)->Ok_0;
        assert(seq![w] == seq![whole]);
        assert(seq![w][0] == seq![whole][0]);
    }
}

/// Whether `q` is the product of the fixed point numbers `m` and `n` of `bits` bits, all but one of
/// them behind the point, rounded to the nearest: it is not more than half a unit away, and halves
/// are rounded up.
pub open spec fn is_rounded_product(q: int, m: int, n: int, bits: nat) -> bool {
    q * pow2((bits - 1) as nat) <= m * n + pow2((bits - 2) as nat) < (q + 1) * pow2(
        (bits - 1) as nat,
    )
}

/// The rounded product is the only one.
pub proof fn law_rounded_product(q: int, m: int, n: int, bits: nat)
    requires
        bits >= 2,
        is_rounded_product(q, m, n, bits),
    ensures
        fixed_point_product(m, n, bits) == q,
{
    let one = pow2((bits - 1) as nat) as int;
    let sum = m * n + pow2((bits - 2) as nat);
    lemma_pow2_pos((bits - 1) as nat);
    assert(sum == one * q + (sum - q * one) && 0 <= sum - q * one < one) by (nonlinear_arith)
        requires
            q * one <= sum < (q + 1) * one,
    ;
    vstd::arithmetic::mul::lemma_mul_is_commutative(q, one);
    vstd::arithmetic::div_mod::lemma_fundamental_div_mod_converse(sum, one, q, sum - q * one);
}

/// The number `q` as a value of type `wide`, not more than `max` and not less than `min`, truncated
/// to `lane`.
pub open spec fn saturated<V: Value>(q: int, wide: Type, min: V, max: V, lane: Type) -> ValueResult<
    V,
> {
    match V::spec_integer(q, wide) {
        Err(e) => Err(e),
        Ok(z) => match z.spec_min(max) {
            Err(e) => Err(e),
            Ok(low) => match low.spec_max(min) {
                Err(e) => Err(e),
                Ok(high) => high.spec_convert(ValueConversionKind::Truncate(lane)),
            },
        },
    }
}

/// The saturating product of fixed point numbers, lane by lane: rounded to the nearest, and within the
/// range of the lanes.
pub proof fn law_sqmul<'a, V: Value, S: State<'a, V>, I: InstructionContext>(
    s: S,
    c: I,
    ty: Type,
    double: Type,
    lane_ty: LaneType,
    min: V,
    max: V,
    x: V,
    y: V,
    xs: Seq<V>,
    ys: Seq<V>,
    ms: Seq<i128>,
    ns: Seq<i128>,
    qs: Seq<int>,
)
    requires
        is_instruction(c, Opcode::SqmulRoundSat, ty),
        ty.double_width() == Some(double),
        ty.lane_type() == Type::Lane(lane_ty),
        lane_ty is I8 || lane_ty is I16 || lane_ty is I32 || lane_ty is I64,
        V::spec_integer(-pow2((lane_ty.bits() - 1) as nat), double.lane_type()) == Ok::<
            V,
            ValueError,
        >(min),
        V::spec_integer(pow2((lane_ty.bits() - 1) as nat) - 1, double.lane_type()) == Ok::<
            V,
            ValueError,
        >(max),
        arg_is::<V, S, I>(s, c, 0, x),
        arg_is::<V, S, I>(s, c, 1, y),
        lanes_of(x, ty) == Eval::<Seq<V>, ValueError>::Value(xs),
        lanes_of(y, ty) == Eval::<Seq<V>, ValueError>::Value(ys),
        xs.len() == ys.len() && ms.len() == xs.len() && ns.len() == xs.len() && qs.len() == xs.len(),
        forall|i: int|
            0 <= i < xs.len() ==> (#[trigger] xs[i]).spec_into_int() == Ok::<i128, ValueError>(ms[i])
                && ys[i].spec_into_int() == Ok::<i128, ValueError>(ns[i]) && -pow2(
                (lane_ty.bits() - 1) as nat,
            ) <= ms[i] < pow2((lane_ty.bits() - 1) as nat) && -pow2((lane_ty.bits() - 1) as nat)
                <= ns[i] < pow2((lane_ty.bits() - 1) as nat) && is_rounded_product(
                qs[i],
                ms[i] as int,
                ns[i] as int,
                lane_ty.bits() as nat,
            ),
    ensures
        collects(
            step_effect::<V, S, I>(s, c),
            xs.len(),
            |i: int| saturated(qs[i], double.lane_type(), min, max, ty.lane_type()),
            ty,
        ),
{
    crate::layout_laws::law_bounds(lane_ty);
    let wide = double.lane_type();
    let lane = |i: int| saturated(qs[i], wide, min, max, ty.lane_type());
    let evals = LaneZip::FixedMul { lane: lane_ty, wide, min, max }.results(xs, ys);
    assert(ty.int_lane() == Some(lane_ty));
    assert forall|i: int| 0 <= i < evals.len() implies (#[trigger] evals[i]) == eval(lane(i)) by {
        assert(xs[i].spec_into_int() == Ok::<i128, ValueError>(ms[i]));
        law_fixed_point_product(ms[i] as int, ns[i] as int, lane_ty);
        law_rounded_product(qs[i], ms[i] as int, ns[i] as int, lane_ty.bits() as nat);
    }
    lemma_lanes(evals, lane);
}

/// A pairwise addition adds adjacent lanes: first those of the first argument, then those of the
/// second.
pub proof fn law_iadd_pairwise<'a, V: Value, S: State<'a, V>, I: InstructionContext>(
    s: S,
    c: I,
    ty: Type,
    x: V,
    y: V,
    xs: Seq<V>,
    ys: Seq<V>,
    half: nat,
    rest: nat,
)
    requires
        is_instruction(c, Opcode::IaddPairwise, ty),
        arg_is::<V, S, I>(s, c, 0, x),
        arg_is::<V, S, I>(s, c, 1, y),
        lanes_of(x, ty) == Eval::<Seq<V>, ValueError>::Value(xs),
        lanes_of(y, ty) == Eval::<Seq<V>, ValueError>::Value(ys),
        xs.len() == 2 * half,
        ys.len() == 2 * rest,
    ensures
        collects(
            step_effect::<V, S, I>(s, c),
            half + rest,
            |i: int|
                if i < half {
                    xs[2 * i].spec_add(xs[2 * i + 1])
                } else {
                    ys[2 * (i - half)].spec_add(ys[2 * (i - half) + 1])
                },
            ty,
        ),
{
    let lane = |i: int|
        if i < half {
            xs[2 * i].spec_add(xs[2 * i + 1])
        } else {
            ys[2 * (i - half)].spec_add(ys[2 * (i - half) + 1])
        };
    let first = pair_results(xs, BinaryOp::Add);
    let evals = first + pair_results(ys, BinaryOp::Add);
    assert forall|i: int| 0 <= i < evals.len() implies (#[trigger] evals[i]) == eval(lane(i)) by {
        if i < half {
            assert(evals[i] == first[i]);
        } else {
            assert(evals[i] == pair_results(ys, BinaryOp::Add)[i - half]);
        }
    }
    lemma_lanes(evals, lane);
}

} // verus!
