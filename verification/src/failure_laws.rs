//! Where a step fails: the first operand without a value, and the first operation that fails.
use crate::arith::compare_vectors;
use crate::control_laws::lemma_values;
use crate::eval::{lemma_sequence_of_error, Eval};
use crate::flow::{Effect, StepError};
use crate::integer_laws::product_type_of;
use crate::ir::{Immediate, InstructionData, IntCC, Opcode, StackSlot, Table, TableData};
use crate::lanes::lanes_of;
use crate::memory_laws::{are_sums, law_total};
use crate::state::{InstructionContext, MemoryError, State};
use crate::step::step_effect;
use crate::terms::{
    are_values_of, arg_is, arg_unknown, assigns_two, fails_with, is_instruction, misses, yields,
};
use crate::types::{LaneType, Type};
use crate::value::{Datum, Value, ValueConversionKind, ValueError, ValueResult};
use crate::vector::reversed_bits;
use vstd::prelude::*;

verus! {

/// What `f` gives of what `r` gives; an error stays.
pub open spec fn after<T, U>(r: ValueResult<T>, f: spec_fn(T) -> ValueResult<U>) -> ValueResult<U> {
    match r {
        Ok(t) => f(t),
        Err(e) => Err(e),
    }
}

/// Whether the step assigns the two values that operations give, or fails with their first error.
pub open spec fn yields_two<V>(
    r: Eval<Effect<V>, StepError>,
    outcome: ValueResult<(V, V)>,
) -> bool {
    match outcome {
        Ok(pair) => assigns_two(r, pair.0, pair.1),
        Err(e) => fails_with(r, e),
    }
}

/// A value with a flag of type `i8`.
pub open spec fn flagged<V: Value>(v: V, flag: bool) -> ValueResult<(V, V)> {
    after(V::spec_boolean(flag, false, Type::Lane(LaneType::I8)), |f: V| Ok((v, f)))
}

/// `x` plus one, as a value of type `ty`.
pub open spec fn plus_one<V: Value>(x: V, ty: Type) -> ValueResult<V> {
    after(V::spec_integer(1, ty), |one: V| x.spec_add(one))
}

/// Additions and subtractions with a carry or a borrow coming in need both outcomes, and fail with
/// the first operation that fails.
pub proof fn law_carry_in_failure<'a, V: Value, S: State<'a, V>, I: InstructionContext>(
    s: S,
    c: I,
    op: Opcode,
    ty: Type,
    x: V,
    y: V,
    z: V,
)
    requires
        is_instruction(c, op, ty),
        arg_is::<V, S, I>(s, c, 0, x),
        arg_is::<V, S, I>(s, c, 1, y),
        arg_is::<V, S, I>(s, c, 2, z),
    ensures
        op is IaddCin ==> yields(
            step_effect::<V, S, I>(s, c),
            after(
                z.spec_into_bool(),
                |carry: bool|
                    after(
                        x.spec_add(y),
                        |sum: V|
                            after(
                                plus_one(sum, ty),
                                |more: V|
                                    Ok(
                                        if carry {
                                            more
                                        } else {
                                            sum
                                        },
                                    ),
                            ),
                    ),
            ),
        ),
        op is IsubBin ==> yields(
            step_effect::<V, S, I>(s, c),
            after(
                z.spec_into_bool(),
                |borrow: bool|
                    after(
                        plus_one(y, ty),
                        |more: V|
                            after(
                                x.spec_sub(more),
                                |less: V|
                                    after(
                                        x.spec_sub(y),
                                        |difference: V|
                                            Ok(
                                                if borrow {
                                                    less
                                                } else {
                                                    difference
                                                },
                                            ),
                                    ),
                            ),
                    ),
            ),
        ),
{
}

/// Additions and subtractions with a carry or a borrow going out fail with the first operation that
/// fails.
pub proof fn law_carry_out_failure<'a, V: Value, S: State<'a, V>, I: InstructionContext>(
    s: S,
    c: I,
    op: Opcode,
    ty: Type,
    x: V,
    y: V,
)
    requires
        is_instruction(c, op, ty),
        arg_is::<V, S, I>(s, c, 0, x),
        arg_is::<V, S, I>(s, c, 1, y),
    ensures
        op is IaddCout ==> yields_two(
            step_effect::<V, S, I>(s, c),
            after(
                x.spec_checked_add(y),
                |checked: Option<V>|
                    after(x.spec_add(y), |sum: V| flagged(sum, checked is None)),
            ),
        ),
        op is IsubBout ==> yields_two(
            step_effect::<V, S, I>(s, c),
            after(
                x.spec_sub(y),
                |difference: V| after(x.spec_lt(y), |borrow: bool| flagged(difference, borrow)),
            ),
        ),
{
}

/// Additions and subtractions with a carry or a borrow coming in and going out fail with the first
/// operation that fails.
pub proof fn law_carry_through_failure<'a, V: Value, S: State<'a, V>, I: InstructionContext>(
    s: S,
    c: I,
    op: Opcode,
    ty: Type,
    x: V,
    y: V,
    z: V,
)
    requires
        is_instruction(c, op, ty),
        arg_is::<V, S, I>(s, c, 0, x),
        arg_is::<V, S, I>(s, c, 1, y),
        arg_is::<V, S, I>(s, c, 2, z),
    ensures
        op is IaddCarry ==> yields_two(
            step_effect::<V, S, I>(s, c),
            after(
                x.spec_add(y),
                |sum: V|
                    after(
                        x.spec_checked_add(y),
                        |checked: Option<V>|
                            after(
                                z.spec_into_bool(),
                                |carry: bool|
                                    if carry {
                                        after(
                                            V::spec_integer(1, ty),
                                            |one: V|
                                                after(
                                                    sum.spec_checked_add(one),
                                                    |more: Option<V>|
                                                        after(
                                                            sum.spec_add(one),
                                                            |total: V|
                                                                flagged(
                                                                    total,
                                                                    checked is None || more is None,
                                                                ),
                                                        ),
                                                ),
                                        )
                                    } else {
                                        flagged(sum, checked is None)
                                    },
                            ),
                    ),
            ),
        ),
        op is IsubBorrow ==> yields_two(
            step_effect::<V, S, I>(s, c),
            after(
                z.spec_into_bool(),
                |borrow_in: bool|
                    after(
                        if borrow_in {
                            plus_one(y, ty)
                        } else {
                            Ok(y)
                        },
                        |rhs: V|
                            after(
                                x.spec_lt(rhs),
                                |borrow: bool|
                                    after(
                                        x.spec_sub(rhs),
                                        |difference: V| flagged(difference, borrow),
                                    ),
                            ),
                    ),
            ),
        ),
{
}

/// Where operations on integers fail, the step fails with the first error.
pub proof fn law_integer_failure<'a, V: Value, S: State<'a, V>, I: InstructionContext>(
    s: S,
    c: I,
    op: Opcode,
    ty: Type,
    x: V,
    y: V,
    e: ValueError,
)
    requires
        is_instruction(c, op, ty),
        arg_is::<V, S, I>(s, c, 0, x),
    ensures
        op is UaddOverflowTrap && arg_is::<V, S, I>(s, c, 1, y) && (x.spec_add(y) == Err::<
            V,
            ValueError,
        >(e) || (x.spec_add(y) matches Ok(sum) && sum.spec_lt(x) == Err::<bool, ValueError>(e)) || (
        x.spec_add(y) matches Ok(sum) && sum.spec_lt(x) == Ok::<bool, ValueError>(true)
            && sum.spec_lt(y) == Err::<bool, ValueError>(e))) ==> fails_with(
            step_effect::<V, S, I>(s, c),
            e,
        ),
        op is AvgRound && arg_is::<V, S, I>(s, c, 1, y) && after(
            x.spec_add(y),
            |sum: V|
                after(plus_one(sum, x.spec_ty()), |more: V| V::spec_integer(2, x.spec_ty())),
        ) == Err::<V, ValueError>(e) ==> fails_with(step_effect::<V, S, I>(s, c), e),
        op is Cls ==> yields(
            step_effect::<V, S, I>(s, c),
            after(
                V::spec_integer(0, ty),
                |zero: V|
                    after(
                        x.spec_lt(zero),
                        |negative: bool|
                            after(
                                if negative {
                                    x.spec_leading_ones()
                                } else {
                                    x.spec_leading_zeros()
                                },
                                |count: V|
                                    after(V::spec_integer(1, ty), |one: V| count.spec_sub(one)),
                            ),
                    ),
            ),
        ),
        op is Isplit ==> yields_two(
            step_effect::<V, S, I>(s, c),
            after(
                x.spec_convert(ValueConversionKind::Truncate(Type::Lane(LaneType::I64))),
                |low: V|
                    after(
                        x.spec_convert(ValueConversionKind::ExtractUpper(Type::Lane(LaneType::I64))),
                        |high: V| Ok((low, high)),
                    ),
            ),
        ),
{
}

/// Where tests or comparisons of floats fail, the step fails with the first error.
pub proof fn law_float_failure<'a, V: Value, S: State<'a, V>, I: InstructionContext>(
    s: S,
    c: I,
    op: Opcode,
    ty: Type,
    a: V,
    b: V,
    e: ValueError,
)
    requires
        is_instruction(c, op, ty),
        op is Fmin || op is Fmax || op is FminPseudo || op is FmaxPseudo,
        arg_is::<V, S, I>(s, c, 0, a),
        arg_is::<V, S, I>(s, c, 1, b),
    ensures
        a.spec_is_nan() == Err::<bool, ValueError>(e) ==> fails_with(step_effect::<V, S, I>(s, c), e),
        a.spec_is_nan() == Ok::<bool, ValueError>(false) && b.spec_is_nan() == Err::<
            bool,
            ValueError,
        >(e) ==> fails_with(step_effect::<V, S, I>(s, c), e),
        a.spec_is_nan() == Ok::<bool, ValueError>(false) && b.spec_is_nan() == Ok::<
            bool,
            ValueError,
        >(false) && a.spec_is_zero() == Err::<bool, ValueError>(e) ==> fails_with(
            step_effect::<V, S, I>(s, c),
            e,
        ),
        a.spec_is_nan() == Ok::<bool, ValueError>(false) && b.spec_is_nan() == Ok::<
            bool,
            ValueError,
        >(false) && a.spec_is_zero() == Ok::<bool, ValueError>(true) && b.spec_is_zero() == Err::<
            bool,
            ValueError,
        >(e) ==> fails_with(step_effect::<V, S, I>(s, c), e),
{
}

/// Where a float has no bits to convert, the step fails.
pub proof fn law_float_to_int_failure<'a, V: Value, S: State<'a, V>, I: InstructionContext>(
    s: S,
    c: I,
    op: Opcode,
    ty: Type,
    x: V,
    e: ValueError,
)
    requires
        is_instruction(c, op, ty),
        op is FcvtToUint || op is FcvtToSint,
        arg_is::<V, S, I>(s, c, 0, x),
    ensures
        x.spec_is_nan() == Err::<bool, ValueError>(e) ==> fails_with(step_effect::<V, S, I>(s, c), e),
        x.spec_is_nan() == Ok::<bool, ValueError>(false) && x.spec_into_float() == Err::<
            u64,
            ValueError,
        >(e) ==> fails_with(step_effect::<V, S, I>(s, c), e),
{
}

/// The instructions that take their first argument apart as a vector of the controlling type before
/// anything else can fail.
pub open spec fn takes_apart(op: Opcode) -> bool {
    ||| op is Fcmp
    ||| op is Fma
    ||| op is IaddPairwise
    ||| op is Bnot
    ||| op is Fneg
    ||| op is Fabs
    ||| op is Sqrt
    ||| op is Ceil
    ||| op is Floor
    ||| op is Trunc
    ||| op is Nearest
    ||| op is Bitrev
    ||| op is Bswap
    ||| op is Clz
    ||| op is Ctz
    ||| op is Snarrow
    ||| op is Unarrow
    ||| op is Uunarrow
}

/// Where a vector cannot be taken apart, the step fails with the error.
pub proof fn law_lanes_failure<'a, V: Value, S: State<'a, V>, I: InstructionContext>(
    s: S,
    c: I,
    op: Opcode,
    ty: Type,
    x: V,
    y: V,
    e: ValueError,
)
    requires
        is_instruction(c, op, ty),
        takes_apart(op),
        arg_is::<V, S, I>(s, c, 0, x),
        arg_is::<V, S, I>(s, c, 1, y),
        lanes_of(x, ty) == Eval::<Seq<V>, ValueError>::Error(e),
    ensures
        fails_with(step_effect::<V, S, I>(s, c), e),
{
}

/// Where the lanes of a vector cannot be summarised, the step fails with the first error.
pub proof fn law_summary_failure<'a, V: Value, S: State<'a, V>, I: InstructionContext>(
    s: S,
    c: I,
    op: Opcode,
    ty: Type,
    vector_ty: Type,
    x: V,
    lanes: Seq<V>,
    k: int,
    e: ValueError,
)
    requires
        is_instruction(c, op, ty),
        arg_is::<V, S, I>(s, c, 0, x),
    ensures
        op is VanyTrue && V::spec_boolean(false, true, ty.lane_type()) == Err::<V, ValueError>(e)
            ==> fails_with(step_effect::<V, S, I>(s, c), e),
        op is VallTrue && V::spec_boolean(true, true, ty.lane_type()) == Err::<V, ValueError>(e)
            ==> fails_with(step_effect::<V, S, I>(s, c), e),
        op is VanyTrue && V::spec_boolean(false, true, ty.lane_type()) is Ok && lanes_of(x, ty)
            == Eval::<Seq<V>, ValueError>::Error(e) ==> fails_with(step_effect::<V, S, I>(s, c), e),
        op is VallTrue && V::spec_boolean(true, true, ty.lane_type()) is Ok && lanes_of(x, ty)
            == Eval::<Seq<V>, ValueError>::Error(e) ==> fails_with(step_effect::<V, S, I>(s, c), e),
        op is VhighBits && c.spec_type_of(c.spec_args()[0]) == Some(vector_ty) && lanes_of(
            x,
            vector_ty,
        ) == Eval::<Seq<V>, ValueError>::Error(e) ==> fails_with(step_effect::<V, S, I>(s, c), e),
        op is VhighBits && c.spec_type_of(c.spec_args()[0]) == Some(vector_ty) && lanes_of(
            x,
            vector_ty,
        ) == Eval::<Seq<V>, ValueError>::Value(lanes) && 0 <= k < lanes.len() && (forall|i: int|
            0 <= i < k ==> after((#[trigger] lanes[i]).spec_reverse_bits(), |r: V| r.spec_into_int())
                is Ok) && after(lanes[k].spec_reverse_bits(), |r: V| r.spec_into_int()) == Err::<
            i128,
            ValueError,
        >(e) ==> fails_with(step_effect::<V, S, I>(s, c), e),
{
    if 0 <= k < lanes.len() && (forall|i: int|
        0 <= i < k ==> after((#[trigger] lanes[i]).spec_reverse_bits(), |r: V| r.spec_into_int())
            is Ok) && after(lanes[k].spec_reverse_bits(), |r: V| r.spec_into_int()) == Err::<
        i128,
        ValueError,
    >(e) {
        let evals = reversed_bits(lanes);
        assert forall|i: int| 0 <= i < k implies (#[trigger] evals[i]) is Value by {
            assert(after(lanes[i].spec_reverse_bits(), |r: V| r.spec_into_int()) is Ok);
        }
        lemma_sequence_of_error(evals, k, e);
    }
}

/// A shuffle reads its mask, then its first argument, then its second one, and fails with the first
/// error.
pub proof fn law_shuffle_failure<'a, V: Value, S: State<'a, V>, I: InstructionContext>(
    s: S,
    c: I,
    imm: Immediate,
    stored: Seq<u8>,
    x: V,
    y: V,
    e: ValueError,
)
    requires
        c.spec_data() == (InstructionData::Shuffle { opcode: Opcode::Shuffle, imm }),
        c.spec_controlling_type() is Some,
        imm.0 < s.current_function().immediates@.len(),
        s.current_function().immediates@[imm.0 as int]@ == stored,
        arg_is::<V, S, I>(s, c, 0, x),
        arg_is::<V, S, I>(s, c, 1, y),
        stored.len() == 16 && after(
            V::spec_from_data(Datum::V128(stored)).spec_into_array(),
            |mask: Seq<u8>| after(x.spec_into_array(), |a: Seq<u8>| y.spec_into_array()),
        ) == Err::<Seq<u8>, ValueError>(e) || stored.len() == 8 && V::spec_from_data(
            Datum::V64(stored),
        ).spec_into_array() == Err::<Seq<u8>, ValueError>(e),
    ensures
        fails_with(step_effect::<V, S, I>(s, c), e),
{
}

/// An atomic access fails where its address is no number.
pub proof fn law_atomic_failure<'a, V: Value, S: State<'a, V>, I: InstructionContext>(
    s: S,
    c: I,
    op: Opcode,
    ty: Type,
    p: V,
    v: V,
    e: ValueError,
)
    requires
        is_instruction(c, op, ty),
        p.spec_into_int() == Err::<i128, ValueError>(e),
    ensures
        (op is AtomicLoad || op is AtomicCas) && arg_is::<V, S, I>(s, c, 0, p) ==> fails_with(
            step_effect::<V, S, I>(s, c),
            e,
        ),
        op is AtomicStore && arg_is::<V, S, I>(s, c, 0, v) && arg_is::<V, S, I>(s, c, 1, p)
            ==> fails_with(step_effect::<V, S, I>(s, c), e),
        op is AtomicRmw && c.spec_data().atomic_rmw_op() is Some && arg_is::<V, S, I>(s, c, 0, p)
            && arg_is::<V, S, I>(s, c, 1, v) ==> fails_with(step_effect::<V, S, I>(s, c), e),
{
}

/// An access to a stack slot fails where its offset cannot be summed up, or is no number.
pub proof fn law_stack_failure<'a, V: Value, S: State<'a, V>, I: InstructionContext>(
    s: S,
    c: I,
    opcode: Opcode,
    stack_slot: StackSlot,
    offset: i32,
    values: Seq<V>,
    sums: Seq<V>,
    e: ValueError,
)
    requires
        c.spec_data() == (InstructionData::StackLoad { opcode, stack_slot, offset }),
        opcode is StackLoad || opcode is StackAddr,
        c.spec_controlling_type() is Some,
        are_values_of::<V, S>(s, c.spec_args(), values),
        are_sums(sums, V::spec_from_data(Datum::I32(offset)), values),
        sums.len() == values.len() + 1 && sums.last().spec_into_int() == Err::<i128, ValueError>(e)
            || sums.len() <= values.len() && sums.last().spec_add(values[sums.len() - 1]) == Err::<
            V,
            ValueError,
        >(e),
    ensures
        fails_with(step_effect::<V, S, I>(s, c), e),
{
    lemma_values::<V, S>(s, c.spec_args(), values);
    law_total(V::spec_from_data(Datum::I32(offset)), values, sums);
}

/// An indirect call fails where its first argument is no number.
pub proof fn law_indirect_call_number<'a, V: Value, S: State<'a, V>, I: InstructionContext>(
    s: S,
    c: I,
    op: Opcode,
    ty: Type,
    values: Seq<V>,
    e: ValueError,
)
    requires
        is_instruction(c, op, ty),
        op is CallIndirect || op is ReturnCallIndirect,
        c.spec_args().len() > 0,
        are_values_of::<V, S>(s, c.spec_args(), values),
        values[0].spec_into_int() == Err::<i128, ValueError>(e),
    ensures
        fails_with(step_effect::<V, S, I>(s, c), e),
{
    lemma_values::<V, S>(s, c.spec_args(), values);
    assert(s.value_of(c.spec_args()[0]) == Some(values[0]));
}

/// The argument that an instruction reads before anything else can fail.
pub open spec fn first_read(op: Opcode) -> Option<int> {
    match op {
        Opcode::Select | Opcode::SelectSpectreGuard | Opcode::Bitselect | Opcode::Smax
        | Opcode::Umax | Opcode::IaddCout | Opcode::IaddCarry | Opcode::UaddOverflowTrap
        | Opcode::IsubBout | Opcode::AvgRound | Opcode::Cls | Opcode::Popcnt | Opcode::Isplit
        | Opcode::Iconcat | Opcode::IaddPairwise | Opcode::Fcmp | Opcode::Fma | Opcode::Fmin
        | Opcode::Fmax | Opcode::FminPseudo | Opcode::FmaxPseudo | Opcode::FcvtToUint
        | Opcode::FcvtToSint | Opcode::FcvtFromUint | Opcode::FcvtFromSint | Opcode::Ireduce
        | Opcode::Sextend | Opcode::Uextend | Opcode::Fpromote | Opcode::Fdemote
        | Opcode::Snarrow | Opcode::Unarrow | Opcode::Uunarrow | Opcode::Bmask
        | Opcode::AtomicCas | Opcode::AtomicLoad | Opcode::AtomicStore
        | Opcode::StackStore => Some(0),
        Opcode::Smin | Opcode::Umin => Some(1),
        Opcode::IaddCin | Opcode::IsubBin | Opcode::IsubBorrow => Some(2),
        _ => None,
    }
}

/// An instruction misses the argument that it reads first, if that has no value.
pub proof fn law_misses_first<'a, V: Value, S: State<'a, V>, I: InstructionContext>(
    s: S,
    c: I,
    op: Opcode,
    ty: Type,
    i: int,
)
    requires
        is_instruction(c, op, ty),
        first_read(op) == Some(i),
        arg_unknown::<V, S, I>(s, c, i),
    ensures
        misses(step_effect::<V, S, I>(s, c), c.spec_args()[i]),
{
}

/// An instruction with two arguments misses the second one it reads, if that has no value and the
/// first one has.
pub proof fn law_misses_second<'a, V: Value, S: State<'a, V>, I: InstructionContext>(
    s: S,
    c: I,
    op: Opcode,
    ty: Type,
    x: V,
)
    requires
        is_instruction(c, op, ty),
    ensures
        (op is IaddCout || op is IaddCarry || op is UaddOverflowTrap || op is IsubBout || op is AvgRound
            || op is Iconcat || op is IaddPairwise || op is Fmin || op is Fmax || op is FminPseudo
            || op is FmaxPseudo || op is Bitselect) && arg_is::<V, S, I>(s, c, 0, x)
            && arg_unknown::<V, S, I>(s, c, 1) ==> misses(
            step_effect::<V, S, I>(s, c),
            c.spec_args()[1],
        ),
        op is AtomicStore && arg_is::<V, S, I>(s, c, 0, x) && arg_unknown::<V, S, I>(s, c, 1)
            ==> misses(step_effect::<V, S, I>(s, c), c.spec_args()[1]),
        op is AtomicRmw && c.spec_data().atomic_rmw_op() is Some && arg_unknown::<V, S, I>(s, c, 1)
            ==> misses(step_effect::<V, S, I>(s, c), c.spec_args()[1]),
        op is AtomicRmw && c.spec_data().atomic_rmw_op() is Some && arg_is::<V, S, I>(s, c, 1, x)
            && arg_unknown::<V, S, I>(s, c, 0) ==> misses(
            step_effect::<V, S, I>(s, c),
            c.spec_args()[0],
        ),
{
}

/// An access to a lane fails where its immediate is no number, where the vector cannot be taken apart,
/// and misses an argument without a value.
pub proof fn law_lane_access_failure<'a, V: Value, S: State<'a, V>, I: InstructionContext>(
    s: S,
    c: I,
    imm: u8,
    ty: Type,
    x: V,
    e: ValueError,
)
    requires
        c.spec_data() == (InstructionData::BinaryImm8 { opcode: Opcode::Extractlane, imm })
            || c.spec_data() == (InstructionData::TernaryImm8 { opcode: Opcode::Insertlane, imm }),
        c.spec_controlling_type() == Some(ty),
    ensures
        V::spec_from_data(Datum::I8(imm as i8)).spec_into_int() == Err::<i128, ValueError>(e)
            ==> fails_with(step_effect::<V, S, I>(s, c), e),
        V::spec_from_data(Datum::I8(imm as i8)).spec_into_int() is Ok && arg_unknown::<V, S, I>(
            s,
            c,
            0,
        ) ==> misses(step_effect::<V, S, I>(s, c), c.spec_args()[0]),
        V::spec_from_data(Datum::I8(imm as i8)).spec_into_int() is Ok && arg_is::<V, S, I>(
            s,
            c,
            0,
            x,
        ) && lanes_of(x, ty) == Eval::<Seq<V>, ValueError>::Error(e) ==> fails_with(
            step_effect::<V, S, I>(s, c),
            e,
        ),
{
}

/// The number of arguments that an instruction cannot do without.
pub open spec fn needed(op: Opcode) -> int {
    match op {
        Opcode::Select | Opcode::SelectSpectreGuard | Opcode::Bitselect | Opcode::Fma
        | Opcode::IaddCin | Opcode::IaddCarry | Opcode::IsubBin | Opcode::IsubBorrow => 3,
        Opcode::Icmp | Opcode::Smin | Opcode::Umin | Opcode::Smax | Opcode::Umax
        | Opcode::IaddCout | Opcode::UaddOverflowTrap | Opcode::IsubBout | Opcode::AvgRound
        | Opcode::Umulhi | Opcode::Smulhi | Opcode::Iconcat | Opcode::SqmulRoundSat
        | Opcode::IaddPairwise | Opcode::Fcmp | Opcode::Fmin | Opcode::Fmax | Opcode::FminPseudo
        | Opcode::FmaxPseudo | Opcode::Snarrow | Opcode::Unarrow | Opcode::Uunarrow
        | Opcode::Shuffle | Opcode::Swizzle | Opcode::Insertlane | Opcode::AtomicRmw
        | Opcode::AtomicStore => 2,
        Opcode::IcmpImm | Opcode::Iabs | Opcode::Cls | Opcode::Popcnt | Opcode::Isplit
        | Opcode::Bitcast | Opcode::ScalarToVector | Opcode::Bmask | Opcode::SwidenLow
        | Opcode::SwidenHigh | Opcode::UwidenLow | Opcode::UwidenHigh | Opcode::FcvtToUint
        | Opcode::FcvtToSint | Opcode::FcvtToUintSat | Opcode::FcvtToSintSat
        | Opcode::FcvtFromUint | Opcode::FcvtFromSint | Opcode::FcvtLowFromSint
        | Opcode::FvpromoteLow | Opcode::Fvdemote | Opcode::Extractlane | Opcode::VhighBits
        | Opcode::VanyTrue | Opcode::VallTrue | Opcode::AtomicLoad | Opcode::AtomicCas
        | Opcode::StackStore | Opcode::SetPinnedReg | Opcode::TableAddr | Opcode::Ireduce
        | Opcode::Sextend | Opcode::Uextend | Opcode::Fpromote | Opcode::Fdemote => 1,
        _ => 0,
    }
}

/// A step never succeeds without a value that its instruction needs.
pub proof fn law_needs_arguments<'a, V: Value, S: State<'a, V>, I: InstructionContext>(
    s: S,
    c: I,
    op: Opcode,
    ty: Type,
    i: int,
)
    requires
        is_instruction(c, op, ty),
        0 <= i < needed(op),
        arg_unknown::<V, S, I>(s, c, i),
    ensures
        !(step_effect::<V, S, I>(s, c) is Value),
{
    assert(i == 0 || i == 1 || i == 2);
}

/// A comparison, a minimum or a maximum fails where one of its operands cannot be taken apart or
/// compared.
pub proof fn law_comparison_failure<'a, V: Value, S: State<'a, V>, I: InstructionContext>(
    s: S,
    c: I,
    op: Opcode,
    ty: Type,
    cond: IntCC,
    x: V,
    y: V,
    e: ValueError,
)
    requires
        c.spec_controlling_type() == Some(ty),
        arg_is::<V, S, I>(s, c, 0, x),
        arg_is::<V, S, I>(s, c, 1, y),
    ensures
        c.spec_data() == (InstructionData::IntCompare { opcode: Opcode::Icmp, cond })
            && ty.truthy() is Some && (lanes_of(x, ty) == Eval::<Seq<V>, ValueError>::Error(e)
            || lanes_of(x, ty) is Value && lanes_of(y, ty) == Eval::<Seq<V>, ValueError>::Error(e))
            ==> fails_with(step_effect::<V, S, I>(s, c), e),
        is_instruction(c, op, ty) && ty is Vector && (op is Smax && compare_vectors(
            ty,
            IntCC::SignedGreaterThan,
            x,
            y,
        ) == Eval::<V, ValueError>::Error(e) || op is Umax && compare_vectors(
            ty,
            IntCC::UnsignedGreaterThan,
            x,
            y,
        ) == Eval::<V, ValueError>::Error(e) || op is Smin && compare_vectors(
            ty,
            IntCC::SignedGreaterThan,
            y,
            x,
        ) == Eval::<V, ValueError>::Error(e) || op is Umin && compare_vectors(
            ty,
            IntCC::UnsignedGreaterThan,
            y,
            x,
        ) == Eval::<V, ValueError>::Error(e)) ==> fails_with(step_effect::<V, S, I>(s, c), e),
{
}

/// An instruction on lanes fails where its argument cannot be taken apart as a vector of the type that
/// it reads.
pub proof fn law_reshape_failure<'a, V: Value, S: State<'a, V>, I: InstructionContext>(
    s: S,
    c: I,
    op: Opcode,
    ty: Type,
    in_ty: Type,
    x: V,
    e: ValueError,
)
    requires
        is_instruction(c, op, ty),
        arg_is::<V, S, I>(s, c, 0, x),
        lanes_of(x, in_ty) == Eval::<Seq<V>, ValueError>::Error(e),
    ensures
        (op is Bitcast || op is ScalarToVector || op is FcvtToUintSat || op is FcvtToSintSat
            || op is FcvtFromUint || op is FcvtFromSint || op is FcvtLowFromSint) && c.spec_type_of(
            c.spec_args()[0],
        ) == Some(in_ty) ==> fails_with(step_effect::<V, S, I>(s, c), e),
        op is Bmask && ty.int_lanes() == Some(in_ty) ==> fails_with(
            step_effect::<V, S, I>(s, c),
            e,
        ),
        (op is SwidenLow || op is SwidenHigh || op is UwidenLow || op is UwidenHigh)
            && ty.merge_lanes() is Some && in_ty == ty ==> fails_with(
            step_effect::<V, S, I>(s, c),
            e,
        ),
        (op is Umulhi || op is Smulhi) && product_type_of(ty.lane_bits()) is Some && in_ty == ty
            ==> fails_with(step_effect::<V, S, I>(s, c), e),
        op is SqmulRoundSat && ty.double_width() is Some && in_ty == ty ==> fails_with(
            step_effect::<V, S, I>(s, c),
            e,
        ),
        op is Popcnt && !x.spec_ty().is_int() && in_ty == ty ==> fails_with(
            step_effect::<V, S, I>(s, c),
            e,
        ),
{
}

/// The address of an entry of a table fails where an operation on its parts fails.
pub proof fn law_table_failure<'a, V: Value, S: State<'a, V>, I: InstructionContext>(
    s: S,
    c: I,
    table: Table,
    offset: i32,
    t: TableData,
    base: V,
    bound: V,
    index: V,
    e: ValueError,
)
    requires
        c.spec_data() == (InstructionData::TableAddr { opcode: Opcode::TableAddr, table, offset }),
        c.spec_controlling_type() is Some,
        table.0 < s.current_function().tables@.len(),
        s.current_function().tables@[table.0 as int] == t,
        s.spec_resolve_global_value(t.base_gv) == Ok::<V, MemoryError>(base),
        s.spec_resolve_global_value(t.bound_gv) == Ok::<V, MemoryError>(bound),
        arg_is::<V, S, I>(s, c, 0, index),
        after(
            V::spec_integer(t.element_size as int, t.index_type),
            |size: V|
                after(
                    V::spec_integer(offset as int, t.index_type),
                    |inst_offset: V|
                        after(
                            index.spec_mul(size),
                            |scaled: V|
                                after(
                                    scaled.spec_add(inst_offset),
                                    |distance: V|
                                        after(bound.spec_mul(size), |end: V| distance.spec_gt(end)),
                                ),
                        ),
                ),
        ) == Err::<bool, ValueError>(e),
    ensures
        fails_with(step_effect::<V, S, I>(s, c), e),
{
}

} // verus!
