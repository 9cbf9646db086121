//! What constants, comparisons and choices do.
use crate::arith::{compare_vectors, LaneZip};
use crate::eval::{eval, Eval};
use crate::ir::{Constant, InstructionData, IntCC, Opcode};
use crate::lanes::lanes_of;
use crate::state::{InstructionContext, State};
use crate::step::step_effect;
use crate::terms::{
    arg_is, arg_unknown, assigns, collects, fails_with, goes_on, is_instruction, lemma_lanes,
    misses, packs, yields,
};
use crate::types::{LaneType, Type};
use crate::value::{Datum, Value, ValueConversionKind, ValueError, ValueResult};
use vstd::prelude::*;

verus! {

/// An integer constant is the number that the immediate stands for, as a value of the controlling
/// type.
pub proof fn law_iconst<'a, V: Value, S: State<'a, V>, I: InstructionContext>(
    s: S,
    c: I,
    imm: i64,
    ty: Type,
)
    requires
        c.spec_data() == (InstructionData::UnaryImm { opcode: Opcode::Iconst, imm }),
        c.spec_controlling_type() == Some(ty),
    ensures
        match V::spec_from_data(Datum::I64(imm)).spec_into_int() {
            Ok(n) => yields(step_effect::<V, S, I>(s, c), V::spec_integer(n as int, ty)),
            Err(e) => fails_with(step_effect::<V, S, I>(s, c), e),
        },
{
}

/// A float constant has the bits of the immediate; the instruction that does nothing goes on.
pub proof fn law_constants<'a, V: Value, S: State<'a, V>, I: InstructionContext>(
    s: S,
    c: I,
    single: u32,
    double: u64,
)
    requires
        c.spec_controlling_type() is Some,
    ensures
        c.spec_data() == (InstructionData::UnaryIeee32 { opcode: Opcode::F32const, imm: single })
            ==> assigns(step_effect::<V, S, I>(s, c), V::spec_from_data(Datum::F32(single))),
        c.spec_data() == (InstructionData::UnaryIeee64 { opcode: Opcode::F64const, imm: double })
            ==> assigns(step_effect::<V, S, I>(s, c), V::spec_from_data(Datum::F64(double))),
        c.spec_data().opcode() is Nop ==> goes_on(step_effect::<V, S, I>(s, c)),
{
}

/// A vector constant has the bytes that the constant pool holds for it, sixteen or eight of them as
/// the controlling type asks.
pub proof fn law_vconst<'a, V: Value, S: State<'a, V>, I: InstructionContext>(
    s: S,
    c: I,
    constant_handle: Constant,
    ty: Type,
    bytes: Vec<u8>,
)
    requires
        c.spec_data() == (InstructionData::UnaryConst { opcode: Opcode::Vconst, constant_handle }),
        c.spec_controlling_type() == Some(ty),
        constant_handle.0 < s.current_function().constants@.len(),
        s.current_function().constants@[constant_handle.0 as int] == Some(bytes),
    ensures
        ty.bytes() == 16 && bytes@.len() == 16 ==> assigns(
            step_effect::<V, S, I>(s, c),
            V::spec_from_data(Datum::V128(bytes@)),
        ),
        ty.bytes() == 8 && bytes@.len() == 8 ==> assigns(
            step_effect::<V, S, I>(s, c),
            V::spec_from_data(Datum::V64(bytes@)),
        ),
{
}

/// A selection assigns its second argument if the first one is true, its third one otherwise.
pub proof fn law_selection<'a, V: Value, S: State<'a, V>, I: InstructionContext>(
    s: S,
    c: I,
    op: Opcode,
    ty: Type,
    v: V,
    x: V,
    y: V,
)
    requires
        is_instruction(c, op, ty),
        op is Select || op is SelectSpectreGuard,
        arg_is::<V, S, I>(s, c, 0, v),
        arg_is::<V, S, I>(s, c, 1, x),
        arg_is::<V, S, I>(s, c, 2, y),
    ensures
        match v.spec_into_bool() {
            Ok(true) => assigns(step_effect::<V, S, I>(s, c), x),
            Ok(false) => assigns(step_effect::<V, S, I>(s, c), y),
            Err(e) => fails_with(step_effect::<V, S, I>(s, c), e),
        },
{
}

/// A selection of bits assigns the bits of the second argument where the first one has a bit set,
/// and those of the third one elsewhere.
pub proof fn law_bitselect<'a, V: Value, S: State<'a, V>, I: InstructionContext>(
    s: S,
    c: I,
    ty: Type,
    mask: V,
    x: V,
    y: V,
)
    requires
        is_instruction(c, Opcode::Bitselect, ty),
        arg_is::<V, S, I>(s, c, 0, mask),
        arg_is::<V, S, I>(s, c, 1, x),
        arg_is::<V, S, I>(s, c, 2, y),
    ensures
        yields(step_effect::<V, S, I>(s, c), selected_bits(mask, x, y)),
{
}

/// The bits of `x` that `mask` has, together with the bits of `y` that its complement has.
pub open spec fn selected_bits<V: Value>(mask: V, x: V, y: V) -> ValueResult<V> {
    match mask.spec_and(x) {
        Err(e) => Err(e),
        Ok(from_x) => match mask.spec_not() {
            Err(e) => Err(e),
            Ok(inverse) => match inverse.spec_and(y) {
                Err(e) => Err(e),
                Ok(from_y) => from_x.spec_or(from_y),
            },
        },
    }
}

/// Whether `a` and `b`, both read as unsigned integers, stand in a relation.
pub open spec fn related_unsigned<V: Value>(
    a: V,
    b: V,
    relation: spec_fn(V, V) -> ValueResult<bool>,
) -> ValueResult<bool> {
    match a.spec_convert(ValueConversionKind::ToUnsigned) {
        Err(e) => Err(e),
        Ok(x) => match b.spec_convert(ValueConversionKind::ToUnsigned) {
            Err(e) => Err(e),
            Ok(y) => relation(x, y),
        },
    }
}

/// Whether two integers satisfy a condition.
pub open spec fn satisfies<V: Value>(code: IntCC, a: V, b: V) -> ValueResult<bool> {
    match code {
        IntCC::Equal => a.spec_eq(b),
        IntCC::NotEqual => match a.spec_eq(b) {
            Ok(equal) => Ok(!equal),
            Err(e) => Err(e),
        },
        IntCC::SignedLessThan => a.spec_lt(b),
        IntCC::SignedLessThanOrEqual => a.spec_le(b),
        IntCC::SignedGreaterThan => a.spec_gt(b),
        IntCC::SignedGreaterThanOrEqual => a.spec_ge(b),
        IntCC::UnsignedLessThan => related_unsigned(a, b, |x: V, y: V| x.spec_lt(y)),
        IntCC::UnsignedLessThanOrEqual => related_unsigned(a, b, |x: V, y: V| x.spec_le(y)),
        IntCC::UnsignedGreaterThan => related_unsigned(a, b, |x: V, y: V| x.spec_gt(y)),
        IntCC::UnsignedGreaterThanOrEqual => related_unsigned(a, b, |x: V, y: V| x.spec_ge(y)),
    }
}

/// The truth value of a condition, as a value of type `lane`; an element of a vector if `vec_elem`.
pub open spec fn truth_of<V: Value>(
    condition: ValueResult<bool>,
    vec_elem: bool,
    lane: Type,
) -> ValueResult<V> {
    match condition {
        Ok(b) => V::spec_boolean(b, vec_elem, lane),
        Err(e) => Err(e),
    }
}

/// Comparing lane by lane makes a vector of truth values, each an integer of the size of the lanes;
/// comparing scalars makes one of type `i8`.
pub proof fn law_comparison<V: Value>(
    ty: Type,
    code: IntCC,
    x: V,
    y: V,
    xs: Seq<V>,
    ys: Seq<V>,
    n: nat,
    dst: Type,
)
    requires
        lanes_of(x, ty) == Eval::<Seq<V>, ValueError>::Value(xs),
        lanes_of(y, ty) == Eval::<Seq<V>, ValueError>::Value(ys),
        n <= xs.len() && n <= ys.len() && (n == xs.len() || n == ys.len()),
        ty is Vector ==> ty.int_lanes() == Some(dst),
        !(ty is Vector) ==> dst == Type::Lane(LaneType::I8),
    ensures
        packs(
            compare_vectors(ty, code, x, y),
            n,
            |i: int| truth_of(satisfies(code, xs[i], ys[i]), ty is Vector, dst.lane_type()),
            dst,
        ),
{
    let lane = |i: int|
        truth_of::<V>(satisfies(code, xs[i], ys[i]), ty is Vector, dst.lane_type());
    let zip = LaneZip::<V>::Compare { code, vec_elem: ty is Vector, lane: dst.lane_type() };
    let evals = zip.results(xs, ys);
    assert forall|i: int| 0 <= i < evals.len() implies (#[trigger] evals[i]) == eval(lane(i)) by {
        lemma_satisfies(code, xs[i], ys[i]);
    }
    lemma_lanes(evals, lane);
}

proof fn lemma_satisfies<V: Value>(code: IntCC, a: V, b: V)
    ensures
        crate::arith::int_compare(code, a, b) == eval(satisfies(code, a, b)),
{
}

/// An integer comparison assigns the truth values of its condition, lane by lane, of its two
/// arguments, or of its argument and its immediate.
pub proof fn law_icmp<'a, V: Value, S: State<'a, V>, I: InstructionContext>(
    s: S,
    c: I,
    cond: IntCC,
    imm: i64,
    ty: Type,
    x: V,
    y: V,
    xs: Seq<V>,
    ys: Seq<V>,
    n: nat,
    dst: Type,
)
    requires
        c.spec_data() == (InstructionData::IntCompare { opcode: Opcode::Icmp, cond }) && arg_is::<
            V,
            S,
            I,
        >(s, c, 1, y) || c.spec_data() == (InstructionData::IntCompareImm {
            opcode: Opcode::IcmpImm,
            cond,
            imm,
        }) && V::spec_from_data(Datum::I64(imm)).spec_convert(ValueConversionKind::Exact(ty))
            == Ok::<V, ValueError>(y),
        c.spec_controlling_type() == Some(ty),
        arg_is::<V, S, I>(s, c, 0, x),
        lanes_of(x, ty) == Eval::<Seq<V>, ValueError>::Value(xs),
        lanes_of(y, ty) == Eval::<Seq<V>, ValueError>::Value(ys),
        n <= xs.len() && n <= ys.len() && (n == xs.len() || n == ys.len()),
        ty is Vector ==> ty.int_lanes() == Some(dst),
        !(ty is Vector) ==> dst == Type::Lane(LaneType::I8),
    ensures
        collects(
            step_effect::<V, S, I>(s, c),
            n,
            |i: int| truth_of(satisfies(cond, xs[i], ys[i]), ty is Vector, dst.lane_type()),
            dst,
        ),
{
    law_comparison(ty, cond, x, y, xs, ys, n, dst);
}

/// An integer comparison misses an argument without a value, the first one before the second.
pub proof fn law_icmp_misses<'a, V: Value, S: State<'a, V>, I: InstructionContext>(
    s: S,
    c: I,
    cond: IntCC,
    x: V,
)
    requires
        c.spec_data() == (InstructionData::IntCompare { opcode: Opcode::Icmp, cond }),
        c.spec_controlling_type() is Some,
    ensures
        arg_unknown::<V, S, I>(s, c, 0) ==> misses(step_effect::<V, S, I>(s, c), c.spec_args()[0]),
        arg_is::<V, S, I>(s, c, 0, x) && arg_unknown::<V, S, I>(s, c, 1) ==> misses(
            step_effect::<V, S, I>(s, c),
            c.spec_args()[1],
        ),
{
}

/// Whether `a`, read as an unsigned integer if `unsigned`, is greater than `b`.
pub open spec fn exceeds<V: Value>(a: V, b: V, unsigned: bool) -> ValueResult<bool> {
    if unsigned {
        related_unsigned(a, b, |x: V, y: V| x.spec_gt(y))
    } else {
        a.spec_gt(b)
    }
}

/// A maximum of scalars assigns the first argument if that is greater than the second, and the second
/// otherwise; a minimum assigns the first argument if the second is greater, and the second
/// otherwise.
pub proof fn law_extremes<'a, V: Value, S: State<'a, V>, I: InstructionContext>(
    s: S,
    c: I,
    op: Opcode,
    ty: Type,
    x: V,
    y: V,
)
    requires
        is_instruction(c, op, ty),
        op is Smin || op is Smax || op is Umin || op is Umax,
        !(ty is Vector),
        arg_is::<V, S, I>(s, c, 0, x),
        arg_is::<V, S, I>(s, c, 1, y),
    ensures
        op is Smax || op is Umax ==> match exceeds(x, y, op is Umax) {
            Ok(greater) => assigns(
                step_effect::<V, S, I>(s, c),
                if greater {
                    x
                } else {
                    y
                },
            ),
            Err(e) => fails_with(step_effect::<V, S, I>(s, c), e),
        },
        op is Smin || op is Umin ==> match exceeds(y, x, op is Umin) {
            Ok(greater) => assigns(
                step_effect::<V, S, I>(s, c),
                if greater {
                    x
                } else {
                    y
                },
            ),
            Err(e) => fails_with(step_effect::<V, S, I>(s, c), e),
        },
{
}

/// The number that `v` stands for, read as an unsigned integer if `unsigned`.
pub open spec fn number_of<V: Value>(v: V, unsigned: bool) -> ValueResult<i128> {
    if unsigned {
        match v.spec_convert(ValueConversionKind::ToUnsigned) {
            Ok(u) => u.spec_into_int(),
            Err(e) => Err(e),
        }
    } else {
        v.spec_into_int()
    }
}

/// In numbers: a maximum assigns one of its arguments, and its number is not less than that of
/// either; a minimum assigns one whose number is not greater.
pub proof fn law_extreme_number<'a, V: Value, S: State<'a, V>, I: InstructionContext>(
    s: S,
    c: I,
    op: Opcode,
    ty: Type,
    x: V,
    y: V,
    m: i128,
    n: i128,
)
    requires
        is_instruction(c, op, ty),
        op is Smin || op is Smax || op is Umin || op is Umax,
        !(ty is Vector),
        arg_is::<V, S, I>(s, c, 0, x),
        arg_is::<V, S, I>(s, c, 1, y),
        number_of(x, op is Umin || op is Umax) == Ok::<i128, ValueError>(m),
        number_of(y, op is Umin || op is Umax) == Ok::<i128, ValueError>(n),
        exceeds(x, y, op is Umin || op is Umax) == Ok::<bool, ValueError>(m > n),
        exceeds(y, x, op is Umin || op is Umax) == Ok::<bool, ValueError>(n > m),
    ensures
        op is Smax || op is Umax ==> (assigns(step_effect::<V, S, I>(s, c), x) && m >= n
            || assigns(step_effect::<V, S, I>(s, c), y) && n >= m),
        op is Smin || op is Umin ==> (assigns(step_effect::<V, S, I>(s, c), x) && m <= n
            || assigns(step_effect::<V, S, I>(s, c), y) && n <= m),
{
    law_extremes::<V, S, I>(s, c, op, ty, x, y);
}

/// A maximum of vectors selects the bits of the first argument in the lanes where that is greater
/// than the second, and those of the second elsewhere; a minimum those of the first where the second
/// is greater.
pub proof fn law_vector_extremes<'a, V: Value, S: State<'a, V>, I: InstructionContext>(
    s: S,
    c: I,
    op: Opcode,
    ty: Type,
    x: V,
    y: V,
    mask: V,
)
    requires
        is_instruction(c, op, ty),
        op is Smin || op is Smax || op is Umin || op is Umax,
        ty is Vector,
        arg_is::<V, S, I>(s, c, 0, x),
        arg_is::<V, S, I>(s, c, 1, y),
        ({
            let code = if op is Smin || op is Smax {
                IntCC::SignedGreaterThan
            } else {
                IntCC::UnsignedGreaterThan
            };
            compare_vectors(
                ty,
                code,
                if op is Smax || op is Umax {
                    x
                } else {
                    y
                },
                if op is Smax || op is Umax {
                    y
                } else {
                    x
                },
            ) == Eval::<V, ValueError>::Value(mask)
        }),
    ensures
        yields(step_effect::<V, S, I>(s, c), selected_bits(mask, x, y)),
{
}

} // verus!
