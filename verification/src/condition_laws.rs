//! Comparisons, and the choice between bits: opposite and mirrored conditions.
use crate::arith::{
    compare_vectors, either, float_compare, int_compare, is_unsigned, operand, select_bits, LaneZip,
};
use crate::bytes::{byte_at, pack};
use crate::eval::{eval, lemma_sequence_value, sequence, Eval};
use crate::ir::{FloatCC, IntCC};
use crate::lanes::{lane_width, lanes_from_bytes, lanes_of, lanes_to_ints, vector_of};
use crate::round_trip_laws::{
    has_bits, keeps_bytes, lemma_byte_congruent, lemma_lane_of_byte, zero_from,
};
use crate::types::{LaneType, Type};
use crate::value::{Value, ValueError, ValueResult};
use vstd::arithmetic::div_mod::*;
use vstd::arithmetic::power::*;
use vstd::prelude::*;

verus! {

/// Two values are unequal exactly if they are not equal; if they cannot be compared for equality,
/// they cannot be compared for inequality either.
pub proof fn law_not_equal<V: Value>(x: V, y: V)
    ensures
        int_compare(IntCC::NotEqual, x, y) == int_compare(IntCC::Equal, x, y).bind(
            |equal: bool| Eval::Value(!equal),
        ),
{
}

/// Comparing two scalars gives one truth value of type `i8`, whatever their type is.
pub proof fn law_scalar_comparison<V: Value>(ty: Type, code: IntCC, x: V, y: V)
    requires
        !ty.is_vector(),
        !x.spec_ty().is_vector(),
        !y.spec_ty().is_vector(),
    ensures
        compare_vectors(ty, code, x, y) == int_compare(code, x, y).bind(
            |b: bool| eval(V::spec_boolean(b, false, Type::Lane(LaneType::I8))),
        ),
{
    let zip = LaneZip::<V>::Compare { code, vec_elem: false, lane: Type::Lane(LaneType::I8) };
    let evals = zip.results(seq![x], seq![y]);
    let r = zip.result(x, y);
    assert(evals =~= seq![r]);
    assert(evals.drop_last() =~= Seq::empty());
    assert(sequence(evals.drop_last()) == Eval::<Seq<V>, ValueError>::Value(Seq::empty()));
    assert(evals.last() == r);
    if r is Value {
        let v = r->Value_0;
        assert(sequence(evals) == Eval::<Seq<V>, ValueError>::Value(Seq::empty().push(v)));
    }
}

/// The negation of a truth value, if there is one.
pub open spec fn negated(r: ValueResult<bool>) -> ValueResult<bool> {
    match r {
        Ok(b) => Ok(!b),
        Err(e) => Err(e),
    }
}

/// The integer condition that holds exactly where `code` does not.
pub open spec fn opposite(code: IntCC) -> IntCC {
    match code {
        IntCC::Equal => IntCC::NotEqual,
        IntCC::NotEqual => IntCC::Equal,
        IntCC::SignedLessThan => IntCC::SignedGreaterThanOrEqual,
        IntCC::SignedGreaterThanOrEqual => IntCC::SignedLessThan,
        IntCC::SignedGreaterThan => IntCC::SignedLessThanOrEqual,
        IntCC::SignedLessThanOrEqual => IntCC::SignedGreaterThan,
        IntCC::UnsignedLessThan => IntCC::UnsignedGreaterThanOrEqual,
        IntCC::UnsignedGreaterThanOrEqual => IntCC::UnsignedLessThan,
        IntCC::UnsignedGreaterThan => IntCC::UnsignedLessThanOrEqual,
        IntCC::UnsignedLessThanOrEqual => IntCC::UnsignedGreaterThan,
    }
}

/// Whether "not less" is "greater or equal", and "not greater" is "less or equal".
pub open spec fn totally_ordered<V: Value>(l: V, r: V) -> bool {
    &&& l.spec_ge(r) == negated(l.spec_lt(r))
    &&& l.spec_le(r) == negated(l.spec_gt(r))
}

/// Whether the operands are totally ordered, read as the condition reads them.
pub open spec fn operands_ordered<V: Value>(code: IntCC, x: V, y: V) -> bool {
    operand(x, is_unsigned(code)) matches Eval::Value(l) ==> (operand(y, is_unsigned(code))
        matches Eval::Value(r) ==> totally_ordered(l, r))
}

/// Of two opposite integer conditions exactly one holds; they fail alike.
pub proof fn law_opposite_condition<V: Value>(code: IntCC, x: V, y: V)
    requires
        operands_ordered(code, x, y),
    ensures
        int_compare(opposite(code), x, y) == int_compare(code, x, y).bind(
            |b: bool| Eval::Value(!b),
        ),
{
}

/// Whether the truth values of type `i8` are the numbers one and zero.
pub open spec fn truth_is_one<V: Value>() -> bool {
    forall|b: bool|
        (#[trigger] V::spec_boolean(b, false, Type::Lane(LaneType::I8))) matches Ok(v)
            && v.spec_into_int() == Ok::<i128, ValueError>(
            if b {
                1
            } else {
                0
            },
        )
}

/// Comparing two scalars by opposite conditions gives one and zero, or zero and one.
pub proof fn law_opposite_scalars<V: Value>(ty: Type, code: IntCC, x: V, y: V, r1: V)
    requires
        !ty.is_vector(),
        !x.spec_ty().is_vector(),
        !y.spec_ty().is_vector(),
        operands_ordered(code, x, y),
        truth_is_one::<V>(),
        compare_vectors(ty, code, x, y) == Eval::<V, ValueError>::Value(r1),
    ensures
        compare_vectors(ty, opposite(code), x, y) matches Eval::Value(r2) && r1.spec_into_int()
            matches Ok(n1) && r2.spec_into_int() == Ok::<i128, ValueError>((1 - n1) as i128),
{
    law_opposite_condition(code, x, y);
    law_scalar_comparison(ty, code, x, y);
    law_scalar_comparison(ty, opposite(code), x, y);
    let b = int_compare(code, x, y)->Value_0;
    assert(V::spec_boolean(b, false, Type::Lane(LaneType::I8)) is Ok);
    assert(V::spec_boolean(!b, false, Type::Lane(LaneType::I8)) is Ok);
}

/// Whether the truth values of lanes of type `lane` have all bits set or none.
pub open spec fn truth_is_mask<V: Value>(lane: Type, width: nat) -> bool {
    forall|b: bool|
        (#[trigger] V::spec_boolean(b, true, lane)) matches Ok(v) && has_bits(
            v,
            if b {
                (pow(256, width) - 1) as nat
            } else {
                0
            },
            lane,
            width,
        )
}

/// Whether there is a vector of type `ty` for any bytes that are zero from position `n` on.
pub open spec fn has_vectors<V: Value>(ty: Type, n: int) -> bool {
    forall|bytes: Seq<u8>|
        bytes.len() == 16 && zero_from(bytes, n) ==> (#[trigger] V::spec_vector(bytes, ty)) is Ok
}

/// The bytes of the lanes of `width` bytes that have all bits set where `bs` holds, and none
/// elsewhere.
pub open spec fn mask_bytes(bs: Seq<bool>, width: nat) -> Seq<u8> {
    Seq::new(
        16,
        |k: int|
            if k < bs.len() * width && bs[k / width as int] {
                255u8
            } else {
                0u8
            },
    )
}

/// The bytes of minus one and of zero.
proof fn lemma_uniform_bytes(j: nat)
    ensures
        byte_at(-1, j) == 255,
        byte_at(0, j) == 0,
    decreases j,
{
    if j > 0 {
        lemma_uniform_bytes((j - 1) as nat);
    }
}

/// Packing lanes that have all bits set or none.
proof fn lemma_pack_masks(ns: Seq<i128>, bs: Seq<bool>, width: nat)
    requires
        width > 0,
        ns.len() == bs.len(),
        ns.len() * width <= 16,
        forall|i: int|
            0 <= i < ns.len() ==> ((#[trigger] ns[i]) - (if bs[i] {
                pow(256, width) - 1
            } else {
                0
            })) % pow(256, width) == 0,
    ensures
        pack(ns, width) == mask_bytes(bs, width),
{
    let p = pow(256, width);
    lemma_pow_positive(256, width);
    assert forall|k: int| 0 <= k < 16 implies pack(ns, width)[k] == mask_bytes(bs, width)[k] by {
        if k < ns.len() * width {
            lemma_lane_of_byte(k, ns.len(), width);
            let i = k / width as int;
            let j = (k % width as int) as nat;
            let n = if bs[i] {
                p - 1
            } else {
                0
            };
            let q = (ns[i] - n) / p;
            lemma_fundamental_div_mod(ns[i] - n, p);
            lemma_uniform_bytes(j);
            if bs[i] {
                assert(ns[i] == -1 + p * (q + 1)) by (nonlinear_arith)
                    requires
                        ns[i] - (p - 1) == p * q,
                ;
                lemma_byte_congruent(ns[i] as int, -1, q + 1, width, j);
            } else {
                lemma_byte_congruent(ns[i] as int, 0, q, width, j);
            }
        }
    }
    assert(pack(ns, width) =~= mask_bytes(bs, width));
}

/// Putting truth values together gives a mask.
proof fn lemma_truth_vector<V: Value>(lanes: Seq<V>, bs: Seq<bool>, ty: Type, width: nat)
    requires
        lane_width(ty.lane_type()) == Some(width),
        lanes.len() == bs.len(),
        lanes.len() >= 2,
        lanes.len() * width <= 16,
        truth_is_mask::<V>(ty.lane_type(), width),
        forall|i: int|
            0 <= i < lanes.len() ==> V::spec_boolean(bs[i], true, ty.lane_type()) == Ok::<
                V,
                ValueError,
            >(#[trigger] lanes[i]),
    ensures
        vector_of(lanes, ty) == eval(V::spec_vector(mask_bytes(bs, width), ty)),
{
    let lane = ty.lane_type();
    let p = pow(256, width);
    let ints = lanes_to_ints(lanes, lane, width);
    lemma_pow_positive(256, width);
    assert forall|i: int| 0 <= i < lanes.len() implies (#[trigger] ints[i]) is Value && (
    ints[i]->Value_0 - (if bs[i] {
        p - 1
    } else {
        0
    })) % p == 0 by {
        assert(i * width + width <= 16) by (nonlinear_arith)
            requires
                0 <= i < lanes.len(),
                lanes.len() * width <= 16,
        ;
        assert(V::spec_boolean(bs[i], true, lane) == Ok::<V, ValueError>(lanes[i]));
    }
    lemma_sequence_value(ints);
    let ns = sequence(ints)->Value_0;
    assert forall|i: int| 0 <= i < ns.len() implies ((#[trigger] ns[i]) - (if bs[i] {
        p - 1
    } else {
        0
    })) % p == 0 by {
        assert(ints[i] is Value);
    }
    lemma_pack_masks(ns, bs, width);
}

/// Comparing two vectors by opposite conditions gives masks that are opposite in every lane: each
/// byte of the one is the bitwise complement of that byte of the other.
pub proof fn law_opposite_vectors<V: Value>(
    ty: Type,
    width: nat,
    code: IntCC,
    x: V,
    y: V,
    xs: Seq<V>,
    ys: Seq<V>,
    r1: V,
)
    requires
        ty.is_vector(),
        x.spec_ty().is_vector(),
        y.spec_ty().is_vector(),
        lane_width(ty.lane_type()) == Some(width),
        lanes_of(x, ty) == Eval::<Seq<V>, ValueError>::Value(xs),
        lanes_of(y, ty) == Eval::<Seq<V>, ValueError>::Value(ys),
        forall|i: int|
            0 <= i < ty.lane_count() ==> operands_ordered(code, #[trigger] xs[i], ys[i]),
        truth_is_mask::<V>(ty.truthy()->0.lane_type(), width),
        has_vectors::<V>(ty.truthy()->0, ty.lane_count() * width),
        keeps_bytes::<V>(ty.truthy()->0, ty.lane_count() * width),
        compare_vectors(ty, code, x, y) == Eval::<V, ValueError>::Value(r1),
    ensures
        compare_vectors(ty, opposite(code), x, y) matches Eval::Value(r2) && r1.spec_into_array()
            matches Ok(b1) && r2.spec_into_array() matches Ok(b2) && forall|k: int|
            0 <= k < ty.lane_count() * width ==> #[trigger] b2[k] == !b1[k],
{
    let dst = ty.truthy()->0;
    let lane = dst.lane_type();
    let count = ty.lane_count() as nat;
    let bytes_x = x.spec_into_array()->Ok_0;
    let bytes_y = y.spec_into_array()->Ok_0;
    let from_x = lanes_from_bytes::<V>(bytes_x, ty.lane_type(), width, count);
    let from_y = lanes_from_bytes::<V>(bytes_y, ty.lane_type(), width, count);
    lemma_sequence_value(from_x);
    lemma_sequence_value(from_y);
    assert(count * width <= 16) by {
        assert(from_x[count - 1] is Value);
        assert((count - 1) * width + width == count * width) by (nonlinear_arith);
    }
    let zip = LaneZip::<V>::Compare { code, vec_elem: true, lane };
    let other = LaneZip::<V>::Compare { code: opposite(code), vec_elem: true, lane };
    let e1 = zip.results(xs, ys);
    let e2 = other.results(xs, ys);
    lemma_sequence_value(e1);
    lemma_sequence_value(e2);
    let bs = Seq::new(count, |i: int| int_compare(code, xs[i], ys[i])->Value_0);
    let nbs = Seq::new(count, |i: int| !bs[i]);
    assert forall|i: int| 0 <= i < count implies (#[trigger] e1[i]) == eval(
        V::spec_boolean(bs[i], true, lane),
    ) && e2[i] == eval(V::spec_boolean(nbs[i], true, lane)) by {
        assert(e1[i] is Value);
        assert(operands_ordered(code, xs[i], ys[i]));
        law_opposite_condition(code, xs[i], ys[i]);
    }
    assert forall|i: int| 0 <= i < e2.len() implies (#[trigger] e2[i]) is Value by {
        assert(e1[i] is Value);
        assert(V::spec_boolean(nbs[i], true, lane) is Ok);
    }
    let l1 = sequence(e1)->Value_0;
    let l2 = sequence(e2)->Value_0;
    assert forall|i: int| 0 <= i < count implies V::spec_boolean(bs[i], true, lane) == Ok::<
        V,
        ValueError,
    >(#[trigger] l1[i]) by {
        assert(e1[i] == Eval::<V, ValueError>::Value(l1[i]));
    }
    assert forall|i: int| 0 <= i < count implies V::spec_boolean(nbs[i], true, lane) == Ok::<
        V,
        ValueError,
    >(#[trigger] l2[i]) by {
        assert(e1[i] is Value);
        assert(e2[i] == Eval::<V, ValueError>::Value(l2[i]));
    }
    assert(lane_width(lane) == Some(width));
    lemma_truth_vector(l1, bs, dst, width);
    lemma_truth_vector(l2, nbs, dst, width);
    let m1 = mask_bytes(bs, width);
    let m2 = mask_bytes(nbs, width);
    assert(zero_from(m1, (count * width) as int) && zero_from(m2, (count * width) as int));
    assert(V::spec_vector(m1, dst) is Ok && V::spec_vector(m2, dst) is Ok);
    assert(!0u8 == 255u8 && !255u8 == 0u8) by (bit_vector);
    assert forall|k: int| 0 <= k < count * width implies #[trigger] m2[k] == !m1[k] by {
        lemma_lane_of_byte(k, count, width);
    }
}

/// The integer condition that holds of `y` and `x` exactly where `code` does of `x` and `y`.
pub open spec fn mirrored(code: IntCC) -> IntCC {
    match code {
        IntCC::Equal => IntCC::Equal,
        IntCC::NotEqual => IntCC::NotEqual,
        IntCC::SignedLessThan => IntCC::SignedGreaterThan,
        IntCC::SignedGreaterThan => IntCC::SignedLessThan,
        IntCC::SignedLessThanOrEqual => IntCC::SignedGreaterThanOrEqual,
        IntCC::SignedGreaterThanOrEqual => IntCC::SignedLessThanOrEqual,
        IntCC::UnsignedLessThan => IntCC::UnsignedGreaterThan,
        IntCC::UnsignedGreaterThan => IntCC::UnsignedLessThan,
        IntCC::UnsignedLessThanOrEqual => IntCC::UnsignedGreaterThanOrEqual,
        IntCC::UnsignedGreaterThanOrEqual => IntCC::UnsignedLessThanOrEqual,
    }
}

/// Whether comparing `l` with `r` mirrors comparing `r` with `l`.
pub open spec fn comparisons_mirror<V: Value>(l: V, r: V) -> bool {
    &&& l.spec_eq(r) == r.spec_eq(l)
    &&& l.spec_lt(r) == r.spec_gt(l)
    &&& l.spec_gt(r) == r.spec_lt(l)
    &&& l.spec_le(r) == r.spec_ge(l)
    &&& l.spec_ge(r) == r.spec_le(l)
}

/// Whether at most one of two computations fails, or both fail alike: then it does not matter which
/// of them comes first.
pub open spec fn fail_alike<T>(a: Eval<T, ValueError>, b: Eval<T, ValueError>) -> bool {
    a is Value || b is Value || a == b
}

/// Whether the operands of a comparison can be exchanged, read as the condition reads them.
pub open spec fn operands_mirror<V: Value>(code: IntCC, x: V, y: V) -> bool {
    let unsigned = is_unsigned(code);
    &&& fail_alike(operand(x, unsigned), operand(y, unsigned))
    &&& operand(x, unsigned) matches Eval::Value(l) ==> (operand(y, unsigned) matches Eval::Value(
        r,
    ) ==> comparisons_mirror(l, r))
}

/// Exchanging the operands of an integer comparison and mirroring the condition gives the same.
pub proof fn law_mirrored_condition<V: Value>(code: IntCC, x: V, y: V)
    requires
        operands_mirror(code, x, y),
    ensures
        int_compare(mirrored(code), x, y) == int_compare(code, y, x),
{
}

/// Exchanging the operands of a comparison of scalars or vectors and mirroring the condition gives
/// the same.
pub proof fn law_mirrored_comparison<V: Value>(ty: Type, code: IntCC, x: V, y: V)
    requires
        fail_alike(lanes_of(x, ty), lanes_of(y, ty)),
        lanes_of(x, ty) matches Eval::Value(xs) ==> (lanes_of(y, ty) matches Eval::Value(ys) ==> (
        forall|i: int|
            0 <= i < xs.len() && i < ys.len() ==> operands_mirror(code, #[trigger] xs[i], ys[i]))),
    ensures
        compare_vectors(ty, mirrored(code), x, y) == compare_vectors(ty, code, y, x),
{
    if ty.truthy() is Some && lanes_of(x, ty) is Value && lanes_of(y, ty) is Value {
        let xs = lanes_of(x, ty)->Value_0;
        let ys = lanes_of(y, ty)->Value_0;
        let dst = ty.truthy()->0;
        let one = LaneZip::<V>::Compare {
            code: mirrored(code),
            vec_elem: ty.is_vector(),
            lane: dst.lane_type(),
        };
        let other = LaneZip::<V>::Compare { code, vec_elem: ty.is_vector(), lane: dst.lane_type() };
        assert forall|i: int| 0 <= i < xs.len() && i < ys.len() implies one.result(
            #[trigger] xs[i],
            ys[i],
        ) == other.result(ys[i], xs[i]) by {
            assert(operands_mirror(code, xs[i], ys[i]));
            law_mirrored_condition(code, xs[i], ys[i]);
        }
        assert(one.results(xs, ys) =~= other.results(ys, xs));
    }
}

/// The floating point condition that holds exactly where `code` does not.
pub open spec fn opposite_float(code: FloatCC) -> FloatCC {
    match code {
        FloatCC::Ordered => FloatCC::Unordered,
        FloatCC::Unordered => FloatCC::Ordered,
        FloatCC::Equal => FloatCC::NotEqual,
        FloatCC::NotEqual => FloatCC::Equal,
        FloatCC::OrderedNotEqual => FloatCC::UnorderedOrEqual,
        FloatCC::UnorderedOrEqual => FloatCC::OrderedNotEqual,
        FloatCC::LessThan => FloatCC::UnorderedOrGreaterThanOrEqual,
        FloatCC::UnorderedOrGreaterThanOrEqual => FloatCC::LessThan,
        FloatCC::LessThanOrEqual => FloatCC::UnorderedOrGreaterThan,
        FloatCC::UnorderedOrGreaterThan => FloatCC::LessThanOrEqual,
        FloatCC::GreaterThan => FloatCC::UnorderedOrLessThanOrEqual,
        FloatCC::UnorderedOrLessThanOrEqual => FloatCC::GreaterThan,
        FloatCC::GreaterThanOrEqual => FloatCC::UnorderedOrLessThan,
        FloatCC::UnorderedOrLessThan => FloatCC::GreaterThanOrEqual,
    }
}

/// How two floats compare.
pub enum FloatOrder {
    Less,
    Equal,
    Greater,
    Unordered,
}

/// Whether the comparisons of `x` with `y` all say that they compare as `order` says.
pub open spec fn compares_as<V: Value>(x: V, y: V, order: FloatOrder) -> bool {
    &&& x.spec_lt(y) == Ok::<bool, ValueError>(order is Less)
    &&& x.spec_eq(y) == Ok::<bool, ValueError>(order is Equal)
    &&& x.spec_gt(y) == Ok::<bool, ValueError>(order is Greater)
    &&& x.spec_uno(y) == Ok::<bool, ValueError>(order is Unordered)
    &&& x.spec_le(y) == Ok::<bool, ValueError>(order is Less || order is Equal)
    &&& x.spec_ge(y) == Ok::<bool, ValueError>(order is Greater || order is Equal)
}

/// Of two opposite floating point conditions exactly one holds: two floats are less, equal, greater
/// or unordered.
pub proof fn law_opposite_float_condition<V: Value>(code: FloatCC, x: V, y: V, order: FloatOrder)
    requires
        compares_as(x, y, order),
    ensures
        float_compare(code, x, y) is Ok,
        float_compare(opposite_float(code), x, y) == negated(float_compare(code, x, y)),
{
}

/// The floating point condition that holds of `y` and `x` exactly where `code` does of `x` and `y`.
pub open spec fn mirrored_float(code: FloatCC) -> FloatCC {
    match code {
        FloatCC::LessThan => FloatCC::GreaterThan,
        FloatCC::GreaterThan => FloatCC::LessThan,
        FloatCC::LessThanOrEqual => FloatCC::GreaterThanOrEqual,
        FloatCC::GreaterThanOrEqual => FloatCC::LessThanOrEqual,
        FloatCC::UnorderedOrLessThan => FloatCC::UnorderedOrGreaterThan,
        FloatCC::UnorderedOrGreaterThan => FloatCC::UnorderedOrLessThan,
        FloatCC::UnorderedOrLessThanOrEqual => FloatCC::UnorderedOrGreaterThanOrEqual,
        FloatCC::UnorderedOrGreaterThanOrEqual => FloatCC::UnorderedOrLessThanOrEqual,
        _ => code,
    }
}

/// Exchanging the operands of a floating point comparison and mirroring the condition gives the
/// same, if it does not matter whether "less" or "greater" is asked first.
pub proof fn law_mirrored_float_condition<V: Value>(code: FloatCC, x: V, y: V)
    requires
        comparisons_mirror(x, y),
        x.spec_uno(y) == y.spec_uno(x),
        either(x.spec_lt(y), x.spec_gt(y)) == either(x.spec_gt(y), x.spec_lt(y)),
    ensures
        float_compare(mirrored_float(code), x, y) == float_compare(code, y, x),
{
}

/// Complementing the mask of a bit selection and exchanging the choices gives the same, if
/// complementing twice changes nothing and the order of a disjunction does not matter.
pub proof fn law_complemented_mask<V: Value>(c: V, not_c: V, x: V, y: V)
    requires
        c.spec_not() == Ok::<V, ValueError>(not_c),
        not_c.spec_not() == Ok::<V, ValueError>(c),
        fail_alike(eval(c.spec_and(x)), eval(not_c.spec_and(y))),
        c.spec_and(x) matches Ok(a) ==> (not_c.spec_and(y) matches Ok(b) ==> a.spec_or(b)
            == b.spec_or(a)),
    ensures
        select_bits(not_c, y, x) == select_bits(c, x, y),
{
}

} // verus!
