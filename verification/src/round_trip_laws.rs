//! Taking vectors apart and putting them together again.
use crate::arith::{unary_results, unary_vector};
use crate::bytes::{
    byte_at, lane_bytes, le_value, lemma_bytes_roundtrip, lemma_le_value_bound, pack,
};
use crate::eval::{eval, lemma_sequence_value, sequence, Eval};
use crate::lanes::{lane_width, lanes_from_bytes, lanes_of, lanes_to_ints, vector_of, vector_of_all};
use crate::types::Type;
use crate::value::{UnaryOp, Value, ValueConversionKind, ValueError, ValueResult};
use vstd::arithmetic::div_mod::*;
use vstd::arithmetic::mul::*;
use vstd::arithmetic::power::*;
use vstd::prelude::*;

verus! {

/// A scalar is its own single lane, and a single lane is a scalar: taking a scalar apart and putting
/// it together again changes nothing.
pub proof fn law_scalar_round_trip<V: Value>(x: V, ty: Type)
    requires
        !x.spec_ty().is_vector(),
    ensures
        lanes_of(x, ty).bind(|lanes: Seq<V>| vector_of(lanes, ty)) == Eval::<V, ValueError>::Value(
            x,
        ),
{
    assert(seq![x].len() == 1 && seq![x][0] == x);
}

/// Numbers that differ by a multiple of `256^w` agree in their low `w` bytes.
pub proof fn lemma_byte_congruent(m: int, n: int, k: int, w: nat, j: nat)
    requires
        j < w,
        m == n + pow(256, w) * k,
    ensures
        byte_at(m, j) == byte_at(n, j),
    decreases j,
{
    let t = pow(256, (w - 1) as nat) * k;
    assert(m == n + 256 * t) by {
        reveal(pow);
        lemma_mul_is_associative(256, pow(256, (w - 1) as nat), k);
    }
    if j > 0 {
        lemma_byte_congruent(m / 256, n / 256, k, (w - 1) as nat, (j - 1) as nat);
    }
}

/// The lane of type `lane` with the bits of `n`.
pub open spec fn lane_with_bits<V: Value>(n: nat, lane: Type) -> ValueResult<V> {
    if lane.is_float() {
        V::spec_float(n as u64, lane)
    } else {
        V::spec_integer(n as int, lane)
    }
}

/// Whether `v`, converted to an integer, has the bits of `n` in its low `width` bytes.
pub open spec fn has_bits<V: Value>(v: V, n: nat, lane: Type, width: nat) -> bool {
    match v.spec_convert(ValueConversionKind::Exact(lane.int_lanes()->0)) {
        Ok(y) => match y.spec_into_int() {
            Ok(m) => (m - n) % pow(256, width) == 0,
            Err(_) => false,
        },
        Err(_) => false,
    }
}

/// Whether the lanes of type `lane` keep the bits that they are made of.
pub open spec fn keeps_bits<V: Value>(lane: Type, width: nat) -> bool {
    forall|n: nat|
        n < pow(256, width) ==> ((#[trigger] lane_with_bits::<V>(n, lane)) matches Ok(v) ==> has_bits(
            v,
            n,
            lane,
            width,
        ))
}

/// Whether the bytes from position `n` on are zero.
pub open spec fn zero_from(bytes: Seq<u8>, n: int) -> bool {
    forall|k: int| n <= k < bytes.len() ==> #[trigger] bytes[k] == 0
}

/// Byte `b` of the packed lanes belongs to lane `b / width`.
pub proof fn lemma_lane_of_byte(b: int, count: nat, width: nat)
    requires
        0 <= b < count * width,
        width > 0,
    ensures
        0 <= (b / width as int) < count,
        0 <= (b % width as int) < width,
        b == (b / width as int) * width + b % width as int,
        (b / width as int) * width + width <= count * width,
{
    let i = b / width as int;
    let j = b % width as int;
    lemma_fundamental_div_mod(b, width as int);
    assert(0 <= i < count && i * width + j == b && i * width + width <= count * width)
        by (nonlinear_arith)
        requires
            b == width * i + j,
            0 <= j < width,
            0 <= b < count * width,
    ;
}

/// Packing numbers that have the bits of the lanes of `bytes` gives `bytes`.
proof fn lemma_pack_of_lanes(ns: Seq<i128>, bytes: Seq<u8>, width: nat)
    requires
        bytes.len() == 16,
        width > 0,
        ns.len() * width <= 16,
        zero_from(bytes, (ns.len() * width) as int),
        forall|i: int|
            0 <= i < ns.len() ==> ((#[trigger] ns[i]) - le_value(lane_bytes(bytes, width, i)))
                % pow(256, width) == 0,
    ensures
        pack(ns, width) == bytes,
{
    assert forall|b: int| 0 <= b < 16 implies pack(ns, width)[b] == bytes[b] by {
        if b < ns.len() * width {
            lemma_lane_of_byte(b, ns.len(), width);
            let i = b / width as int;
            let j = b % width as int;
            let s = lane_bytes(bytes, width, i);
            let p = pow(256, width);
            assert(i * width >= 0) by (nonlinear_arith)
                requires
                    i >= 0,
            ;
            lemma_pow_positive(256, width);
            lemma_fundamental_div_mod(ns[i] - le_value(s), p);
            lemma_byte_congruent(
                ns[i] as int,
                le_value(s) as int,
                (ns[i] - le_value(s)) / p,
                width,
                j as nat,
            );
            lemma_bytes_roundtrip(s, j);
        }
    }
    assert(pack(ns, width) =~= bytes);
}

/// Packing undoes unpacking: putting the lanes of a vector together again gives the vector of the
/// same bytes, if the lanes keep the bits that they are made of. The vector may fill only a part of
/// the sixteen bytes; what is behind it has to be zero.
pub proof fn law_vector_round_trip<V: Value>(
    x: V,
    ty: Type,
    width: nat,
    bytes: Seq<u8>,
    lanes: Seq<V>,
)
    requires
        x.spec_ty().is_vector(),
        x.spec_into_array() == Ok::<Seq<u8>, ValueError>(bytes),
        bytes.len() == 16,
        lane_width(ty.lane_type()) == Some(width),
        ty.lane_count() >= 2,
        ty.lane_count() * width <= 16,
        zero_from(bytes, ty.lane_count() * width),
        keeps_bits::<V>(ty.lane_type(), width),
        lanes_of(x, ty) == Eval::<Seq<V>, ValueError>::Value(lanes),
    ensures
        vector_of(lanes, ty) == eval(V::spec_vector(bytes, ty)),
{
    let lane = ty.lane_type();
    let count = ty.lane_count() as nat;
    let evals = lanes_from_bytes::<V>(bytes, lane, width, count);
    lemma_sequence_value(evals);
    let ints = lanes_to_ints(lanes, lane, width);
    assert forall|i: int| 0 <= i < count implies (#[trigger] ints[i]) is Value && (
    ints[i]->Value_0 - le_value(lane_bytes(bytes, width, i))) % pow(256, width) == 0 by {
        let n = le_value(lane_bytes(bytes, width, i));
        assert(i * width + width <= 16 && 0 <= i * width) by (nonlinear_arith)
            requires
                0 <= i < count,
                count * width <= 16,
        ;
        lemma_le_value_bound(lane_bytes(bytes, width, i));
        assert(evals[i] == Eval::<V, ValueError>::Value(lanes[i]));
        assert(lane_with_bits::<V>(n, lane) == Ok::<V, ValueError>(lanes[i]));
        assert(has_bits(lanes[i], n, lane, width));
    }
    lemma_sequence_value(ints);
    let ns = sequence(ints)->Value_0;
    assert forall|i: int| 0 <= i < ns.len() implies ((#[trigger] ns[i]) - le_value(
        lane_bytes(bytes, width, i),
    )) % pow(256, width) == 0 by {
        assert(ints[i] is Value);
    }
    lemma_pack_of_lanes(ns, bytes, width);
}

/// The low `w` bytes of a number are the number modulo `256^w`.
proof fn lemma_value_of_bytes(n: int, w: nat)
    ensures
        le_value(Seq::new(w, |j: int| byte_at(n, j as nat))) == n % pow(256, w),
    decreases w,
{
    let s = Seq::new(w, |j: int| byte_at(n, j as nat));
    reveal(pow);
    if w > 0 {
        let p = pow(256, (w - 1) as nat);
        let q = n / 256;
        lemma_value_of_bytes(q, (w - 1) as nat);
        assert(s.drop_first() =~= Seq::new((w - 1) as nat, |j: int| byte_at(q, j as nat)));
        lemma_pow_positive(256, (w - 1) as nat);
        lemma_fundamental_div_mod(q, p);
        let high = q / p;
        let rest = 256 * (q % p) + n % 256;
        assert(n == high * (256 * p) + rest) by (nonlinear_arith)
            requires
                q == p * high + q % p,
                n == 256 * q + n % 256,
                rest == 256 * (q % p) + n % 256,
        ;
        lemma_fundamental_div_mod_converse(n, 256 * p, high, rest);
    }
}

/// Whether `v` is the lane of type `lane` that its own bits make.
pub open spec fn made_of_bits<V: Value>(v: V, lane: Type, width: nat) -> bool {
    match v.spec_convert(ValueConversionKind::Exact(lane.int_lanes()->0)) {
        Ok(y) => match y.spec_into_int() {
            Ok(m) => lane_with_bits::<V>((m as int % pow(256, width)) as nat, lane) == Ok::<
                V,
                ValueError,
            >(v),
            Err(_) => false,
        },
        Err(_) => false,
    }
}

/// Whether a vector of type `ty` gives back the bytes that it is made of; those from position `n` on
/// are zero.
pub open spec fn keeps_bytes<V: Value>(ty: Type, n: int) -> bool {
    forall|bytes: Seq<u8>|
        bytes.len() == 16 && zero_from(bytes, n) ==> ((#[trigger] V::spec_vector(bytes, ty))
            matches Ok(v) ==> v.spec_ty().is_vector() && v.spec_into_array() == Ok::<
            Seq<u8>,
            ValueError,
        >(bytes))
}

/// The lanes of the packed bytes.
proof fn lemma_lanes_of_pack(ns: Seq<i128>, width: nat, i: int)
    requires
        width > 0,
        ns.len() * width <= 16,
        0 <= i < ns.len(),
    ensures
        le_value(lane_bytes(pack(ns, width), width, i)) == ns[i] as int % pow(256, width),
        i * width + width <= 16,
{
    let n = ns[i] as int;
    assert(i * width + width <= ns.len() * width && 0 <= i * width) by (nonlinear_arith)
        requires
            0 <= i < ns.len(),
    ;
    let s = lane_bytes(pack(ns, width), width, i);
    assert forall|j: int| 0 <= j < width implies s[j] == byte_at(n, j as nat) by {
        lemma_fundamental_div_mod_converse(i * width + j, width as int, i, j);
    }
    assert(s =~= Seq::new(width, |j: int| byte_at(n, j as nat)));
    lemma_value_of_bytes(n, width);
}

/// Unpacking undoes packing: the lanes of a vector are those that it was put together of, if each of
/// them is the lane that its own bits make and the vector gives back its bytes.
pub proof fn law_lanes_round_trip<V: Value>(lanes: Seq<V>, ty: Type, width: nat, v: V)
    requires
        lane_width(ty.lane_type()) == Some(width),
        lanes.len() == ty.lane_count(),
        forall|i: int|
            0 <= i < lanes.len() ==> made_of_bits(#[trigger] lanes[i], ty.lane_type(), width),
        keeps_bytes::<V>(ty, ty.lane_count() * width),
        vector_of_all(lanes, ty) == Eval::<V, ValueError>::Value(v),
    ensures
        lanes_of(v, ty) == Eval::<Seq<V>, ValueError>::Value(lanes),
{
    let lane = ty.lane_type();
    let count = ty.lane_count() as nat;
    let ints = lanes_to_ints(lanes, lane, width);
    lemma_sequence_value(ints);
    let ns = sequence(ints)->Value_0;
    let bytes = pack(ns, width);
    assert(count * width <= 16) by {
        if count > 0 {
            assert(ints[count - 1] is Value);
            assert((count - 1) * width + width == count * width) by (nonlinear_arith);
        }
    }
    assert(V::spec_vector(bytes, ty) == Ok::<V, ValueError>(v));
    assert(zero_from(bytes, (count * width) as int));
    let evals = lanes_from_bytes::<V>(bytes, lane, width, count);
    lemma_pow_positive(256, width);
    assert forall|i: int| 0 <= i < count implies (#[trigger] evals[i]) == Eval::<
        V,
        ValueError,
    >::Value(lanes[i]) by {
        assert(ints[i] == Eval::<i128, ValueError>::Value(ns[i]));
        assert(made_of_bits(lanes[i], lane, width));
        lemma_lanes_of_pack(ns, width, i);
    }
    lemma_sequence_value(evals);
    assert(sequence(evals) is Value);
    let read = sequence(evals)->Value_0;
    assert forall|i: int| 0 <= i < count implies read[i] == lanes[i] by {
        assert(evals[i] == Eval::<V, ValueError>::Value(read[i]));
    }
    assert(read =~= lanes);
}

/// Whether `op` takes a lane to one that its own bits make, and that one back.
pub open spec fn returns_lane<V: Value>(op: UnaryOp, a: V, lane: Type, width: nat) -> bool {
    op.result(a) matches Ok(b) ==> op.result(b) == Ok::<V, ValueError>(a) && made_of_bits(
        b,
        lane,
        width,
    )
}

/// An involution applied twice to a scalar gives the scalar back.
pub proof fn law_scalar_involution<V: Value>(x: V, ty: Type, op: UnaryOp, y: V)
    requires
        !x.spec_ty().is_vector(),
        !y.spec_ty().is_vector(),
        op.result(y) == Ok::<V, ValueError>(x),
        unary_vector(x, ty, op, false) == Eval::<V, ValueError>::Value(y),
    ensures
        unary_vector(y, ty, op, false) == Eval::<V, ValueError>::Value(x),
{
    let evals = unary_results(seq![y], op, false);
    lemma_sequence_value(evals);
    assert(evals =~= seq![Eval::<V, ValueError>::Value(x)]);
    assert(evals[0] is Value);
}

/// An involution applied twice to a vector gives the vector back, if the lanes keep their bits and
/// the vector is the one that its bytes make.
pub proof fn law_vector_involution<V: Value>(
    x: V,
    ty: Type,
    width: nat,
    bytes: Seq<u8>,
    op: UnaryOp,
    y: V,
)
    requires
        x.spec_ty().is_vector(),
        x.spec_into_array() == Ok::<Seq<u8>, ValueError>(bytes),
        V::spec_vector(bytes, ty) == Ok::<V, ValueError>(x),
        bytes.len() == 16,
        lane_width(ty.lane_type()) == Some(width),
        ty.lane_count() >= 2,
        ty.lane_count() * width <= 16,
        zero_from(bytes, ty.lane_count() * width),
        keeps_bits::<V>(ty.lane_type(), width),
        keeps_bytes::<V>(ty, ty.lane_count() * width),
        forall|n: nat|
            n < pow(256, width) ==> ((#[trigger] lane_with_bits::<V>(n, ty.lane_type())) matches Ok(
                a,
            ) ==> returns_lane(op, a, ty.lane_type(), width)),
        unary_vector(x, ty, op, false) == Eval::<V, ValueError>::Value(y),
    ensures
        unary_vector(y, ty, op, false) == Eval::<V, ValueError>::Value(x),
{
    let lane = ty.lane_type();
    let count = ty.lane_count() as nat;
    let xs = lanes_of(x, ty)->Value_0;
    let there = unary_results(xs, op, false);
    let ys = sequence(there)->Value_0;
    let evals = lanes_from_bytes::<V>(bytes, lane, width, count);
    lemma_sequence_value(evals);
    lemma_sequence_value(there);
    assert forall|i: int| 0 <= i < count implies op.result(#[trigger] ys[i]) == Ok::<V, ValueError>(
        xs[i],
    ) && made_of_bits(ys[i], lane, width) by {
        let n = le_value(lane_bytes(bytes, width, i));
        assert(i * width + width <= 16 && 0 <= i * width) by (nonlinear_arith)
            requires
                0 <= i < count,
                count * width <= 16,
        ;
        lemma_le_value_bound(lane_bytes(bytes, width, i));
        assert(evals[i] == Eval::<V, ValueError>::Value(xs[i]));
        assert(lane_with_bits::<V>(n, lane) == Ok::<V, ValueError>(xs[i]));
        assert(there[i] == Eval::<V, ValueError>::Value(ys[i]));
    }
    law_lanes_round_trip(ys, ty, width, y);
    let back = unary_results(ys, op, false);
    lemma_sequence_value(back);
    assert forall|i: int| 0 <= i < count implies (#[trigger] back[i]) == Eval::<
        V,
        ValueError,
    >::Value(xs[i]) by {
        assert(op.result(ys[i]) == Ok::<V, ValueError>(xs[i]));
    }
    assert(sequence(back) is Value);
    let zs = sequence(back)->Value_0;
    assert forall|i: int| 0 <= i < count implies zs[i] == xs[i] by {
        assert(back[i] == Eval::<V, ValueError>::Value(zs[i]));
    }
    assert(zs =~= xs);
    law_vector_round_trip(x, ty, width, bytes, xs);
}

} // verus!
