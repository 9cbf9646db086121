//! How types, lanes and bytes hang together.
use crate::bytes::{
    byte_at, lane_bytes, le_value, lemma_bytes_roundtrip, lemma_le_value_bound, pack,
};
use crate::eval::{eval, eval_list, lemma_sequence_of_values, lemma_sequence_value, sequence, Eval};
use crate::flow::{eval_action, Action, ControlFlow, Effect, Flow, StepError};
use crate::ir::TrapCode;
use crate::lanes::{lane_width, lanes_from_bytes, lanes_of, lanes_to_ints, vector_of, vector_of_all};
use crate::state::{data_of, reply_of, MemoryError};
use crate::types::{LaneType, Lanes, Type};
use crate::value::{bytes_of, DataValue, Datum, Value, ValueConversionKind, ValueError, ValueResult};
use vstd::arithmetic::div_mod::*;
use vstd::arithmetic::mul::*;
use vstd::arithmetic::power2::*;
use vstd::arithmetic::power::*;
use vstd::prelude::*;

verus! {

/// Dividing in two steps is dividing by the product.
proof fn lemma_div_twice(x: int, c: int, d: int)
    requires
        c > 0,
        d > 0,
    ensures
        (x / c) / d == x / (c * d),
{
    let q = (x / c) / d;
    let r = (x / c) % d;
    let t = x % c;
    assert(x == c * (x / c) + t && 0 <= t < c) by {
        lemma_fundamental_div_mod(x, c);
        lemma_mod_bound(x, c);
    }
    assert(x / c == d * q + r && 0 <= r < d) by {
        lemma_fundamental_div_mod(x / c, d);
        lemma_mod_bound(x / c, d);
    }
    assert(x == (c * d) * q + (c * r + t)) by (nonlinear_arith)
        requires
            x == c * (x / c) + t,
            x / c == d * q + r,
    ;
    assert(0 <= c * r + t < c * d) by (nonlinear_arith)
        requires
            0 <= t < c,
            0 <= r < d,
    ;
    lemma_mul_is_commutative(c * d, q);
    lemma_fundamental_div_mod_converse(x, c * d, q, c * r + t);
}

/// Byte `j` of a number is its digit in base 256 at the position `j`, counted from the least
/// significant one.
pub proof fn law_byte_at(n: int, j: nat)
    ensures
        byte_at(n, j) == (n / pow(256, j)) % 256,
    decreases j,
{
    reveal(pow);
    if j > 0 {
        law_byte_at(n / 256, (j - 1) as nat);
        lemma_pow_positive(256, (j - 1) as nat);
        lemma_div_twice(n, 256, pow(256, (j - 1) as nat));
    }
}

/// A byte string stands for the number whose digits in base 256 are the bytes, the least significant
/// one first.
pub proof fn law_le_value(bytes: Seq<u8>)
    ensures
        0 <= le_value(bytes) < pow(256, bytes.len()),
        forall|j: int|
            0 <= j < bytes.len() ==> (le_value(bytes) as int / pow(256, j as nat)) % 256
                == #[trigger] bytes[j],
{
    lemma_le_value_bound(bytes);
    assert forall|j: int| 0 <= j < bytes.len() implies (le_value(bytes) as int / pow(256, j as nat))
        % 256 == #[trigger] bytes[j] by {
        lemma_bytes_roundtrip(bytes, j);
        law_byte_at(le_value(bytes) as int, j as nat);
    }
}

/// The number of bytes of a lane: an eighth of its bits, for integers and floats of up to 64 bits.
pub proof fn law_lane_width(lane: Type)
    ensures
        lane_width(lane) matches Some(width) ==> lane is Lane && 8 * width == lane.lane_bits(),
        lane_width(lane) is Some <==> (lane == Type::Lane(LaneType::I8) || lane == Type::Lane(
            LaneType::I16,
        ) || lane == Type::Lane(LaneType::I32) || lane == Type::Lane(LaneType::I64) || lane
            == Type::Lane(LaneType::F32) || lane == Type::Lane(LaneType::F64)),
{
}

/// Whether `v` is the lane of type `lane` with the digits `bytes` in base 256, the least significant
/// one first: an integer, or a float with these bits.
pub open spec fn is_lane_of<V: Value>(v: V, lane: Type, bytes: Seq<u8>) -> bool {
    exists|n: nat| #[trigger]
        has_digits(n, bytes) && (if lane == Type::Lane(LaneType::F32) || lane == Type::Lane(
            LaneType::F64,
        ) {
            V::spec_float(n as u64, lane) == Ok::<V, ValueError>(v)
        } else {
            V::spec_integer(n as int, lane) == Ok::<V, ValueError>(v)
        })
}

/// Whether `n` is the number with the digits `bytes` in base 256, the least significant one first.
pub open spec fn has_digits(n: nat, bytes: Seq<u8>) -> bool {
    &&& n < pow(256, bytes.len())
    &&& forall|j: int|
        0 <= j < bytes.len() ==> (n as int / pow(256, j as nat)) % 256 == #[trigger] bytes[j]
}

/// The lanes of a vector come from its bytes, one after the other: lane `i` from the bytes that
/// start at `i` times the width of a lane.
pub proof fn law_lanes_of_vector<V: Value>(
    x: V,
    ty: Type,
    bytes: Seq<u8>,
    width: nat,
    lanes: Seq<V>,
)
    requires
        x.spec_ty() is Vector,
        x.spec_into_array() == Ok::<Seq<u8>, ValueError>(bytes),
        bytes.len() == 16,
        lane_width(ty.lane_type()) == Some(width),
        lanes_of(x, ty) == Eval::<Seq<V>, ValueError>::Value(lanes),
    ensures
        lanes.len() == ty.lane_count(),
        forall|i: int|
            0 <= i < lanes.len() ==> is_lane_of(
                #[trigger] lanes[i],
                ty.lane_type(),
                bytes.subrange(i * width, i * width + width),
            ),
{
    let evals = lanes_from_bytes::<V>(bytes, ty.lane_type(), width, ty.lane_count() as nat);
    lemma_sequence_value(evals);
    assert forall|i: int| 0 <= i < lanes.len() implies is_lane_of(
        #[trigger] lanes[i],
        ty.lane_type(),
        bytes.subrange(i * width, i * width + width),
    ) by {
        assert(evals[i] == Eval::<V, ValueError>::Value(lanes[i]));
        let part = bytes.subrange(i * width, i * width + width);
        assert(lane_bytes(bytes, width, i) == part);
        law_le_value(part);
        assert(has_digits(le_value(part), part));
    }
}

/// A number is determined by its digits.
pub proof fn law_digits(n: nat, bytes: Seq<u8>)
    requires
        has_digits(n, bytes),
    ensures
        n == le_value(bytes),
    decreases bytes.len(),
{
    reveal(pow);
    if bytes.len() > 0 {
        let rest = bytes.drop_first();
        let high = (n / 256) as nat;
        assert((n as int / pow(256, 0)) % 256 == bytes[0]);
        assert(n as int / 1 == n);
        assert(pow(256, bytes.len()) == 256 * pow(256, rest.len()));
        assert(high < pow(256, rest.len())) by (nonlinear_arith)
            requires
                n < 256 * pow(256, rest.len()),
                high == n / 256,
        ;
        assert forall|j: int| 0 <= j < rest.len() implies (high as int / pow(256, j as nat)) % 256
            == #[trigger] rest[j] by {
            assert(bytes[j + 1] == (n as int / pow(256, (j + 1) as nat)) % 256);
            lemma_pow_positive(256, j as nat);
            lemma_div_twice(n as int, 256, pow(256, j as nat));
        }
        law_digits(high, rest);
    }
}

/// Taking a vector apart succeeds if all of its lanes fit into its sixteen bytes and each of them can
/// be made; the first one that cannot be made decides otherwise.
pub proof fn law_take_apart<V: Value>(
    x: V,
    ty: Type,
    bytes: Seq<u8>,
    width: nat,
    ns: Seq<nat>,
    made: Seq<ValueResult<V>>,
    lanes: Seq<V>,
    k: int,
    e: ValueError,
)
    requires
        x.spec_ty() is Vector,
        x.spec_into_array() == Ok::<Seq<u8>, ValueError>(bytes),
        bytes.len() == 16,
        lane_width(ty.lane_type()) == Some(width),
        ty.lane_count() * width <= 16,
        ns.len() == ty.lane_count(),
        made.len() == ty.lane_count(),
        forall|i: int|
            0 <= i < ns.len() ==> has_digits(
                #[trigger] ns[i],
                bytes.subrange(i * width, i * width + width),
            ) && made[i] == (if ty.lane_type() == Type::Lane(LaneType::F32) || ty.lane_type()
                == Type::Lane(LaneType::F64) {
                V::spec_float(ns[i] as u64, ty.lane_type())
            } else {
                V::spec_integer(ns[i] as int, ty.lane_type())
            }),
    ensures
        lanes.len() == made.len() && (forall|i: int|
            0 <= i < made.len() ==> (#[trigger] made[i]) == Ok::<V, ValueError>(lanes[i]))
            ==> lanes_of(x, ty) == Eval::<Seq<V>, ValueError>::Value(lanes),
        0 <= k < made.len() && (forall|i: int| 0 <= i < k ==> (#[trigger] made[i]) is Ok) && made[k]
            == Err::<V, ValueError>(e) ==> lanes_of(x, ty) == Eval::<Seq<V>, ValueError>::Error(e),
{
    let evals = lanes_from_bytes::<V>(bytes, ty.lane_type(), width, ty.lane_count() as nat);
    assert forall|i: int| 0 <= i < evals.len() implies (#[trigger] evals[i]) == eval(made[i]) by {
        let part = bytes.subrange(i * width, i * width + width);
        assert(has_digits(ns[i], part));
        law_digits(ns[i], part);
        assert(lane_bytes(bytes, width, i) == part);
        assert(i * width + width <= ty.lane_count() * width) by (nonlinear_arith)
            requires
                0 <= i < ty.lane_count(),
        ;
    }
    if lanes.len() == made.len() && (forall|i: int|
        0 <= i < made.len() ==> (#[trigger] made[i]) == Ok::<V, ValueError>(lanes[i])) {
        assert forall|i: int| 0 <= i < evals.len() implies (#[trigger] evals[i]) == Eval::<
            V,
            ValueError,
        >::Value(lanes[i]) by {
            assert(made[i] == Ok::<V, ValueError>(lanes[i]));
        }
        lemma_sequence_of_values(evals, lanes);
    }
    if 0 <= k < made.len() && (forall|i: int| 0 <= i < k ==> (#[trigger] made[i]) is Ok) && made[k]
        == Err::<V, ValueError>(e) {
        assert forall|i: int| 0 <= i < k implies (#[trigger] evals[i]) is Value by {
            assert(made[i] is Ok);
        }
        crate::eval::lemma_sequence_of_error(evals, k, e);
    }
}

/// A vector without bytes cannot be taken apart.
pub proof fn law_take_apart_failure<V: Value>(x: V, ty: Type, e: ValueError)
    requires
        x.spec_ty() is Vector,
        x.spec_into_array() == Err::<Seq<u8>, ValueError>(e),
        lane_width(ty.lane_type()) is Some,
    ensures
        lanes_of(x, ty) == Eval::<Seq<V>, ValueError>::Error(e),
{
}

/// Putting lanes together fails with the first lane that has no integer form.
pub proof fn law_put_together_failure<V: Value>(
    lanes: Seq<V>,
    ty: Type,
    width: nat,
    k: int,
    e: ValueError,
)
    requires
        lane_width(ty.lane_type()) == Some(width),
        lanes.len() * width <= 16,
        lanes.len() != 1,
        0 <= k < lanes.len(),
        forall|i: int|
            0 <= i < k ==> ((#[trigger] lanes[i]).spec_convert(
                ValueConversionKind::Exact(integer_of_size(ty.lane_type())),
            ) matches Ok(n) && n.spec_into_int() is Ok),
        lanes[k].spec_convert(ValueConversionKind::Exact(integer_of_size(ty.lane_type()))) == Err::<
            V,
            ValueError,
        >(e) || (lanes[k].spec_convert(
            ValueConversionKind::Exact(integer_of_size(ty.lane_type())),
        ) matches Ok(n) && n.spec_into_int() == Err::<i128, ValueError>(e)),
    ensures
        vector_of(lanes, ty) == Eval::<V, ValueError>::Error(e),
{
    let lane = ty.lane_type();
    let evals = lanes_to_ints(lanes, lane, width);
    assert(lane.int_lanes() == Some(integer_of_size(lane)));
    assert forall|i: int| 0 <= i < k implies (#[trigger] evals[i]) is Value by {
        assert(lanes[i].spec_convert(ValueConversionKind::Exact(integer_of_size(lane))) is Ok);
        assert(i * width + width <= lanes.len() * width) by (nonlinear_arith)
            requires
                0 <= i < lanes.len(),
        ;
    }
    crate::eval::lemma_sequence_of_error(evals, k, e);
}

/// A scalar is its own single lane, and a single lane makes a scalar.
pub proof fn law_single_lane<V: Value>(x: V, ty: Type)
    ensures
        !(x.spec_ty() is Vector) ==> lanes_of(x, ty) == Eval::<Seq<V>, ValueError>::Value(seq![x]),
        vector_of(seq![x], ty) == Eval::<V, ValueError>::Value(x),
{
    assert(seq![x].len() == 1 && seq![x][0] == x);
}

/// Whether `bytes` are the low digits of `n` in base 256, the least significant one first.
pub open spec fn are_low_digits(bytes: Seq<u8>, n: int) -> bool {
    forall|j: int| 0 <= j < bytes.len() ==> #[trigger] bytes[j] == (n / pow(256, j as nat)) % 256
}

/// The integer type of the size of a lane.
pub open spec fn integer_of_size(lane: Type) -> Type {
    if lane == Type::Lane(LaneType::F32) {
        Type::Lane(LaneType::I32)
    } else if lane == Type::Lane(LaneType::F64) {
        Type::Lane(LaneType::I64)
    } else {
        lane
    }
}

/// Lanes become the bytes of a vector one after the other: each is converted to an integer of its
/// size, whose digits in base 256 follow each other from the least significant one on; what is left
/// of the sixteen bytes is zero.
pub proof fn law_vector_of_lanes<V: Value>(
    lanes: Seq<V>,
    ty: Type,
    width: nat,
    ints: Seq<V>,
    ns: Seq<i128>,
    bytes: Seq<u8>,
)
    requires
        lane_width(ty.lane_type()) == Some(width),
        lanes.len() * width <= 16,
        ints.len() == lanes.len(),
        ns.len() == lanes.len(),
        forall|i: int|
            0 <= i < lanes.len() ==> (#[trigger] lanes[i]).spec_convert(
                ValueConversionKind::Exact(integer_of_size(ty.lane_type())),
            ) == Ok::<V, ValueError>(ints[i]) && ints[i].spec_into_int() == Ok::<i128, ValueError>(
                ns[i],
            ),
        bytes.len() == 16,
        forall|i: int|
            0 <= i < lanes.len() ==> are_low_digits(
                bytes.subrange(i * width, i * width + width),
                #[trigger] ns[i] as int,
            ),
        forall|k: int| lanes.len() * width <= k < 16 ==> #[trigger] bytes[k] == 0,
    ensures
        vector_of_all(lanes, ty) == eval(V::spec_vector(bytes, ty)),
        lanes.len() != 1 ==> vector_of(lanes, ty) == eval(V::spec_vector(bytes, ty)),
{
    let lane = ty.lane_type();
    let evals = lanes_to_ints(lanes, lane, width);
    assert(lane.int_lanes() == Some(integer_of_size(lane)));
    assert forall|i: int| 0 <= i < evals.len() implies (#[trigger] evals[i]) == Eval::<
        i128,
        ValueError,
    >::Value(ns[i]) by {
        assert(lanes[i].spec_convert(ValueConversionKind::Exact(integer_of_size(lane))) == Ok::<
            V,
            ValueError,
        >(ints[i]));
        assert(i * width + width <= lanes.len() * width) by (nonlinear_arith)
            requires
                0 <= i < lanes.len(),
        ;
    }
    lemma_sequence_of_values(evals, ns);
    assert forall|k: int| 0 <= k < 16 implies bytes[k] == pack(ns, width)[k] by {
        if k < lanes.len() * width {
            let i = k / width as int;
            let j = k % width as int;
            lemma_fundamental_div_mod(k, width as int);
            lemma_mod_bound(k, width as int);
            lemma_mul_is_commutative(i, width as int);
            assert(0 <= i < lanes.len()) by (nonlinear_arith)
                requires
                    k == width * i + j,
                    0 <= j < width,
                    0 <= k < lanes.len() * width,
            ;
            law_byte_at(ns[i] as int, j as nat);
            let part = bytes.subrange(i * width, i * width + width);
            assert(are_low_digits(part, ns[i] as int));
            assert(i * width + width <= lanes.len() * width) by (nonlinear_arith)
                requires
                    0 <= i < lanes.len(),
            ;
            assert(part[j] == bytes[k]);
        }
    }
    assert(bytes =~= pack(ns, width));
}

/// The sizes of the lane types in bits.
pub proof fn law_lane_bits()
    ensures
        LaneType::I8.bits() == 8,
        LaneType::I16.bits() == 16,
        LaneType::I32.bits() == 32,
        LaneType::I64.bits() == 64,
        LaneType::I128.bits() == 128,
        LaneType::F32.bits() == 32,
        LaneType::F64.bits() == 64,
        LaneType::R32.bits() == 32,
        LaneType::R64.bits() == 64,
{
}

/// How lane types change their size: the bits double or halve, and an integer stays an integer, a
/// float a float. The integer of the same size has as many bits.
pub proof fn law_lane_types(lane: LaneType)
    ensures
        lane.twice_as_wide() matches Some(wide) ==> wide.bits() == 2 * lane.bits()
            && wide.spec_is_int() == lane.spec_is_int() && wide.half_as_wide() == Some(lane),
        lane.half_as_wide() matches Some(half) ==> 2 * half.bits() == lane.bits()
            && half.spec_is_int() == lane.spec_is_int() && half.twice_as_wide() == Some(lane),
        lane.same_size_int() matches Some(int_lane) ==> int_lane.bits() == lane.bits()
            && int_lane.spec_is_int(),
        lane.spec_is_int() ==> lane.same_size_int() == Some(lane),
        lane.twice_as_wide() is None <==> lane is I128 || lane is F64 || lane is R32 || lane is R64,
        lane.half_as_wide() is None <==> lane is I8 || lane is F32 || lane is R32 || lane is R64,
        lane.same_size_int() is None <==> lane is R32 || lane is R64,
        lane.spec_is_int() <==> !(lane is F32 || lane is F64 || lane is R32 || lane is R64),
{
}

/// The range of an integer of `n` bits: from `-2^(n-1)` to `2^(n-1) - 1` if it is signed, from zero
/// to `2^n - 1` otherwise.
pub proof fn law_bounds(lane: LaneType)
    requires
        lane.spec_is_int(),
    ensures
        lane.min_value(true) == -pow2((lane.bits() - 1) as nat),
        lane.max_value(true) == pow2((lane.bits() - 1) as nat) - 1,
        lane.min_value(false) == 0,
        lane.max_value(false) == pow2(lane.bits() as nat) - 1,
{
    lemma2_to64();
    lemma2_to64_rest();
    lemma_pow2_adds(64, 64);
    lemma_pow2_unfold(128);
}

/// The number of lanes: doubling and halving do what they say, up to 256 lanes and down to two.
pub proof fn law_lane_counts(lanes: Lanes)
    ensures
        lanes.count() == 2 || lanes.count() == 4 || lanes.count() == 8 || lanes.count() == 16
            || lanes.count() == 32 || lanes.count() == 64 || lanes.count() == 128 || lanes.count()
            == 256,
        lanes.doubled() matches Some(more) ==> more.count() == 2 * lanes.count(),
        lanes.doubled() is None <==> lanes.count() == 256,
        lanes.halved() matches Some(fewer) ==> 2 * fewer.count() == lanes.count(),
        lanes.halved() is None <==> lanes.count() == 2,
        lanes is X2 ==> lanes.count() == 2,
        lanes is X4 ==> lanes.count() == 4,
        lanes is X8 ==> lanes.count() == 8,
        lanes is X16 ==> lanes.count() == 16,
{
}

/// A type with its lanes: a vector has as many as it says, of the lane type that it says; a scalar
/// is its own lane type, and has one.
pub proof fn law_type_lanes(lane: LaneType, lanes: Lanes)
    ensures
        Type::Vector(lane, lanes).lane_type() == Type::Lane(lane),
        Type::Vector(lane, lanes).lane_count() == lanes.count(),
        Type::Lane(lane).lane_type() == Type::Lane(lane),
        Type::Lane(lane).lane_count() == 1,
        Type::Dynamic(lane, lanes).lane_type() == Type::Lane(lane),
        Type::Dynamic(lane, lanes).lane_count() == 0,
        Type::Special.lane_type() == Type::Special,
        Type::Special.lane_count() == 1,
        Type::Vector(lane, lanes).is_vector(),
        !Type::Lane(lane).is_vector(),
        !Type::Dynamic(lane, lanes).is_vector(),
        !Type::Special.is_vector(),
        8 * Type::Lane(lane).bytes() == lane.bits(),
        8 * Type::Vector(lane, lanes).bytes() == lane.bits() * lanes.count(),
        Type::Lane(lane).is_int() == lane.spec_is_int(),
        Type::Lane(lane).is_float() == (lane is F32 || lane is F64),
        !Type::Vector(lane, lanes).is_int(),
        !Type::Vector(lane, lanes).is_float(),
        Type::Vector(lane, lanes).lane_bits() == lane.bits(),
        Type::Lane(lane).lane_bits() == lane.bits(),
{
    let bits = lane.bits() as int;
    let count = lanes.count() as int;
    assert(bits % 8 == 0);
    let q = bits / 8;
    assert(bits * count == 8 * (q * count)) by (nonlinear_arith)
        requires
            bits == 8 * q,
    ;
    assert((8 * (q * count)) / 8 == q * count);
    assert(q * count <= 16 * 256) by (nonlinear_arith)
        requires
            0 <= q <= 16,
            0 <= count <= 256,
    ;
    assert(q * count >= 0) by (nonlinear_arith)
        requires
            0 <= q,
            0 <= count,
    ;
}

/// How types change: the integer form keeps the number of lanes and their size; a comparison of
/// vectors has such truth values, one of scalars `i8`; the double width keeps the number of lanes;
/// splitting doubles the number of lanes and halves their size, and merging undoes that.
pub proof fn law_type_changes(ty: Type)
    requires
        ty is Lane || ty is Vector,
    ensures
        ty.int_lanes() matches Some(t) ==> t.lane_count() == ty.lane_count() && t.lane_bits()
            == ty.lane_bits() && t.lane_type().is_int() && (t is Vector <==> ty is Vector),
        ty.truthy() matches Some(t) ==> if ty is Vector {
            t is Vector && t.lane_count() == ty.lane_count() && t.lane_bits() == ty.lane_bits()
                && t.lane_type().is_int()
        } else {
            t == Type::Lane(LaneType::I8)
        },
        ty.double_width() matches Some(t) ==> t.lane_count() == ty.lane_count() && t.lane_bits() == 2
            * ty.lane_bits() && t.lane_type().is_int() == ty.lane_type().is_int() && (t is Vector
            <==> ty is Vector),
        ty.split_lanes() matches Some(t) ==> t is Vector && t.lane_count() == 2 * ty.lane_count()
            && 2 * t.lane_bits() == ty.lane_bits() && t.lane_type().is_int()
            == ty.lane_type().is_int(),
        ty.merge_lanes() matches Some(t) ==> 2 * t.lane_count() == ty.lane_count() && t.lane_bits()
            == 2 * ty.lane_bits() && t.lane_type().is_int() == ty.lane_type().is_int(),
        ty.int_lane() matches Some(lane) ==> lane.spec_is_int() && Type::Lane(lane)
            == ty.lane_type(),
        ty.int_lane() is Some <==> ty.lane_type().is_int(),
        ty is Vector && ty.lane_type().is_int() && ty.lane_bits() < 128 ==> ty.merge_lanes() is Some,
        ty.lane_type().is_int() && ty.lane_bits() > 8 && ty.lane_count() < 256
            ==> ty.split_lanes() is Some,
        ty.lane_type().is_int() && ty.lane_bits() < 128 ==> ty.double_width() is Some,
        ty.lane_type().is_int() || ty.lane_type().is_float() ==> ty.int_lanes() is Some
            && ty.truthy() is Some,
        ty.lane_type() == Type::Lane(LaneType::F32) ==> ty.double_width() is Some && (ty is Vector
            ==> ty.merge_lanes() is Some),
        ty.lane_type() == Type::Lane(LaneType::F64) && ty.lane_count() < 256
            ==> ty.split_lanes() is Some,
        ty.lane_type().is_float() ==> {
            &&& ty.double_width() matches Some(t) ==> t.lane_type().is_float()
            &&& ty.split_lanes() matches Some(t) ==> t.lane_type().is_float()
            &&& ty.merge_lanes() matches Some(t) ==> t.lane_type().is_float()
        },
{
}

/// The content of a control flow is what it holds.
pub proof fn law_flow_content<'a, V>(flow: ControlFlow<'a, V>)
    ensures
        match flow {
            ControlFlow::Assign(values) => flow@ == Flow::Assign(values@),
            ControlFlow::Continue => flow@ == Flow::<V>::Continue,
            ControlFlow::ContinueAt(block, values) => flow@ == Flow::ContinueAt(block, values@),
            ControlFlow::Call(func, values) => flow@ == Flow::Call(*func, values@),
            ControlFlow::ReturnCall(func, values) => flow@ == Flow::ReturnCall(*func, values@),
            ControlFlow::Return(values) => flow@ == Flow::Return(values@),
            ControlFlow::Trap(trap) => flow@ == Flow::<V>::Trap(trap),
        },
{
}

/// The content of an action is what it holds, and an error stays the error that it is.
pub proof fn law_action_content<'a, V>(action: Action<'a, V>, e: StepError)
    ensures
        match action {
            Action::Flow(flow) => action@ == Effect::Flow(flow@),
            Action::Store { addr, value, flags, done } => action@ == (Effect::Store {
                addr,
                value,
                flags,
                done: done@,
            }),
            Action::SetPinnedReg { value } => action@ == (Effect::SetPinnedReg { value }),
            Action::LibCall { libcall, args, ret_params } => action@ == (Effect::LibCall {
                libcall,
                args: args@,
                ret_params: ret_params@,
            }),
        },
        eval_action(Ok::<Action<'a, V>, StepError>(action)) == Eval::<Effect<V>, StepError>::Value(
            action@,
        ),
        eval_action(Err::<Action<'a, V>, StepError>(e)) == Eval::<Effect<V>, StepError>::Error(e),
{
}

/// The content of an immediate is the immediate.
pub proof fn law_immediate_content(a: i8, b: i32, c: i64, d: u32, e: u64, f: [u8; 16], g: [u8; 8])
    ensures
        DataValue::I8(a)@ == Datum::I8(a),
        DataValue::I32(b)@ == Datum::I32(b),
        DataValue::I64(c)@ == Datum::I64(c),
        DataValue::U64(e)@ == Datum::U64(e),
        DataValue::F32(d)@ == Datum::F32(d),
        DataValue::F64(e)@ == Datum::F64(e),
        DataValue::V128(f)@ == Datum::V128(f@),
        DataValue::V64(g)@ == Datum::V64(g@),
{
}

/// A result is evaluated to what it is.
pub proof fn law_eval<T, E>(t: T, e: E)
    ensures
        eval(Ok::<T, E>(t)) == Eval::<T, E>::Value(t),
        eval(Err::<T, E>(e)) == Eval::<T, E>::Error(e),
{
}

/// A result that holds a list or bytes is evaluated to what it is.
pub proof fn law_eval_list<T, E>(
    values: Vec<T>,
    e: E,
    bytes: [u8; 16],
    f: ValueError,
    code: TrapCode,
    data: DataValue,
    g: MemoryError,
)
    ensures
        eval_list(Ok::<Vec<T>, E>(values)) == Eval::<Seq<T>, E>::Value(values@),
        eval_list(Err::<Vec<T>, E>(e)) == Eval::<Seq<T>, E>::Error(e),
        bytes_of(Ok(bytes)) == Ok::<Seq<u8>, ValueError>(bytes@),
        bytes_of(Err(f)) == Err::<Seq<u8>, ValueError>(f),
        reply_of(Ok::<Vec<T>, TrapCode>(values)) == Ok::<Seq<T>, TrapCode>(values@),
        reply_of(Err::<Vec<T>, TrapCode>(code)) == Err::<Seq<T>, TrapCode>(code),
        data_of(Ok(data)) == Ok::<Datum, MemoryError>(data@),
        data_of(Err(g)) == Err::<Datum, MemoryError>(g),
{
}

/// Computations in sequence give their results in order, or the first error.
pub proof fn law_sequence<T, E>(s: Seq<Eval<T, E>>, values: Seq<T>, k: int, e: E)
    ensures
        s.len() == values.len() && (forall|i: int|
            0 <= i < s.len() ==> (#[trigger] s[i]) == Eval::<T, E>::Value(values[i])) ==> sequence(s)
            == Eval::<Seq<T>, E>::Value(values),
        0 <= k < s.len() && (forall|i: int| 0 <= i < k ==> (#[trigger] s[i]) is Value) && s[k]
            == Eval::<T, E>::Error(e) ==> sequence(s) == Eval::<Seq<T>, E>::Error(e),
{
    if s.len() == values.len() && (forall|i: int|
        0 <= i < s.len() ==> (#[trigger] s[i]) == Eval::<T, E>::Value(values[i])) {
        lemma_sequence_of_values(s, values);
    }
    if 0 <= k < s.len() && (forall|i: int| 0 <= i < k ==> (#[trigger] s[i]) is Value) && s[k]
        == Eval::<T, E>::Error(e) {
        crate::eval::lemma_sequence_of_error(s, k, e);
    }
}

} // verus!
