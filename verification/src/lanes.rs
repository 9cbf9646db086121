//! SIMD vectors as lists of lanes.
//!
//! A scalar counts as a single lane, so that each operation here serves scalars and vectors alike.
use crate::bytes::{lane_bytes, le_value, pack, read_lane, write_lane};
use crate::eval::{eval, eval_list, lemma_sequence_step, lemma_sequence_stop, sequence, Eval};
use crate::types::{LaneType, Type};
use crate::value::{Value, ValueConversionKind, ValueError, ValueResult};
use vstd::prelude::*;

verus! {

/// The number of bytes of a lane of type `lane`; wider lanes than eight bytes are not supported.
pub open spec fn lane_width(lane: Type) -> Option<nat> {
    match lane {
        Type::Lane(LaneType::I8) => Some(1),
        Type::Lane(LaneType::I16) => Some(2),
        Type::Lane(LaneType::I32) | Type::Lane(LaneType::F32) => Some(4),
        Type::Lane(LaneType::I64) | Type::Lane(LaneType::F64) => Some(8),
        _ => None,
    }
}

fn lane_size(lane: Type) -> (size: usize)
    requires
        lane_width(lane) is Some,
    ensures
        Some(size as nat) == lane_width(lane),
        1 <= size <= 8,
{
    match lane {
        Type::Lane(LaneType::I8) => 1,
        Type::Lane(LaneType::I16) => 2,
        Type::Lane(LaneType::I32) | Type::Lane(LaneType::F32) => 4,
        Type::Lane(LaneType::I64) | Type::Lane(LaneType::F64) => 8,
        _ => vstd::pervasive::unreached(),
    }
}

/// Lane `i` in the bytes of a vector, as a value of type `lane`.
pub open spec fn lane_from_bytes<V: Value>(bytes: Seq<u8>, lane: Type, width: nat, i: int) -> Eval<
    V,
    ValueError,
> {
    let n = le_value(lane_bytes(bytes, width, i));
    if i * width + width > 16 {
        Eval::Undefined
    } else if lane.is_float() {
        eval(V::spec_float(n as u64, lane))
    } else {
        eval(V::spec_integer(n as int, lane))
    }
}

/// The first `count` lanes in the bytes of a vector.
pub open spec fn lanes_from_bytes<V: Value>(
    bytes: Seq<u8>,
    lane: Type,
    width: nat,
    count: nat,
) -> Seq<Eval<V, ValueError>> {
    Seq::new(count, |i: int| lane_from_bytes(bytes, lane, width, i))
}

/// The lanes of `x`, read as a vector of type `ty`. A scalar is its own single lane.
pub open spec fn lanes_of<V: Value>(x: V, ty: Type) -> Eval<Seq<V>, ValueError> {
    if !x.spec_ty().is_vector() {
        Eval::Value(seq![x])
    } else {
        match lane_width(ty.lane_type()) {
            Some(width) => eval(x.spec_into_array()).bind(
                |bytes: Seq<u8>|
                    sequence(
                        lanes_from_bytes(bytes, ty.lane_type(), width, ty.lane_count() as nat),
                    ),
            ),
            None => Eval::Undefined,
        }
    }
}

/// Converts a SIMD vector value into a list of [Value]s for processing. If `x` is a scalar, it
/// will be returned as a single-element list.
pub fn extractlanes<V: Value>(x: &V, vector_type: Type) -> (lanes: ValueResult<Vec<V>>)
    requires
        lanes_of(*x, vector_type).defined(),
    ensures
        eval_list(lanes) == lanes_of(*x, vector_type),
{
    let lane_type: Type = vector_type.lane_type();
    let mut lanes: Vec<V> = Vec::new();
    // Wrap scalar values as a single-element vector and return.
    if !x.ty().is_vector() {
        lanes.push(x.duplicate());
        assert(lanes@ =~= seq![*x]);
        return Ok(lanes);
    }
    let width: usize = lane_size(lane_type);
    let bytes = x.into_array()?;
    let count: u32 = vector_type.lane_count();
    let ghost evals = lanes_from_bytes::<V>(bytes@, lane_type, width as nat, count as nat);
    assert(lanes_of(*x, vector_type) == sequence(evals));
    let mut i: u32 = 0;
    assert(evals.take(0) =~= Seq::empty());
    while i < count
        invariant
            i <= count,
            count <= 256,
            1 <= width <= 8,
            Some(width as nat) == lane_width(lane_type),
            evals == lanes_from_bytes::<V>(bytes@, lane_type, width as nat, count as nat),
            lanes_of(*x, vector_type) == sequence(evals),
            sequence(evals) is Undefined ==> false,
            sequence(evals.take(i as int)) == Eval::<Seq<V>, ValueError>::Value(lanes@),
        decreases count - i,
    {
        proof {
            lemma_sequence_step(evals, i as int);
            if evals[i as int] is Undefined {
                lemma_sequence_stop(evals, i as int);
            }
            assert(i * width <= 256 * 8) by (nonlinear_arith)
                requires
                    0 <= i <= 256,
                    0 <= width <= 8,
            ;
        }
        let n: u64 = read_lane(&bytes, i as usize * width, width);
        let lane: ValueResult<V> = if lane_type.is_float() {
            V::float(n, lane_type)
        } else {
            V::integer(n as i128, lane_type)
        };
        match lane {
            Ok(v) => {
                lanes.push(v);
            },
            Err(e) => {
                proof {
                    lemma_sequence_stop(evals, i as int);
                }
                return Err(e);
            },
        }
        i = i + 1;
    }
    assert(evals.take(count as int) =~= evals);
    Ok(lanes)
}

/// The bits of lane `i`, on its way into a vector of lanes of type `lane`.
pub open spec fn lane_to_int<V: Value>(x: V, lane: Type, width: nat, i: int) -> Eval<
    i128,
    ValueError,
> {
    eval(x.spec_convert(ValueConversionKind::Exact(lane.int_lanes()->0))).bind(
        |y: V|
            eval(y.spec_into_int()).bind(
                |n: i128|
                    if i * width + width > 16 {
                        Eval::Undefined
                    } else {
                        Eval::Value(n)
                    },
            ),
    )
}

/// The bits of all lanes.
pub open spec fn lanes_to_ints<V: Value>(x: Seq<V>, lane: Type, width: nat) -> Seq<
    Eval<i128, ValueError>,
> {
    Seq::new(x.len(), |i: int| lane_to_int(x[i], lane, width, i))
}

/// The vector of type `ty` with the given lanes.
pub open spec fn vector_of_all<V: Value>(x: Seq<V>, ty: Type) -> Eval<V, ValueError> {
    match lane_width(ty.lane_type()) {
        Some(width) => sequence(lanes_to_ints(x, ty.lane_type(), width)).bind(
            |ints: Seq<i128>| eval(V::spec_vector(pack(ints, width), ty)),
        ),
        None => Eval::Undefined,
    }
}

/// The value of type `ty` with the given lanes: a single lane is a scalar.
pub open spec fn vector_of<V: Value>(x: Seq<V>, ty: Type) -> Eval<V, ValueError> {
    if x.len() == 1 {
        Eval::Value(x[0])
    } else {
        vector_of_all(x, ty)
    }
}

/// Convert a list of [Value]s back into a vector. Supplying a single-element list will simply
/// return its contained value.
pub fn vectorizelanes<V: Value>(x: &Vec<V>, vector_type: Type) -> (v: ValueResult<V>)
    requires
        vector_of(x@, vector_type).defined(),
    ensures
        eval(v) == vector_of(x@, vector_type),
{
    // If the list is only one element, return it as a scalar.
    if x.len() == 1 {
        Ok(x[0].duplicate())
    } else {
        vectorizelanes_all(x, vector_type)
    }
}

/// Convert a list of [Value]s back into a vector.
pub fn vectorizelanes_all<V: Value>(x: &Vec<V>, vector_type: Type) -> (v: ValueResult<V>)
    requires
        vector_of_all(x@, vector_type).defined(),
    ensures
        eval(v) == vector_of_all(x@, vector_type),
{
    let lane_type: Type = vector_type.lane_type();
    let width: usize = lane_size(lane_type);
    let ghost evals = lanes_to_ints(x@, lane_type, width as nat);
    let mut result: [u8; 16] = [0; 16];
    let ghost mut ints: Seq<i128> = Seq::empty();
    let mut i: usize = 0;
    assert(evals.take(0) =~= Seq::empty());
    while i < x.len()
        invariant
            i <= x.len(),
            1 <= width <= 8,
            Some(width as nat) == lane_width(lane_type),
            lane_type == vector_type.lane_type(),
            evals == lanes_to_ints(x@, lane_type, width as nat),
            vector_of_all(x@, vector_type).defined(),
            sequence(evals.take(i as int)) == Eval::<Seq<i128>, ValueError>::Value(ints),
            ints.len() == i,
            result@ =~= pack(ints, width as nat),
        decreases x.len() - i,
    {
        proof {
            lemma_sequence_step(evals, i as int);
            if !(evals[i as int] is Value) {
                lemma_sequence_stop(evals, i as int);
            }
        }
        let y: V = x[i].duplicate().convert(ValueConversionKind::Exact(lane_type.as_int()))?;
        let n: i128 = y.into_int()?;
        let ghost before = result@;
        write_lane(&mut result, i * width, width, n);
        proof {
            let done = ints;
            ints = ints.push(n);
            assert(ints.drop_last() =~= done);
            lemma_pack_push(before, result@, ints, width as nat);
        }
        i = i + 1;
    }
    assert(evals.take(i as int) =~= evals);
    V::vector(result, vector_type)
}

/// Writing one more lane into the bytes.
proof fn lemma_pack_push(before: Seq<u8>, after: Seq<u8>, ints: Seq<i128>, width: nat)
    requires
        width == 1 || width == 2 || width == 4 || width == 8,
        ints.len() > 0,
        ints.len() * width <= 16,
        before == pack(ints.drop_last(), width),
        after.len() == 16,
        forall|k: int|
            0 <= k < 16 ==> #[trigger] after[k] == (if (ints.len() - 1) * width <= k < (ints.len()
                - 1) * width + width {
                crate::bytes::byte_at(ints.last() as int, (k - (ints.len() - 1) * width) as nat)
            } else {
                before[k]
            }),
    ensures
        after == pack(ints, width),
{
    let n = ints.len() - 1;
    let init = ints.drop_last();
    assert forall|k: int| 0 <= k < 16 implies after[k] == pack(ints, width)[k] by {
        let q = k / width as int;
        let r = k % width as int;
        assert(k == q * width + r && 0 <= r < width && q >= 0) by {
            vstd::arithmetic::div_mod::lemma_fundamental_div_mod(k, width as int);
            vstd::arithmetic::mul::lemma_mul_is_commutative(q, width as int);
        }
        assert(init.len() * width == n * width && ints.len() * width == n * width + width)
            by (nonlinear_arith)
            requires
                init.len() == n,
                ints.len() == n + 1,
        ;
        if q < n {
            assert(q * width + r < n * width) by (nonlinear_arith)
                requires
                    q + 1 <= n,
                    r < width,
            ;
            assert(init[q] == ints[q]);
        } else if q == n {
        } else {
            assert(q * width + r >= n * width + width) by (nonlinear_arith)
                requires
                    q >= n + 1,
                    r >= 0,
            ;
        }
    }
    assert(after =~= pack(ints, width));
}

} // verus!
