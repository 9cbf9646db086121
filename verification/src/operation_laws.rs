//! What holds of arithmetic lane by lane, whatever the operation on lanes is.
use crate::arith::{binary_results, operand, shorter};
use crate::bytes::{lane_bytes, le_value, lemma_le_value_bound};
use crate::eval::{eval, lemma_sequence_value, sequence, Eval};
use crate::lanes::{lane_width, lanes_from_bytes, lanes_of, vector_of};
use crate::lanewise::{
    binary_gives, binary_may_be, fold_may_be, folded_may_be, lanes_give, may_give, pair_count,
    pairwise_gives, unary_gives, unary_may_be,
};
use crate::round_trip_laws::{
    keeps_bits, keeps_bytes, lane_with_bits, law_lanes_round_trip, law_vector_round_trip,
    made_of_bits, zero_from,
};
use crate::types::Type;
use crate::value::{BinaryOp, Value, ValueConversionKind, ValueError, ValueResult};
use vstd::arithmetic::power::*;
use vstd::prelude::*;

verus! {

/// On a scalar, an operation lane by lane is the operation itself, whatever the type of the vector
/// would be.
pub proof fn law_scalar_unary_operation<V: Value, F: Fn(V) -> ValueResult<V>>(
    x: V,
    ty: Type,
    op: F,
    v: ValueResult<V>,
)
    requires
        !x.spec_ty().is_vector(),
        unary_may_be(x, ty, op, false, v),
    ensures
        call_ensures(op, (x,), v),
{
    let gives = unary_gives(op, seq![x], false);
    let outcome = choose|outcome: ValueResult<Seq<V>>| #[trigger]
        may_give(gives, 1, outcome) && match outcome {
            Ok(zs) => eval(v) == vector_of(zs, ty),
            Err(e) => v == Err::<V, ValueError>(e),
        };
    match outcome {
        Ok(zs) => {
            assert(gives(0, Ok(zs[0])));
        },
        Err(e) => {
            assert(gives(0, Err(e)));
        },
    }
}

/// On two scalars, an operation lane by lane is the operation itself, whatever the type of the
/// vectors would be.
pub proof fn law_scalar_binary_operation<V: Value, F: Fn(V, V) -> ValueResult<V>>(
    x: V,
    y: V,
    ty: Type,
    op: F,
    v: ValueResult<V>,
)
    requires
        !x.spec_ty().is_vector(),
        !y.spec_ty().is_vector(),
        binary_may_be(x, y, ty, op, false, v),
    ensures
        call_ensures(op, (x, y), v),
{
    let gives = binary_gives(op, seq![x], seq![y], false);
    let outcome = choose|outcome: ValueResult<Seq<V>>| #[trigger]
        may_give(gives, 1, outcome) && match outcome {
            Ok(zs) => eval(v) == vector_of(zs, ty),
            Err(e) => v == Err::<V, ValueError>(e),
        };
    match outcome {
        Ok(zs) => {
            assert(gives(0, Ok(zs[0])));
        },
        Err(e) => {
            assert(gives(0, Err(e)));
        },
    }
}

/// Folding a scalar applies the operation once.
pub proof fn law_scalar_fold<V: Value, F: FnMut(V, V) -> ValueResult<V>>(
    x: V,
    ty: Type,
    init: V,
    op: F,
    r: ValueResult<V>,
)
    requires
        !x.spec_ty().is_vector(),
        folded_may_be(x, ty, init, op, r),
    ensures
        call_ensures(op, (init, x), r),
{
    reveal_with_fuel(fold_may_be, 2);
    assert(seq![x].first() == x);
    assert(seq![x].drop_first() =~= Seq::empty());
}

/// An operation that instructions name gives one lane for each pair of corresponding lanes, and each
/// of them depends on that pair alone.
pub proof fn law_binary_lane_by_lane<V: Value>(
    xs: Seq<V>,
    ys: Seq<V>,
    op: BinaryOp,
    unsigned: bool,
    zs: Seq<V>,
)
    requires
        sequence(binary_results(xs, ys, op, unsigned)) == Eval::<Seq<V>, ValueError>::Value(zs),
    ensures
        zs.len() == shorter(xs.len(), ys.len()),
        forall|i: int|
            0 <= i < zs.len() ==> operand(xs[i], unsigned).bind(
                |l: V| operand(ys[i], unsigned).bind(|r: V| eval(op.result(l, r))),
            ) == Eval::<V, ValueError>::Value(#[trigger] zs[i]),
{
    lemma_sequence_value(binary_results(xs, ys, op, unsigned));
}

/// Pairwise arithmetic combines adjacent lanes: the first half of the result comes from the first
/// operand, the second half from the second one.
pub proof fn law_pairwise_operation<V: Value, F: Fn(V, V) -> ValueResult<V>>(
    xs: Seq<V>,
    ys: Seq<V>,
    op: F,
    zs: Seq<V>,
)
    requires
        may_give(
            pairwise_gives(op, xs, ys),
            pair_count(xs.len()) + pair_count(ys.len()),
            Ok(zs),
        ),
    ensures
        2 * zs.len() == xs.len() + ys.len(),
        forall|i: int|
            0 <= i < xs.len() / 2 ==> call_ensures(
                op,
                (xs[2 * i], xs[2 * i + 1]),
                Ok(#[trigger] zs[i]),
            ),
        forall|i: int|
            xs.len() / 2 <= i < zs.len() ==> call_ensures(
                op,
                (ys[2 * (i - xs.len() / 2)], ys[2 * (i - xs.len() / 2) + 1]),
                Ok(#[trigger] zs[i]),
            ),
{
    let gives = pairwise_gives(op, xs, ys);
    let first = pair_count(xs.len()) as int;
    if first > 0 {
        assert(gives(first - 1, Ok(zs[first - 1])));
    }
    if pair_count(ys.len()) > 0 {
        assert(gives(zs.len() - 1, Ok(zs[zs.len() - 1])));
    }
    assert forall|i: int| 0 <= i < xs.len() / 2 implies call_ensures(
        op,
        (xs[2 * i], xs[2 * i + 1]),
        Ok(#[trigger] zs[i]),
    ) by {
        assert(gives(i, Ok(zs[i])));
    }
    assert forall|i: int| xs.len() / 2 <= i < zs.len() implies call_ensures(
        op,
        (ys[2 * (i - xs.len() / 2)], ys[2 * (i - xs.len() / 2) + 1]),
        Ok(#[trigger] zs[i]),
    ) by {
        assert(gives(i, Ok(zs[i])));
    }
}

/// Whether all that `op` may give for `b` is `a`.
pub open spec fn leads_to<V: Value, F: Fn(V) -> ValueResult<V>>(op: F, b: V, a: V) -> bool {
    forall|r: ValueResult<V>| #[trigger] call_ensures(op, (b,), r) ==> r == Ok::<V, ValueError>(a)
}

/// Whether `op` takes a lane only to such as their own bits make, and each of them back.
pub open spec fn leads_back<V: Value, F: Fn(V) -> ValueResult<V>>(
    op: F,
    a: V,
    lane: Type,
    width: nat,
) -> bool {
    forall|b: V| #[trigger]
        call_ensures(op, (a,), Ok(b)) ==> leads_to(op, b, a) && made_of_bits(b, lane, width)
}

/// An operation that undoes itself, applied twice to a scalar, gives the scalar back.
pub proof fn law_scalar_operation_twice<V: Value, F: Fn(V) -> ValueResult<V>>(
    x: V,
    ty: Type,
    op: F,
    y: V,
    v: ValueResult<V>,
)
    requires
        !x.spec_ty().is_vector(),
        !y.spec_ty().is_vector(),
        forall|b: V| #[trigger] call_ensures(op, (x,), Ok(b)) ==> leads_to(op, b, x),
        unary_may_be(x, ty, op, false, Ok(y)),
        unary_may_be(y, ty, op, false, v),
    ensures
        v == Ok::<V, ValueError>(x),
{
    law_scalar_unary_operation(x, ty, op, Ok(y));
    law_scalar_unary_operation(y, ty, op, v);
}

/// An operation that undoes itself on lanes, applied twice to a vector, gives the vector back, if
/// the lanes keep their bits and the vector is the one that its bytes make.
pub proof fn law_vector_operation_twice<V: Value, F: Fn(V) -> ValueResult<V>>(
    x: V,
    ty: Type,
    width: nat,
    bytes: Seq<u8>,
    op: F,
    y: V,
    v: ValueResult<V>,
)
    requires
        x.spec_ty().is_vector(),
        x.spec_into_array() == Ok::<Seq<u8>, ValueError>(bytes),
        V::spec_vector(bytes, ty) == Ok::<V, ValueError>(x),
        bytes.len() == 16,
        lane_width(ty.lane_type()) == Some(width),
        ty.lane_count() >= 2,
        ty.lane_count() * width <= 16,
        zero_from(bytes, ty.lane_count() * width),
        keeps_bits::<V>(ty.lane_type(), width),
        keeps_bytes::<V>(ty, ty.lane_count() * width),
        forall|n: nat|
            n < pow(256, width) ==> ((#[trigger] lane_with_bits::<V>(n, ty.lane_type())) matches Ok(
                a,
            ) ==> leads_back(op, a, ty.lane_type(), width)),
        unary_may_be(x, ty, op, false, Ok(y)),
        unary_may_be(y, ty, op, false, v),
    ensures
        v == Ok::<V, ValueError>(x),
{
    let lane = ty.lane_type();
    let count = ty.lane_count() as nat;
    let xs = lanes_of(x, ty)->Value_0;
    let there = unary_gives(op, xs, false);
    let out = choose|outcome: ValueResult<Seq<V>>| #[trigger]
        may_give(there, xs.len(), outcome) && match outcome {
            Ok(zs) => Eval::<V, ValueError>::Value(y) == vector_of(zs, ty),
            Err(e) => Ok::<V, ValueError>(y) == Err::<V, ValueError>(e),
        };
    let ys = out->Ok_0;
    let evals = lanes_from_bytes::<V>(bytes, lane, width, count);
    lemma_sequence_value(evals);
    assert forall|i: int| 0 <= i < count implies leads_to(op, #[trigger] ys[i], xs[i])
        && made_of_bits(ys[i], lane, width) by {
        let n = le_value(lane_bytes(bytes, width, i));
        assert(i * width + width <= 16 && 0 <= i * width) by (nonlinear_arith)
            requires
                0 <= i < count,
                count * width <= 16,
        ;
        lemma_le_value_bound(lane_bytes(bytes, width, i));
        assert(evals[i] == Eval::<V, ValueError>::Value(xs[i]));
        assert(lane_with_bits::<V>(n, lane) == Ok::<V, ValueError>(xs[i]));
        assert(there(i, Ok(ys[i])));
    }
    law_lanes_round_trip(ys, ty, width, y);
    let back = unary_gives(op, ys, false);
    let end = choose|outcome: ValueResult<Seq<V>>| #[trigger]
        may_give(back, ys.len(), outcome) && match outcome {
            Ok(zs) => eval(v) == vector_of(zs, ty),
            Err(e) => v == Err::<V, ValueError>(e),
        };
    match end {
        Ok(zs) => {
            assert forall|i: int| 0 <= i < count implies zs[i] == xs[i] by {
                assert(back(i, Ok(zs[i])));
                assert(leads_to(op, ys[i], xs[i]));
            }
            assert(zs =~= xs);
            law_vector_round_trip(x, ty, width, bytes, xs);
        },
        Err(e) => {
            let zs = choose|zs: Seq<V>|
                zs.len() < ys.len() && #[trigger] lanes_give(back, zs) && back(
                    zs.len() as int,
                    Err(e),
                );
            assert(leads_to(op, ys[zs.len() as int], xs[zs.len() as int]));
            assert(call_ensures(op, (ys[zs.len() as int],), Err(e)));
        },
    }
}

/// How an operation reads a lane: as an unsigned integer if `unsigned`, as it is otherwise.
pub open spec fn reads_as<V: Value>(lane: V, unsigned: bool, read: V) -> bool {
    if unsigned {
        lane.spec_convert(ValueConversionKind::ToUnsigned) == Ok::<V, ValueError>(read)
    } else {
        read == lane
    }
}

/// An operation on one operand that succeeds has given a result for each lane, as it reads them, and
/// the results make the value in order.
pub proof fn law_unary_operation<V: Value, F: Fn(V) -> ValueResult<V>>(
    x: V,
    ty: Type,
    op: F,
    unsigned: bool,
    xs: Seq<V>,
    reads: Seq<V>,
    v: V,
)
    requires
        lanes_of(x, ty) == Eval::<Seq<V>, ValueError>::Value(xs),
        reads.len() == xs.len(),
        forall|i: int| 0 <= i < xs.len() ==> reads_as(#[trigger] xs[i], unsigned, reads[i]),
        unary_may_be(x, ty, op, unsigned, Ok(v)),
    ensures
        exists|zs: Seq<V>|
            #![trigger vector_of(zs, ty)]
            zs.len() == xs.len() && vector_of(zs, ty) == Eval::<V, ValueError>::Value(v) && (forall|
                i: int,
            |
                0 <= i < zs.len() ==> call_ensures(op, (reads[i],), Ok(#[trigger] zs[i]))),
{
    let gives = unary_gives(op, xs, unsigned);
    let outcome = choose|outcome: ValueResult<Seq<V>>| #[trigger]
        may_give(gives, xs.len(), outcome) && match outcome {
            Ok(zs) => Eval::<V, ValueError>::Value(v) == vector_of(zs, ty),
            Err(e) => Ok::<V, ValueError>(v) == Err::<V, ValueError>(e),
        };
    let zs = outcome->Ok_0;
    assert forall|i: int| 0 <= i < zs.len() implies call_ensures(
        op,
        (reads[i],),
        Ok(#[trigger] zs[i]),
    ) by {
        assert(gives(i, Ok(zs[i])));
        assert(reads_as(xs[i], unsigned, reads[i]));
    }
    assert(vector_of(zs, ty) == Eval::<V, ValueError>::Value(v));
}

/// An operation on two operands that succeeds has given a result for each pair of corresponding
/// lanes, as it reads them, and the results make the value in order.
pub proof fn law_binary_operation<V: Value, F: Fn(V, V) -> ValueResult<V>>(
    x: V,
    y: V,
    ty: Type,
    op: F,
    unsigned: bool,
    xs: Seq<V>,
    ys: Seq<V>,
    lefts: Seq<V>,
    rights: Seq<V>,
    n: nat,
    v: V,
)
    requires
        lanes_of(x, ty) == Eval::<Seq<V>, ValueError>::Value(xs),
        lanes_of(y, ty) == Eval::<Seq<V>, ValueError>::Value(ys),
        n <= xs.len() && n <= ys.len() && (n == xs.len() || n == ys.len()),
        lefts.len() == n,
        rights.len() == n,
        forall|i: int|
            0 <= i < n ==> reads_as(#[trigger] xs[i], unsigned, lefts[i]) && reads_as(
                ys[i],
                unsigned,
                rights[i],
            ),
        binary_may_be(x, y, ty, op, unsigned, Ok(v)),
    ensures
        exists|zs: Seq<V>|
            #![trigger vector_of(zs, ty)]
            zs.len() == n && vector_of(zs, ty) == Eval::<V, ValueError>::Value(v) && (forall|i: int|
                0 <= i < zs.len() ==> call_ensures(
                    op,
                    (lefts[i], rights[i]),
                    Ok(#[trigger] zs[i]),
                )),
{
    let gives = binary_gives(op, xs, ys, unsigned);
    let outcome = choose|outcome: ValueResult<Seq<V>>| #[trigger]
        may_give(gives, n, outcome) && match outcome {
            Ok(zs) => Eval::<V, ValueError>::Value(v) == vector_of(zs, ty),
            Err(e) => Ok::<V, ValueError>(v) == Err::<V, ValueError>(e),
        };
    let zs = outcome->Ok_0;
    assert forall|i: int| 0 <= i < zs.len() implies call_ensures(
        op,
        (lefts[i], rights[i]),
        Ok(#[trigger] zs[i]),
    ) by {
        assert(gives(i, Ok(zs[i])));
        assert(reads_as(xs[i], unsigned, lefts[i]));
    }
    assert(vector_of(zs, ty) == Eval::<V, ValueError>::Value(v));
}

/// An operation on one operand that fails has failed on some lane, or in putting the results
/// together; before that lane, each one has given a result.
pub proof fn law_unary_operation_failure<V: Value, F: Fn(V) -> ValueResult<V>>(
    x: V,
    ty: Type,
    op: F,
    xs: Seq<V>,
    e: ValueError,
)
    requires
        lanes_of(x, ty) == Eval::<Seq<V>, ValueError>::Value(xs),
        unary_may_be(x, ty, op, false, Err(e)),
    ensures
        exists|zs: Seq<V>|
            #![trigger zs.len()]
            zs.len() <= xs.len() && (forall|i: int|
                0 <= i < zs.len() ==> call_ensures(op, (xs[i],), Ok(#[trigger] zs[i]))) && if zs.len()
                == xs.len() {
                vector_of(zs, ty) == Eval::<V, ValueError>::Error(e)
            } else {
                call_ensures(op, (xs[zs.len() as int],), Err(e))
            },
{
    let gives = unary_gives(op, xs, false);
    let outcome = choose|outcome: ValueResult<Seq<V>>| #[trigger]
        may_give(gives, xs.len(), outcome) && match outcome {
            Ok(zs) => Eval::<V, ValueError>::Error(e) == vector_of(zs, ty),
            Err(f) => Err::<V, ValueError>(e) == Err::<V, ValueError>(f),
        };
    let zs = match outcome {
        Ok(zs) => zs,
        Err(_) => choose|zs: Seq<V>|
            zs.len() < xs.len() && #[trigger] lanes_give(gives, zs) && gives(
                zs.len() as int,
                Err(e),
            ),
    };
    assert forall|i: int| 0 <= i < zs.len() implies call_ensures(
        op,
        (xs[i],),
        Ok(#[trigger] zs[i]),
    ) by {
        assert(gives(i, Ok(zs[i])));
    }
    assert(zs.len() <= xs.len());
}

/// A fold that succeeds has combined the start with each lane in order.
pub proof fn law_fold<V: Value, F: FnMut(V, V) -> ValueResult<V>>(
    lanes: Seq<V>,
    init: V,
    op: F,
    v: V,
)
    requires
        fold_may_be(lanes, init, op, Ok(v)),
    ensures
        exists|accs: Seq<V>|
            #![trigger accs.len()]
            accs.len() == lanes.len() + 1 && accs[0] == init && accs[lanes.len() as int] == v && (
            forall|i: int|
                0 <= i < lanes.len() ==> call_ensures(
                    op,
                    (#[trigger] accs[i], lanes[i]),
                    Ok(accs[i + 1]),
                )),
    decreases lanes.len(),
{
    if lanes.len() == 0 {
        assert(seq![init].len() == 1);
        assert(seq![init][0] == init);
    } else {
        let rest = lanes.drop_first();
        let acc = choose|acc: V| #[trigger]
            call_ensures(op, (init, lanes.first()), Ok(acc)) && fold_may_be(rest, acc, op, Ok(v));
        law_fold(rest, acc, op, v);
        let later = choose|accs: Seq<V>|
            #![trigger accs.len()]
            accs.len() == rest.len() + 1 && accs[0] == acc && accs[rest.len() as int] == v && (
            forall|i: int|
                0 <= i < rest.len() ==> call_ensures(
                    op,
                    (#[trigger] accs[i], rest[i]),
                    Ok(accs[i + 1]),
                ));
        let accs = seq![init] + later;
        assert forall|i: int| 0 <= i < lanes.len() implies call_ensures(
            op,
            (#[trigger] accs[i], lanes[i]),
            Ok(accs[i + 1]),
        ) by {
            if i > 0 {
                assert(accs[i] == later[i - 1]);
                assert(accs[i + 1] == later[i - 1 + 1]);
                assert(lanes[i] == rest[i - 1]);
            }
        }
        assert(accs.len() == lanes.len() + 1);
    }
}

} // verus!
