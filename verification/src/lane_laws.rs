//! What holds of lanes, vectors and conversions, whatever the values are.
use crate::arith::{fixed_point_product, pair_results, product_fits, shorter, LaneZip};
use crate::convert::widened_part;
use crate::eval::{lemma_sequence_value, sequence, Eval};
use crate::ir::Opcode;
use crate::types::{LaneType, Type};
use crate::value::{BinaryOp, Value, ValueError};
use crate::vector::{low_bits, shuffled, swizzled};
use vstd::arithmetic::power2::*;
use vstd::prelude::*;

verus! {

/// An operation lane by lane gives one lane for each pair of corresponding lanes, and each of them
/// depends on that pair alone.
pub proof fn law_lane_by_lane<V: Value>(zip: LaneZip<V>, xs: Seq<V>, ys: Seq<V>, zs: Seq<V>)
    requires
        sequence(zip.results(xs, ys)) == Eval::<Seq<V>, ValueError>::Value(zs),
    ensures
        zs.len() == shorter(xs.len(), ys.len()),
        forall|i: int|
            0 <= i < zs.len() ==> zip.result(xs[i], ys[i]) == Eval::<V, ValueError>::Value(
                #[trigger] zs[i],
            ),
{
    lemma_sequence_value(zip.results(xs, ys));
}

/// Pairwise arithmetic combines adjacent lanes: the first half of the result comes from the first
/// operand, the second half from the second one.
pub proof fn law_pairwise<V: Value>(xs: Seq<V>, ys: Seq<V>, op: BinaryOp, zs: Seq<V>)
    requires
        sequence(pair_results(xs, op) + pair_results(ys, op)) == Eval::<
            Seq<V>,
            ValueError,
        >::Value(zs),
    ensures
        2 * zs.len() == xs.len() + ys.len(),
        forall|i: int|
            0 <= i < xs.len() / 2 ==> op.result(xs[2 * i], xs[2 * i + 1]) == Ok::<V, ValueError>(
                #[trigger] zs[i],
            ),
        forall|i: int|
            xs.len() / 2 <= i < zs.len() ==> op.result(
                ys[2 * (i - xs.len() / 2)],
                ys[2 * (i - xs.len() / 2) + 1],
            ) == Ok::<V, ValueError>(#[trigger] zs[i]),
{
    let first = pair_results(xs, op);
    let second = pair_results(ys, op);
    let all = first + second;
    lemma_sequence_value(all);
    if xs.len() % 2 == 1 {
        assert(all[first.len() - 1] is Undefined);
    }
    if ys.len() % 2 == 1 {
        assert(all[all.len() - 1] == second[second.len() - 1]);
        assert(all[all.len() - 1] is Undefined);
    }
    assert(first.len() == xs.len() / 2);
    assert forall|i: int| 0 <= i < xs.len() / 2 implies op.result(xs[2 * i], xs[2 * i + 1]) == Ok::<
        V,
        ValueError,
    >(#[trigger] zs[i]) by {
        assert(all[i] == first[i]);
    }
    assert forall|i: int| xs.len() / 2 <= i < zs.len() implies op.result(
        ys[2 * (i - xs.len() / 2)],
        ys[2 * (i - xs.len() / 2) + 1],
    ) == Ok::<V, ValueError>(#[trigger] zs[i]) by {
        assert(all[i] == second[i - first.len()]);
    }
}

/// A mask that counts up selects the first operand of a shuffle, one that counts up from sixteen
/// selects the second one, and one that points behind both gives zeros.
pub proof fn law_shuffle(mask: Seq<u8>, a: Seq<u8>, b: Seq<u8>)
    requires
        mask.len() == 16,
        a.len() == 16,
        b.len() == 16,
    ensures
        (forall|i: int| 0 <= i < 16 ==> #[trigger] mask[i] == i) ==> shuffled(mask, a, b) == a,
        (forall|i: int| 0 <= i < 16 ==> #[trigger] mask[i] == 16 + i) ==> shuffled(mask, a, b) == b,
        (forall|i: int| 0 <= i < 16 ==> #[trigger] mask[i] >= 32) ==> shuffled(mask, a, b) == Seq::new(
            16,
            |i: int| 0u8,
        ),
{
    if forall|i: int| 0 <= i < 16 ==> #[trigger] mask[i] == i {
        assert(shuffled(mask, a, b) =~= a);
    }
    if forall|i: int| 0 <= i < 16 ==> #[trigger] mask[i] == 16 + i {
        assert(shuffled(mask, a, b) =~= b);
    }
}

/// Swizzling is shuffling with zeros as the second operand.
pub proof fn law_swizzle(x: Seq<u8>, s: Seq<u8>)
    requires
        x.len() == 16,
        s.len() == 16,
    ensures
        swizzled(x, s) == shuffled(s, x, Seq::new(16, |i: int| 0u8)),
{
    assert(swizzled(x, s) =~= shuffled(s, x, Seq::new(16, |i: int| 0u8)));
}

/// The low and the high part of a widening are all lanes, in order.
pub proof fn law_widened_parts<V>(xs: Seq<V>, count: int)
    requires
        0 <= count,
    ensures
        widened_part(Opcode::SwidenLow, xs, count) + widened_part(Opcode::SwidenHigh, xs, count)
            == xs,
        widened_part(Opcode::UwidenLow, xs, count) + widened_part(Opcode::UwidenHigh, xs, count)
            == xs,
{
    assert(widened_part(Opcode::SwidenLow, xs, count) + widened_part(
        Opcode::SwidenHigh,
        xs,
        count,
    ) =~= xs);
}

/// Bit `i` of the collected bits is the low bit of the `i`-th number, and there are no other bits.
pub proof fn law_low_bits(ns: Seq<i128>)
    ensures
        0 <= low_bits(ns) < pow2(ns.len()),
        forall|i: int|
            0 <= i < ns.len() ==> (low_bits(ns) / pow2(i as nat) as int) % 2 == (#[trigger] ns[i])
                & 1,
    decreases ns.len(),
{
    lemma2_to64();
    if ns.len() > 0 {
        let rest = ns.drop_last();
        let last = ns.last();
        let low = low_bits(rest);
        let bit = last & 1;
        let top = pow2(rest.len()) as int;
        law_low_bits(rest);
        assert(bit == 0 || bit == 1) by (bit_vector)
            requires
                bit == last & 1,
        ;
        lemma_pow2_unfold(ns.len());
        lemma_pow2_pos(rest.len());
        assert(low_bits(ns) == low + bit * top);
        assert(0 <= low + bit * top < 2 * top) by (nonlinear_arith)
            requires
                0 <= low < top,
                bit == 0 || bit == 1,
        ;
        assert forall|i: int| 0 <= i < ns.len() implies (low_bits(ns) / pow2(i as nat) as int) % 2
            == (#[trigger] ns[i]) & 1 by {
            let p = pow2(i as nat) as int;
            lemma_pow2_pos(i as nat);
            if i == rest.len() {
                assert((low + bit * top) / top == bit) by (nonlinear_arith)
                    requires
                        0 <= low < top,
                ;
            } else {
                let q = pow2((rest.len() - 1 - i) as nat) as int;
                assert(rest[i] == ns[i]);
                lemma_pow2_adds((i + 1) as nat, (rest.len() - 1 - i) as nat);
                lemma_pow2_unfold((i + 1) as nat);
                assert(top == 2 * p * q);
                assert((low + bit * top) / p == low / p + 2 * (bit * q)) by (nonlinear_arith)
                    requires
                        top == 2 * p * q,
                        p > 0,
                ;
            }
        }
    }
}

/// Splitting the lanes of a type and merging them again gives the type back, and keeps its size.
pub proof fn law_split_merge(ty: Type)
    ensures
        ty.split_lanes() matches Some(split) ==> split.merge_lanes() == Some(ty) && split.bytes()
            == ty.bytes(),
{
    if ty.split_lanes() is Some {
        let split = ty.split_lanes()->0;
        let bits = split.lane_bits();
        let count = ty.lane_count();
        assert(ty.lane_bits() == 2 * bits && split.lane_count() == 2 * count);
        assert(bits * (2 * count) == (2 * bits) * count) by (nonlinear_arith);
    }
}

/// The product of two fixed point numbers never overflows on its way, and needs to be saturated
/// only at the upper end.
pub proof fn law_fixed_point_product(x: int, y: int, lane: LaneType)
    requires
        lane is I8 || lane is I16 || lane is I32 || lane is I64,
        lane.min_value(true) <= x <= lane.max_value(true),
        lane.min_value(true) <= y <= lane.max_value(true),
    ensures
        product_fits(x, y, lane.bits() as nat),
        lane.min_value(true) <= fixed_point_product(x, y, lane.bits() as nat)
            <= lane.max_value(true) + 1,
{
    let bits = lane.bits() as nat;
    let one = pow2((bits - 1) as nat) as int;
    let half = pow2((bits - 2) as nat) as int;
    lemma2_to64();
    lemma2_to64_rest();
    assert(one == lane.max_value(true) + 1 && one == -lane.min_value(true) && one == 2 * half);
    assert(-(one * one) <= x * y <= one * one) by (nonlinear_arith)
        requires
            -one <= x < one,
            -one <= y < one,
    ;
    assert(one * one <= 0x8000_0000_0000_0000 * 0x8000_0000_0000_0000) by (nonlinear_arith)
        requires
            0 < one <= 0x8000_0000_0000_0000,
    ;
    assert(-one <= (x * y + half) / one <= one) by (nonlinear_arith)
        requires
            -(one * one) <= x * y <= one * one,
            one == 2 * half,
            half > 0,
    ;
}

} // verus!
