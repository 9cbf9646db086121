//! What instructions on whole vectors do.
use crate::arith::fold_lanes;
use crate::eval::{lemma_sequence_of_values, Eval};
use crate::flow::{Effect, StepError};
use crate::ir::{Immediate, InstructionData, Opcode};
use crate::lane_laws::law_low_bits;
use crate::lanes::{lane_width, lanes_of, vector_of};
use crate::round_trip_laws::{keeps_bytes, law_lanes_round_trip, made_of_bits};
use crate::state::{InstructionContext, State};
use crate::step::step_effect;
use crate::terms::{
    arg_is, arg_unknown, assigns, comes_to, fails_with, is_instruction, misses, yields,
};
use crate::types::{LaneType, Lanes, Type};
use crate::value::{BinaryOp, Datum, Value, ValueError, ValueResult};
use crate::vector::{low_bits, reversed_bits, shuffled, swizzled};
use vstd::arithmetic::power2::*;
use vstd::prelude::*;

verus! {

/// Whether the immediate of eight bits stands for the lane number `k`: the low 64 bits of its value
/// are `k`.
pub open spec fn names_lane<V: Value>(imm: u8, k: int) -> bool {
    V::spec_from_data(Datum::I8(imm as i8)).spec_into_int() matches Ok(n) && k == n as int
        % 0x1_0000_0000_0000_0000
}

/// Extracting a lane assigns the lane that the immediate names.
pub proof fn law_extractlane<'a, V: Value, S: State<'a, V>, I: InstructionContext>(
    s: S,
    c: I,
    imm: u8,
    ty: Type,
    x: V,
    lanes: Seq<V>,
    k: int,
)
    requires
        c.spec_data() == (InstructionData::BinaryImm8 { opcode: Opcode::Extractlane, imm }),
        c.spec_controlling_type() == Some(ty),
        arg_is::<V, S, I>(s, c, 0, x),
        names_lane::<V>(imm, k),
        lanes_of(x, ty) == Eval::<Seq<V>, ValueError>::Value(lanes),
        k < lanes.len(),
    ensures
        assigns(step_effect::<V, S, I>(s, c), lanes[k]),
{
}

/// Inserting a lane assigns the vector whose lane that the immediate names is the second argument,
/// and whose other lanes are those of the first one.
pub proof fn law_insertlane<'a, V: Value, S: State<'a, V>, I: InstructionContext>(
    s: S,
    c: I,
    imm: u8,
    ty: Type,
    v: V,
    x: V,
    lanes: Seq<V>,
    k: int,
    new: Seq<V>,
)
    requires
        c.spec_data() == (InstructionData::TernaryImm8 { opcode: Opcode::Insertlane, imm }),
        c.spec_controlling_type() == Some(ty),
        arg_is::<V, S, I>(s, c, 0, v),
        arg_is::<V, S, I>(s, c, 1, x),
        names_lane::<V>(imm, k),
        lanes_of(v, ty) == Eval::<Seq<V>, ValueError>::Value(lanes),
        k < lanes.len(),
        new.len() == lanes.len(),
        new[k] == x,
        forall|j: int| 0 <= j < lanes.len() && j != k ==> #[trigger] new[j] == lanes[j],
    ensures
        comes_to(step_effect::<V, S, I>(s, c), vector_of(new, ty)),
{
    assert(lanes.update(k, x) =~= new);
}

/// Extracting from the vector that an insertion has given: the inserted value where both name the
/// same lane, and otherwise the lane that was there before. The lanes have to keep their bits.
pub proof fn law_extract_inserted<'a, V: Value, S: State<'a, V>, I: InstructionContext>(
    s: S,
    insert: I,
    later: S,
    extract: I,
    imm: u8,
    other: u8,
    ty: Type,
    width: nat,
    v: V,
    x: V,
    lanes: Seq<V>,
    k: int,
    j: int,
    new: V,
)
    requires
        insert.spec_data() == (InstructionData::TernaryImm8 { opcode: Opcode::Insertlane, imm }),
        insert.spec_controlling_type() == Some(ty),
        arg_is::<V, S, I>(s, insert, 0, v),
        arg_is::<V, S, I>(s, insert, 1, x),
        names_lane::<V>(imm, k),
        extract.spec_data() == (InstructionData::BinaryImm8 {
            opcode: Opcode::Extractlane,
            imm: other,
        }),
        extract.spec_controlling_type() == Some(ty),
        arg_is::<V, S, I>(later, extract, 0, new),
        names_lane::<V>(other, j),
        lanes_of(v, ty) == Eval::<Seq<V>, ValueError>::Value(lanes),
        lanes.len() == ty.lane_count(),
        lanes.len() >= 2,
        k < lanes.len(),
        j < lanes.len(),
        lane_width(ty.lane_type()) == Some(width),
        forall|i: int|
            0 <= i < lanes.len() ==> made_of_bits(#[trigger] lanes[i], ty.lane_type(), width),
        made_of_bits(x, ty.lane_type(), width),
        keeps_bytes::<V>(ty, ty.lane_count() * width),
        assigns(step_effect::<V, S, I>(s, insert), new),
    ensures
        assigns(
            step_effect::<V, S, I>(later, extract),
            if j == k {
                x
            } else {
                lanes[j]
            },
        ),
{
    let all = lanes.update(k, x);
    law_insertlane::<V, S, I>(s, insert, imm, ty, v, x, lanes, k, all);
    lemma_assigns_once(step_effect::<V, S, I>(s, insert), new, vector_of(all, ty));
    law_lanes_round_trip(all, ty, width, new);
    law_extractlane::<V, S, I>(later, extract, other, ty, new, all, j);
}

/// A step that assigns what a computation gives assigns nothing else.
proof fn lemma_assigns_once<V>(
    r: Eval<Effect<V>, StepError>,
    v: V,
    outcome: Eval<V, ValueError>,
)
    requires
        assigns(r, v),
        comes_to(r, outcome),
    ensures
        outcome == Eval::<V, ValueError>::Value(v),
{
    if outcome is Value {
        let w = outcome->Value_0;
        assert(seq![v] == seq![w]);
        assert(seq![v][0] == seq![w][0]);
    }
}

/// A vector of equal lanes has the argument in each of them.
pub proof fn law_splat<'a, V: Value, S: State<'a, V>, I: InstructionContext>(
    s: S,
    c: I,
    ty: Type,
    x: V,
    lanes: Seq<V>,
)
    requires
        is_instruction(c, Opcode::Splat, ty),
        arg_is::<V, S, I>(s, c, 0, x),
        lanes.len() == ty.lane_count(),
        forall|i: int| 0 <= i < lanes.len() ==> #[trigger] lanes[i] == x,
    ensures
        comes_to(step_effect::<V, S, I>(s, c), vector_of(lanes, ty)),
{
    assert(lanes =~= Seq::new(ty.lane_count() as nat, |i: int| x));
    if ty.lane_count() == 0 {
        assert(lanes =~= Seq::empty());
    }
}

/// The bytes that a shuffle gives: each byte of the mask numbers a byte of the first operand, or,
/// from sixteen on, of the second one; where it numbers none, the result is zero.
pub open spec fn is_shuffle(new: Seq<u8>, mask: Seq<u8>, a: Seq<u8>, b: Seq<u8>) -> bool {
    new.len() == 16 && forall|i: int|
        0 <= i < 16 ==> (#[trigger] new[i]) == (if 0 <= mask[i] < 16 {
            a[mask[i] as int]
        } else if 16 <= mask[i] < 32 {
            b[mask[i] as int - 16]
        } else {
            0
        })
}

/// A shuffle assigns the bytes that the mask numbers among those of both arguments.
pub proof fn law_shuffle_step<'a, V: Value, S: State<'a, V>, I: InstructionContext>(
    s: S,
    c: I,
    imm: Immediate,
    ty: Type,
    stored: Seq<u8>,
    mask: Seq<u8>,
    x: V,
    y: V,
    a: Seq<u8>,
    b: Seq<u8>,
    new: Seq<u8>,
)
    requires
        c.spec_data() == (InstructionData::Shuffle { opcode: Opcode::Shuffle, imm }),
        c.spec_controlling_type() == Some(ty),
        imm.0 < s.current_function().immediates@.len(),
        s.current_function().immediates@[imm.0 as int]@ == stored,
        stored.len() == 16,
        V::spec_from_data(Datum::V128(stored)).spec_into_array() == Ok::<Seq<u8>, ValueError>(mask),
        arg_is::<V, S, I>(s, c, 0, x),
        arg_is::<V, S, I>(s, c, 1, y),
        x.spec_into_array() == Ok::<Seq<u8>, ValueError>(a),
        y.spec_into_array() == Ok::<Seq<u8>, ValueError>(b),
        is_shuffle(new, mask, a, b),
    ensures
        yields(
            step_effect::<V, S, I>(s, c),
            V::spec_vector(new, Type::Vector(LaneType::I8, Lanes::X16)),
        ),
{
    assert(shuffled(mask, a, b) =~= new);
}

/// A swizzle assigns the bytes of the first argument that the bytes of the second one number; where
/// one numbers none, the result is zero.
pub proof fn law_swizzle_step<'a, V: Value, S: State<'a, V>, I: InstructionContext>(
    s: S,
    c: I,
    ty: Type,
    x: V,
    y: V,
    a: Seq<u8>,
    selector: Seq<u8>,
    new: Seq<u8>,
)
    requires
        is_instruction(c, Opcode::Swizzle, ty),
        arg_is::<V, S, I>(s, c, 0, x),
        arg_is::<V, S, I>(s, c, 1, y),
        x.spec_into_array() == Ok::<Seq<u8>, ValueError>(a),
        y.spec_into_array() == Ok::<Seq<u8>, ValueError>(selector),
        new.len() == 16,
        forall|i: int|
            0 <= i < 16 ==> (#[trigger] new[i]) == (if selector[i] < 16 {
                a[selector[i] as int]
            } else {
                0
            }),
    ensures
        yields(
            step_effect::<V, S, I>(s, c),
            V::spec_vector(new, Type::Vector(LaneType::I8, Lanes::X16)),
        ),
{
    assert(swizzled(a, selector) =~= new);
}

/// An instruction that takes a vector apart fails where that fails, and misses an argument without a
/// value.
pub proof fn law_rearrange_failure<'a, V: Value, S: State<'a, V>, I: InstructionContext>(
    s: S,
    c: I,
    ty: Type,
    x: V,
    a: Seq<u8>,
    y: V,
    e: ValueError,
)
    requires
        is_instruction(c, Opcode::Swizzle, ty),
    ensures
        arg_unknown::<V, S, I>(s, c, 0) ==> misses(step_effect::<V, S, I>(s, c), c.spec_args()[0]),
        arg_is::<V, S, I>(s, c, 0, x) && x.spec_into_array() == Err::<Seq<u8>, ValueError>(e)
            ==> fails_with(step_effect::<V, S, I>(s, c), e),
        arg_is::<V, S, I>(s, c, 0, x) && x.spec_into_array() == Ok::<Seq<u8>, ValueError>(a)
            && arg_is::<V, S, I>(s, c, 1, y) && y.spec_into_array() == Err::<Seq<u8>, ValueError>(e)
            ==> fails_with(step_effect::<V, S, I>(s, c), e),
{
}

/// The high bits of the lanes make a number: bit `i` is the low bit of lane `i` with its bits
/// reversed, and there are no bits beyond the lanes.
pub proof fn law_vhigh_bits<'a, V: Value, S: State<'a, V>, I: InstructionContext>(
    s: S,
    c: I,
    ty: Type,
    vector_ty: Type,
    x: V,
    lanes: Seq<V>,
    reversed: Seq<V>,
    ns: Seq<i128>,
)
    requires
        is_instruction(c, Opcode::VhighBits, ty),
        arg_is::<V, S, I>(s, c, 0, x),
        c.spec_type_of(c.spec_args()[0]) == Some(vector_ty),
        lanes_of(x, vector_ty) == Eval::<Seq<V>, ValueError>::Value(lanes),
        reversed.len() == lanes.len(),
        ns.len() == lanes.len(),
        forall|i: int|
            0 <= i < lanes.len() ==> (#[trigger] lanes[i]).spec_reverse_bits() == Ok::<V, ValueError>(
                reversed[i],
            ) && reversed[i].spec_into_int() == Ok::<i128, ValueError>(ns[i]),
    ensures
        exists|m: int| #[trigger]
            yields(step_effect::<V, S, I>(s, c), V::spec_integer(m, ty)) && 0 <= m < pow2(
                lanes.len(),
            ) && (forall|i: int|
                0 <= i < lanes.len() ==> (m / pow2(i as nat) as int) % 2 == (#[trigger] ns[i]) & 1),
{
    let evals = reversed_bits(lanes);
    assert forall|i: int| 0 <= i < evals.len() implies (#[trigger] evals[i]) == Eval::<
        i128,
        ValueError,
    >::Value(ns[i]) by {
        assert(lanes[i].spec_reverse_bits() == Ok::<V, ValueError>(reversed[i]));
    }
    lemma_sequence_of_values(evals, ns);
    law_low_bits(ns);
    assert(yields(step_effect::<V, S, I>(s, c), V::spec_integer(low_bits(ns), ty)));
}

/// Whether `accs` starts with `start`, and each later one is what the one before gives with the next
/// of the lanes.
pub open spec fn are_steps<V: Value>(
    accs: Seq<V>,
    start: V,
    lanes: Seq<V>,
    op: spec_fn(V, V) -> ValueResult<V>,
) -> bool {
    &&& accs.len() == lanes.len() + 1
    &&& accs[0] == start
    &&& forall|i: int|
        0 <= i < lanes.len() ==> op(#[trigger] accs[i], lanes[i]) == Ok::<V, ValueError>(accs[i + 1])
}

proof fn lemma_steps<V: Value>(
    accs: Seq<V>,
    start: V,
    lanes: Seq<V>,
    op: BinaryOp,
    f: spec_fn(V, V) -> ValueResult<V>,
)
    requires
        are_steps(accs, start, lanes, f),
        forall|x: V, y: V| #[trigger] f(x, y) == op.result(x, y),
    ensures
        fold_lanes(lanes, start, op) == Eval::<V, ValueError>::Value(accs.last()),
    decreases lanes.len(),
{
    if lanes.len() > 0 {
        let rest = lanes.drop_first();
        let later = accs.drop_first();
        assert(f(accs[0], lanes[0]) == Ok::<V, ValueError>(accs[1]));
        assert forall|i: int| 0 <= i < rest.len() implies f(#[trigger] later[i], rest[i]) == Ok::<
            V,
            ValueError,
        >(later[i + 1]) by {
            assert(f(accs[i + 1], lanes[i + 1]) == Ok::<V, ValueError>(accs[i + 1 + 1]));
        }
        lemma_steps(later, accs[1], rest, op, f);
    }
}

/// Some lane is true if the disjunction of all lanes differs from "false"; all lanes are true if
/// their conjunction equals "true". The result is a truth value of type `i8`.
pub proof fn law_lane_summary<'a, V: Value, S: State<'a, V>, I: InstructionContext>(
    s: S,
    c: I,
    op: Opcode,
    ty: Type,
    x: V,
    lanes: Seq<V>,
    init: V,
    accs: Seq<V>,
    same: bool,
)
    requires
        is_instruction(c, op, ty),
        op is VanyTrue || op is VallTrue,
        arg_is::<V, S, I>(s, c, 0, x),
        lanes_of(x, ty) == Eval::<Seq<V>, ValueError>::Value(lanes),
        V::spec_boolean(op is VallTrue, true, ty.lane_type()) == Ok::<V, ValueError>(init),
        op is VanyTrue ==> are_steps(accs, init, lanes, |acc: V, lane: V| acc.spec_or(lane)),
        op is VallTrue ==> are_steps(accs, init, lanes, |acc: V, lane: V| acc.spec_and(lane)),
        accs.last().spec_eq(init) == Ok::<bool, ValueError>(same),
    ensures
        op is VanyTrue ==> yields(
            step_effect::<V, S, I>(s, c),
            V::spec_boolean(!same, false, Type::Lane(LaneType::I8)),
        ),
        op is VallTrue ==> yields(
            step_effect::<V, S, I>(s, c),
            V::spec_boolean(same, false, Type::Lane(LaneType::I8)),
        ),
{
    if op is VanyTrue {
        lemma_steps(accs, init, lanes, BinaryOp::Or, |acc: V, lane: V| acc.spec_or(lane));
    } else {
        lemma_steps(accs, init, lanes, BinaryOp::And, |acc: V, lane: V| acc.spec_and(lane));
    }
}

} // verus!
