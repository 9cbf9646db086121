//! Instructions on whole vectors: rearranging lanes, and summarising them.
use crate::arith::{apply_fold, folded_vector};
use crate::eval::{
    eval, lemma_sequence_step, lemma_sequence_stop, lemma_sequence_value, sequence, Eval,
};
use crate::flow::{
    assign, assign_result, assigned, assigned_result, eval_action, lift, lifted, ActionResult,
    Effect, StepError,
};
use crate::ir::Opcode;
use crate::lanes::{lane_width, lanes_from_bytes, lanes_of, vector_of, vectorizelanes};
use crate::operands::{
    arg, arg_lanes, arg_type, arg_value, get_arg_type, imm, imm_value, low_64_bits, read_lanes,
    truncate_to_64_bits,
};
use crate::state::{InstructionContext, State};
use crate::types::{LaneType, Lanes, Type};
use crate::value::{BinaryOp, Value, ValueError, ValueResult};
use vstd::arithmetic::power2::*;
use vstd::prelude::*;

verus! {

/// The type of sixteen bytes.
pub open spec fn bytes_type() -> Type {
    Type::Vector(LaneType::I8, Lanes::X16)
}

/// The bytes that a mask selects among those of `a` and `b`, zero where it points behind both.
pub open spec fn shuffled(mask: Seq<u8>, a: Seq<u8>, b: Seq<u8>) -> Seq<u8> {
    Seq::new(
        16,
        |i: int|
            if mask[i] < 16 {
                a[mask[i] as int]
            } else if mask[i] < 32 {
                b[mask[i] - 16]
            } else {
                0u8
            },
    )
}

fn shuffle(mask: &[u8; 16], a: &[u8; 16], b: &[u8; 16]) -> (new: [u8; 16])
    ensures
        new@ == shuffled(mask@, a@, b@),
{
    let mut new: [u8; 16] = [0; 16];
    let mut i: usize = 0;
    while i < 16
        invariant
            i <= 16,
            forall|k: int| 0 <= k < i ==> new@[k] == shuffled(mask@, a@, b@)[k],
            forall|k: int| i <= k < 16 ==> new@[k] == 0,
        decreases 16 - i,
    {
        let m: usize = mask[i] as usize;
        if m < 16 {
            new[i] = a[m];
        } else if m - 16 < 16 {
            new[i] = b[m - 16];
        }  // else leave as 0.

        i = i + 1;
    }
    assert(new@ =~= shuffled(mask@, a@, b@));
    new
}

/// The bytes of `x` that the bytes of `s` select, zero where they point behind it.
pub open spec fn swizzled(x: Seq<u8>, s: Seq<u8>) -> Seq<u8> {
    Seq::new(
        16,
        |i: int|
            if s[i] < 16 {
                x[s[i] as int]
            } else {
                0u8
            },
    )
}

fn swizzle(x: &[u8; 16], s: &[u8; 16]) -> (new: [u8; 16])
    ensures
        new@ == swizzled(x@, s@),
{
    let mut new: [u8; 16] = [0; 16];
    let mut i: usize = 0;
    while i < 16
        invariant
            i <= 16,
            forall|k: int| 0 <= k < i ==> new@[k] == swizzled(x@, s@)[k],
            forall|k: int| i <= k < 16 ==> new@[k] == 0,
        decreases 16 - i,
    {
        let m: usize = s[i] as usize;
        if m < 16 {
            new[i] = x[m];
        }  // else leave as 0

        i = i + 1;
    }
    assert(new@ =~= swizzled(x@, s@));
    new
}

/// The bytes of argument `i`.
pub open spec fn arg_bytes<'a, V: Value, S: State<'a, V>, I: InstructionContext>(
    s: S,
    c: I,
    i: int,
) -> Eval<Seq<u8>, StepError> {
    arg_value(s, c, i).bind(|v: V| lifted(eval(v.spec_into_array())))
}

fn read_bytes<'a, V: Value, S: State<'a, V>, I: InstructionContext>(s: &S, c: &I, i: usize) -> (r:
    Result<[u8; 16], StepError>)
    requires
        i < c.spec_args().len(),
    ensures
        match r {
            Ok(bytes) => arg_bytes::<V, S, I>(*s, *c, i as int) == Eval::<Seq<u8>, StepError>::Value(
                bytes@,
            ),
            Err(e) => arg_bytes::<V, S, I>(*s, *c, i as int) == Eval::<Seq<u8>, StepError>::Error(e),
        },
{
    let v: V = arg(s, c, i)?;
    lift(v.into_array())
}

/// The lane number that the immediate gives: the low 64 bits of its value.
pub open spec fn lane_index<'a, V: Value, S: State<'a, V>, I: InstructionContext>(
    s: S,
    c: I,
    ty: Type,
) -> Eval<u64, StepError> {
    imm_value(s, c, ty).bind(
        |v: V| lifted(eval(v.spec_into_int())).bind(|n: i128| Eval::Value(low_64_bits(n))),
    )
}

fn get_lane_index<'a, V: Value, S: State<'a, V>, I: InstructionContext>(s: &S, c: &I, ty: Type) -> (
r: Result<u64, StepError>)
    requires
        lane_index::<V, S, I>(*s, *c, ty).defined(),
    ensures
        eval(r) == lane_index::<V, S, I>(*s, *c, ty),
{
    let v: V = imm(s, c, ty);
    let n: i128 = lift(v.into_int())?;
    Ok(truncate_to_64_bits(n))
}

/// Instructions that rearrange bytes or lanes.
pub open spec fn rearrange_effect<'a, V: Value, S: State<'a, V>, I: InstructionContext>(
    s: S,
    c: I,
    op: Opcode,
    ty: Type,
) -> Eval<Effect<V>, StepError> {
    match op {
        Opcode::Shuffle => imm_value(s, c, ty).bind(
            |v: V|
                lifted(eval(v.spec_into_array())).bind(
                    |mask: Seq<u8>|
                        arg_bytes::<V, S, I>(s, c, 0).bind(
                            |a: Seq<u8>|
                                arg_bytes::<V, S, I>(s, c, 1).bind(
                                    |b: Seq<u8>|
                                        assigned_result(
                                            eval(V::spec_vector(shuffled(mask, a, b), bytes_type())),
                                        ),
                                ),
                        ),
                ),
        ),
        Opcode::Swizzle => arg_bytes::<V, S, I>(s, c, 0).bind(
            |x: Seq<u8>|
                arg_bytes::<V, S, I>(s, c, 1).bind(
                    |sel: Seq<u8>|
                        assigned_result(eval(V::spec_vector(swizzled(x, sel), bytes_type()))),
                ),
        ),
        Opcode::Splat => if ty.lane_count() == 0 {
            assigned_result(vector_of(Seq::<V>::empty(), ty))
        } else {
            arg_value(s, c, 0).bind(
                |x: V|
                    assigned_result(
                        vector_of(Seq::new(ty.lane_count() as nat, |i: int| x), ty),
                    ),
            )
        },
        Opcode::Insertlane => lane_index::<V, S, I>(s, c, ty).bind(
            |idx: u64|
                arg_lanes::<V, S, I>(s, c, 0, ty).bind(
                    |lanes: Seq<V>|
                        arg_value(s, c, 1).bind(
                            |x: V|
                                if idx < lanes.len() {
                                    assigned_result(vector_of(lanes.update(idx as int, x), ty))
                                } else {
                                    Eval::Undefined
                                },
                        ),
                ),
        ),
        Opcode::Extractlane => lane_index::<V, S, I>(s, c, ty).bind(
            |idx: u64|
                arg_lanes::<V, S, I>(s, c, 0, ty).bind(
                    |lanes: Seq<V>|
                        if idx < lanes.len() {
                            Eval::Value(assigned(lanes[idx as int]))
                        } else {
                            Eval::Undefined
                        },
                ),
        ),
        _ => Eval::Undefined,
    }
}

fn replicate<V: Value>(x: V, count: u32) -> (lanes: Vec<V>)
    ensures
        lanes@ == Seq::new(count as nat, |i: int| x),
{
    let mut lanes: Vec<V> = Vec::new();
    let mut i: u32 = 0;
    while i < count
        invariant
            i <= count,
            lanes@ == Seq::new(i as nat, |k: int| x),
        decreases count - i,
    {
        lanes.push(x.duplicate());
        i = i + 1;
        assert(lanes@ =~= Seq::new(i as nat, |k: int| x));
    }
    assert(lanes@ =~= Seq::new(count as nat, |i: int| x));
    lanes
}

/// Evaluate an instruction that rearranges bytes or lanes.
pub fn eval_rearrange<'a, V: Value, S: State<'a, V>, I: InstructionContext>(
    s: &S,
    c: &I,
    op: Opcode,
    ty: Type,
) -> (r: ActionResult<'a, V>)
    requires
        rearrange_effect::<V, S, I>(*s, *c, op, ty).defined(),
    ensures
        eval_action(r) == rearrange_effect::<V, S, I>(*s, *c, op, ty),
{
    match op {
        Opcode::Shuffle => {
            let v: V = imm(s, c, ty);
            let mask: [u8; 16] = lift(v.into_array())?;
            let a: [u8; 16] = read_bytes::<V, S, I>(s, c, 0)?;
            let b: [u8; 16] = read_bytes::<V, S, I>(s, c, 1)?;
            let new: [u8; 16] = shuffle(&mask, &a, &b);
            assign_result(V::vector(new, Type::Vector(LaneType::I8, Lanes::X16)))
        },
        Opcode::Swizzle => {
            let x: [u8; 16] = read_bytes::<V, S, I>(s, c, 0)?;
            let sel: [u8; 16] = read_bytes::<V, S, I>(s, c, 1)?;
            let new: [u8; 16] = swizzle(&x, &sel);
            assign_result(V::vector(new, Type::Vector(LaneType::I8, Lanes::X16)))
        },
        Opcode::Splat => {
            let lanes: Vec<V> = if ty.lane_count() == 0 {
                Vec::new()
            } else {
                let x: V = arg(s, c, 0)?;
                replicate(x, ty.lane_count())
            };
            assign_result(vectorizelanes(&lanes, ty))
        },
        Opcode::Insertlane => {
            let idx: u64 = get_lane_index::<V, S, I>(s, c, ty)?;
            let mut lanes: Vec<V> = read_lanes(s, c, 0, ty)?;
            let x: V = arg(s, c, 1)?;
            lanes.set(idx as usize, x);
            assign_result(vectorizelanes(&lanes, ty))
        },
        Opcode::Extractlane => {
            let idx: u64 = get_lane_index::<V, S, I>(s, c, ty)?;
            let lanes: Vec<V> = read_lanes(s, c, 0, ty)?;
            Ok(assign(lanes[idx as usize].duplicate()))
        },
        _ => vstd::pervasive::unreached(),
    }
}

/// The number whose bit `i` is the low bit of the `i`-th element.
pub open spec fn low_bits(ns: Seq<i128>) -> int
    decreases ns.len(),
{
    if ns.len() == 0 {
        0
    } else {
        low_bits(ns.drop_last()) + (ns.last() & 1) * pow2((ns.len() - 1) as nat)
    }
}

/// The bits of a lane in reverse order, so that its high bit comes first.
pub open spec fn reversed_bits<V: Value>(lanes: Seq<V>) -> Seq<Eval<i128, ValueError>> {
    Seq::new(
        lanes.len(),
        |i: int|
            eval(lanes[i].spec_reverse_bits()).bind(|r: V| eval(r.spec_into_int())),
    )
}

/// A vector has at most sixteen lanes.
proof fn lemma_lane_limit<V: Value>(x: V, ty: Type)
    ensures
        lanes_of(x, ty) matches Eval::Value(lanes) ==> lanes.len() <= 16,
{
    if x.spec_ty().is_vector() && lanes_of(x, ty) is Value {
        let width = lane_width(ty.lane_type())->0;
        let bytes = x.spec_into_array()->Ok_0;
        let evals = lanes_from_bytes::<V>(bytes, ty.lane_type(), width, ty.lane_count() as nat);
        lemma_sequence_value(evals);
        if evals.len() > 16 {
            assert(evals[16] is Value);
            assert(16 * width + width > 16) by (nonlinear_arith)
                requires
                    width >= 1,
            ;
        }
    }
}

fn collect_low_bits<V: Value>(lanes: &Vec<V>) -> (r: ValueResult<i128>)
    requires
        lanes.len() <= 16,
    ensures
        match r {
            Ok(n) => sequence(reversed_bits(lanes@)) is Value && n == low_bits(
                sequence(reversed_bits(lanes@))->Value_0,
            ),
            Err(e) => sequence(reversed_bits(lanes@)) == Eval::<Seq<i128>, ValueError>::Error(e),
        },
{
    let ghost evals = reversed_bits(lanes@);
    let ghost mut ns: Seq<i128> = Seq::empty();
    let mut result: i128 = 0;
    let mut weight: i128 = 1;
    let mut i: usize = 0;
    proof {
        lemma2_to64();
        assert(evals.take(0) =~= Seq::empty());
    }
    while i < lanes.len()
        invariant
            i <= lanes.len() <= 16,
            evals == reversed_bits(lanes@),
            sequence(evals.take(i as int)) == Eval::<Seq<i128>, ValueError>::Value(ns),
            ns.len() == i,
            weight == pow2(i as nat),
            0 <= result < weight <= 0x1_0000,
            result == low_bits(ns),
        decreases lanes.len() - i,
    {
        proof {
            lemma_sequence_step(evals, i as int);
            if !(evals[i as int] is Value) {
                lemma_sequence_stop(evals, i as int);
            }
        }
        let val: i128 = lanes[i].duplicate().reverse_bits()?.into_int()?;  // MSB -> LSB
        let bit: i128 = val & 1;
        assert(bit == 0 || bit == 1) by (bit_vector)
            requires
                bit == val & 1,
        ;
        proof {
            let before = ns;
            ns = ns.push(val);
            assert(ns.drop_last() =~= before);
            lemma_pow2_unfold((i + 1) as nat);
            assert(pow2(16) == 0x1_0000) by {
                lemma2_to64();
            }
            if i + 1 < 16 {
                lemma_pow2_strictly_increases((i + 1) as nat, 16);
            }
            assert(bit * weight == 0 || bit * weight == weight) by (nonlinear_arith)
                requires
                    bit == 0 || bit == 1,
            ;
        }
        if bit == 1 {
            result = result + weight;
        }
        weight = 2 * weight;
        i = i + 1;
    }
    assert(evals.take(i as int) =~= evals);
    Ok(result)
}

/// The high bit of each lane of `x`, collected in an integer of type `ty`.
pub open spec fn high_bits<V: Value>(x: V, vector_ty: Type, ty: Type) -> Eval<V, ValueError> {
    lanes_of(x, vector_ty).bind(
        |lanes: Seq<V>|
            sequence(reversed_bits(lanes)).bind(
                |ns: Seq<i128>| eval(V::spec_integer(low_bits(ns), ty)),
            ),
    )
}

/// Whether some lane is true.
pub open spec fn any_true<V: Value>(x: V, ty: Type, init: V) -> Eval<V, ValueError> {
    folded_vector(x, ty, init, BinaryOp::Or).bind(
        |any: V|
            eval(any.spec_eq(init)).bind(
                |same: bool| eval(V::spec_boolean(!same, false, Type::Lane(LaneType::I8))),
            ),
    )
}

/// Whether all lanes are true.
pub open spec fn all_true<V: Value>(x: V, ty: Type, init: V) -> Eval<V, ValueError> {
    folded_vector(x, ty, init, BinaryOp::And).bind(
        |all: V|
            eval(all.spec_eq(init)).bind(
                |same: bool| eval(V::spec_boolean(same, false, Type::Lane(LaneType::I8))),
            ),
    )
}

/// Instructions that summarise the lanes of a vector.
pub open spec fn summary_effect<'a, V: Value, S: State<'a, V>, I: InstructionContext>(
    s: S,
    c: I,
    op: Opcode,
    ty: Type,
) -> Eval<Effect<V>, StepError> {
    match op {
        Opcode::VhighBits => arg_type(c, 0).bind(
            |vector_ty: Type|
                arg_value(s, c, 0).bind(|x: V| assigned_result(high_bits(x, vector_ty, ty))),
        ),
        Opcode::VanyTrue => lifted(eval(V::spec_boolean(false, true, ty.lane_type()))).bind(
            |init: V| arg_value(s, c, 0).bind(|x: V| assigned_result(any_true(x, ty, init))),
        ),
        Opcode::VallTrue => lifted(eval(V::spec_boolean(true, true, ty.lane_type()))).bind(
            |init: V| arg_value(s, c, 0).bind(|x: V| assigned_result(all_true(x, ty, init))),
        ),
        _ => Eval::Undefined,
    }
}

fn get_high_bits<V: Value>(x: V, vector_ty: Type, ty: Type) -> (r: ValueResult<V>)
    requires
        high_bits(x, vector_ty, ty).defined(),
    ensures
        eval(r) == high_bits(x, vector_ty, ty),
{
    let lanes: Vec<V> = crate::lanes::extractlanes(&x, vector_ty)?;
    proof {
        lemma_lane_limit(x, vector_ty);
    }
    let n: i128 = collect_low_bits(&lanes)?;
    V::integer(n, ty)
}

fn is_any_true<V: Value>(x: V, ty: Type, init: V) -> (r: ValueResult<V>)
    requires
        any_true(x, ty, init).defined(),
    ensures
        eval(r) == any_true(x, ty, init),
{
    let any: V = apply_fold(x, ty, init.duplicate(), BinaryOp::Or)?;
    let same: bool = any.eq(&init)?;
    V::boolean(!same, false, Type::Lane(LaneType::I8))
}

fn is_all_true<V: Value>(x: V, ty: Type, init: V) -> (r: ValueResult<V>)
    requires
        all_true(x, ty, init).defined(),
    ensures
        eval(r) == all_true(x, ty, init),
{
    let all: V = apply_fold(x, ty, init.duplicate(), BinaryOp::And)?;
    let same: bool = all.eq(&init)?;
    V::boolean(same, false, Type::Lane(LaneType::I8))
}

/// Evaluate an instruction that summarises the lanes of a vector.
pub fn eval_summary<'a, V: Value, S: State<'a, V>, I: InstructionContext>(
    s: &S,
    c: &I,
    op: Opcode,
    ty: Type,
) -> (r: ActionResult<'a, V>)
    requires
        summary_effect::<V, S, I>(*s, *c, op, ty).defined(),
    ensures
        eval_action(r) == summary_effect::<V, S, I>(*s, *c, op, ty),
{
    match op {
        Opcode::VhighBits => {
            // `ty` controls the return type for this, so the input type must be retrieved via the
            // instruction context.
            let vector_ty: Type = get_arg_type(c, 0);
            let x: V = arg(s, c, 0)?;
            assign_result(get_high_bits(x, vector_ty, ty))
        },
        Opcode::VanyTrue => {
            let init: V = lift(V::boolean(false, true, ty.lane_type()))?;
            let x: V = arg(s, c, 0)?;
            assign_result(is_any_true(x, ty, init))
        },
        Opcode::VallTrue => {
            let init: V = lift(V::boolean(true, true, ty.lane_type()))?;
            let x: V = arg(s, c, 0)?;
            assign_result(is_all_true(x, ty, init))
        },
        _ => vstd::pervasive::unreached(),
    }
}

} // verus!
