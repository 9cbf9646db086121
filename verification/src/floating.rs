//! Floating point comparisons, minima and maxima, and the fused product.
use crate::arith::{shorter, LaneZip};
use crate::eval::{eval, eval_list, lemma_sequence_step, lemma_sequence_stop, sequence, Eval};
use crate::flow::{
    assign_result, assigned_result, eval_action, lift, ActionResult, Effect, StepError,
};
use crate::integer::{zip_args, zipped_args};
use crate::ir::Opcode;
use crate::lanes::{vector_of, vectorizelanes};
use crate::operands::{arg, arg_lanes, arg_value, read_lanes};
use crate::state::{InstructionContext, State};
use crate::types::{LaneType, Type};
use crate::value::{Value, ValueError, ValueResult};
use vstd::prelude::*;

verus! {

/// Whether both values are zero; the second one counts only if the first one is.
pub open spec fn both_zero<V: Value>(a: V, b: V) -> Eval<bool, ValueError> {
    eval(a.spec_is_zero()).bind(
        |zero: bool|
            if zero {
                eval(b.spec_is_zero())
            } else {
                Eval::Value(false)
            },
    )
}

fn are_both_zero<V: Value>(a: &V, b: &V) -> (r: ValueResult<bool>)
    ensures
        eval(r) == both_zero(*a, *b),
{
    Ok(a.is_zero()? && b.is_zero()?)
}

/// The lesser or the greater of two numbers.
pub open spec fn plain_extreme<V: Value>(a: V, b: V, minimum: bool) -> Eval<V, ValueError> {
    eval(
        if minimum {
            a.spec_min(b)
        } else {
            a.spec_max(b)
        },
    )
}

fn get_plain_extreme<V: Value>(a: V, b: V, minimum: bool) -> (r: ValueResult<V>)
    ensures
        eval(r) == plain_extreme(a, b, minimum),
{
    if minimum {
        a.min(b)
    } else {
        a.max(b)
    }
}

/// The lesser or the greater of two floats. A NaN wins, the first one before the second; of two
/// zeros, the negative one is less.
pub open spec fn float_extreme<V: Value>(a: V, b: V, minimum: bool) -> Eval<V, ValueError> {
    eval(a.spec_is_nan()).bind(
        |a_nan: bool|
            if a_nan {
                Eval::Value(a)
            } else {
                eval(b.spec_is_nan()).bind(
                    |b_nan: bool|
                        if b_nan {
                            Eval::Value(b)
                        } else {
                            both_zero(a, b).bind(
                                |zeros: bool|
                                    if zeros {
                                        zero_extreme(a, b, minimum)
                                    } else {
                                        plain_extreme(a, b, minimum)
                                    },
                            )
                        },
                )
            },
    )
}

/// The lesser or the greater of two zeros.
pub open spec fn zero_extreme<V: Value>(a: V, b: V, minimum: bool) -> Eval<V, ValueError> {
    eval(a.spec_is_negative()).bind(
        |a_negative: bool|
            if a_negative {
                Eval::Value(
                    if minimum {
                        a
                    } else {
                        b
                    },
                )
            } else {
                eval(b.spec_is_negative()).bind(
                    |b_negative: bool|
                        if b_negative {
                            Eval::Value(
                                if minimum {
                                    b
                                } else {
                                    a
                                },
                            )
                        } else {
                            plain_extreme(a, b, minimum)
                        },
                )
            },
    )
}

fn get_float_extreme<V: Value>(a: V, b: V, minimum: bool) -> (r: ValueResult<V>)
    ensures
        eval(r) == float_extreme(a, b, minimum),
{
    if a.is_nan()? {
        return Ok(a);
    }
    if b.is_nan()? {
        return Ok(b);
    }
    if are_both_zero(&a, &b)? {
        if a.is_negative()? {
            return if minimum {
                Ok(a)
            } else {
                Ok(b)
            };
        }
        if b.is_negative()? {
            return if minimum {
                Ok(b)
            } else {
                Ok(a)
            };
        }
    }
    get_plain_extreme(a, b, minimum)
}

/// Whether one of the values is not a number; the second one counts only if the first one is a
/// number.
pub open spec fn either_nan<V: Value>(a: V, b: V) -> Eval<bool, ValueError> {
    eval(a.spec_is_nan()).bind(
        |nan: bool|
            if nan {
                Eval::Value(true)
            } else {
                eval(b.spec_is_nan())
            },
    )
}

/// The lesser or the greater of two floats, as the order decides: the first one, where one of them
/// is a NaN or both are zero.
pub open spec fn pseudo_extreme<V: Value>(a: V, b: V, minimum: bool) -> Eval<V, ValueError> {
    either_nan(a, b).bind(
        |nan: bool|
            if nan {
                Eval::Value(a)
            } else {
                both_zero(a, b).bind(
                    |zeros: bool|
                        if zeros {
                            Eval::Value(a)
                        } else {
                            plain_extreme(a, b, minimum)
                        },
                )
            },
    )
}

fn get_pseudo_extreme<V: Value>(a: V, b: V, minimum: bool) -> (r: ValueResult<V>)
    ensures
        eval(r) == pseudo_extreme(a, b, minimum),
{
    if a.is_nan()? || b.is_nan()? {
        return Ok(a);
    }
    if are_both_zero(&a, &b)? {
        return Ok(a);
    }
    get_plain_extreme(a, b, minimum)
}

/// The fused products of corresponding lanes, as far as all operands have lanes.
pub open spec fn fused_lanes<V: Value>(xs: Seq<V>, ys: Seq<V>, zs: Seq<V>) -> Seq<
    Eval<V, ValueError>,
> {
    Seq::new(
        shorter(shorter(xs.len(), ys.len()), zs.len()),
        |i: int| eval(xs[i].spec_fma(ys[i], zs[i])),
    )
}

fn fuse_lanes<V: Value>(xs: &Vec<V>, ys: &Vec<V>, zs: &Vec<V>) -> (r: ValueResult<Vec<V>>)
    ensures
        eval_list(r) == sequence(fused_lanes(xs@, ys@, zs@)),
{
    let mut lanes: Vec<V> = Vec::new();
    let ghost evals = fused_lanes(xs@, ys@, zs@);
    let mut i: usize = 0;
    assert(evals.take(0) =~= Seq::empty());
    while i < xs.len() && i < ys.len() && i < zs.len()
        invariant
            i <= xs.len(),
            i <= ys.len(),
            i <= zs.len(),
            evals == fused_lanes(xs@, ys@, zs@),
            sequence(evals.take(i as int)) == Eval::<Seq<V>, ValueError>::Value(lanes@),
        decreases xs.len() - i,
    {
        proof {
            lemma_sequence_step(evals, i as int);
            if !(evals[i as int] is Value) {
                lemma_sequence_stop(evals, i as int);
            }
        }
        let lane: V = xs[i].duplicate().fma(ys[i].duplicate(), zs[i].duplicate())?;
        lanes.push(lane);
        i = i + 1;
    }
    assert(evals.take(i as int) =~= evals);
    Ok(lanes)
}

/// Floating point comparisons, minima and maxima, and the fused product.
pub open spec fn float_effect<'a, V: Value, S: State<'a, V>, I: InstructionContext>(
    s: S,
    c: I,
    op: Opcode,
    ty: Type,
) -> Eval<Effect<V>, StepError> {
    let arg0 = arg_value::<V, S, I>(s, c, 0);
    let arg1 = arg_value::<V, S, I>(s, c, 1);
    match op {
        Opcode::Fcmp => zipped_args::<V, S, I>(
            s,
            c,
            ty,
            LaneZip::FloatCompare {
                code: c.spec_data().fp_cond_code(),
                vec_elem: ty.is_vector(),
                lane: Type::Lane(LaneType::I8),
            },
        ),
        Opcode::Fma => arg_lanes::<V, S, I>(s, c, 0, ty).bind(
            |xs: Seq<V>|
                arg_lanes::<V, S, I>(s, c, 1, ty).bind(
                    |ys: Seq<V>|
                        arg_lanes::<V, S, I>(s, c, 2, ty).bind(
                            |zs: Seq<V>|
                                assigned_result(
                                    sequence(fused_lanes(xs, ys, zs)).bind(
                                        |lanes: Seq<V>| vector_of(lanes, ty),
                                    ),
                                ),
                        ),
                ),
        ),
        Opcode::Fmin => arg0.bind(
            |a: V| arg1.bind(|b: V| assigned_result(float_extreme(a, b, true))),
        ),
        Opcode::Fmax => arg0.bind(
            |a: V| arg1.bind(|b: V| assigned_result(float_extreme(a, b, false))),
        ),
        Opcode::FminPseudo => arg0.bind(
            |a: V| arg1.bind(|b: V| assigned_result(pseudo_extreme(a, b, true))),
        ),
        Opcode::FmaxPseudo => arg0.bind(
            |a: V| arg1.bind(|b: V| assigned_result(pseudo_extreme(a, b, false))),
        ),
        _ => Eval::Undefined,
    }
}

/// Evaluate a floating point comparison, a minimum or a maximum, or the fused product.
pub fn eval_float<'a, V: Value, S: State<'a, V>, I: InstructionContext>(
    s: &S,
    c: &I,
    op: Opcode,
    ty: Type,
) -> (r: ActionResult<'a, V>)
    requires
        float_effect::<V, S, I>(*s, *c, op, ty).defined(),
    ensures
        eval_action(r) == float_effect::<V, S, I>(*s, *c, op, ty),
{
    match op {
        Opcode::Fcmp => {
            let zip: LaneZip<V> = LaneZip::FloatCompare {
                code: c.data().fp_cond_code(),
                vec_elem: ty.is_vector(),
                lane: ty.lane_type().as_truthy(),
            };
            zip_args(s, c, ty, zip)
        },
        Opcode::Fma => {
            let xs: Vec<V> = read_lanes(s, c, 0, ty)?;
            let ys: Vec<V> = read_lanes(s, c, 1, ty)?;
            let zs: Vec<V> = read_lanes(s, c, 2, ty)?;
            let lanes: Vec<V> = lift(fuse_lanes(&xs, &ys, &zs))?;
            assign_result(vectorizelanes(&lanes, ty))
        },
        Opcode::Fmin | Opcode::Fmax => {
            let a: V = arg(s, c, 0)?;
            let b: V = arg(s, c, 1)?;
            assign_result(get_float_extreme(a, b, matches!(op, Opcode::Fmin)))
        },
        Opcode::FminPseudo | Opcode::FmaxPseudo => {
            let a: V = arg(s, c, 0)?;
            let b: V = arg(s, c, 1)?;
            assign_result(get_pseudo_extreme(a, b, matches!(op, Opcode::FminPseudo)))
        },
        _ => vstd::pervasive::unreached(),
    }
}

} // verus!
