//! Constants, comparisons, and the choice between two values.
use crate::arith::{bitselect, compare_vectors, icmp, operand, read_operand, select_bits};
use crate::eval::{eval, present, Eval};
use crate::flow::{
    assign, assign_result, assigned, assigned_result, eval_action, lift, lifted, Action,
    ActionResult, ControlFlow, Effect, Flow, StepError,
};
use crate::ir::{IntCC, Opcode};
use crate::operands::{arg, arg_value, imm, imm_as_ctrl_ty, imm_as_ctrl_value, imm_value};
use crate::state::{InstructionContext, State};
use crate::types::Type;
use crate::value::Value;
use vstd::prelude::*;

verus! {

/// Constants, and the instruction that does nothing.
pub open spec fn constant_effect<'a, V: Value, S: State<'a, V>, I: InstructionContext>(
    s: S,
    c: I,
    op: Opcode,
    ty: Type,
) -> Eval<Effect<V>, StepError> {
    match op {
        Opcode::Iconst => imm_value(s, c, ty).bind(
            |v: V|
                lifted(eval(v.spec_into_int())).bind(
                    |n: i128| assigned_result(eval(V::spec_integer(n as int, ty))),
                ),
        ),
        Opcode::F32const | Opcode::F64const | Opcode::Vconst => imm_value(s, c, ty).bind(
            |v: V| Eval::Value(assigned(v)),
        ),
        Opcode::Nop => Eval::Value(Effect::Flow(Flow::Continue)),
        _ => Eval::Undefined,
    }
}

/// Evaluate a constant, or the instruction that does nothing.
pub fn eval_constant<'a, V: Value, S: State<'a, V>, I: InstructionContext>(
    s: &S,
    c: &I,
    op: Opcode,
    ty: Type,
) -> (r: ActionResult<'a, V>)
    requires
        constant_effect::<V, S, I>(*s, *c, op, ty).defined(),
    ensures
        eval_action(r) == constant_effect::<V, S, I>(*s, *c, op, ty),
{
    match op {
        Opcode::Iconst => {
            let v: V = imm(s, c, ty);
            let n: i128 = lift(v.into_int())?;
            assign_result(V::integer(n, ty))
        },
        Opcode::F32const | Opcode::F64const | Opcode::Vconst => Ok(assign(imm(s, c, ty))),
        Opcode::Nop => Ok(Action::Flow(ControlFlow::Continue)),
        _ => vstd::pervasive::unreached(),
    }
}

/// Assign `left` if the condition holds, `right` otherwise.
pub open spec fn chosen<V>(condition: bool, left: V, right: V) -> Effect<V> {
    assigned(
        if condition {
            left
        } else {
            right
        },
    )
}

/// Choose whether to assign `left` or `right` to the instruction's result based on a `condition`.
pub fn choose_value<'a, V>(condition: bool, left: V, right: V) -> (action: Action<'a, V>)
    ensures
        action@ == chosen(condition, left, right),
{
    if condition {
        assign(left)
    } else {
        assign(right)
    }
}

/// How a minimum or a maximum compares its arguments.
pub open spec fn extreme_condition(op: Opcode) -> IntCC {
    if op is Smin || op is Smax {
        IntCC::SignedGreaterThan
    } else {
        IntCC::UnsignedGreaterThan
    }
}

/// Minima and maxima. For a minimum, the second argument is the left side of the comparison.
pub open spec fn extreme_effect<'a, V: Value, S: State<'a, V>, I: InstructionContext>(
    s: S,
    c: I,
    op: Opcode,
    ty: Type,
) -> Eval<Effect<V>, StepError> {
    let unsigned = op is Umin || op is Umax;
    let minimum = op is Smin || op is Umin;
    let left = if minimum {
        1int
    } else {
        0int
    };
    if ty.is_vector() {
        arg_value(s, c, left).bind(
            |l: V|
                arg_value(s, c, 1 - left).bind(
                    |r: V|
                        lifted(compare_vectors(ty, extreme_condition(op), l, r)).bind(
                            |mask: V|
                                assigned_result(
                                    if minimum {
                                        select_bits(mask, r, l)
                                    } else {
                                        select_bits(mask, l, r)
                                    },
                                ),
                        ),
                ),
        )
    } else {
        arg_value(s, c, left).bind(
            |l: V|
                lifted(operand(l, unsigned)).bind(
                    |lu: V|
                        arg_value(s, c, 1 - left).bind(
                            |r: V|
                                lifted(operand(r, unsigned)).bind(
                                    |ru: V|
                                        lifted(eval(lu.spec_gt(ru))).bind(
                                            |greater: bool|
                                                Eval::Value(
                                                    if minimum {
                                                        chosen(greater, r, l)
                                                    } else {
                                                        chosen(greater, l, r)
                                                    },
                                                ),
                                        ),
                                ),
                        ),
                ),
        )
    }
}

fn eval_extreme<'a, V: Value, S: State<'a, V>, I: InstructionContext>(
    s: &S,
    c: &I,
    op: Opcode,
    ty: Type,
) -> (r: ActionResult<'a, V>)
    requires
        op is Smin || op is Umin || op is Smax || op is Umax,
        extreme_effect::<V, S, I>(*s, *c, op, ty).defined(),
    ensures
        eval_action(r) == extreme_effect::<V, S, I>(*s, *c, op, ty),
{
    let (unsigned, minimum): (bool, bool) = match op {
        Opcode::Smin => (false, true),
        Opcode::Umin => (true, true),
        Opcode::Smax => (false, false),
        _ => (true, false),
    };
    let (left, right): (usize, usize) = if minimum {
        (1, 0)
    } else {
        (0, 1)
    };
    if ty.is_vector() {
        let code: IntCC = if unsigned {
            IntCC::UnsignedGreaterThan
        } else {
            IntCC::SignedGreaterThan
        };
        let l: V = arg(s, c, left)?;
        let r: V = arg(s, c, right)?;
        let mask: V = lift(icmp(ty, code, &l, &r))?;
        if minimum {
            assign_result(bitselect(mask, r, l))
        } else {
            assign_result(bitselect(mask, l, r))
        }
    } else {
        let l: V = arg(s, c, left)?;
        let lu: V = lift(read_operand(l.duplicate(), unsigned))?;
        let r: V = arg(s, c, right)?;
        let ru: V = lift(read_operand(r.duplicate(), unsigned))?;
        let greater: bool = lift(lu.gt(&ru))?;
        if minimum {
            Ok(choose_value(greater, r, l))
        } else {
            Ok(choose_value(greater, l, r))
        }
    }
}

/// Comparisons and choices.
pub open spec fn select_effect<'a, V: Value, S: State<'a, V>, I: InstructionContext>(
    s: S,
    c: I,
    op: Opcode,
    ty: Type,
) -> Eval<Effect<V>, StepError> {
    let cond = present::<IntCC, StepError>(c.spec_data().cond_code());
    match op {
        Opcode::Select | Opcode::SelectSpectreGuard => arg_value(s, c, 0).bind(
            |v: V|
                lifted(eval(v.spec_into_bool())).bind(
                    |condition: bool|
                        arg_value(s, c, 1).bind(
                            |left: V|
                                arg_value(s, c, 2).bind(
                                    |right: V| Eval::Value(chosen(condition, left, right)),
                                ),
                        ),
                ),
        ),
        Opcode::Bitselect => arg_value(s, c, 0).bind(
            |mask: V|
                arg_value(s, c, 1).bind(
                    |x: V|
                        arg_value(s, c, 2).bind(
                            |y: V| assigned_result(select_bits(mask, x, y)),
                        ),
                ),
        ),
        Opcode::Icmp => cond.bind(
            |code: IntCC|
                arg_value(s, c, 0).bind(
                    |x: V|
                        arg_value(s, c, 1).bind(
                            |y: V| assigned_result(compare_vectors(ty, code, x, y)),
                        ),
                ),
        ),
        Opcode::IcmpImm => cond.bind(
            |code: IntCC|
                arg_value(s, c, 0).bind(
                    |x: V|
                        imm_as_ctrl_value(s, c, ty).bind(
                            |y: V| assigned_result(compare_vectors(ty, code, x, y)),
                        ),
                ),
        ),
        Opcode::Smin | Opcode::Umin | Opcode::Smax | Opcode::Umax => extreme_effect::<V, S, I>(
            s,
            c,
            op,
            ty,
        ),
        _ => Eval::Undefined,
    }
}

/// Evaluate a comparison or a choice.
pub fn eval_select<'a, V: Value, S: State<'a, V>, I: InstructionContext>(
    s: &S,
    c: &I,
    op: Opcode,
    ty: Type,
) -> (r: ActionResult<'a, V>)
    requires
        select_effect::<V, S, I>(*s, *c, op, ty).defined(),
    ensures
        eval_action(r) == select_effect::<V, S, I>(*s, *c, op, ty),
{
    match op {
        Opcode::Select | Opcode::SelectSpectreGuard => {
            let v: V = arg(s, c, 0)?;
            let condition: bool = lift(v.into_bool())?;
            let left: V = arg(s, c, 1)?;
            let right: V = arg(s, c, 2)?;
            Ok(choose_value(condition, left, right))
        },
        Opcode::Bitselect => {
            let mask: V = arg(s, c, 0)?;
            let x: V = arg(s, c, 1)?;
            let y: V = arg(s, c, 2)?;
            assign_result(bitselect(mask, x, y))
        },
        Opcode::Icmp => {
            let code: IntCC = c.data().cond_code().unwrap();
            let x: V = arg(s, c, 0)?;
            let y: V = arg(s, c, 1)?;
            assign_result(icmp(ty, code, &x, &y))
        },
        Opcode::IcmpImm => {
            let code: IntCC = c.data().cond_code().unwrap();
            let x: V = arg(s, c, 0)?;
            let y: V = imm_as_ctrl_ty(s, c, ty)?;
            assign_result(icmp(ty, code, &x, &y))
        },
        Opcode::Smin | Opcode::Umin | Opcode::Smax | Opcode::Umax => eval_extreme(s, c, op, ty),
        _ => vstd::pervasive::unreached(),
    }
}

} // verus!
