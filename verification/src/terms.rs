//! The words in which the laws speak of an instruction, its operands and what a step comes to.
use crate::eval::{eval, lemma_sequence_of_error, lemma_sequence_of_values, sequence, Eval};
use crate::flow::{CraneliftTrap, Effect, Flow, StepError};
use crate::ir::{MemFlags, Opcode, TrapCode, ValueRef};
use crate::lanes::vector_of;
use crate::state::{Address, InstructionContext, MemoryError, State};
use crate::types::Type;
use crate::value::{Value, ValueError, ValueResult};
use vstd::prelude::*;

verus! {

/// Whether `c` is an instruction with the opcode `op` and the controlling type `ty`.
pub open spec fn is_instruction<I: InstructionContext>(c: I, op: Opcode, ty: Type) -> bool {
    c.spec_data().opcode() == op && c.spec_controlling_type() == Some(ty)
}

/// Whether the instruction has an argument `i`, and its value is `x`.
pub open spec fn arg_is<'a, V: Value, S: State<'a, V>, I: InstructionContext>(
    s: S,
    c: I,
    i: int,
    x: V,
) -> bool {
    0 <= i < c.spec_args().len() && s.value_of(c.spec_args()[i]) == Some(x)
}

/// Whether the instruction has an argument `i`, and it has no value.
pub open spec fn arg_unknown<'a, V: Value, S: State<'a, V>, I: InstructionContext>(
    s: S,
    c: I,
    i: int,
) -> bool {
    0 <= i < c.spec_args().len() && s.value_of(c.spec_args()[i]) is None
}

/// Whether `values` are the values of the references `names`, one by one and in order.
pub open spec fn are_values_of<'a, V: Value, S: State<'a, V>>(
    s: S,
    names: Seq<ValueRef>,
    values: Seq<V>,
) -> bool {
    &&& values.len() == names.len()
    &&& forall|i: int| 0 <= i < names.len() ==> s.value_of(names[i]) == Some(#[trigger] values[i])
}

/// Whether `name` is the first of the references `names` that has no value.
pub open spec fn is_first_unknown<'a, V: Value, S: State<'a, V>>(
    s: S,
    names: Seq<ValueRef>,
    name: ValueRef,
) -> bool {
    exists|k: int|
        0 <= k < names.len() && #[trigger] names[k] == name && s.value_of(name) is None && (forall|
            i: int,
        |
            0 <= i < k ==> s.value_of(#[trigger] names[i]) is Some)
}

/// Whether the step assigns `v` to the one result of the instruction, and does nothing else.
pub open spec fn assigns<V>(r: Eval<Effect<V>, StepError>, v: V) -> bool {
    r == Eval::<Effect<V>, StepError>::Value(Effect::Flow(Flow::Assign(seq![v])))
}

/// Whether the step assigns `v` and `w` to the two results of the instruction, and does nothing
/// else.
pub open spec fn assigns_two<V>(r: Eval<Effect<V>, StepError>, v: V, w: V) -> bool {
    r == Eval::<Effect<V>, StepError>::Value(Effect::Flow(Flow::Assign(seq![v, w])))
}

/// Whether the step goes on to the next instruction, and does nothing else.
pub open spec fn goes_on<V>(r: Eval<Effect<V>, StepError>) -> bool {
    r == Eval::<Effect<V>, StepError>::Value(Effect::Flow(Flow::Continue))
}

/// Whether the step traps with `code`, and does nothing else.
pub open spec fn traps<V>(r: Eval<Effect<V>, StepError>, code: TrapCode) -> bool {
    r == Eval::<Effect<V>, StepError>::Value(Effect::Flow(Flow::Trap(CraneliftTrap::User(code))))
}

/// Whether the step traps as it has to if an access to memory fails with `e`: the code tells an
/// access that is misaligned from any other.
pub open spec fn traps_for<V>(r: Eval<Effect<V>, StepError>, e: MemoryError) -> bool {
    match e {
        MemoryError::MisalignedLoad { .. } | MemoryError::MisalignedStore { .. } => traps(
            r,
            TrapCode::HeapMisaligned,
        ),
        _ => traps(r, TrapCode::HeapOutOfBounds),
    }
}

/// Whether the step assigns what an access to memory gives, or traps since it fails.
pub open spec fn accesses<V>(r: Eval<Effect<V>, StepError>, outcome: Result<V, MemoryError>) -> bool {
    match outcome {
        Ok(v) => assigns(r, v),
        Err(e) => traps_for(r, e),
    }
}

/// Whether the step stores `value` at `addr`, and then goes on as `done` says.
pub open spec fn stores_value<V>(
    r: Eval<Effect<V>, StepError>,
    addr: Address,
    value: V,
    flags: MemFlags,
    done: Flow<V>,
) -> bool {
    r == Eval::<Effect<V>, StepError>::Value(Effect::Store { addr, value, flags, done })
}

/// Whether the step fails with an error of an operation on values.
pub open spec fn fails_with<V>(r: Eval<Effect<V>, StepError>, e: ValueError) -> bool {
    r == Eval::<Effect<V>, StepError>::Error(StepError::ValueError(e))
}

/// Whether the step fails since `name` has no value.
pub open spec fn misses<V>(r: Eval<Effect<V>, StepError>, name: ValueRef) -> bool {
    r == Eval::<Effect<V>, StepError>::Error(StepError::UnknownValue(name))
}

/// Whether the step assigns the value that an operation gives, or fails with its error.
pub open spec fn yields<V>(r: Eval<Effect<V>, StepError>, outcome: ValueResult<V>) -> bool {
    match outcome {
        Ok(v) => assigns(r, v),
        Err(e) => fails_with(r, e),
    }
}

/// Whether the step assigns the value that a computation gives, or fails with its error.
pub open spec fn comes_to<V>(r: Eval<Effect<V>, StepError>, outcome: Eval<V, ValueError>) -> bool {
    match outcome {
        Eval::Value(v) => assigns(r, v),
        Eval::Error(e) => fails_with(r, e),
        Eval::Undefined => r is Undefined,
    }
}

/// Whether each of the first lanes has a result, and the results are `zs`.
pub open spec fn all_become<V>(lane: spec_fn(int) -> ValueResult<V>, zs: Seq<V>) -> bool {
    forall|i: int| 0 <= i < zs.len() ==> lane(i) == Ok::<V, ValueError>(#[trigger] zs[i])
}

/// Whether lane `k` is the first one that fails, and it fails with `e`.
pub open spec fn fails_first<V>(lane: spec_fn(int) -> ValueResult<V>, k: int, e: ValueError) -> bool {
    &&& 0 <= k
    &&& forall|i: int| 0 <= i < k ==> (#[trigger] lane(i)) is Ok
    &&& lane(k) == Err::<V, ValueError>(e)
}

/// Whether a computation makes a vector of type `ty` of the results of `n` lanes, or fails with the
/// error of the first lane that fails.
pub open spec fn packs<V: Value>(
    r: Eval<V, ValueError>,
    n: nat,
    lane: spec_fn(int) -> ValueResult<V>,
    ty: Type,
) -> bool {
    &&& forall|zs: Seq<V>| zs.len() == n && #[trigger] all_become(lane, zs) ==> r == vector_of(zs, ty)
    &&& forall|k: int, e: ValueError|
        k < n && #[trigger] fails_first(lane, k, e) ==> r == Eval::<V, ValueError>::Error(e)
}

/// Whether the step assigns the vector of type `ty` that the results of `n` lanes make, or fails
/// with the error of the first lane that fails.
pub open spec fn collects<V: Value>(
    r: Eval<Effect<V>, StepError>,
    n: nat,
    lane: spec_fn(int) -> ValueResult<V>,
    ty: Type,
) -> bool {
    &&& forall|zs: Seq<V>|
        zs.len() == n && #[trigger] all_become(lane, zs) ==> comes_to(r, vector_of(zs, ty))
    &&& forall|k: int, e: ValueError|
        k < n && #[trigger] fails_first(lane, k, e) ==> fails_with(r, e)
}

/// Evaluating lanes in sequence gives all results, or the error of the first lane that fails.
pub proof fn lemma_lanes<V: Value>(
    evals: Seq<Eval<V, ValueError>>,
    lane: spec_fn(int) -> ValueResult<V>,
)
    requires
        forall|i: int| 0 <= i < evals.len() ==> (#[trigger] evals[i]) == eval(lane(i)),
    ensures
        forall|zs: Seq<V>|
            zs.len() == evals.len() && #[trigger] all_become(lane, zs) ==> sequence(evals)
                == Eval::<Seq<V>, ValueError>::Value(zs),
        forall|k: int, e: ValueError|
            k < evals.len() && #[trigger] fails_first(lane, k, e) ==> sequence(evals) == Eval::<
                Seq<V>,
                ValueError,
            >::Error(e),
{
    assert forall|zs: Seq<V>| zs.len() == evals.len() && #[trigger] all_become(
        lane,
        zs,
    ) implies sequence(evals) == Eval::<Seq<V>, ValueError>::Value(zs) by {
        assert forall|i: int| 0 <= i < evals.len() implies (#[trigger] evals[i]) == Eval::<
            V,
            ValueError,
        >::Value(zs[i]) by {
            assert(lane(i) == Ok::<V, ValueError>(zs[i]));
        }
        lemma_sequence_of_values(evals, zs);
    }
    assert forall|k: int, e: ValueError| k < evals.len() && #[trigger] fails_first(
        lane,
        k,
        e,
    ) implies sequence(evals) == Eval::<Seq<V>, ValueError>::Error(e) by {
        assert forall|i: int| 0 <= i < k implies (#[trigger] evals[i]) is Value by {
            assert(lane(i) is Ok);
        }
        lemma_sequence_of_error(evals, k, e);
    }
}

} // verus!
