//! What holds of the interpreter as a whole, whatever the values and the state are.
use crate::arith::{binary_results, binary_vector, LaneMap};
use crate::control::{arg_bool, branch_effect, call_effect, called, jump_target, params_match};
use crate::convert::{exact_integer, float_conversion_effect, reshape_effect};
use crate::elementwise::{
    binary_shape, elementwise_effect, first_operand, second_operand, BinaryShape, Operands,
};
use crate::eval::{eval, lemma_sequence_value, sequence, Eval};
use crate::floating::float_effect;
use crate::flow::{assigned, assigned_result, trapped, CraneliftTrap, Effect, Flow, StepError};
use crate::integer::{carry_effect, fixed_point_effect, integer_effect};
use crate::ir::{
    AtomicRmwOp, BlockCall, FuncRef, InstructionData, JumpTable, JumpTableData, MemFlags, Opcode,
    TrapCode, ValueRef,
};
use crate::memory::{
    access_effect, arg_bits, atomic_effect, global_effect, load_address, load_shape, loaded,
    replacement, stack_effect,
};
use crate::operands::{arg_value, continued_at, imm_as_ctrl_value, values_at};
use crate::select::{constant_effect, select_effect};
use crate::state::{Address, InstructionContext, InterpreterFunctionRef, MemoryError, State};
use crate::step::{group, performed, step_effect};
use crate::types::{LaneType, Type};
use crate::value::{BinaryOp, Value, ValueConversionKind, ValueError};
use crate::vector::{rearrange_effect, summary_effect};
use vstd::prelude::*;

verus! {

/// The instructions that store to memory.
pub open spec fn is_store(op: Opcode) -> bool {
    ||| op is Store
    ||| op is Istore8
    ||| op is Istore16
    ||| op is Istore32
    ||| op is StackStore
    ||| op is AtomicRmw
    ||| op is AtomicCas
    ||| op is AtomicStore
}

/// The instructions that may run a library routine.
pub open spec fn is_call(op: Opcode) -> bool {
    op is Call || op is CallIndirect
}

/// Whether an effect is one that an instruction with opcode `op` may have.
pub open spec fn fits<V>(effect: Effect<V>, op: Opcode) -> bool {
    match effect {
        Effect::Flow(_) => true,
        Effect::Store { .. } => is_store(op),
        Effect::SetPinnedReg { .. } => op is SetPinnedReg,
        Effect::LibCall { .. } => is_call(op),
    }
}

/// Whether an error comes from a value.
pub open spec fn is_value_failure(e: StepError) -> bool {
    e is UnknownValue || e is ValueError
}

/// Whether an instruction only changes the control flow, or fails because of a value.
pub open spec fn is_plain<V>(r: Eval<Effect<V>, StepError>) -> bool {
    &&& r matches Eval::Value(e) ==> e is Flow
    &&& r matches Eval::Error(e) ==> is_value_failure(e)
}

proof fn lemma_fixed_point_outcome<'a, V: Value, S: State<'a, V>, I: InstructionContext>(
    s: S,
    c: I,
    ty: Type,
)
    ensures
        is_plain(fixed_point_effect::<V, S, I>(s, c, ty)),
{
}

proof fn lemma_elementwise_outcome<'a, V: Value, S: State<'a, V>, I: InstructionContext>(
    s: S,
    c: I,
    op: Opcode,
    ty: Type,
)
    ensures
        is_plain(elementwise_effect::<V, S, I>(s, c, op, ty)),
{
}

proof fn lemma_carry_outcome<'a, V: Value, S: State<'a, V>, I: InstructionContext>(
    s: S,
    c: I,
    op: Opcode,
    ty: Type,
)
    ensures
        is_plain(carry_effect::<V, S, I>(s, c, op, ty)),
{
}

proof fn lemma_integer_outcome<'a, V: Value, S: State<'a, V>, I: InstructionContext>(
    s: S,
    c: I,
    op: Opcode,
    ty: Type,
)
    ensures
        is_plain(integer_effect::<V, S, I>(s, c, op, ty)),
{
    let r = integer_effect::<V, S, I>(s, c, op, ty);
    match op {
        Opcode::SqmulRoundSat => {
            lemma_fixed_point_outcome::<V, S, I>(s, c, ty);
            assert(is_plain(r));
        },
        Opcode::Umulhi | Opcode::Smulhi => {
            assert(is_plain(r));
        },
        Opcode::IaddPairwise | Opcode::AvgRound | Opcode::Iabs => {
            assert(is_plain(r));
        },
        _ => {},
    }
}

proof fn lemma_float_outcome<'a, V: Value, S: State<'a, V>, I: InstructionContext>(
    s: S,
    c: I,
    op: Opcode,
    ty: Type,
)
    ensures
        is_plain(float_effect::<V, S, I>(s, c, op, ty)),
{
}

proof fn lemma_reshape_outcome<'a, V: Value, S: State<'a, V>, I: InstructionContext>(
    s: S,
    c: I,
    op: Opcode,
    ty: Type,
)
    ensures
        is_plain(reshape_effect::<V, S, I>(s, c, op, ty)),
{
}

proof fn lemma_float_conversion_outcome<'a, V: Value, S: State<'a, V>, I: InstructionContext>(
    s: S,
    c: I,
    op: Opcode,
    ty: Type,
)
    ensures
        is_plain(float_conversion_effect::<V, S, I>(s, c, op, ty)),
{
}

proof fn lemma_rearrange_outcome<'a, V: Value, S: State<'a, V>, I: InstructionContext>(
    s: S,
    c: I,
    op: Opcode,
    ty: Type,
)
    ensures
        is_plain(rearrange_effect::<V, S, I>(s, c, op, ty)),
{
}

proof fn lemma_summary_outcome<'a, V: Value, S: State<'a, V>, I: InstructionContext>(
    s: S,
    c: I,
    op: Opcode,
    ty: Type,
)
    ensures
        is_plain(summary_effect::<V, S, I>(s, c, op, ty)),
{
}

proof fn lemma_constant_outcome<'a, V: Value, S: State<'a, V>, I: InstructionContext>(
    s: S,
    c: I,
    op: Opcode,
    ty: Type,
)
    ensures
        is_plain(constant_effect::<V, S, I>(s, c, op, ty)),
{
}

proof fn lemma_select_outcome<'a, V: Value, S: State<'a, V>, I: InstructionContext>(
    s: S,
    c: I,
    op: Opcode,
    ty: Type,
)
    ensures
        is_plain(select_effect::<V, S, I>(s, c, op, ty)),
{
}

proof fn lemma_memory_fits<'a, V: Value, S: State<'a, V>, I: InstructionContext>(
    s: S,
    c: I,
    op: Opcode,
    ty: Type,
)
    ensures
        branch_effect::<V, S, I>(s, c, op) matches Eval::Value(e) ==> e is Flow,
        call_effect::<V, S, I>(s, c, op, ty) matches Eval::Value(e) ==> fits(e, op),
        access_effect::<V, S, I>(s, c, op, ty) matches Eval::Value(e) ==> fits(e, op),
        stack_effect::<V, S, I>(s, c, op, ty) matches Eval::Value(e) ==> fits(e, op),
        global_effect::<V, S, I>(s, c, op) matches Eval::Value(e) ==> fits(e, op),
        atomic_effect::<V, S, I>(s, c, op, ty) matches Eval::Value(e) ==> fits(e, op),
{
}

/// Only the store instructions store to memory, only `set_pinned_reg` writes the pinned register,
/// and only calls run library routines.
pub proof fn law_effects<'a, V: Value, S: State<'a, V>, I: InstructionContext>(s: S, c: I)
    ensures
        step_effect::<V, S, I>(s, c) matches Eval::Value(e) ==> fits(e, c.spec_data().opcode()),
{
    let op = c.spec_data().opcode();
    if c.spec_controlling_type() is Some {
        let ty = c.spec_controlling_type()->0;
        lemma_elementwise_outcome::<V, S, I>(s, c, op, ty);
        lemma_carry_outcome::<V, S, I>(s, c, op, ty);
        lemma_integer_outcome::<V, S, I>(s, c, op, ty);
        lemma_float_outcome::<V, S, I>(s, c, op, ty);
        lemma_reshape_outcome::<V, S, I>(s, c, op, ty);
        lemma_float_conversion_outcome::<V, S, I>(s, c, op, ty);
        lemma_rearrange_outcome::<V, S, I>(s, c, op, ty);
        lemma_summary_outcome::<V, S, I>(s, c, op, ty);
        lemma_constant_outcome::<V, S, I>(s, c, op, ty);
        lemma_select_outcome::<V, S, I>(s, c, op, ty);
        lemma_memory_fits::<V, S, I>(s, c, op, ty);
    }
}

/// An instruction that neither stores nor writes the pinned register leaves the state as it is.
pub proof fn law_state_unchanged<'a, V: Value, S: State<'a, V>, I: InstructionContext>(
    pre: S,
    c: I,
    post: S,
    flow: Flow<V>,
)
    requires
        step_effect::<V, S, I>(pre, c) matches Eval::Value(e) && performed::<V, S>(
            pre,
            e,
            post,
            flow,
        ),
        !is_store(c.spec_data().opcode()),
        !(c.spec_data().opcode() is SetPinnedReg),
    ensures
        post == pre,
{
    law_effects::<V, S, I>(pre, c);
}

/// Whether an error is one that an instruction with opcode `op` may fail with.
pub open spec fn may_fail_with(e: StepError, op: Opcode) -> bool {
    match e {
        StepError::UnknownValue(_) | StepError::ValueError(_) => true,
        StepError::UnknownFunction(_) => op is Call || op is ReturnCall || op is FuncAddr,
        StepError::MemoryError(_) => op is CallIndirect || op is ReturnCallIndirect
            || op is TableAddr,
    }
}

proof fn lemma_values_failure<'a, V: Value, S: State<'a, V>>(s: S, names: Seq<ValueRef>)
    ensures
        sequence(values_at::<V, S>(s, names)) matches Eval::Error(e) ==> e is UnknownValue,
        sequence(values_at::<V, S>(s, names)).defined(),
    decreases names.len(),
{
    if names.len() > 0 {
        lemma_values_failure::<V, S>(s, names.drop_last());
        assert(values_at::<V, S>(s, names).drop_last() =~= values_at::<V, S>(s, names.drop_last()));
    }
}

proof fn lemma_memory_failure<'a, V: Value, S: State<'a, V>, I: InstructionContext>(
    s: S,
    c: I,
    op: Opcode,
    ty: Type,
)
    ensures
        access_effect::<V, S, I>(s, c, op, ty) matches Eval::Error(e) ==> is_value_failure(e),
        stack_effect::<V, S, I>(s, c, op, ty) matches Eval::Error(e) ==> is_value_failure(e),
        atomic_effect::<V, S, I>(s, c, op, ty) matches Eval::Error(e) ==> is_value_failure(e),
        global_effect::<V, S, I>(s, c, op) matches Eval::Error(e) ==> may_fail_with(e, op),
{
    lemma_values_failure::<V, S>(s, c.spec_args());
}

proof fn lemma_control_failure<'a, V: Value, S: State<'a, V>, I: InstructionContext>(
    s: S,
    c: I,
    op: Opcode,
    ty: Type,
)
    ensures
        branch_effect::<V, S, I>(s, c, op) matches Eval::Error(e) ==> is_value_failure(e),
        call_effect::<V, S, I>(s, c, op, ty) matches Eval::Error(e) ==> may_fail_with(e, op),
{
    lemma_values_failure::<V, S>(s, c.spec_args());
    match c.spec_data() {
        InstructionData::Jump { destination, .. } => {
            lemma_values_failure::<V, S>(s, destination.args@);
        },
        InstructionData::Brif { block_then, block_else, .. } => {
            lemma_values_failure::<V, S>(s, block_then.args@);
            lemma_values_failure::<V, S>(s, block_else.args@);
        },
        InstructionData::BranchTable { table, .. } => {
            assert forall|index: i128| #[trigger]
                jump_target(s.current_function().jump_table(table)->0, index) == jump_target(
                    s.current_function().jump_table(table)->0,
                    index,
                ) implies sequence(
                values_at::<V, S>(
                    s,
                    jump_target(s.current_function().jump_table(table)->0, index).args@,
                ),
            ) matches Eval::Error(e) ==> e is UnknownValue by {
                lemma_values_failure::<V, S>(
                    s,
                    jump_target(s.current_function().jump_table(table)->0, index).args@,
                );
            }
        },
        _ => {},
    }
}

/// A store goes on as planned, or it traps with one of the codes for the heap.
pub proof fn law_store_outcome<'a, V: Value, S: State<'a, V>>(
    pre: S,
    addr: Address,
    value: V,
    flags: MemFlags,
    done: Flow<V>,
    post: S,
    flow: Flow<V>,
)
    requires
        performed::<V, S>(pre, Effect::Store { addr, value, flags, done }, post, flow),
    ensures
        flow == done || flow == Flow::<V>::Trap(CraneliftTrap::User(TrapCode::HeapOutOfBounds))
            || flow == Flow::<V>::Trap(CraneliftTrap::User(TrapCode::HeapMisaligned)),
{
}

/// Program traps and interpreter errors are distinct. In particular, a memory access that fails is
/// a trap: a memory error ends the interpretation only where an indirect call finds no function, or
/// where a table cannot be resolved.
pub proof fn law_errors<'a, V: Value, S: State<'a, V>, I: InstructionContext>(s: S, c: I)
    ensures
        step_effect::<V, S, I>(s, c) matches Eval::Error(e) ==> may_fail_with(
            e,
            c.spec_data().opcode(),
        ),
{
    let op = c.spec_data().opcode();
    if c.spec_controlling_type() is Some {
        let ty = c.spec_controlling_type()->0;
        lemma_elementwise_outcome::<V, S, I>(s, c, op, ty);
        lemma_carry_outcome::<V, S, I>(s, c, op, ty);
        lemma_integer_outcome::<V, S, I>(s, c, op, ty);
        lemma_float_outcome::<V, S, I>(s, c, op, ty);
        lemma_reshape_outcome::<V, S, I>(s, c, op, ty);
        lemma_float_conversion_outcome::<V, S, I>(s, c, op, ty);
        lemma_rearrange_outcome::<V, S, I>(s, c, op, ty);
        lemma_summary_outcome::<V, S, I>(s, c, op, ty);
        lemma_constant_outcome::<V, S, I>(s, c, op, ty);
        lemma_select_outcome::<V, S, I>(s, c, op, ty);
        lemma_memory_failure::<V, S, I>(s, c, op, ty);
        lemma_control_failure::<V, S, I>(s, c, op, ty);
    }
}

/// The integer divisions.
pub open spec fn is_division(op: Opcode) -> bool {
    op is Udiv || op is Sdiv || op is Urem || op is Srem
}

/// Dividing by zero, and an overflow of a division, are traps of the program; any other failure of
/// a division is an error.
pub proof fn law_division<'a, V: Value, S: State<'a, V>, I: InstructionContext>(
    s: S,
    c: I,
    ty: Type,
    x: V,
    y: V,
)
    requires
        is_division(c.spec_data().opcode()),
        c.spec_controlling_type() == Some(ty),
        arg_value::<V, S, I>(s, c, 0) == Eval::<V, StepError>::Value(x),
        arg_value::<V, S, I>(s, c, 1) == Eval::<V, StepError>::Value(y),
    ensures
        match binary_shape(c.spec_data().opcode())->0.result(x, y, ty) {
            Eval::Value(v) => step_effect::<V, S, I>(s, c) == Eval::<_, StepError>::Value(
                assigned(v),
            ),
            Eval::Error(ValueError::IntegerDivisionByZero) => step_effect::<V, S, I>(s, c)
                == Eval::<_, StepError>::Value(
                trapped::<V>(CraneliftTrap::User(TrapCode::IntegerDivisionByZero)),
            ),
            Eval::Error(ValueError::IntegerOverflow) => step_effect::<V, S, I>(s, c) == Eval::<
                _,
                StepError,
            >::Value(trapped::<V>(CraneliftTrap::User(TrapCode::IntegerOverflow))),
            Eval::Error(e) => step_effect::<V, S, I>(s, c) == Eval::<Effect<V>, StepError>::Error(
                StepError::ValueError(e),
            ),
            Eval::Undefined => step_effect::<V, S, I>(s, c) is Undefined,
        },
{
}

/// `trapz` and `trapnz` with the same operand are opposites: exactly one of them traps, with its
/// code, and the other one goes on.
pub proof fn law_trap_conditions<'a, V: Value, S: State<'a, V>, I: InstructionContext>(
    s: S,
    trapz: I,
    trapnz: I,
    code: TrapCode,
    condition: bool,
)
    requires
        trapz.spec_data().opcode() is Trapz,
        trapnz.spec_data().opcode() is Trapnz,
        trapz.spec_data().trap_code() == Some(code),
        trapnz.spec_data().trap_code() == Some(code),
        trapz.spec_controlling_type() is Some,
        trapnz.spec_controlling_type() is Some,
        arg_bool::<V, S, I>(s, trapz, 0) == Eval::<bool, StepError>::Value(condition),
        arg_bool::<V, S, I>(s, trapnz, 0) == Eval::<bool, StepError>::Value(condition),
    ensures
        step_effect::<V, S, I>(s, if condition { trapnz } else { trapz }) == Eval::<
            Effect<V>,
            StepError,
        >::Value(trapped(CraneliftTrap::User(code))),
        step_effect::<V, S, I>(s, if condition { trapz } else { trapnz }) == Eval::<
            Effect<V>,
            StepError,
        >::Value(Effect::Flow(Flow::Continue)),
{
}

/// A jump table without an entry for the index leads to the default block.
pub proof fn law_jump_table_default<'a, V: Value, S: State<'a, V>, I: InstructionContext>(
    s: S,
    c: I,
    table: JumpTable,
    data: JumpTableData,
    v: V,
    index: i128,
)
    requires
        c.spec_data() == (InstructionData::BranchTable { opcode: Opcode::BrTable, table }),
        c.spec_controlling_type() is Some,
        s.current_function().jump_table(table) == Some(data),
        arg_value::<V, S, I>(s, c, 0) == Eval::<V, StepError>::Value(v),
        v.spec_into_int() == Ok::<i128, ValueError>(index),
        index < 0 || index >= data.table@.len(),
    ensures
        step_effect::<V, S, I>(s, c) == continued_at::<V, S>(s, data.default_block),
{
}

/// A conditional branch continues at the first block if its operand is true, at the second one
/// otherwise.
pub proof fn law_branch<'a, V: Value, S: State<'a, V>, I: InstructionContext>(
    s: S,
    c: I,
    name: ValueRef,
    block_then: BlockCall,
    block_else: BlockCall,
    v: V,
    b: V,
    condition: bool,
)
    requires
        c.spec_data() == (InstructionData::Brif {
            opcode: Opcode::Brif,
            arg: name,
            block_then,
            block_else,
        }),
        c.spec_controlling_type() is Some,
        s.value_of(name) == Some(v),
        v.spec_convert(ValueConversionKind::ToBoolean) == Ok::<V, ValueError>(b),
        b.spec_into_bool() == Ok::<bool, ValueError>(condition),
    ensures
        step_effect::<V, S, I>(s, c) == continued_at::<V, S>(
            s,
            if condition {
                block_then
            } else {
                block_else
            },
        ),
{
}

/// A tail call leads to the same function with the same arguments as a call does, and traps or fails
/// where that one does; only library routines cannot be called that way.
pub proof fn law_tail_call<'a, V: Value, S: State<'a, V>, I: InstructionContext>(
    s: S,
    call: I,
    tail_call: I,
    func_ref: FuncRef,
)
    requires
        call.spec_data() == (InstructionData::Call { opcode: Opcode::Call, func_ref }),
        tail_call.spec_data() == (InstructionData::Call { opcode: Opcode::ReturnCall, func_ref }),
        call.spec_args() == tail_call.spec_args(),
        call.spec_controlling_type() is Some,
        tail_call.spec_controlling_type() is Some,
    ensures
        match step_effect::<V, S, I>(s, call) {
            Eval::Value(Effect::Flow(Flow::Call(func, args))) => step_effect::<V, S, I>(
                s,
                tail_call,
            ) == Eval::<Effect<V>, StepError>::Value(Effect::Flow(Flow::ReturnCall(func, args))),
            Eval::Value(Effect::LibCall { .. }) => step_effect::<V, S, I>(
                s,
                tail_call,
            ) is Undefined,
            r => step_effect::<V, S, I>(s, tail_call) == r,
        },
{
}

/// A call whose arguments do not have the types of the signature is a trap.
pub proof fn law_bad_signature<'a, V: Value>(
    func: InterpreterFunctionRef<'a>,
    values: Seq<V>,
    op: Opcode,
)
    requires
        called(func, values, op).defined(),
    ensures
        called(func, values, op) == Eval::<Effect<V>, StepError>::Value(
            trapped(CraneliftTrap::User(TrapCode::BadSignature)),
        ) <==> !params_match(func.params(), values),
{
}

/// A return gives the values of all arguments, in order.
pub proof fn law_return<'a, V: Value, S: State<'a, V>, I: InstructionContext>(s: S, c: I)
    requires
        c.spec_data().opcode() is Return,
        c.spec_controlling_type() is Some,
    ensures
        step_effect::<V, S, I>(s, c).defined(),
        step_effect::<V, S, I>(s, c) matches Eval::Value(e) ==> (e matches Effect::Flow(
            Flow::Return(values),
        ) && values.len() == c.spec_args().len() && forall|i: int|
            0 <= i < values.len() ==> s.value_of(c.spec_args()[i]) == Some(#[trigger] values[i])),
{
    lemma_values_failure::<V, S>(s, c.spec_args());
    lemma_sequence_value(values_at::<V, S>(s, c.spec_args()));
}

/// An atomic read-modify-write gives the value that was in memory before, and stores the
/// replacement.
pub proof fn law_atomic_rmw<'a, V: Value, S: State<'a, V>, I: InstructionContext>(
    s: S,
    c: I,
    ty: Type,
    rmw: AtomicRmwOp,
    flags: MemFlags,
    bits: u64,
    addr: Address,
    val: V,
    prev: V,
    new: V,
)
    requires
        c.spec_data() == (InstructionData::AtomicRmw { opcode: Opcode::AtomicRmw, flags, op: rmw }),
        c.spec_controlling_type() == Some(ty),
        arg_bits::<V, S, I>(s, c, 0) == Eval::<u64, StepError>::Value(bits),
        arg_value::<V, S, I>(s, c, 1) == Eval::<V, StepError>::Value(val),
        s.spec_decode_address(bits) == Ok::<Address, MemoryError>(addr),
        s.spec_checked_load(addr, ty, flags) == Ok::<V, MemoryError>(prev),
        replacement(rmw, prev, val) == Eval::<V, ValueError>::Value(new),
    ensures
        step_effect::<V, S, I>(s, c) == Eval::<Effect<V>, StepError>::Value(
            Effect::Store { addr, value: new, flags, done: Flow::Assign(seq![prev]) },
        ),
{
}

/// A compare-and-swap gives the value that was in memory before, and stores the new value exactly
/// if that equals the expected one.
pub proof fn law_atomic_cas<'a, V: Value, S: State<'a, V>, I: InstructionContext>(
    s: S,
    c: I,
    ty: Type,
    flags: MemFlags,
    bits: u64,
    addr: Address,
    expected: V,
    new: V,
    prev: V,
    equal: bool,
)
    requires
        c.spec_data() == (InstructionData::AtomicCas { opcode: Opcode::AtomicCas, flags }),
        c.spec_controlling_type() == Some(ty),
        arg_bits::<V, S, I>(s, c, 0) == Eval::<u64, StepError>::Value(bits),
        arg_value::<V, S, I>(s, c, 1) == Eval::<V, StepError>::Value(expected),
        arg_value::<V, S, I>(s, c, 2) == Eval::<V, StepError>::Value(new),
        s.spec_decode_address(bits) == Ok::<Address, MemoryError>(addr),
        s.spec_checked_load(addr, ty, flags) == Ok::<V, MemoryError>(prev),
        prev.spec_eq(expected) == Ok::<bool, ValueError>(equal),
    ensures
        step_effect::<V, S, I>(s, c) == Eval::<Effect<V>, StepError>::Value(
            if equal {
                Effect::Store { addr, value: new, flags, done: Flow::Assign(seq![prev]) }
            } else {
                Effect::Flow(Flow::Assign(seq![prev]))
            },
        ),
{
}

/// A load that fails is a trap, whose code tells a misaligned access from one out of bounds.
pub proof fn law_failed_load<'a, V: Value, S: State<'a, V>, I: InstructionContext>(
    s: S,
    c: I,
    ty: Type,
    flags: MemFlags,
    bits: u64,
    load_ty: Type,
    kind: Option<ValueConversionKind>,
    e: MemoryError,
)
    requires
        load_shape(c.spec_data().opcode(), ty) == Some((load_ty, kind)),
        c.spec_controlling_type() == Some(ty),
        c.spec_data().memflags() == Some(flags),
        load_address::<V, S, I>(s, c, ty) == Eval::<u64, StepError>::Value(bits),
        loaded::<V, S>(s, bits, load_ty, flags) == Err::<V, MemoryError>(e),
    ensures
        step_effect::<V, S, I>(s, c) == Eval::<Effect<V>, StepError>::Value(
            trapped(
                CraneliftTrap::User(
                    if e is MisalignedLoad || e is MisalignedStore {
                        TrapCode::HeapMisaligned
                    } else {
                        TrapCode::HeapOutOfBounds
                    },
                ),
            ),
        ),
{
}

/// On scalars, an operation lane by lane is the operation itself, whatever the type of the vector
/// would be.
pub proof fn law_scalar_binary<V: Value>(x: V, y: V, ty: Type, op: BinaryOp)
    requires
        !x.spec_ty().is_vector(),
        !y.spec_ty().is_vector(),
    ensures
        binary_vector(x, y, ty, op, false) == eval(op.result(x, y)),
{
    let evals = binary_results(seq![x], seq![y], op, false);
    let r = eval(op.result(x, y));
    assert(evals =~= seq![r]);
    assert(evals.drop_last() =~= Seq::empty());
    assert(sequence(evals.drop_last()) == Eval::<Seq<V>, ValueError>::Value(Seq::empty()));
    assert(evals.last() == r);
    if r is Value {
        let v = r->Value_0;
        assert(sequence(evals) == Eval::<Seq<V>, ValueError>::Value(Seq::empty().push(v)));
    }
}

/// On scalars, a step performs the operation itself.
pub proof fn law_scalar_operation<'a, V: Value, S: State<'a, V>, I: InstructionContext>(
    s: S,
    c: I,
    op: BinaryOp,
    operands: Operands,
    ty: Type,
    x: V,
    y: V,
)
    requires
        binary_shape(c.spec_data().opcode()) == Some(BinaryShape::plain(op, operands)),
        c.spec_controlling_type() == Some(ty),
        first_operand::<V, S, I>(s, c, ty, operands) == Eval::<V, StepError>::Value(x),
        second_operand::<V, S, I>(s, c, ty, operands) == Eval::<V, StepError>::Value(y),
        !x.spec_ty().is_vector(),
        !y.spec_ty().is_vector(),
    ensures
        step_effect::<V, S, I>(s, c) == assigned_result(eval(op.result(x, y))),
{
    law_scalar_binary(x, y, ty, op);
    assert(BinaryShape::plain(op, operands).result(x, y, ty) == eval(op.result(x, y)));
    assert(group(c.spec_data().opcode()) is Elementwise);
}

/// An instruction with an immediate does what the instruction without it does if its second
/// argument is the immediate, converted to the controlling type.
pub proof fn law_immediate_form<'a, V: Value, S: State<'a, V>, I: InstructionContext>(
    s: S,
    with_imm: I,
    without: I,
    ty: Type,
    y: V,
)
    requires
        binary_shape(with_imm.spec_data().opcode()) matches Some(shape)
            && shape.operands is Immediate,
        binary_shape(without.spec_data().opcode()) == Some(
            BinaryShape {
                operands: Operands::Values,
                ..binary_shape(with_imm.spec_data().opcode())->0
            },
        ),
        with_imm.spec_controlling_type() == Some(ty),
        without.spec_controlling_type() == Some(ty),
        arg_value::<V, S, I>(s, with_imm, 0) == arg_value::<V, S, I>(s, without, 0),
        imm_as_ctrl_value::<V, S, I>(s, with_imm, ty) == Eval::<V, StepError>::Value(y),
        arg_value::<V, S, I>(s, without, 1) == Eval::<V, StepError>::Value(y),
    ensures
        step_effect::<V, S, I>(s, with_imm) == step_effect::<V, S, I>(s, without),
{
    assert(group(with_imm.spec_data().opcode()) is Elementwise);
    assert(group(without.spec_data().opcode()) is Elementwise);
}

/// A selection gives its second argument if the first one is true, its third one otherwise.
pub proof fn law_select<'a, V: Value, S: State<'a, V>, I: InstructionContext>(
    s: S,
    c: I,
    condition: bool,
    x: V,
    y: V,
)
    requires
        c.spec_data().opcode() is Select || c.spec_data().opcode() is SelectSpectreGuard,
        c.spec_controlling_type() is Some,
        arg_bool::<V, S, I>(s, c, 0) == Eval::<bool, StepError>::Value(condition),
        arg_value::<V, S, I>(s, c, 1) == Eval::<V, StepError>::Value(x),
        arg_value::<V, S, I>(s, c, 2) == Eval::<V, StepError>::Value(y),
    ensures
        step_effect::<V, S, I>(s, c) == Eval::<Effect<V>, StepError>::Value(
            assigned(
                if condition {
                    x
                } else {
                    y
                },
            ),
        ),
{
}

/// The saturating conversion of a float to an integer agrees with the trapping one wherever that
/// one does not trap.
pub proof fn law_saturating_conversion<V: Value>(x: V, lane: LaneType, signed: bool, v: V)
    requires
        exact_integer(x, Type::Lane(lane), signed) == Eval::<
            Result<V, TrapCode>,
            ValueError,
        >::Value(Ok(v)),
    ensures
        (LaneMap::FloatToInt { signed, ty: Type::Lane(lane) }).result(x) == Eval::<
            V,
            ValueError,
        >::Value(v),
{
}

} // verus!
