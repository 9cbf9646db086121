//! What branches, traps, returns and calls do.
use crate::control::{params_match, type_matches};
use crate::eval::{lemma_sequence_stop, lemma_sequence_value, sequence, Eval};
use crate::flow::{CraneliftTrap, Effect, Flow, StepError};
use crate::ir::{
    AbiParam, BlockCall, ExtFuncData, ExternalName, FuncRef, Function, InstructionData, JumpTable,
    JumpTableData, LibCall, Opcode, TrapCode, ValueRef,
};
use crate::operands::values_at;
use crate::state::{Address, InstructionContext, InterpreterFunctionRef, MemoryError, State};
use crate::step::{flow_after_libcall, performed, step_effect};
use crate::terms::{
    are_values_of, arg_is, arg_unknown, assigns, fails_with, goes_on, is_first_unknown,
    is_instruction, misses, traps, traps_for,
};
use crate::types::{LaneType, Type};
use crate::value::{DataValue, Datum, Value, ValueConversionKind, ValueError};
use vstd::prelude::*;

verus! {

/// Reading several references in sequence gives their values in order, or misses the first one that
/// has none.
pub proof fn law_values_in_order<'a, V: Value, S: State<'a, V>>(s: S, names: Seq<ValueRef>)
    ensures
        match sequence(values_at::<V, S>(s, names)) {
            Eval::Value(values) => are_values_of::<V, S>(s, names, values),
            Eval::Error(e) => e matches StepError::UnknownValue(name) && is_first_unknown::<V, S>(
                s,
                names,
                name,
            ),
            Eval::Undefined => false,
        },
    decreases names.len(),
{
    let evals = values_at::<V, S>(s, names);
    lemma_sequence_value(evals);
    if sequence(evals) is Value {
        let values = sequence(evals)->Value_0;
        assert forall|i: int| 0 <= i < names.len() implies s.value_of(names[i]) == Some(
            #[trigger] values[i],
        ) by {
            assert(evals[i] == Eval::<V, StepError>::Value(values[i]));
        }
    } else {
        let init = names.drop_last();
        law_values_in_order::<V, S>(s, init);
        assert(evals.drop_last() =~= values_at::<V, S>(s, init));
        if sequence(evals.drop_last()) is Value {
            let k = names.len() - 1;
            let values = sequence(evals.drop_last())->Value_0;
            assert(evals.last() == evals[k]);
            assert forall|i: int| 0 <= i < k implies s.value_of(#[trigger] names[i]) is Some by {
                assert(init[i] == names[i]);
                assert(s.value_of(init[i]) == Some(values[i]));
            }
            assert(names[k] == names.last());
        } else {
            let name = sequence(evals.drop_last())->Error_0->UnknownValue_0;
            let k = choose|k: int|
                0 <= k < init.len() && #[trigger] init[k] == name && s.value_of(name) is None && (
                forall|i: int| 0 <= i < k ==> s.value_of(#[trigger] init[i]) is Some);
            assert(names[k] == init[k]);
            assert forall|i: int| 0 <= i < k implies s.value_of(#[trigger] names[i]) is Some by {
                assert(init[i] == names[i]);
            }
        }
    }
}

/// Whether the step continues at the block of `target`, with the values of its arguments one by one
/// and in order, or misses the first of them that has no value.
pub open spec fn branches_to<'a, V: Value, S: State<'a, V>>(
    s: S,
    r: Eval<Effect<V>, StepError>,
    target: BlockCall,
) -> bool {
    match r {
        Eval::Value(e) => e matches Effect::Flow(Flow::ContinueAt(block, values)) && block
            == target.block && are_values_of::<V, S>(s, target.args@, values),
        Eval::Error(e) => e matches StepError::UnknownValue(name) && is_first_unknown::<V, S>(
            s,
            target.args@,
            name,
        ),
        Eval::Undefined => false,
    }
}

/// A jump continues at its destination.
pub proof fn law_jump<'a, V: Value, S: State<'a, V>, I: InstructionContext>(
    s: S,
    c: I,
    opcode: Opcode,
    destination: BlockCall,
)
    requires
        c.spec_data() == (InstructionData::Jump { opcode, destination }),
        opcode is Jump,
        c.spec_controlling_type() is Some,
    ensures
        branches_to::<V, S>(s, step_effect::<V, S, I>(s, c), destination),
{
    law_values_in_order::<V, S>(s, destination.args@);
}

/// A conditional branch continues at its first block if its operand is true, at its second one
/// otherwise.
pub proof fn law_brif<'a, V: Value, S: State<'a, V>, I: InstructionContext>(
    s: S,
    c: I,
    opcode: Opcode,
    name: ValueRef,
    block_then: BlockCall,
    block_else: BlockCall,
    v: V,
    b: V,
    condition: bool,
)
    requires
        c.spec_data() == (InstructionData::Brif { opcode, arg: name, block_then, block_else }),
        opcode is Brif,
        c.spec_controlling_type() is Some,
        s.value_of(name) == Some(v),
        v.spec_convert(ValueConversionKind::ToBoolean) == Ok::<V, ValueError>(b),
        b.spec_into_bool() == Ok::<bool, ValueError>(condition),
    ensures
        condition ==> branches_to::<V, S>(s, step_effect::<V, S, I>(s, c), block_then),
        !condition ==> branches_to::<V, S>(s, step_effect::<V, S, I>(s, c), block_else),
{
    law_values_in_order::<V, S>(s, block_then.args@);
    law_values_in_order::<V, S>(s, block_else.args@);
}

/// A conditional branch whose operand has no value, or is neither true nor false, fails.
pub proof fn law_brif_failure<'a, V: Value, S: State<'a, V>, I: InstructionContext>(
    s: S,
    c: I,
    opcode: Opcode,
    name: ValueRef,
    block_then: BlockCall,
    block_else: BlockCall,
)
    requires
        c.spec_data() == (InstructionData::Brif { opcode, arg: name, block_then, block_else }),
        opcode is Brif,
        c.spec_controlling_type() is Some,
    ensures
        s.value_of(name) is None ==> misses(step_effect::<V, S, I>(s, c), name),
        s.value_of(name) matches Some(v) ==> (v.spec_convert(ValueConversionKind::ToBoolean)
            matches Err(e) ==> fails_with(step_effect::<V, S, I>(s, c), e)),
        s.value_of(name) matches Some(v) ==> (v.spec_convert(ValueConversionKind::ToBoolean)
            matches Ok(b) ==> (b.spec_into_bool() matches Err(e) ==> fails_with(
            step_effect::<V, S, I>(s, c),
            e,
        ))),
{
}

/// A branch through a jump table continues at the entry that its operand numbers, counted from zero,
/// and at the default block where there is no such entry.
pub proof fn law_br_table<'a, V: Value, S: State<'a, V>, I: InstructionContext>(
    s: S,
    c: I,
    opcode: Opcode,
    table: JumpTable,
    data: JumpTableData,
    v: V,
    index: i128,
)
    requires
        c.spec_data() == (InstructionData::BranchTable { opcode, table }),
        opcode is BrTable,
        c.spec_controlling_type() is Some,
        table.0 < s.current_function().jump_tables@.len(),
        s.current_function().jump_tables@[table.0 as int] == data,
        arg_is::<V, S, I>(s, c, 0, v),
        v.spec_into_int() == Ok::<i128, ValueError>(index),
    ensures
        forall|k: int|
            0 <= k < data.table@.len() && index == k ==> branches_to::<V, S>(
                s,
                step_effect::<V, S, I>(s, c),
                #[trigger] data.table@[k],
            ),
        index < 0 || index >= data.table@.len() ==> branches_to::<V, S>(
            s,
            step_effect::<V, S, I>(s, c),
            data.default_block,
        ),
{
    law_values_in_order::<V, S>(s, data.default_block.args@);
    if 0 <= index < data.table@.len() {
        law_values_in_order::<V, S>(s, data.table@[index as int].args@);
    }
}

/// A branch through a jump table whose operand has no value, or is no number, fails.
pub proof fn law_br_table_failure<'a, V: Value, S: State<'a, V>, I: InstructionContext>(
    s: S,
    c: I,
    opcode: Opcode,
    table: JumpTable,
)
    requires
        c.spec_data() == (InstructionData::BranchTable { opcode, table }),
        opcode is BrTable,
        c.spec_controlling_type() is Some,
        table.0 < s.current_function().jump_tables@.len(),
    ensures
        arg_unknown::<V, S, I>(s, c, 0) ==> misses(step_effect::<V, S, I>(s, c), c.spec_args()[0]),
        forall|v: V, e: ValueError| #[trigger]
            arg_is::<V, S, I>(s, c, 0, v) && v.spec_into_int() == Err::<i128, ValueError>(e)
                ==> #[trigger] fails_with(step_effect::<V, S, I>(s, c), e),
{
}

/// The unconditional traps: with the code of the instruction, for the debugger, or resumable.
pub proof fn law_traps<'a, V: Value, S: State<'a, V>, I: InstructionContext>(
    s: S,
    c: I,
    code: TrapCode,
)
    requires
        c.spec_controlling_type() is Some,
    ensures
        c.spec_data() == (InstructionData::Trap { opcode: Opcode::Trap, code }) ==> traps(
            step_effect::<V, S, I>(s, c),
            code,
        ),
        c.spec_data().opcode() is Debugtrap ==> step_effect::<V, S, I>(s, c) == Eval::<
            Effect<V>,
            StepError,
        >::Value(Effect::Flow(Flow::Trap(CraneliftTrap::Debug))),
        c.spec_data().opcode() is ResumableTrap ==> step_effect::<V, S, I>(s, c) == Eval::<
            Effect<V>,
            StepError,
        >::Value(Effect::Flow(Flow::Trap(CraneliftTrap::Resumable))),
{
}

/// The conditional traps: `trapz` traps if its operand is false, `trapnz` and `resumable_trapnz` if
/// it is true; otherwise they go on.
pub proof fn law_conditional_traps<'a, V: Value, S: State<'a, V>, I: InstructionContext>(
    s: S,
    c: I,
    code: TrapCode,
    v: V,
    condition: bool,
)
    requires
        c.spec_controlling_type() is Some,
        arg_is::<V, S, I>(s, c, 0, v),
        v.spec_into_bool() == Ok::<bool, ValueError>(condition),
    ensures
        c.spec_data() == (InstructionData::CondTrap { opcode: Opcode::Trapz, code }) ==> if condition {
            goes_on(step_effect::<V, S, I>(s, c))
        } else {
            traps(step_effect::<V, S, I>(s, c), code)
        },
        c.spec_data() == (InstructionData::CondTrap { opcode: Opcode::Trapnz, code }) ==> if condition {
            traps(step_effect::<V, S, I>(s, c), code)
        } else {
            goes_on(step_effect::<V, S, I>(s, c))
        },
        c.spec_data().opcode() is ResumableTrapnz ==> if condition {
            step_effect::<V, S, I>(s, c) == Eval::<Effect<V>, StepError>::Value(
                Effect::Flow(Flow::Trap(CraneliftTrap::Resumable)),
            )
        } else {
            goes_on(step_effect::<V, S, I>(s, c))
        },
{
}

/// A conditional trap whose operand has no value, or is no truth value, fails.
pub proof fn law_conditional_trap_failure<'a, V: Value, S: State<'a, V>, I: InstructionContext>(
    s: S,
    c: I,
    op: Opcode,
    ty: Type,
    v: V,
    e: ValueError,
)
    requires
        is_instruction(c, op, ty),
        op is Trapz || op is Trapnz || op is ResumableTrapnz,
    ensures
        arg_unknown::<V, S, I>(s, c, 0) ==> misses(step_effect::<V, S, I>(s, c), c.spec_args()[0]),
        arg_is::<V, S, I>(s, c, 0, v) && v.spec_into_bool() == Err::<bool, ValueError>(e)
            ==> fails_with(step_effect::<V, S, I>(s, c), e),
{
}

/// A return gives the values of its arguments one by one and in order, or misses the first one that
/// has none.
pub proof fn law_returned_values<'a, V: Value, S: State<'a, V>, I: InstructionContext>(
    s: S,
    c: I,
    ty: Type,
)
    requires
        is_instruction(c, Opcode::Return, ty),
    ensures
        match step_effect::<V, S, I>(s, c) {
            Eval::Value(e) => e matches Effect::Flow(Flow::Return(values)) && are_values_of::<V, S>(
                s,
                c.spec_args(),
                values,
            ),
            Eval::Error(e) => e matches StepError::UnknownValue(name) && is_first_unknown::<V, S>(
                s,
                c.spec_args(),
                name,
            ),
            Eval::Undefined => false,
        },
{
    law_values_in_order::<V, S>(s, c.spec_args());
}

/// Whether a value of type `found` may be passed where `expected` is declared: the types are equal,
/// or both are vectors.
pub open spec fn may_be_passed(found: Type, expected: Type) -> bool {
    found == expected || (found is Vector && expected is Vector)
}

/// Whether calling `f` with `values` leads where it has to: into `f` with these values, as a tail
/// call exactly if `tail`; a value whose type is not the declared one makes it a trap.
pub open spec fn enters<V: Value>(
    r: Eval<Effect<V>, StepError>,
    f: Function,
    values: Seq<V>,
    tail: bool,
) -> bool {
    let fits = forall|i: int|
        0 <= i < values.len() && i < f.signature.params@.len() ==> may_be_passed(
            (#[trigger] values[i]).spec_ty(),
            f.signature.params@[i].value_type,
        );
    if !fits {
        traps(r, TrapCode::BadSignature)
    } else if tail {
        r == Eval::<Effect<V>, StepError>::Value(Effect::Flow(Flow::ReturnCall(f, values)))
    } else {
        r == Eval::<Effect<V>, StepError>::Value(Effect::Flow(Flow::Call(f, values)))
    }
}

/// The type of the parameters and of the return value of a library routine on floats.
pub open spec fn routine_type(libcall: LibCall) -> Option<Type> {
    match libcall {
        LibCall::CeilF32 | LibCall::FloorF32 | LibCall::TruncF32 | LibCall::NearestF32
        | LibCall::FmaF32 => Some(Type::Lane(LaneType::F32)),
        LibCall::CeilF64 | LibCall::FloorF64 | LibCall::TruncF64 | LibCall::NearestF64
        | LibCall::FmaF64 => Some(Type::Lane(LaneType::F64)),
        _ => None,
    }
}

/// Whether calling a library routine with `values` runs it with these values; a value whose type is
/// not the declared one makes it a trap. A fused product has three parameters, any other routine
/// one, and each of them one return value.
pub open spec fn runs<V: Value>(
    r: Eval<Effect<V>, StepError>,
    libcall: LibCall,
    values: Seq<V>,
) -> bool {
    let ty = routine_type(libcall)->0;
    let count: int = if libcall is FmaF32 || libcall is FmaF64 {
        3
    } else {
        1
    };
    let fits = forall|i: int|
        0 <= i < values.len() && i < count ==> may_be_passed((#[trigger] values[i]).spec_ty(), ty);
    if !fits {
        traps(r, TrapCode::BadSignature)
    } else {
        r matches Eval::Value(e) && (e matches Effect::LibCall { libcall: routine, args, ret_params }
            && routine == libcall && args == values && ret_params.len() == 1
            && ret_params[0].value_type == ty)
    }
}

/// A direct call passes the values of all its arguments in order to the function that it names.
pub proof fn law_call<'a, V: Value, S: State<'a, V>, I: InstructionContext>(
    s: S,
    c: I,
    opcode: Opcode,
    func_ref: FuncRef,
    data: ExtFuncData,
    f: &'a Function,
    values: Seq<V>,
)
    requires
        c.spec_data() == (InstructionData::Call { opcode, func_ref }),
        opcode is Call || opcode is ReturnCall,
        c.spec_controlling_type() is Some,
        func_ref.0 < s.current_function().ext_funcs@.len(),
        s.current_function().ext_funcs@[func_ref.0 as int] == data,
        data.name is User || data.name is TestCase,
        s.function(func_ref) == Some(f),
        are_values_of::<V, S>(s, c.spec_args(), values),
    ensures
        enters(step_effect::<V, S, I>(s, c), *f, values, opcode is ReturnCall),
{
    lemma_values::<V, S>(s, c.spec_args(), values);
    lemma_params(f.signature.params@, values);
}

/// A direct call of a library routine passes the values of all its arguments in order to the routine
/// that it names.
pub proof fn law_library_call<'a, V: Value, S: State<'a, V>, I: InstructionContext>(
    s: S,
    c: I,
    func_ref: FuncRef,
    data: ExtFuncData,
    libcall: LibCall,
    values: Seq<V>,
)
    requires
        c.spec_data() == (InstructionData::Call { opcode: Opcode::Call, func_ref }),
        c.spec_controlling_type() is Some,
        func_ref.0 < s.current_function().ext_funcs@.len(),
        s.current_function().ext_funcs@[func_ref.0 as int] == data,
        data.name == ExternalName::LibCall(libcall),
        routine_type(libcall) is Some,
        are_values_of::<V, S>(s, c.spec_args(), values),
    ensures
        runs(step_effect::<V, S, I>(s, c), libcall, values),
{
    lemma_values::<V, S>(s, c.spec_args(), values);
    lemma_params(InterpreterFunctionRef::LibCall(libcall).params(), values);
}

/// An indirect call passes the values of all its arguments but the first in order to the function at
/// the address that the first one holds.
pub proof fn law_indirect_call<'a, V: Value, S: State<'a, V>, I: InstructionContext>(
    s: S,
    c: I,
    op: Opcode,
    ty: Type,
    first: V,
    passed: Seq<V>,
    n: i128,
    bits: u64,
    addr: Address,
    func: InterpreterFunctionRef<'a>,
)
    requires
        is_instruction(c, op, ty),
        op is CallIndirect || op is ReturnCallIndirect,
        arg_is::<V, S, I>(s, c, 0, first),
        passed.len() == c.spec_args().len() - 1,
        forall|i: int|
            0 <= i < passed.len() ==> s.value_of(c.spec_args()[i + 1]) == Some(#[trigger] passed[i]),
        first.spec_into_int() == Ok::<i128, ValueError>(n),
        bits == n as int % 0x1_0000_0000_0000_0000,
        s.spec_address_from_data(Datum::U64(bits)) == Ok::<Address, MemoryError>(addr),
        s.function_at(addr) == Some(func),
    ensures
        func matches InterpreterFunctionRef::Function(f) ==> enters(
            step_effect::<V, S, I>(s, c),
            *f,
            passed,
            op is ReturnCallIndirect,
        ),
        func matches InterpreterFunctionRef::LibCall(libcall) ==> op is CallIndirect && routine_type(
            libcall,
        ) is Some ==> runs(step_effect::<V, S, I>(s, c), libcall, passed),
{
    let values = seq![first] + passed;
    assert forall|i: int| 0 <= i < values.len() implies s.value_of(c.spec_args()[i]) == Some(
        #[trigger] values[i],
    ) by {
        if i > 0 {
            assert(values[i] == passed[i - 1]);
        }
    }
    lemma_values::<V, S>(s, c.spec_args(), values);
    lemma_params(func.params(), passed);
    assert(values.drop_first() =~= passed);
}

/// A call of a function that is not known fails, and a call misses the first of its arguments that
/// has no value.
pub proof fn law_call_failure<'a, V: Value, S: State<'a, V>, I: InstructionContext>(
    s: S,
    c: I,
    opcode: Opcode,
    func_ref: FuncRef,
)
    requires
        c.spec_data() == (InstructionData::Call { opcode, func_ref }),
        opcode is Call || opcode is ReturnCall,
        c.spec_controlling_type() is Some,
    ensures
        func_ref.0 >= s.current_function().ext_funcs@.len() ==> step_effect::<V, S, I>(s, c)
            == Eval::<Effect<V>, StepError>::Error(StepError::UnknownFunction(func_ref)),
        forall|values: Seq<V>|
            func_ref.0 < s.current_function().ext_funcs@.len() && (
            s.current_function().ext_funcs@[func_ref.0 as int].name is User
                || s.current_function().ext_funcs@[func_ref.0 as int].name is TestCase)
                && s.function(func_ref) is None && #[trigger] are_values_of::<V, S>(
                s,
                c.spec_args(),
                values,
            ) ==> step_effect::<V, S, I>(s, c) == Eval::<Effect<V>, StepError>::Error(
                StepError::UnknownFunction(func_ref),
            ),
        forall|name: ValueRef|
            func_ref.0 < s.current_function().ext_funcs@.len() && #[trigger] is_first_unknown::<
                V,
                S,
            >(s, c.spec_args(), name) ==> misses(step_effect::<V, S, I>(s, c), name),
{
    assert forall|values: Seq<V>| #[trigger]
        are_values_of::<V, S>(s, c.spec_args(), values) implies sequence(
        values_at::<V, S>(s, c.spec_args()),
    ) == Eval::<Seq<V>, StepError>::Value(values) by {
        lemma_values::<V, S>(s, c.spec_args(), values);
    }
    assert forall|name: ValueRef| #[trigger]
        is_first_unknown::<V, S>(s, c.spec_args(), name) implies sequence(
        values_at::<V, S>(s, c.spec_args()),
    ) == Eval::<Seq<V>, StepError>::Error(StepError::UnknownValue(name)) by {
        lemma_first_unknown::<V, S>(s, c.spec_args(), name);
    }
}

/// An indirect call fails where its first argument holds no address, or an address without a
/// function.
pub proof fn law_indirect_call_failure<'a, V: Value, S: State<'a, V>, I: InstructionContext>(
    s: S,
    c: I,
    op: Opcode,
    ty: Type,
    values: Seq<V>,
    n: i128,
    bits: u64,
)
    requires
        is_instruction(c, op, ty),
        op is CallIndirect || op is ReturnCallIndirect,
        c.spec_args().len() > 0,
        are_values_of::<V, S>(s, c.spec_args(), values),
        values[0].spec_into_int() == Ok::<i128, ValueError>(n),
        bits == n as int % 0x1_0000_0000_0000_0000,
    ensures
        s.spec_address_from_data(Datum::U64(bits)) matches Err(e) ==> step_effect::<V, S, I>(s, c)
            == Eval::<Effect<V>, StepError>::Error(StepError::MemoryError(e)),
        s.spec_address_from_data(Datum::U64(bits)) matches Ok(addr) ==> s.function_at(addr) is None
            ==> step_effect::<V, S, I>(s, c) == Eval::<Effect<V>, StepError>::Error(
            StepError::MemoryError(MemoryError::InvalidAddress(DataValue::U64(bits))),
        ),
{
    lemma_values::<V, S>(s, c.spec_args(), values);
}

/// The address of a function is that of the function that the instruction names, in the size that
/// the controlling type asks for.
pub proof fn law_func_addr<'a, V: Value, S: State<'a, V>, I: InstructionContext>(
    s: S,
    c: I,
    func_ref: FuncRef,
    ty: Type,
    name: ExternalName,
)
    requires
        c.spec_data() == (InstructionData::FuncAddr { opcode: Opcode::FuncAddr, func_ref }),
        c.spec_controlling_type() == Some(ty),
        func_ref.0 < s.current_function().ext_funcs@.len(),
        s.current_function().ext_funcs@[func_ref.0 as int].name == name,
    ensures
        match s.spec_address_size(ty) {
            Err(e) => traps_for(step_effect::<V, S, I>(s, c), e),
            Ok(size) => match s.spec_function_address(size, name) {
                Err(e) => traps_for(step_effect::<V, S, I>(s, c), e),
                Ok(addr) => match s.spec_address_to_data(addr) {
                    Err(e) => traps_for(step_effect::<V, S, I>(s, c), e),
                    Ok(data) => assigns(step_effect::<V, S, I>(s, c), V::spec_from_data(data)),
                },
            },
        },
{
}

/// Values that are known are what reading them in sequence gives.
pub proof fn lemma_values<'a, V: Value, S: State<'a, V>>(
    s: S,
    names: Seq<ValueRef>,
    values: Seq<V>,
)
    requires
        are_values_of::<V, S>(s, names, values),
    ensures
        sequence(values_at::<V, S>(s, names)) == Eval::<Seq<V>, StepError>::Value(values),
{
    let evals = values_at::<V, S>(s, names);
    assert forall|i: int| 0 <= i < evals.len() implies (#[trigger] evals[i]) == Eval::<
        V,
        StepError,
    >::Value(values[i]) by {
        assert(s.value_of(names[i]) == Some(values[i]));
    }
    lemma_sequence_value(evals);
    assert(sequence(evals) is Value);
    let read = sequence(evals)->Value_0;
    assert forall|i: int| 0 <= i < values.len() implies read[i] == values[i] by {
        assert(evals[i] == Eval::<V, StepError>::Value(read[i]));
    }
    assert(read =~= values);
}

/// The first reference without a value is what reading them in sequence misses.
pub proof fn lemma_first_unknown<'a, V: Value, S: State<'a, V>>(
    s: S,
    names: Seq<ValueRef>,
    name: ValueRef,
)
    requires
        is_first_unknown::<V, S>(s, names, name),
    ensures
        sequence(values_at::<V, S>(s, names)) == Eval::<Seq<V>, StepError>::Error(
            StepError::UnknownValue(name),
        ),
{
    let evals = values_at::<V, S>(s, names);
    let k = choose|k: int|
        0 <= k < names.len() && #[trigger] names[k] == name && s.value_of(name) is None && (forall|
            i: int,
        |
            0 <= i < k ==> s.value_of(#[trigger] names[i]) is Some);
    let first = evals.take(k);
    assert forall|i: int| 0 <= i < first.len() implies (#[trigger] first[i]) is Value by {
        assert(s.value_of(names[i]) is Some);
    }
    lemma_sequence_value(first);
    lemma_sequence_stop(evals, k);
}

/// Whether all values may be passed, in the words of the laws.
proof fn lemma_params<V: Value>(sig: Seq<AbiParam>, values: Seq<V>)
    ensures
        params_match(sig, values) <==> (forall|i: int|
            0 <= i < values.len() && i < sig.len() ==> may_be_passed(
                (#[trigger] values[i]).spec_ty(),
                sig[i].value_type,
            )),
{
    if params_match(sig, values) {
        assert forall|i: int| 0 <= i < values.len() && i < sig.len() implies may_be_passed(
            (#[trigger] values[i]).spec_ty(),
            sig[i].value_type,
        ) by {
            assert(type_matches(values[i].spec_ty(), sig[i].value_type));
        }
    }
}

/// Values may be passed where their types are the declared ones, as far as both go.
pub proof fn law_signature_params<V: Value>(sig: Seq<AbiParam>, values: Seq<V>)
    ensures
        params_match(sig, values) <==> (forall|i: int|
            0 <= i < values.len() && i < sig.len() ==> may_be_passed(
                (#[trigger] values[i]).spec_ty(),
                sig[i].value_type,
            )),
{
    lemma_params(sig, values);
}

/// Performing a call of a library routine asks the state for exactly that call, and leaves the state
/// as it is. Return values of the declared types are assigned, other ones are a trap, and a trap of
/// the routine is a trap of the program.
pub proof fn law_library_call_performed<'a, V: Value, S: State<'a, V>>(
    pre: S,
    libcall: LibCall,
    args: Seq<V>,
    ret_params: Seq<AbiParam>,
    post: S,
    flow: Flow<V>,
)
    requires
        performed::<V, S>(pre, Effect::LibCall { libcall, args, ret_params }, post, flow),
    ensures
        post == pre,
        exists|reply: Result<Seq<V>, TrapCode>| #[trigger]
            pre.libcall_replies(libcall, args, reply) && match reply {
                Err(code) => flow == Flow::<V>::Trap(CraneliftTrap::User(code)),
                Ok(values) => if forall|i: int|
                    0 <= i < values.len() && i < ret_params.len() ==> may_be_passed(
                        (#[trigger] values[i]).spec_ty(),
                        ret_params[i].value_type,
                    ) {
                    flow == Flow::Assign(values)
                } else {
                    flow == Flow::<V>::Trap(CraneliftTrap::User(TrapCode::BadSignature))
                },
            },
{
    let reply = choose|reply: Result<Seq<V>, TrapCode>| #[trigger]
        pre.libcall_replies(libcall, args, reply) && flow == flow_after_libcall(ret_params, reply);
    assert(pre.libcall_replies(libcall, args, reply));
    if reply is Ok {
        lemma_params(ret_params, reply->Ok_0);
    }
}

} // verus!
