//! Branches, traps, returns and calls.
use crate::eval::{eval, present, Eval};
use crate::flow::{
    assign_or_memtrap, assigned_or_memtrapped, eval_action, lift, lifted, trap_with, trapped,
    Action, ActionResult, ControlFlow, CraneliftTrap, Effect, Flow, StepError,
};
use crate::ir::{
    AbiParam, BlockCall, ExtFuncData, ExternalName, FuncRef, InstructionData, JumpTableData, Opcode,
    Signature, TrapCode,
};
use crate::operands::{
    arg, arg_value, arg_values, args, continue_at, continued_at, get_value, low_64_bits,
    truncate_to_64_bits, value_at, without_first,
};
use crate::state::{
    Address, AddressSize, InstructionContext, InterpreterFunctionRef, MemoryError, State,
};
use crate::types::Type;
use crate::value::{DataValue, Datum, Value, ValueConversionKind};
use vstd::prelude::*;

verus! {

/// Whether a value of type `found` can stand where `expected` is declared. A vector does not know
/// the type of its lanes, so that any vector can stand for any other.
pub open spec fn type_matches(found: Type, expected: Type) -> bool {
    (found.is_vector() && expected.is_vector()) || found == expected
}

/// Whether the types of the values are those that the signature declares, as far as both go.
pub open spec fn params_match<V: Value>(sig: Seq<AbiParam>, values: Seq<V>) -> bool {
    forall|i: int|
        0 <= i < sig.len() && i < values.len() ==> type_matches(
            (#[trigger] values[i]).spec_ty(),
            sig[i].value_type,
        )
}

/// Ensures that all types in args are the same as expected by the signature
pub fn validate_signature_params<V: Value>(sig: &[AbiParam], args: &Vec<V>) -> (valid: bool)
    ensures
        valid == params_match(sig@, args@),
{
    let mut i: usize = 0;
    while i < sig.len() && i < args.len()
        invariant
            i <= sig.len(),
            i <= args.len(),
            forall|k: int|
                0 <= k < i ==> type_matches((#[trigger] args@[k]).spec_ty(), sig@[k].value_type),
        decreases sig.len() - i,
    {
        let found: Type = args[i].ty();
        let expected: Type = sig[i].value_type;
        if !(found.is_vector() && expected.is_vector()) && found != expected {
            assert(!type_matches(args@[i as int].spec_ty(), sig@[i as int].value_type));
            return false;
        }
        i = i + 1;
    }
    true
}

/// The block that a jump table leads to: the default one if there is no entry for the index.
pub open spec fn jump_target(table: JumpTableData, index: i128) -> BlockCall {
    if 0 <= index < table.table@.len() {
        table.table@[index as int]
    } else {
        table.default_block
    }
}

/// A trap if `condition` holds, otherwise the next instruction.
pub open spec fn trapped_when<V>(condition: bool, trap: CraneliftTrap) -> Effect<V> {
    if condition {
        trapped(trap)
    } else {
        Effect::Flow(Flow::Continue)
    }
}

fn trap_when<'a, V>(condition: bool, trap: CraneliftTrap) -> (action: Action<'a, V>)
    ensures
        action@ == trapped_when::<V>(condition, trap),
{
    if condition {
        trap_with(trap)
    } else {
        Action::Flow(ControlFlow::Continue)
    }
}

/// The truth value of argument `i`.
pub open spec fn arg_bool<'a, V: Value, S: State<'a, V>, I: InstructionContext>(
    s: S,
    c: I,
    i: int,
) -> Eval<bool, StepError> {
    arg_value(s, c, i).bind(|v: V| lifted(eval(v.spec_into_bool())))
}

/// Branches, traps and returns.
pub open spec fn branch_effect<'a, V: Value, S: State<'a, V>, I: InstructionContext>(
    s: S,
    c: I,
    op: Opcode,
) -> Eval<Effect<V>, StepError> {
    let code = present::<TrapCode, StepError>(c.spec_data().trap_code());
    match op {
        Opcode::Jump => match c.spec_data() {
            InstructionData::Jump { destination, .. } => continued_at(s, destination),
            _ => Eval::Undefined,
        },
        Opcode::Brif => match c.spec_data() {
            InstructionData::Brif { arg, block_then, block_else, .. } => value_at(s, arg).bind(
                |v: V|
                    lifted(eval(v.spec_convert(ValueConversionKind::ToBoolean))).bind(
                        |b: V|
                            lifted(eval(b.spec_into_bool())).bind(
                                |condition: bool|
                                    continued_at(
                                        s,
                                        if condition {
                                            block_then
                                        } else {
                                            block_else
                                        },
                                    ),
                            ),
                    ),
            ),
            _ => Eval::Undefined,
        },
        Opcode::BrTable => match c.spec_data() {
            InstructionData::BranchTable { table, .. } => present(
                s.current_function().jump_table(table),
            ).bind(
                |jt: JumpTableData|
                    arg_value(s, c, 0).bind(
                        |v: V|
                            lifted(eval(v.spec_into_int())).bind(
                                |index: i128| continued_at(s, jump_target(jt, index)),
                            ),
                    ),
            ),
            _ => Eval::Undefined,
        },
        Opcode::Trap => code.bind(|t: TrapCode| Eval::Value(trapped(CraneliftTrap::User(t)))),
        Opcode::Debugtrap => Eval::Value(trapped(CraneliftTrap::Debug)),
        Opcode::ResumableTrap => Eval::Value(trapped(CraneliftTrap::Resumable)),
        Opcode::Trapz => arg_bool::<V, S, I>(s, c, 0).bind(
            |b: bool|
                code.bind(|t: TrapCode| Eval::Value(trapped_when(!b, CraneliftTrap::User(t)))),
        ),
        Opcode::Trapnz => arg_bool::<V, S, I>(s, c, 0).bind(
            |b: bool|
                code.bind(|t: TrapCode| Eval::Value(trapped_when(b, CraneliftTrap::User(t)))),
        ),
        Opcode::ResumableTrapnz => arg_bool::<V, S, I>(s, c, 0).bind(
            |b: bool| Eval::Value(trapped_when(b, CraneliftTrap::Resumable)),
        ),
        Opcode::Return => arg_values(s, c).bind(
            |values: Seq<V>| Eval::Value(Effect::Flow(Flow::Return(values))),
        ),
        _ => Eval::Undefined,
    }
}

/// Evaluate a branch, a trap or a return.
pub fn eval_branch<'a, V: Value, S: State<'a, V>, I: InstructionContext>(s: &S, c: &I, op: Opcode) -> (
r: ActionResult<'a, V>)
    requires
        branch_effect::<V, S, I>(*s, *c, op).defined(),
    ensures
        eval_action(r) == branch_effect::<V, S, I>(*s, *c, op),
{
    let inst = c.data();
    match op {
        Opcode::Jump => match inst {
            InstructionData::Jump { destination, .. } => continue_at(s, destination),
            _ => vstd::pervasive::unreached(),
        },
        Opcode::Brif => match inst {
            InstructionData::Brif { arg, block_then, block_else, .. } => {
                let v: V = get_value(s, *arg)?;
                let b: V = lift(v.convert(ValueConversionKind::ToBoolean))?;
                let condition: bool = lift(b.into_bool())?;
                if condition {
                    continue_at(s, block_then)
                } else {
                    continue_at(s, block_else)
                }
            },
            _ => vstd::pervasive::unreached(),
        },
        Opcode::BrTable => match inst {
            InstructionData::BranchTable { table, .. } => {
                let jt_data = &s.get_current_function().jump_tables[table.0 as usize];
                let v: V = arg(s, c, 0)?;
                let index: i128 = lift(v.into_int())?;
                if 0 <= index && index < jt_data.table.len() as i128 {
                    continue_at(s, &jt_data.table[index as usize])
                } else {
                    continue_at(s, &jt_data.default_block)
                }
            },
            _ => vstd::pervasive::unreached(),
        },
        Opcode::Trap => Ok(trap_with(CraneliftTrap::User(inst.trap_code().unwrap()))),
        Opcode::Debugtrap => Ok(trap_with(CraneliftTrap::Debug)),
        Opcode::ResumableTrap => Ok(trap_with(CraneliftTrap::Resumable)),
        Opcode::Trapz => {
            let v: V = arg(s, c, 0)?;
            let b: bool = lift(v.into_bool())?;
            Ok(trap_when(!b, CraneliftTrap::User(inst.trap_code().unwrap())))
        },
        Opcode::Trapnz => {
            let v: V = arg(s, c, 0)?;
            let b: bool = lift(v.into_bool())?;
            Ok(trap_when(b, CraneliftTrap::User(inst.trap_code().unwrap())))
        },
        Opcode::ResumableTrapnz => {
            let v: V = arg(s, c, 0)?;
            let b: bool = lift(v.into_bool())?;
            Ok(trap_when(b, CraneliftTrap::Resumable))
        },
        Opcode::Return => {
            let values: Vec<V> = args(s, c)?;
            Ok(Action::Flow(ControlFlow::Return(values)))
        },
        _ => vstd::pervasive::unreached(),
    }
}

/// Whether a call replaces the current frame.
pub open spec fn is_tail_call(op: Opcode) -> bool {
    op is ReturnCall || op is ReturnCallIndirect
}

/// Call `func` with `values`. The types of the arguments must be those of the signature; library
/// routines cannot be tail-called.
pub open spec fn called<'a, V: Value>(
    func: InterpreterFunctionRef<'a>,
    values: Seq<V>,
    op: Opcode,
) -> Eval<Effect<V>, StepError> {
    if !func.has_signature() {
        Eval::Undefined
    } else if !params_match(func.params(), values) {
        Eval::Value(trapped(CraneliftTrap::User(TrapCode::BadSignature)))
    } else {
        match func {
            InterpreterFunctionRef::Function(f) => Eval::Value(
                Effect::Flow(
                    if is_tail_call(op) {
                        Flow::ReturnCall(*f, values)
                    } else {
                        Flow::Call(*f, values)
                    },
                ),
            ),
            InterpreterFunctionRef::LibCall(libcall) => if is_tail_call(op) {
                Eval::Undefined
            } else {
                Eval::Value(
                    Effect::LibCall { libcall, args: values, ret_params: func.return_params() },
                )
            },
        }
    }
}

/// Calls a function reference with the given arguments.
fn call_func<'a, V: Value>(func: InterpreterFunctionRef<'a>, values: Vec<V>, op: Opcode) -> (r:
    ActionResult<'a, V>)
    requires
        called(func, values@, op).defined(),
    ensures
        eval_action(r) == called(func, values@, op),
{
    // Check the types of the arguments. This is usually done by the verifier, but nothing
    // guarantees that the user has ran that.
    match func {
        InterpreterFunctionRef::Function(f) => {
            if !validate_signature_params(f.signature.params.as_slice(), &values) {
                return Ok(trap_with(CraneliftTrap::User(TrapCode::BadSignature)));
            }
            match op {
                Opcode::ReturnCall | Opcode::ReturnCallIndirect => Ok(
                    Action::Flow(ControlFlow::ReturnCall(f, values)),
                ),
                _ => Ok(Action::Flow(ControlFlow::Call(f, values))),
            }
        },
        InterpreterFunctionRef::LibCall(libcall) => {
            let signature: Signature = libcall.signature();
            if !validate_signature_params(signature.params.as_slice(), &values) {
                return Ok(trap_with(CraneliftTrap::User(TrapCode::BadSignature)));
            }
            match op {
                // Cannot tail call to libcalls
                Opcode::ReturnCall | Opcode::ReturnCallIndirect => vstd::pervasive::unreached(),
                // We don't transfer control to a libcall, it is just executed for its results.
                _ => Ok(Action::LibCall { libcall, args: values, ret_params: signature.returns }),
            }
        },
    }
}

/// The function that a direct call leads to.
pub open spec fn direct_callee<'a, V: Value, S: State<'a, V>>(
    s: S,
    func_ref: FuncRef,
    name: ExternalName,
) -> Eval<InterpreterFunctionRef<'a>, StepError> {
    match name {
        ExternalName::User(_) | ExternalName::TestCase(_) => match s.function(func_ref) {
            Some(f) => Eval::Value(InterpreterFunctionRef::Function(f)),
            None => Eval::Error(StepError::UnknownFunction(func_ref)),
        },
        ExternalName::LibCall(libcall) => Eval::Value(InterpreterFunctionRef::LibCall(libcall)),
        ExternalName::KnownSymbol(_) => Eval::Undefined,
    }
}

/// The declaration of a function.
pub open spec fn declared<'a, V: Value, S: State<'a, V>>(s: S, func_ref: FuncRef) -> Eval<
    ExtFuncData,
    StepError,
> {
    match s.current_function().ext_func(func_ref) {
        Some(data) => Eval::Value(data),
        None => Eval::Error(StepError::UnknownFunction(func_ref)),
    }
}

fn get_declared<'a, V: Value, S: State<'a, V>>(s: &S, func_ref: FuncRef) -> (data: Result<
    &'a ExtFuncData,
    StepError,
>)
    ensures
        match data {
            Ok(d) => declared::<V, S>(*s, func_ref) == Eval::<ExtFuncData, StepError>::Value(*d),
            Err(e) => declared::<V, S>(*s, func_ref) == Eval::<ExtFuncData, StepError>::Error(e),
        },
{
    let func = s.get_current_function();
    if (func_ref.0 as usize) < func.ext_funcs.len() {
        Ok(&func.ext_funcs[func_ref.0 as usize])
    } else {
        Err(StepError::UnknownFunction(func_ref))
    }
}

/// The function at the address that argument 0 holds.
pub open spec fn indirect_callee<'a, V: Value, S: State<'a, V>>(s: S, bits: u64) -> Eval<
    InterpreterFunctionRef<'a>,
    StepError,
> {
    match s.spec_address_from_data(Datum::U64(bits)) {
        Ok(addr) => match s.function_at(addr) {
            Some(func) => Eval::Value(func),
            None => Eval::Error(
                StepError::MemoryError(MemoryError::InvalidAddress(DataValue::U64(bits))),
            ),
        },
        Err(e) => Eval::Error(StepError::MemoryError(e)),
    }
}

/// The address of a function, as a value of type `ty`.
pub open spec fn function_pointer<'a, V: Value, S: State<'a, V>>(
    s: S,
    ty: Type,
    name: ExternalName,
) -> Result<V, MemoryError> {
    match s.spec_address_size(ty) {
        Ok(size) => match s.spec_function_address(size, name) {
            Ok(addr) => match s.spec_address_to_data(addr) {
                Ok(data) => Ok(V::spec_from_data(data)),
                Err(e) => Err(e),
            },
            Err(e) => Err(e),
        },
        Err(e) => Err(e),
    }
}

fn get_function_pointer<'a, V: Value, S: State<'a, V>>(s: &S, ty: Type, name: &ExternalName) -> (v:
    Result<V, MemoryError>)
    ensures
        v == function_pointer::<V, S>(*s, ty, *name),
{
    let size: AddressSize = s.address_size(ty)?;
    let addr: Address = s.function_address(size, name)?;
    let data: DataValue = s.address_to_data(addr)?;
    Ok(V::from_data(data))
}

/// Calls and function addresses.
pub open spec fn call_effect<'a, V: Value, S: State<'a, V>, I: InstructionContext>(
    s: S,
    c: I,
    op: Opcode,
    ty: Type,
) -> Eval<Effect<V>, StepError> {
    match op {
        Opcode::Call | Opcode::ReturnCall => match c.spec_data() {
            InstructionData::Call { func_ref, .. } => declared::<V, S>(s, func_ref).bind(
                |data: ExtFuncData|
                    arg_values(s, c).bind(
                        |values: Seq<V>|
                            direct_callee::<V, S>(s, func_ref, data.name).bind(
                                |func: InterpreterFunctionRef<'a>| called(func, values, op),
                            ),
                    ),
            ),
            _ => Eval::Undefined,
        },
        Opcode::CallIndirect | Opcode::ReturnCallIndirect => arg_values(s, c).bind(
            |values: Seq<V>|
                arg_value(s, c, 0).bind(
                    |v: V|
                        lifted(eval(v.spec_into_int())).bind(
                            |n: i128|
                                indirect_callee::<V, S>(s, low_64_bits(n)).bind(
                                    |func: InterpreterFunctionRef<'a>|
                                        called(func, values.drop_first(), op),
                                ),
                        ),
                ),
        ),
        Opcode::FuncAddr => match c.spec_data() {
            InstructionData::FuncAddr { func_ref, .. } => declared::<V, S>(s, func_ref).bind(
                |data: ExtFuncData|
                    Eval::Value(
                        assigned_or_memtrapped(function_pointer::<V, S>(s, ty, data.name)),
                    ),
            ),
            _ => Eval::Undefined,
        },
        _ => Eval::Undefined,
    }
}

/// Evaluate a call or a function address.
pub fn eval_call<'a, V: Value, S: State<'a, V>, I: InstructionContext>(
    s: &S,
    c: &I,
    op: Opcode,
    ty: Type,
) -> (r: ActionResult<'a, V>)
    requires
        call_effect::<V, S, I>(*s, *c, op, ty).defined(),
    ensures
        eval_action(r) == call_effect::<V, S, I>(*s, *c, op, ty),
{
    match op {
        Opcode::Call | Opcode::ReturnCall => match c.data() {
            InstructionData::Call { func_ref, .. } => {
                let data = get_declared(s, *func_ref)?;
                let values: Vec<V> = args(s, c)?;
                let func: InterpreterFunctionRef<'a> = match &data.name {
                    // These functions should be registered in the regular function store
                    ExternalName::User(_) | ExternalName::TestCase(_) => match s.get_function(
                        *func_ref,
                    ) {
                        Some(f) => InterpreterFunctionRef::Function(f),
                        None => {
                            return Err(StepError::UnknownFunction(*func_ref));
                        },
                    },
                    ExternalName::LibCall(libcall) => InterpreterFunctionRef::LibCall(*libcall),
                    ExternalName::KnownSymbol(_) => vstd::pervasive::unreached(),
                };
                call_func(func, values, op)
            },
            _ => vstd::pervasive::unreached(),
        },
        Opcode::CallIndirect | Opcode::ReturnCallIndirect => {
            let values: Vec<V> = args(s, c)?;
            proof {
                crate::eval::lemma_sequence_value(
                    crate::operands::values_at::<V, S>(*s, c.spec_args()),
                );
            }
            let v: V = arg(s, c, 0)?;
            let bits: u64 = truncate_to_64_bits(lift(v.into_int())?);
            let addr: Address = match s.address_from_data(DataValue::U64(bits)) {
                Ok(addr) => addr,
                Err(e) => {
                    return Err(StepError::from(e));
                },
            };
            let func: InterpreterFunctionRef<'a> = match s.get_function_from_address(addr) {
                Some(func) => func,
                None => {
                    return Err(
                        StepError::MemoryError(MemoryError::InvalidAddress(DataValue::U64(bits))),
                    );
                },
            };
            call_func(func, without_first(&values), op)
        },
        Opcode::FuncAddr => match c.data() {
            InstructionData::FuncAddr { func_ref, .. } => {
                let data = get_declared(s, *func_ref)?;
                Ok(assign_or_memtrap(get_function_pointer(s, ty, &data.name)))
            },
            _ => vstd::pervasive::unreached(),
        },
        _ => vstd::pervasive::unreached(),
    }
}

} // verus!
