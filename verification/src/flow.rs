//! What a step leads to: a change of the control flow, an effect on the state, or an error.
use crate::eval::{eval, Eval};
use crate::ir::{AbiParam, Block, FuncRef, Function, LibCall, MemFlags, TrapCode, ValueRef};
use crate::state::{Address, MemoryError};
use crate::value::{ValueError, ValueResult};
use vstd::prelude::*;

verus! {

/// Why an instruction could not be interpreted.
#[derive(Debug)]
pub enum StepError {
    /// The SSA reference has no value.
    UnknownValue(ValueRef),
    /// The function is not known.
    UnknownFunction(FuncRef),
    /// An operation cannot be performed on these values.
    ValueError(ValueError),
    /// Memory could not be accessed.
    MemoryError(MemoryError),
}

impl From<ValueError> for StepError {
    fn from(e: ValueError) -> (r: StepError) {
        StepError::ValueError(e)
    }
}

impl vstd::std_specs::convert::FromSpecImpl<ValueError> for StepError {
    open spec fn obeys_from_spec() -> bool {
        true
    }

    open spec fn from_spec(e: ValueError) -> StepError {
        StepError::ValueError(e)
    }
}

impl From<MemoryError> for StepError {
    fn from(e: MemoryError) -> (r: StepError) {
        StepError::MemoryError(e)
    }
}

impl vstd::std_specs::convert::FromSpecImpl<MemoryError> for StepError {
    open spec fn obeys_from_spec() -> bool {
        true
    }

    open spec fn from_spec(e: MemoryError) -> StepError {
        StepError::MemoryError(e)
    }
}

/// A trap that the program runs into.
#[derive(Clone, Copy, Debug, PartialEq, Eq, Structural, Hash)]
pub enum CraneliftTrap {
    /// A trap with a code.
    User(TrapCode),
    /// A trap for the debugger.
    Debug,
    /// A trap after which the program can go on.
    Resumable,
}

/// Enumerate the ways in which the control flow can change based on a single step in a Cranelift
/// interpreter.
#[derive(Debug)]
pub enum ControlFlow<'a, V> {
    /// Return one or more values from an instruction to be assigned to a left-hand side, e.g.: in
    /// `v0 = iadd v1, v2`, the sum of `v1` and `v2` is assigned to `v0`.
    Assign(Vec<V>),
    /// Continue to the next available instruction, e.g.: in `nop`, we expect to resume execution at
    /// the instruction after it.
    Continue,
    /// Jump to another block with the given parameters, e.g.: in
    /// `brif v0, block42(v1, v2), block97`, if the condition is true, we continue execution at the
    /// first instruction of `block42` with the values in `v1` and `v2` filling in the block
    /// parameters.
    ContinueAt(Block, Vec<V>),
    /// Indicates a call the given [Function] with the supplied arguments.
    Call(&'a Function, Vec<V>),
    /// Indicates a tail call to the given [Function] with the supplied arguments.
    ReturnCall(&'a Function, Vec<V>),
    /// Return from the current function with the given parameters, e.g.: `return [v1, v2]`.
    Return(Vec<V>),
    /// Stop with a program-generated trap; note that these are distinct from errors that may occur
    /// during interpretation.
    Trap(CraneliftTrap),
}

/// The mathematical content of a [ControlFlow].
#[verifier::ext_equal]
pub enum Flow<V> {
    Assign(Seq<V>),
    Continue,
    ContinueAt(Block, Seq<V>),
    Call(Function, Seq<V>),
    ReturnCall(Function, Seq<V>),
    Return(Seq<V>),
    Trap(CraneliftTrap),
}

impl<'a, V> View for ControlFlow<'a, V> {
    type V = Flow<V>;

    open spec fn view(&self) -> Flow<V> {
        match self {
            ControlFlow::Assign(values) => Flow::Assign(values@),
            ControlFlow::Continue => Flow::Continue,
            ControlFlow::ContinueAt(block, args) => Flow::ContinueAt(*block, args@),
            ControlFlow::Call(func, args) => Flow::Call(**func, args@),
            ControlFlow::ReturnCall(func, args) => Flow::ReturnCall(**func, args@),
            ControlFlow::Return(values) => Flow::Return(values@),
            ControlFlow::Trap(trap) => Flow::Trap(*trap),
        }
    }
}

impl<'a, V> ControlFlow<'a, V> {
    /// For convenience, we can unwrap the [ControlFlow] state assuming that it is a
    /// [ControlFlow::Return].
    pub fn unwrap_return(self) -> (values: Vec<V>)
        requires
            self is Return,
        ensures
            self@ == Flow::Return(values@),
    {
        match self {
            ControlFlow::Return(values) => values,
            _ => vstd::pervasive::unreached(),
        }
    }

    /// For convenience, we can unwrap the [ControlFlow] state assuming that it is a
    /// [ControlFlow::Trap].
    pub fn unwrap_trap(self) -> (trap: CraneliftTrap)
        requires
            self is Trap,
        ensures
            self@ == Flow::<V>::Trap(trap),
    {
        match self {
            ControlFlow::Trap(trap) => trap,
            _ => vstd::pervasive::unreached(),
        }
    }
}

/// What is left to do once the operands of an instruction have been evaluated. Each instruction has
/// at most one effect beyond its control flow, and it comes last.
pub enum Action<'a, V> {
    /// Nothing.
    Flow(ControlFlow<'a, V>),
    /// Store `value` at `addr`; `done` is the control flow once that has succeeded.
    Store { addr: Address, value: V, flags: MemFlags, done: ControlFlow<'a, V> },
    /// Write the pinned register.
    SetPinnedReg { value: V },
    /// Call a routine of the runtime library; it has to give values of the types in `ret_params`.
    LibCall { libcall: LibCall, args: Vec<V>, ret_params: Vec<AbiParam> },
}

/// The mathematical content of an [Action].
#[verifier::ext_equal]
pub enum Effect<V> {
    Flow(Flow<V>),
    Store { addr: Address, value: V, flags: MemFlags, done: Flow<V> },
    SetPinnedReg { value: V },
    LibCall { libcall: LibCall, args: Seq<V>, ret_params: Seq<AbiParam> },
}

impl<'a, V> View for Action<'a, V> {
    type V = Effect<V>;

    open spec fn view(&self) -> Effect<V> {
        match self {
            Action::Flow(flow) => Effect::Flow(flow@),
            Action::Store { addr, value, flags, done } => Effect::Store {
                addr: *addr,
                value: *value,
                flags: *flags,
                done: done@,
            },
            Action::SetPinnedReg { value } => Effect::SetPinnedReg { value: *value },
            Action::LibCall { libcall, args, ret_params } => Effect::LibCall {
                libcall: *libcall,
                args: args@,
                ret_params: ret_params@,
            },
        }
    }
}

/// What evaluating the operands of an instruction gives.
pub type ActionResult<'a, V> = Result<Action<'a, V>, StepError>;

/// The meaning of evaluating the operands of an instruction.
pub open spec fn eval_action<'a, V>(r: ActionResult<'a, V>) -> Eval<Effect<V>, StepError> {
    match r {
        Ok(action) => Eval::Value(action@),
        Err(e) => Eval::Error(e),
    }
}

/// An operation on values, as a part of a step.
pub open spec fn lifted<T>(e: Eval<T, ValueError>) -> Eval<T, StepError> {
    match e {
        Eval::Value(t) => Eval::Value(t),
        Eval::Error(e) => Eval::Error(StepError::ValueError(e)),
        Eval::Undefined => Eval::Undefined,
    }
}

/// An operation on values, as a part of a step.
pub fn lift<T>(r: ValueResult<T>) -> (s: Result<T, StepError>)
    ensures
        eval(s) == lifted(eval(r)),
{
    match r {
        Ok(t) => Ok(t),
        Err(e) => Err(StepError::from(e)),
    }
}

/// Only assign a value to the result of the instruction.
pub open spec fn assigned<V>(v: V) -> Effect<V> {
    Effect::Flow(Flow::Assign(seq![v]))
}

/// Only assign two values to the results of the instruction.
pub open spec fn assigned_both<V>(v: V, w: V) -> Effect<V> {
    Effect::Flow(Flow::Assign(seq![v, w]))
}

/// Only trap.
pub open spec fn trapped<V>(trap: CraneliftTrap) -> Effect<V> {
    Effect::Flow(Flow::Trap(trap))
}

/// Indicate that the result of a step is to assign a single value to an instruction's results.
pub fn assign<'a, V>(value: V) -> (action: Action<'a, V>)
    ensures
        action@ == assigned(value),
{
    let values: Vec<V> = vec![value];
    assert(values@ =~= seq![value]);
    Action::Flow(ControlFlow::Assign(values))
}

/// Indicate that the result of a step is to assign two values to an instruction's results.
pub fn assign_both<'a, V>(v: V, w: V) -> (action: Action<'a, V>)
    ensures
        action@ == assigned_both(v, w),
{
    let values: Vec<V> = vec![v, w];
    assert(values@ =~= seq![v, w]);
    Action::Flow(ControlFlow::Assign(values))
}

/// Indicate that the result of a step is a trap.
pub fn trap_with<'a, V>(trap: CraneliftTrap) -> (action: Action<'a, V>)
    ensures
        action@ == trapped::<V>(trap),
{
    Action::Flow(ControlFlow::Trap(trap))
}

/// Assign a value that an operation on values gives.
pub open spec fn assigned_result<V>(e: Eval<V, ValueError>) -> Eval<Effect<V>, StepError> {
    lifted(e).bind(|v: V| Eval::Value(assigned(v)))
}

/// Assign a value that an operation on values gives.
pub fn assign_result<'a, V>(r: ValueResult<V>) -> (action: ActionResult<'a, V>)
    ensures
        eval_action(action) == assigned_result(eval(r)),
{
    let v: V = lift(r)?;
    Ok(assign(v))
}

/// The trap that an error of an integer operation turns into, if it does.
pub open spec fn arithmetic_trap(e: ValueError) -> Option<TrapCode> {
    match e {
        ValueError::IntegerDivisionByZero => Some(TrapCode::IntegerDivisionByZero),
        ValueError::IntegerOverflow => Some(TrapCode::IntegerOverflow),
        _ => None,
    }
}

/// Similar to [assigned_result] but converts some errors into traps.
pub open spec fn assigned_or_trapped<V>(e: Eval<V, ValueError>) -> Eval<Effect<V>, StepError> {
    match e {
        Eval::Error(e) => match arithmetic_trap(e) {
            Some(code) => Eval::Value(trapped(CraneliftTrap::User(code))),
            None => Eval::Error(StepError::ValueError(e)),
        },
        _ => assigned_result(e),
    }
}

/// Similar to [assign_result] but converts some errors into traps.
pub fn assign_or_trap<'a, V>(r: ValueResult<V>) -> (action: ActionResult<'a, V>)
    ensures
        eval_action(action) == assigned_or_trapped(eval(r)),
{
    match r {
        Ok(v) => Ok(assign(v)),
        Err(ValueError::IntegerDivisionByZero) => Ok(
            trap_with(CraneliftTrap::User(TrapCode::IntegerDivisionByZero)),
        ),
        Err(ValueError::IntegerOverflow) => Ok(
            trap_with(CraneliftTrap::User(TrapCode::IntegerOverflow)),
        ),
        Err(e) => Err(StepError::from(e)),
    }
}

/// The trap that an error of a memory access turns into.
pub open spec fn memory_trap(e: MemoryError) -> TrapCode {
    if e is MisalignedLoad || e is MisalignedStore {
        TrapCode::HeapMisaligned
    } else {
        TrapCode::HeapOutOfBounds
    }
}

/// The trap that an error of a memory access turns into.
pub fn memerror_to_trap(e: MemoryError) -> (code: TrapCode)
    ensures
        code == memory_trap(e),
{
    match e {
        MemoryError::InvalidAddress(_) => TrapCode::HeapOutOfBounds,
        MemoryError::InvalidAddressType(_) => TrapCode::HeapOutOfBounds,
        MemoryError::InvalidOffset { .. } => TrapCode::HeapOutOfBounds,
        MemoryError::InvalidEntry { .. } => TrapCode::HeapOutOfBounds,
        MemoryError::OutOfBoundsStore { .. } => TrapCode::HeapOutOfBounds,
        MemoryError::OutOfBoundsLoad { .. } => TrapCode::HeapOutOfBounds,
        MemoryError::MisalignedLoad { .. } => TrapCode::HeapMisaligned,
        MemoryError::MisalignedStore { .. } => TrapCode::HeapMisaligned,
    }
}

/// Assign or trap depending on the outcome of a memory access.
pub open spec fn assigned_or_memtrapped<V>(r: Result<V, MemoryError>) -> Effect<V> {
    match r {
        Ok(v) => assigned(v),
        Err(e) => trapped(CraneliftTrap::User(memory_trap(e))),
    }
}

/// Assigns or traps depending on the value of the result
pub fn assign_or_memtrap<'a, V>(r: Result<V, MemoryError>) -> (action: Action<'a, V>)
    ensures
        action@ == assigned_or_memtrapped(r),
{
    match r {
        Ok(v) => assign(v),
        Err(e) => trap_with(CraneliftTrap::User(memerror_to_trap(e))),
    }
}

} // verus!
