//! The [step] function interprets a single Cranelift instruction given its [State] and
//! [InstructionContext]; the interpretation is generic over [Value]s.
use crate::control::{
    branch_effect, call_effect, eval_branch, eval_call, params_match, validate_signature_params,
};
use crate::convert::{eval_float_conversion, eval_reshape, float_conversion_effect, reshape_effect};
use crate::elementwise::{elementwise_effect, eval_elementwise};
use crate::eval::{present, Eval};
use crate::floating::{eval_float, float_effect};
use crate::flow::{
    eval_action, memerror_to_trap, memory_trap, Action, ActionResult, ControlFlow, CraneliftTrap,
    Effect, Flow, StepError,
};
use crate::integer::{carry_effect, eval_carry, eval_integer, integer_effect};
use crate::ir::{AbiParam, LibCall, MemFlags, Opcode, TrapCode};
use crate::memory::{
    access_effect, atomic_effect, eval_access, eval_atomic, eval_global, eval_stack, global_effect,
    stack_effect,
};
use crate::select::{constant_effect, eval_constant, eval_select, select_effect};
use crate::state::{reply_of, Address, InstructionContext, MemoryError, State};
use crate::types::Type;
use crate::value::Value;
use crate::vector::{eval_rearrange, eval_summary, rearrange_effect, summary_effect};
use vstd::prelude::*;

verus! {

/// The parts that the instruction set falls into.
#[derive(Clone, Copy, PartialEq, Eq, Structural, Debug, Hash)]
pub enum Group {
    Branch,
    Call,
    Access,
    Stack,
    Global,
    Atomic,
    Constant,
    Select,
    Elementwise,
    Carry,
    Integer,
    Float,
    Reshape,
    FloatConversion,
    Rearrange,
    Summary,
    /// Instructions that cannot be interpreted.
    Unsupported,
}

/// The part of the instruction set that an opcode belongs to.
pub open spec fn spec_group(op: Opcode) -> Group {
    match op {
        Opcode::Jump | Opcode::Brif | Opcode::BrTable | Opcode::Trap | Opcode::Debugtrap
        | Opcode::ResumableTrap | Opcode::Trapz | Opcode::Trapnz | Opcode::ResumableTrapnz
        | Opcode::Return => Group::Branch,
        Opcode::Call | Opcode::ReturnCall | Opcode::CallIndirect | Opcode::ReturnCallIndirect
        | Opcode::FuncAddr => Group::Call,
        Opcode::Load | Opcode::Uload8 | Opcode::Sload8 | Opcode::Uload16 | Opcode::Sload16
        | Opcode::Uload32 | Opcode::Sload32 | Opcode::Store | Opcode::Istore8 | Opcode::Istore16
        | Opcode::Istore32 => Group::Access,
        Opcode::StackLoad | Opcode::StackStore | Opcode::StackAddr => Group::Stack,
        Opcode::GlobalValue | Opcode::GetPinnedReg | Opcode::SetPinnedReg
        | Opcode::TableAddr => Group::Global,
        Opcode::Iconst | Opcode::F32const | Opcode::F64const | Opcode::Vconst
        | Opcode::Nop => Group::Constant,
        Opcode::Select | Opcode::SelectSpectreGuard | Opcode::Bitselect | Opcode::Icmp
        | Opcode::IcmpImm | Opcode::Smin | Opcode::Umin | Opcode::Smax
        | Opcode::Umax => Group::Select,
        Opcode::AvgRound | Opcode::Iabs | Opcode::Umulhi | Opcode::Smulhi | Opcode::Cls
        | Opcode::Popcnt | Opcode::Isplit | Opcode::Iconcat | Opcode::SqmulRoundSat
        | Opcode::IaddPairwise => Group::Integer,
        Opcode::Iadd | Opcode::UaddSat | Opcode::SaddSat | Opcode::Isub | Opcode::UsubSat
        | Opcode::SsubSat | Opcode::Ineg | Opcode::Imul | Opcode::Udiv | Opcode::Sdiv
        | Opcode::Urem | Opcode::Srem | Opcode::IaddImm | Opcode::ImulImm | Opcode::UdivImm
        | Opcode::SdivImm | Opcode::UremImm | Opcode::SremImm | Opcode::IrsubImm | Opcode::Band
        | Opcode::Bor | Opcode::Bxor | Opcode::Bnot | Opcode::BandNot | Opcode::BorNot
        | Opcode::BxorNot | Opcode::BandImm | Opcode::BorImm | Opcode::BxorImm | Opcode::Rotl
        | Opcode::Rotr | Opcode::RotlImm | Opcode::RotrImm | Opcode::Ishl | Opcode::Ushr
        | Opcode::Sshr | Opcode::IshlImm | Opcode::UshrImm | Opcode::SshrImm | Opcode::Bitrev
        | Opcode::Bswap | Opcode::Clz | Opcode::Ctz | Opcode::Fadd | Opcode::Fsub | Opcode::Fmul
        | Opcode::Fdiv | Opcode::Sqrt | Opcode::Fneg | Opcode::Fabs | Opcode::Fcopysign
        | Opcode::Ceil | Opcode::Floor | Opcode::Trunc | Opcode::Nearest | Opcode::Ireduce
        | Opcode::Sextend | Opcode::Uextend | Opcode::Fpromote
        | Opcode::Fdemote => Group::Elementwise,
        Opcode::IaddCin | Opcode::IaddCout | Opcode::IaddCarry | Opcode::UaddOverflowTrap
        | Opcode::IsubBin | Opcode::IsubBout | Opcode::IsubBorrow => Group::Carry,
        Opcode::Fcmp | Opcode::Fma | Opcode::Fmin | Opcode::FminPseudo | Opcode::Fmax
        | Opcode::FmaxPseudo => Group::Float,
        Opcode::Bitcast | Opcode::ScalarToVector | Opcode::Snarrow | Opcode::Unarrow
        | Opcode::Uunarrow | Opcode::Bmask | Opcode::SwidenLow | Opcode::SwidenHigh
        | Opcode::UwidenLow | Opcode::UwidenHigh => Group::Reshape,
        Opcode::FcvtToUint | Opcode::FcvtToSint | Opcode::FcvtToUintSat | Opcode::FcvtToSintSat
        | Opcode::FcvtFromUint | Opcode::FcvtFromSint | Opcode::FcvtLowFromSint
        | Opcode::FvpromoteLow | Opcode::Fvdemote => Group::FloatConversion,
        Opcode::Shuffle | Opcode::Swizzle | Opcode::Splat | Opcode::Insertlane
        | Opcode::Extractlane => Group::Rearrange,
        Opcode::VhighBits | Opcode::VanyTrue | Opcode::VallTrue => Group::Summary,
        Opcode::AtomicRmw | Opcode::AtomicCas | Opcode::AtomicLoad | Opcode::AtomicStore
        | Opcode::Fence => Group::Atomic,
        Opcode::Uload8x8 | Opcode::Sload8x8 | Opcode::Uload16x4 | Opcode::Sload16x4
        | Opcode::Uload32x2 | Opcode::Sload32x2 | Opcode::DynamicStackAddr
        | Opcode::DynamicStackLoad | Opcode::DynamicStackStore | Opcode::SymbolValue
        | Opcode::TlsValue | Opcode::Null | Opcode::IsNull | Opcode::IsInvalid
        | Opcode::ExtractVector | Opcode::GetFramePointer | Opcode::GetStackPointer
        | Opcode::GetReturnAddress | Opcode::X86Pshufb | Opcode::X86Blendv | Opcode::X86Pmulhrsw
        | Opcode::X86Pmaddubsw | Opcode::X86Cvtt2dq => Group::Unsupported,
    }
}

/// The part of the instruction set that an opcode belongs to.
#[verifier::when_used_as_spec(spec_group)]
pub fn group(op: Opcode) -> (g: Group)
    ensures
        g == spec_group(op),
{
    match op {
        Opcode::Jump | Opcode::Brif | Opcode::BrTable | Opcode::Trap | Opcode::Debugtrap
        | Opcode::ResumableTrap | Opcode::Trapz | Opcode::Trapnz | Opcode::ResumableTrapnz
        | Opcode::Return => Group::Branch,
        Opcode::Call | Opcode::ReturnCall | Opcode::CallIndirect | Opcode::ReturnCallIndirect
        | Opcode::FuncAddr => Group::Call,
        Opcode::Load | Opcode::Uload8 | Opcode::Sload8 | Opcode::Uload16 | Opcode::Sload16
        | Opcode::Uload32 | Opcode::Sload32 | Opcode::Store | Opcode::Istore8 | Opcode::Istore16
        | Opcode::Istore32 => Group::Access,
        Opcode::StackLoad | Opcode::StackStore | Opcode::StackAddr => Group::Stack,
        Opcode::GlobalValue | Opcode::GetPinnedReg | Opcode::SetPinnedReg
        | Opcode::TableAddr => Group::Global,
        Opcode::Iconst | Opcode::F32const | Opcode::F64const | Opcode::Vconst
        | Opcode::Nop => Group::Constant,
        Opcode::Select | Opcode::SelectSpectreGuard | Opcode::Bitselect | Opcode::Icmp
        | Opcode::IcmpImm | Opcode::Smin | Opcode::Umin | Opcode::Smax
        | Opcode::Umax => Group::Select,
        Opcode::AvgRound | Opcode::Iabs | Opcode::Umulhi | Opcode::Smulhi | Opcode::Cls
        | Opcode::Popcnt | Opcode::Isplit | Opcode::Iconcat | Opcode::SqmulRoundSat
        | Opcode::IaddPairwise => Group::Integer,
        Opcode::Iadd | Opcode::UaddSat | Opcode::SaddSat | Opcode::Isub | Opcode::UsubSat
        | Opcode::SsubSat | Opcode::Ineg | Opcode::Imul | Opcode::Udiv | Opcode::Sdiv
        | Opcode::Urem | Opcode::Srem | Opcode::IaddImm | Opcode::ImulImm | Opcode::UdivImm
        | Opcode::SdivImm | Opcode::UremImm | Opcode::SremImm | Opcode::IrsubImm | Opcode::Band
        | Opcode::Bor | Opcode::Bxor | Opcode::Bnot | Opcode::BandNot | Opcode::BorNot
        | Opcode::BxorNot | Opcode::BandImm | Opcode::BorImm | Opcode::BxorImm | Opcode::Rotl
        | Opcode::Rotr | Opcode::RotlImm | Opcode::RotrImm | Opcode::Ishl | Opcode::Ushr
        | Opcode::Sshr | Opcode::IshlImm | Opcode::UshrImm | Opcode::SshrImm | Opcode::Bitrev
        | Opcode::Bswap | Opcode::Clz | Opcode::Ctz | Opcode::Fadd | Opcode::Fsub | Opcode::Fmul
        | Opcode::Fdiv | Opcode::Sqrt | Opcode::Fneg | Opcode::Fabs | Opcode::Fcopysign
        | Opcode::Ceil | Opcode::Floor | Opcode::Trunc | Opcode::Nearest | Opcode::Ireduce
        | Opcode::Sextend | Opcode::Uextend | Opcode::Fpromote
        | Opcode::Fdemote => Group::Elementwise,
        Opcode::IaddCin | Opcode::IaddCout | Opcode::IaddCarry | Opcode::UaddOverflowTrap
        | Opcode::IsubBin | Opcode::IsubBout | Opcode::IsubBorrow => Group::Carry,
        Opcode::Fcmp | Opcode::Fma | Opcode::Fmin | Opcode::FminPseudo | Opcode::Fmax
        | Opcode::FmaxPseudo => Group::Float,
        Opcode::Bitcast | Opcode::ScalarToVector | Opcode::Snarrow | Opcode::Unarrow
        | Opcode::Uunarrow | Opcode::Bmask | Opcode::SwidenLow | Opcode::SwidenHigh
        | Opcode::UwidenLow | Opcode::UwidenHigh => Group::Reshape,
        Opcode::FcvtToUint | Opcode::FcvtToSint | Opcode::FcvtToUintSat | Opcode::FcvtToSintSat
        | Opcode::FcvtFromUint | Opcode::FcvtFromSint | Opcode::FcvtLowFromSint
        | Opcode::FvpromoteLow | Opcode::Fvdemote => Group::FloatConversion,
        Opcode::Shuffle | Opcode::Swizzle | Opcode::Splat | Opcode::Insertlane
        | Opcode::Extractlane => Group::Rearrange,
        Opcode::VhighBits | Opcode::VanyTrue | Opcode::VallTrue => Group::Summary,
        Opcode::AtomicRmw | Opcode::AtomicCas | Opcode::AtomicLoad | Opcode::AtomicStore
        | Opcode::Fence => Group::Atomic,
        Opcode::Uload8x8 | Opcode::Sload8x8 | Opcode::Uload16x4 | Opcode::Sload16x4
        | Opcode::Uload32x2 | Opcode::Sload32x2 | Opcode::DynamicStackAddr
        | Opcode::DynamicStackLoad | Opcode::DynamicStackStore | Opcode::SymbolValue
        | Opcode::TlsValue | Opcode::Null | Opcode::IsNull | Opcode::IsInvalid
        | Opcode::ExtractVector | Opcode::GetFramePointer | Opcode::GetStackPointer
        | Opcode::GetReturnAddress | Opcode::X86Pshufb | Opcode::X86Blendv | Opcode::X86Pmulhrsw
        | Opcode::X86Pmaddubsw | Opcode::X86Cvtt2dq => Group::Unsupported,
    }
}

/// What an instruction with opcode `op` and controlling type `ty` does.
pub open spec fn instruction_effect<'a, V: Value, S: State<'a, V>, I: InstructionContext>(
    s: S,
    c: I,
    op: Opcode,
    ty: Type,
) -> Eval<Effect<V>, StepError> {
    match group(op) {
        Group::Branch => branch_effect::<V, S, I>(s, c, op),
        Group::Call => call_effect::<V, S, I>(s, c, op, ty),
        Group::Access => access_effect::<V, S, I>(s, c, op, ty),
        Group::Stack => stack_effect::<V, S, I>(s, c, op, ty),
        Group::Global => global_effect::<V, S, I>(s, c, op),
        Group::Atomic => atomic_effect::<V, S, I>(s, c, op, ty),
        Group::Constant => constant_effect::<V, S, I>(s, c, op, ty),
        Group::Select => select_effect::<V, S, I>(s, c, op, ty),
        Group::Elementwise => elementwise_effect::<V, S, I>(s, c, op, ty),
        Group::Carry => carry_effect::<V, S, I>(s, c, op, ty),
        Group::Integer => integer_effect::<V, S, I>(s, c, op, ty),
        Group::Float => float_effect::<V, S, I>(s, c, op, ty),
        Group::Reshape => reshape_effect::<V, S, I>(s, c, op, ty),
        Group::FloatConversion => float_conversion_effect::<V, S, I>(s, c, op, ty),
        Group::Rearrange => rearrange_effect::<V, S, I>(s, c, op, ty),
        Group::Summary => summary_effect::<V, S, I>(s, c, op, ty),
        Group::Unsupported => Eval::Undefined,
    }
}

/// What the instruction of the context does: an effect, or an error. An instruction outside the
/// domain is one that lacks an operand or a type, or that cannot be interpreted.
pub open spec fn step_effect<'a, V: Value, S: State<'a, V>, I: InstructionContext>(s: S, c: I) -> Eval<
    Effect<V>,
    StepError,
> {
    present(c.spec_controlling_type()).bind(
        |ty: Type| instruction_effect::<V, S, I>(s, c, c.spec_data().opcode(), ty),
    )
}

/// Evaluate the operands of an instruction: what is left to do is an action. This reads the state
/// only.
pub fn evaluate<'a, V: Value, S: State<'a, V>, I: InstructionContext>(s: &S, c: &I) -> (r:
    ActionResult<'a, V>)
    requires
        step_effect::<V, S, I>(*s, *c).defined(),
    ensures
        eval_action(r) == step_effect::<V, S, I>(*s, *c),
{
    let op: Opcode = c.data().opcode();
    let ty: Type = c.controlling_type().unwrap();
    match group(op) {
        Group::Branch => eval_branch(s, c, op),
        Group::Call => eval_call(s, c, op, ty),
        Group::Access => eval_access(s, c, op, ty),
        Group::Stack => eval_stack(s, c, op, ty),
        Group::Global => eval_global(s, c, op),
        Group::Atomic => eval_atomic(s, c, op, ty),
        Group::Constant => eval_constant(s, c, op, ty),
        Group::Select => eval_select(s, c, op, ty),
        Group::Elementwise => eval_elementwise(s, c, op, ty),
        Group::Carry => eval_carry(s, c, op, ty),
        Group::Integer => eval_integer(s, c, op, ty),
        Group::Float => eval_float(s, c, op, ty),
        Group::Reshape => eval_reshape(s, c, op, ty),
        Group::FloatConversion => eval_float_conversion(s, c, op, ty),
        Group::Rearrange => eval_rearrange(s, c, op, ty),
        Group::Summary => eval_summary(s, c, op, ty),
        Group::Unsupported => vstd::pervasive::unreached(),
    }
}

/// How a step goes on after a store: as planned, or with a trap.
pub open spec fn flow_after_store<V>(outcome: Result<(), MemoryError>, done: Flow<V>) -> Flow<V> {
    match outcome {
        Ok(_) => done,
        Err(e) => Flow::Trap(CraneliftTrap::User(memory_trap(e))),
    }
}

/// Go on after a store: as planned, or with a trap.
pub fn finish_store<'a, V>(outcome: Result<(), MemoryError>, done: ControlFlow<'a, V>) -> (flow:
    ControlFlow<'a, V>)
    ensures
        flow@ == flow_after_store(outcome, done@),
{
    match outcome {
        Ok(_) => done,
        Err(e) => ControlFlow::Trap(CraneliftTrap::User(memerror_to_trap(e))),
    }
}

/// How a step goes on after a call of a library routine: with its return values, or with a trap.
/// Return values of other types than the signature declares are a trap, too.
pub open spec fn flow_after_libcall<V: Value>(
    ret_params: Seq<AbiParam>,
    reply: Result<Seq<V>, TrapCode>,
) -> Flow<V> {
    match reply {
        Ok(values) => if params_match(ret_params, values) {
            Flow::Assign(values)
        } else {
            Flow::Trap(CraneliftTrap::User(TrapCode::BadSignature))
        },
        Err(code) => Flow::Trap(CraneliftTrap::User(code)),
    }
}

/// Go on after a call of a library routine: with its return values, or with a trap.
pub fn finish_libcall<'a, V: Value>(ret_params: &Vec<AbiParam>, reply: Result<Vec<V>, TrapCode>) -> (
flow: ControlFlow<'a, V>)
    ensures
        flow@ == flow_after_libcall(ret_params@, reply_of(reply)),
{
    let values: Vec<V> = match reply {
        Err(code) => {
            return ControlFlow::Trap(CraneliftTrap::User(code));
        },
        Ok(values) => values,
    };
    // Check that what the handler returned is what we expect.
    if validate_signature_params(ret_params.as_slice(), &values) {
        ControlFlow::Assign(values)
    } else {
        ControlFlow::Trap(CraneliftTrap::User(TrapCode::BadSignature))
    }
}

/// Whether a store in the state `pre` may lead to the state `post` and to `flow`.
pub open spec fn performed_store<'a, V: Value, S: State<'a, V>>(
    pre: S,
    addr: Address,
    value: V,
    flags: MemFlags,
    done: Flow<V>,
    post: S,
    flow: Flow<V>,
) -> bool {
    exists|outcome: Result<(), MemoryError>| #[trigger]
        pre.stores(addr, value, flags, post, outcome) && flow == flow_after_store(outcome, done)
}

/// Whether a call of a library routine in the state `pre` may lead to `flow`.
pub open spec fn performed_libcall<'a, V: Value, S: State<'a, V>>(
    pre: S,
    libcall: LibCall,
    args: Seq<V>,
    ret_params: Seq<AbiParam>,
    flow: Flow<V>,
) -> bool {
    exists|reply: Result<Seq<V>, TrapCode>| #[trigger]
        pre.libcall_replies(libcall, args, reply) && flow == flow_after_libcall(ret_params, reply)
}

/// Whether performing `effect` in the state `pre` may lead to the state `post` and to `flow`.
pub open spec fn performed<'a, V: Value, S: State<'a, V>>(
    pre: S,
    effect: Effect<V>,
    post: S,
    flow: Flow<V>,
) -> bool {
    match effect {
        Effect::Flow(done) => post == pre && flow == done,
        Effect::Store { addr, value, flags, done } => performed_store::<V, S>(
            pre,
            addr,
            value,
            flags,
            done,
            post,
            flow,
        ),
        Effect::SetPinnedReg { value } => pre.sets_pinned_reg(value, post) && flow
            == Flow::<V>::Continue,
        Effect::LibCall { libcall, args, ret_params } => post == pre && performed_libcall::<V, S>(
            pre,
            libcall,
            args,
            ret_params,
            flow,
        ),
    }
}

/// Perform an action on the state.
pub fn perform<'a, V: Value, S: State<'a, V>>(state: &mut S, action: Action<'a, V>) -> (flow:
    ControlFlow<'a, V>)
    ensures
        performed::<V, S>(*old(state), action@, *final(state), flow@),
{
    match action {
        Action::Flow(flow) => flow,
        Action::Store { addr, value, flags, done } => {
            let outcome: Result<(), MemoryError> = state.checked_store(addr, value, flags);
            let flow = finish_store(outcome, done);
            assert(performed_store::<V, S>(
                *old(state),
                addr,
                value,
                flags,
                done@,
                *state,
                flow@,
            ));
            flow
        },
        Action::SetPinnedReg { value } => {
            state.set_pinned_reg(value);
            ControlFlow::Continue
        },
        Action::LibCall { libcall, args, ret_params } => {
            let reply: Result<Vec<V>, TrapCode> = state.call_libcall(libcall, args);
            let flow = finish_libcall(&ret_params, reply);
            assert(performed_libcall::<V, S>(*old(state), libcall, args@, ret_params@, flow@));
            flow
        },
    }
}

/// Interpret a single Cranelift instruction. Note that program traps and interpreter errors are
/// distinct: a program trap results in `Ok(ControlFlow::Trap(...))` whereas an interpretation error
/// (e.g. the types of two values are incompatible) results in `Err(...)`.
pub fn step<'a, V: Value, S: State<'a, V>, I: InstructionContext>(
    state: &mut S,
    inst_context: I,
) -> (r: Result<ControlFlow<'a, V>, StepError>)
    requires
        step_effect::<V, S, I>(*old(state), inst_context).defined(),
    ensures
        match step_effect::<V, S, I>(*old(state), inst_context) {
            Eval::Value(effect) => match r {
                Ok(flow) => performed::<V, S>(*old(state), effect, *final(state), flow@),
                Err(_) => false,
            },
            Eval::Error(e) => r == Err::<ControlFlow<'a, V>, StepError>(e) && *final(state) == *old(
                state,
            ),
            Eval::Undefined => false,
        },
{
    let action: Action<'a, V> = match evaluate(&*state, &inst_context) {
        Ok(action) => action,
        Err(e) => {
            return Err(e);
        },
    };
    Ok(perform(state, action))
}

} // verus!
