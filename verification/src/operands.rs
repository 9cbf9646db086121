//! The operands of an instruction: the values of its arguments, its immediates, and the addresses
//! that it computes from them.
use crate::arith::{sum, total, LaneMap};
use crate::eval::{
    eval, eval_list, lemma_sequence_step, lemma_sequence_stop, present, sequence, Eval,
};
use crate::flow::{
    eval_action, lift, lifted, Action, ActionResult, ControlFlow, Effect, Flow, StepError,
};
use crate::ir::{BlockCall, Function, InstructionData, ValueRef};
use crate::lanes::{extractlanes, lanes_of};
use crate::state::{InstructionContext, State};
use crate::types::Type;
use crate::value::{DataValue, Datum, Value, ValueConversionKind, ValueError, ValueResult};
use vstd::prelude::*;

verus! {

/// The value of an SSA reference.
pub open spec fn value_at<'a, V: Value, S: State<'a, V>>(s: S, name: ValueRef) -> Eval<
    V,
    StepError,
> {
    match s.value_of(name) {
        Some(v) => Eval::Value(v),
        None => Eval::Error(StepError::UnknownValue(name)),
    }
}

/// The value of an SSA reference.
pub fn get_value<'a, V: Value, S: State<'a, V>>(s: &S, name: ValueRef) -> (v: Result<V, StepError>)
    ensures
        eval(v) == value_at::<V, S>(*s, name),
{
    match s.get_value(name) {
        Some(v) => Ok(v),
        None => Err(StepError::UnknownValue(name)),
    }
}

/// The values of SSA references, up to the first one that has none.
pub open spec fn values_at<'a, V: Value, S: State<'a, V>>(s: S, names: Seq<ValueRef>) -> Seq<
    Eval<V, StepError>,
> {
    Seq::new(names.len(), |i: int| value_at::<V, S>(s, names[i]))
}

/// The values of SSA references.
pub fn collect_values<'a, V: Value, S: State<'a, V>>(s: &S, names: &[ValueRef]) -> (values: Result<
    Vec<V>,
    StepError,
>)
    ensures
        eval_list(values) == sequence(values_at::<V, S>(*s, names@)),
{
    let mut values: Vec<V> = Vec::new();
    let ghost evals = values_at::<V, S>(*s, names@);
    let mut i: usize = 0;
    assert(evals.take(0) =~= Seq::empty());
    while i < names.len()
        invariant
            i <= names.len(),
            evals == values_at::<V, S>(*s, names@),
            sequence(evals.take(i as int)) == Eval::<Seq<V>, StepError>::Value(values@),
        decreases names.len() - i,
    {
        proof {
            lemma_sequence_step(evals, i as int);
            if !(evals[i as int] is Value) {
                lemma_sequence_stop(evals, i as int);
            }
        }
        let v: V = get_value(s, names[i])?;
        values.push(v);
        i = i + 1;
    }
    assert(evals.take(i as int) =~= evals);
    Ok(values)
}

/// The value of argument `i` of the instruction.
pub open spec fn arg_value<'a, V: Value, S: State<'a, V>, I: InstructionContext>(
    s: S,
    c: I,
    i: int,
) -> Eval<V, StepError> {
    if 0 <= i < c.spec_args().len() {
        value_at(s, c.spec_args()[i])
    } else {
        Eval::Undefined
    }
}

/// Retrieve the current value for an instruction argument.
pub fn arg<'a, V: Value, S: State<'a, V>, I: InstructionContext>(s: &S, c: &I, i: usize) -> (v:
    Result<V, StepError>)
    requires
        i < c.spec_args().len(),
    ensures
        eval(v) == arg_value::<V, S, I>(*s, *c, i as int),
{
    get_value(s, c.args()[i])
}

/// The lanes of argument `i` of the instruction, read as a vector of type `ty`.
pub open spec fn arg_lanes<'a, V: Value, S: State<'a, V>, I: InstructionContext>(
    s: S,
    c: I,
    i: int,
    ty: Type,
) -> Eval<Seq<V>, StepError> {
    arg_value(s, c, i).bind(|v: V| lifted(lanes_of(v, ty)))
}

/// Retrieve the lanes of the current value for an instruction argument.
pub fn read_lanes<'a, V: Value, S: State<'a, V>, I: InstructionContext>(
    s: &S,
    c: &I,
    i: usize,
    ty: Type,
) -> (lanes: Result<Vec<V>, StepError>)
    requires
        arg_lanes::<V, S, I>(*s, *c, i as int, ty).defined(),
    ensures
        eval_list(lanes) == arg_lanes::<V, S, I>(*s, *c, i as int, ty),
{
    let v: V = arg(s, c, i)?;
    lift(extractlanes(&v, ty))
}

/// The type of argument `i` of the instruction.
pub open spec fn arg_type<I: InstructionContext>(c: I, i: int) -> Eval<Type, StepError> {
    if 0 <= i < c.spec_args().len() {
        present(c.spec_type_of(c.spec_args()[i]))
    } else {
        Eval::Undefined
    }
}

/// Retrieve the type of an instruction argument, expecting it to be known.
pub fn get_arg_type<I: InstructionContext>(c: &I, i: usize) -> (ty: Type)
    requires
        arg_type(*c, i as int).defined(),
    ensures
        arg_type(*c, i as int) == Eval::<Type, StepError>::Value(ty),
{
    c.type_of(c.args()[i]).unwrap()
}

/// The values of all arguments of the instruction.
pub open spec fn arg_values<'a, V: Value, S: State<'a, V>, I: InstructionContext>(s: S, c: I) -> Eval<
    Seq<V>,
    StepError,
> {
    sequence(values_at(s, c.spec_args()))
}

/// Retrieve the current values for all of an instruction's arguments.
pub fn args<'a, V: Value, S: State<'a, V>, I: InstructionContext>(s: &S, c: &I) -> (values: Result<
    Vec<V>,
    StepError,
>)
    ensures
        eval_list(values) == arg_values::<V, S, I>(*s, *c),
{
    collect_values(s, c.args())
}

/// The values of all arguments of the instruction but the first.
pub open spec fn args_after_first<'a, V: Value, S: State<'a, V>, I: InstructionContext>(
    s: S,
    c: I,
) -> Eval<Seq<V>, StepError> {
    arg_values(s, c).bind(
        |values: Seq<V>|
            if values.len() == 0 {
                Eval::Undefined
            } else {
                Eval::Value(values.drop_first())
            },
    )
}

/// A list without its first element.
pub fn without_first<V: Value>(values: &Vec<V>) -> (rest: Vec<V>)
    requires
        values.len() > 0,
    ensures
        rest@ == values@.drop_first(),
{
    let mut rest: Vec<V> = Vec::new();
    let mut i: usize = 1;
    while i < values.len()
        invariant
            1 <= i <= values.len(),
            rest@ == values@.subrange(1, i as int),
        decreases values.len() - i,
    {
        rest.push(values[i].duplicate());
        i = i + 1;
        assert(rest@ =~= values@.subrange(1, i as int));
    }
    rest
}

/// Retrieve the current values for all of an instruction's arguments but the first.
pub fn args_from_second<'a, V: Value, S: State<'a, V>, I: InstructionContext>(s: &S, c: &I) -> (
values: Result<Vec<V>, StepError>)
    requires
        args_after_first::<V, S, I>(*s, *c).defined(),
    ensures
        eval_list(values) == args_after_first::<V, S, I>(*s, *c),
{
    let values: Vec<V> = args(s, c)?;
    Ok(without_first(&values))
}

/// The immediate operand of an instruction. The bytes of a vector must have the size of the
/// controlling type, those of a mask must be sixteen or eight.
pub open spec fn immediate_data(func: Function, inst: InstructionData, ty: Type) -> Option<Datum> {
    match inst {
        InstructionData::UnaryConst { constant_handle, .. } => match func.constant(
            constant_handle,
        ) {
            Some(bytes) => if ty.bytes() == 16 && bytes.len() == 16 {
                Some(Datum::V128(bytes))
            } else if ty.bytes() == 8 && bytes.len() == 8 {
                Some(Datum::V64(bytes))
            } else {
                None
            },
            None => None,
        },
        InstructionData::Shuffle { imm, .. } => match func.immediate(imm) {
            Some(bytes) => if bytes.len() == 16 {
                Some(Datum::V128(bytes))
            } else if bytes.len() == 8 {
                Some(Datum::V64(bytes))
            } else {
                None
            },
            None => None,
        },
        // Note the switch from unsigned to signed.
        InstructionData::BinaryImm8 { imm, .. }
        | InstructionData::TernaryImm8 { imm, .. } => Some(Datum::I8(imm as i8)),
        InstructionData::UnaryIeee32 { imm, .. } => Some(Datum::F32(imm)),
        InstructionData::UnaryIeee64 { imm, .. } => Some(Datum::F64(imm)),
        InstructionData::Load { offset, .. }
        | InstructionData::Store { offset, .. }
        | InstructionData::StackLoad { offset, .. }
        | InstructionData::StackStore { offset, .. }
        | InstructionData::TableAddr { offset, .. } => Some(Datum::I32(offset)),
        InstructionData::UnaryImm { imm, .. }
        | InstructionData::BinaryImm64 { imm, .. }
        | InstructionData::IntCompareImm { imm, .. } => Some(Datum::I64(imm)),
        _ => None,
    }
}

fn sixteen_bytes(bytes: &Vec<u8>) -> (array: [u8; 16])
    requires
        bytes.len() == 16,
    ensures
        array@ == bytes@,
{
    if bytes.len() != 16 {
        return vstd::pervasive::unreached();
    }
    let mut array: [u8; 16] = [0; 16];
    let mut i: usize = 0;
    while i < 16
        invariant
            i <= 16,
            bytes.len() == 16,
            forall|k: int| 0 <= k < i ==> array@[k] == bytes@[k],
        decreases 16 - i,
    {
        array[i] = bytes[i];
        i = i + 1;
    }
    assert(array@ =~= bytes@);
    array
}

fn eight_bytes(bytes: &Vec<u8>) -> (array: [u8; 8])
    requires
        bytes.len() == 8,
    ensures
        array@ == bytes@,
{
    if bytes.len() != 8 {
        return vstd::pervasive::unreached();
    }
    let mut array: [u8; 8] = [0; 8];
    let mut i: usize = 0;
    while i < 8
        invariant
            i <= 8,
            bytes.len() == 8,
            forall|k: int| 0 <= k < i ==> array@[k] == bytes@[k],
        decreases 8 - i,
    {
        array[i] = bytes[i];
        i = i + 1;
    }
    assert(array@ =~= bytes@);
    array
}

/// Retrieve the immediate operand of an instruction, expecting it to exist.
pub fn immediate(func: &Function, inst: &InstructionData, ty: Type) -> (data: DataValue)
    requires
        immediate_data(*func, *inst, ty) is Some,
    ensures
        Some(data@) == immediate_data(*func, *inst, ty),
{
    match inst {
        InstructionData::UnaryConst { constant_handle, .. } => {
            match &func.constants[constant_handle.0 as usize] {
                Some(bytes) => match ty.bytes() {
                    16 => DataValue::V128(sixteen_bytes(bytes)),
                    8 => DataValue::V64(eight_bytes(bytes)),
                    _ => vstd::pervasive::unreached(),
                },
                None => vstd::pervasive::unreached(),
            }
        },
        InstructionData::Shuffle { imm, .. } => {
            let mask = &func.immediates[imm.0 as usize];
            if mask.len() == 16 {
                DataValue::V128(sixteen_bytes(mask))
            } else {
                DataValue::V64(eight_bytes(mask))
            }
        },
        InstructionData::BinaryImm8 { imm, .. }
        | InstructionData::TernaryImm8 { imm, .. } => DataValue::I8(*imm as i8),
        InstructionData::UnaryIeee32 { imm, .. } => DataValue::F32(*imm),
        InstructionData::UnaryIeee64 { imm, .. } => DataValue::F64(*imm),
        InstructionData::Load { offset, .. }
        | InstructionData::Store { offset, .. }
        | InstructionData::StackLoad { offset, .. }
        | InstructionData::StackStore { offset, .. }
        | InstructionData::TableAddr { offset, .. } => DataValue::I32(*offset),
        InstructionData::UnaryImm { imm, .. }
        | InstructionData::BinaryImm64 { imm, .. }
        | InstructionData::IntCompareImm { imm, .. } => DataValue::I64(*imm),
        _ => vstd::pervasive::unreached(),
    }
}

/// The immediate operand of the instruction as a value.
pub open spec fn imm_value<'a, V: Value, S: State<'a, V>, I: InstructionContext>(
    s: S,
    c: I,
    ty: Type,
) -> Eval<V, StepError> {
    present(immediate_data(*s.current_function(), c.spec_data(), ty)).bind(
        |data: Datum| Eval::Value(V::spec_from_data(data)),
    )
}

/// Retrieve the immediate value for an instruction, expecting it to exist.
pub fn imm<'a, V: Value, S: State<'a, V>, I: InstructionContext>(s: &S, c: &I, ty: Type) -> (v: V)
    requires
        imm_value::<V, S, I>(*s, *c, ty).defined(),
    ensures
        imm_value::<V, S, I>(*s, *c, ty) == Eval::<V, StepError>::Value(v),
{
    V::from_data(immediate(s.get_current_function(), c.data(), ty))
}

/// The immediate operand of the instruction, converted to the controlling type.
pub open spec fn imm_as_ctrl_value<'a, V: Value, S: State<'a, V>, I: InstructionContext>(
    s: S,
    c: I,
    ty: Type,
) -> Eval<V, StepError> {
    imm_value(s, c, ty).bind(
        |v: V| lifted(eval(v.spec_convert(ValueConversionKind::Exact(ty)))),
    )
}

/// Retrieve the immediate value for an instruction and convert it to the controlling type of the
/// instruction. For example, since [InstructionData] stores all integer immediates in a 64-bit
/// size, this will attempt to convert `iconst.i8 ...` to an 8-bit size.
pub fn imm_as_ctrl_ty<'a, V: Value, S: State<'a, V>, I: InstructionContext>(s: &S, c: &I, ty: Type) -> (
v: Result<V, StepError>)
    requires
        imm_as_ctrl_value::<V, S, I>(*s, *c, ty).defined(),
    ensures
        eval(v) == imm_as_ctrl_value::<V, S, I>(*s, *c, ty),
{
    let v: V = imm(s, c, ty);
    lift(v.convert(ValueConversionKind::Exact(ty)))
}

/// The number `n` modulo `2^64`.
pub open spec fn low_64_bits(n: i128) -> u64 {
    (n as int % 0x1_0000_0000_0000_0000) as u64
}

/// The number `n` modulo `2^64`.
pub fn truncate_to_64_bits(n: i128) -> (low: u64)
    ensures
        low == low_64_bits(n),
{
    let low: u64 = n as u64;
    let high: i128 = n >> 64;
    assert(n == high * 0x1_0000_0000_0000_0000 + low) by (bit_vector)
        requires
            low == n as u64,
            high == n >> 64,
    ;
    low
}

/// The sum of `base` and `args`, each zero-extended to `addr_ty`.
pub open spec fn address_sum<V: Value>(addr_ty: Type, base: V, args: Seq<V>) -> Eval<
    u64,
    ValueError,
> {
    let kind = ValueConversionKind::ZeroExtend(addr_ty);
    eval(base.spec_convert(kind)).bind(
        |head: V|
            sequence(LaneMap::Convert { kind }.results(args)).bind(
                |tail: Seq<V>| total(head, tail).bind(|n: i128| Eval::Value(low_64_bits(n))),
            ),
    )
}

/// No conversion is outside the domain.
pub proof fn lemma_conversions_defined<V: Value>(kind: ValueConversionKind, xs: Seq<V>)
    ensures
        sequence(LaneMap::Convert { kind }.results(xs)).defined(),
    decreases xs.len(),
{
    let evals = LaneMap::Convert { kind }.results(xs);
    if xs.len() > 0 {
        lemma_conversions_defined(kind, xs.drop_last());
        assert(evals.drop_last() =~= LaneMap::Convert { kind }.results(xs.drop_last()));
        assert(evals.last() == eval(xs.last().spec_convert(kind)));
    }
}

/// The address that an instruction accesses.
pub fn calculate_addr<V: Value>(addr_ty: Type, base: V, args: &Vec<V>) -> (addr: ValueResult<u64>)
    ensures
        eval(addr) == address_sum(addr_ty, base, args@),
{
    let kind = ValueConversionKind::ZeroExtend(addr_ty);
    let head: V = base.convert(kind)?;
    let map: LaneMap<V> = LaneMap::Convert { kind };
    proof {
        lemma_conversions_defined(kind, args@);
    }
    let tail: Vec<V> = map.apply_all(args)?;
    let n: i128 = sum(head, &tail)?;
    Ok(truncate_to_64_bits(n))
}

/// Continue at a block, with the values of its parameters.
pub open spec fn continued_at<'a, V: Value, S: State<'a, V>>(s: S, target: BlockCall) -> Eval<
    Effect<V>,
    StepError,
> {
    sequence(values_at(s, target.args@)).bind(
        |values: Seq<V>| Eval::Value(Effect::Flow(Flow::ContinueAt(target.block, values))),
    )
}

/// Continue at a block, with the values of its parameters.
pub fn continue_at<'a, V: Value, S: State<'a, V>>(s: &S, target: &BlockCall) -> (r: ActionResult<
    'a,
    V,
>)
    ensures
        eval_action(r) == continued_at::<V, S>(*s, *target),
{
    let values: Vec<V> = collect_values(s, target.args.as_slice())?;
    Ok(Action::Flow(ControlFlow::ContinueAt(target.block, values)))
}

} // verus!
