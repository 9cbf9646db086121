//! Loads, stores, addresses and the pinned register.
use crate::arith::{sum, total};
use crate::eval::{eval, present, Eval};
use crate::flow::{
    assign, assign_or_memtrap, assigned, assigned_or_memtrapped, eval_action, lift, lifted,
    memerror_to_trap, memory_trap, trap_with, trapped, Action, ActionResult, ControlFlow,
    CraneliftTrap, Effect, Flow, StepError,
};
use crate::ir::{
    AtomicRmwOp, GlobalValue, InstructionData, MemFlags, Opcode, StackSlot, TableData, TrapCode,
};
use crate::operands::{
    address_sum, arg, arg_value, arg_values, args, args_after_first, args_from_second,
    calculate_addr, imm, imm_value, low_64_bits, truncate_to_64_bits,
};
use crate::state::{Address, AddressSize, InstructionContext, MemoryError, State};
use crate::types::{LaneType, Type};
use crate::value::{DataValue, Value, ValueConversionKind, ValueError, ValueResult};
use vstd::prelude::*;

verus! {

/// What is in memory at the address that a number encodes.
pub open spec fn loaded<'a, V: Value, S: State<'a, V>>(
    s: S,
    bits: u64,
    ty: Type,
    flags: MemFlags,
) -> Result<V, MemoryError> {
    match s.spec_decode_address(bits) {
        Ok(addr) => s.spec_checked_load(addr, ty, flags),
        Err(e) => Err(e),
    }
}

fn load<'a, V: Value, S: State<'a, V>>(s: &S, bits: u64, ty: Type, flags: MemFlags) -> (v: Result<
    V,
    MemoryError,
>)
    ensures
        v == loaded::<V, S>(*s, bits, ty, flags),
{
    let addr: Address = s.decode_address(bits)?;
    s.checked_load(addr, ty, flags)
}

/// Store a value at an address, if there is one, and go on with `done`.
pub open spec fn stored<V>(
    addr: Result<Address, MemoryError>,
    value: V,
    flags: MemFlags,
    done: Flow<V>,
) -> Effect<V> {
    match addr {
        Ok(addr) => Effect::Store { addr, value, flags, done },
        Err(e) => trapped(CraneliftTrap::User(memory_trap(e))),
    }
}

fn store<'a, V>(
    addr: Result<Address, MemoryError>,
    value: V,
    flags: MemFlags,
    done: ControlFlow<'a, V>,
) -> (action: Action<'a, V>)
    ensures
        action@ == stored(addr, value, flags, done@),
{
    match addr {
        Ok(addr) => Action::Store { addr, value, flags, done },
        Err(e) => trap_with(CraneliftTrap::User(memerror_to_trap(e))),
    }
}

/// The value of argument `i` as a number of 64 bits.
pub open spec fn arg_bits<'a, V: Value, S: State<'a, V>, I: InstructionContext>(
    s: S,
    c: I,
    i: int,
) -> Eval<u64, StepError> {
    arg_value(s, c, i).bind(
        |v: V|
            lifted(eval(v.spec_into_int())).bind(|n: i128| Eval::Value(low_64_bits(n))),
    )
}

fn read_arg_bits<'a, V: Value, S: State<'a, V>, I: InstructionContext>(s: &S, c: &I, i: usize) -> (
bits: Result<u64, StepError>)
    requires
        i < c.spec_args().len(),
    ensures
        eval(bits) == arg_bits::<V, S, I>(*s, *c, i as int),
{
    let v: V = arg(s, c, i)?;
    let n: i128 = lift(v.into_int())?;
    Ok(truncate_to_64_bits(n))
}

/// The type that a load reads, and how the value is widened to the type `ty` of the result.
pub open spec fn load_shape(op: Opcode, ty: Type) -> Option<(Type, Option<ValueConversionKind>)> {
    match op {
        Opcode::Load => Some((ty, None)),
        Opcode::Uload8 => Some(
            (Type::Lane(LaneType::I8), Some(ValueConversionKind::ZeroExtend(ty))),
        ),
        Opcode::Sload8 => Some(
            (Type::Lane(LaneType::I8), Some(ValueConversionKind::SignExtend(ty))),
        ),
        Opcode::Uload16 => Some(
            (Type::Lane(LaneType::I16), Some(ValueConversionKind::ZeroExtend(ty))),
        ),
        Opcode::Sload16 => Some(
            (Type::Lane(LaneType::I16), Some(ValueConversionKind::SignExtend(ty))),
        ),
        Opcode::Uload32 => Some(
            (Type::Lane(LaneType::I32), Some(ValueConversionKind::ZeroExtend(ty))),
        ),
        Opcode::Sload32 => Some(
            (Type::Lane(LaneType::I32), Some(ValueConversionKind::SignExtend(ty))),
        ),
        _ => None,
    }
}

fn get_load_shape(op: Opcode, ty: Type) -> (shape: (Type, Option<ValueConversionKind>))
    requires
        load_shape(op, ty) is Some,
    ensures
        Some(shape) == load_shape(op, ty),
{
    match op {
        Opcode::Load => (ty, None),
        Opcode::Uload8 => (Type::Lane(LaneType::I8), Some(ValueConversionKind::ZeroExtend(ty))),
        Opcode::Sload8 => (Type::Lane(LaneType::I8), Some(ValueConversionKind::SignExtend(ty))),
        Opcode::Uload16 => (Type::Lane(LaneType::I16), Some(ValueConversionKind::ZeroExtend(ty))),
        Opcode::Sload16 => (Type::Lane(LaneType::I16), Some(ValueConversionKind::SignExtend(ty))),
        Opcode::Uload32 => (Type::Lane(LaneType::I32), Some(ValueConversionKind::ZeroExtend(ty))),
        Opcode::Sload32 => (Type::Lane(LaneType::I32), Some(ValueConversionKind::SignExtend(ty))),
        _ => vstd::pervasive::unreached(),
    }
}

/// How a store narrows its value, if `op` is a store.
pub open spec fn store_shape(op: Opcode) -> Option<Option<ValueConversionKind>> {
    match op {
        Opcode::Store => Some(None),
        Opcode::Istore8 => Some(Some(ValueConversionKind::Truncate(Type::Lane(LaneType::I8)))),
        Opcode::Istore16 => Some(Some(ValueConversionKind::Truncate(Type::Lane(LaneType::I16)))),
        Opcode::Istore32 => Some(Some(ValueConversionKind::Truncate(Type::Lane(LaneType::I32)))),
        _ => None,
    }
}

fn get_store_shape(op: Opcode) -> (kind: Option<ValueConversionKind>)
    requires
        store_shape(op) is Some,
    ensures
        Some(kind) == store_shape(op),
{
    match op {
        Opcode::Store => None,
        Opcode::Istore8 => Some(ValueConversionKind::Truncate(Type::Lane(LaneType::I8))),
        Opcode::Istore16 => Some(ValueConversionKind::Truncate(Type::Lane(LaneType::I16))),
        Opcode::Istore32 => Some(ValueConversionKind::Truncate(Type::Lane(LaneType::I32))),
        _ => vstd::pervasive::unreached(),
    }
}

/// `v` after a conversion, if there is one to be made.
pub open spec fn converted<V: Value>(v: V, kind: Option<ValueConversionKind>) -> Eval<
    V,
    StepError,
> {
    match kind {
        Some(k) => lifted(eval(v.spec_convert(k))),
        None => Eval::Value(v),
    }
}

fn convert_if<V: Value>(v: V, kind: Option<ValueConversionKind>) -> (r: Result<V, StepError>)
    ensures
        eval(r) == converted(v, kind),
{
    match kind {
        Some(k) => lift(v.convert(k)),
        None => Ok(v),
    }
}

/// The address that a load accesses: the offset and all arguments.
pub open spec fn load_address<'a, V: Value, S: State<'a, V>, I: InstructionContext>(
    s: S,
    c: I,
    ty: Type,
) -> Eval<u64, StepError> {
    imm_value(s, c, ty).bind(
        |base: V|
            arg_values(s, c).bind(
                |values: Seq<V>| lifted(address_sum(Type::Lane(LaneType::I64), base, values)),
            ),
    )
}

/// The address that a store accesses: the offset and all arguments but the value to store.
pub open spec fn store_address<'a, V: Value, S: State<'a, V>, I: InstructionContext>(
    s: S,
    c: I,
    ty: Type,
) -> Eval<u64, StepError> {
    imm_value(s, c, ty).bind(
        |base: V|
            args_after_first(s, c).bind(
                |values: Seq<V>| lifted(address_sum(Type::Lane(LaneType::I64), base, values)),
            ),
    )
}

/// Loads and stores.
pub open spec fn access_effect<'a, V: Value, S: State<'a, V>, I: InstructionContext>(
    s: S,
    c: I,
    op: Opcode,
    ty: Type,
) -> Eval<Effect<V>, StepError> {
    let flags = present::<MemFlags, StepError>(c.spec_data().memflags());
    match op {
        Opcode::Load
        | Opcode::Uload8
        | Opcode::Sload8
        | Opcode::Uload16
        | Opcode::Sload16
        | Opcode::Uload32
        | Opcode::Sload32 => load_address::<V, S, I>(s, c, ty).bind(
            |addr: u64|
                flags.bind(
                    |flags: MemFlags|
                        match load_shape(op, ty) {
                            Some((load_ty, kind)) => match loaded::<V, S>(s, addr, load_ty, flags) {
                                Ok(v) => converted(v, kind).bind(|w: V| Eval::Value(assigned(w))),
                                Err(e) => Eval::Value(trapped(CraneliftTrap::User(memory_trap(e)))),
                            },
                            None => Eval::Undefined,
                        },
                ),
        ),
        Opcode::Store | Opcode::Istore8 | Opcode::Istore16 | Opcode::Istore32 => store_address::<
            V,
            S,
            I,
        >(s, c, ty).bind(
            |addr: u64|
                flags.bind(
                    |flags: MemFlags|
                        arg_value(s, c, 0).bind(
                            |v: V|
                                converted(v, store_shape(op)->0).bind(
                                    |w: V|
                                        Eval::Value(
                                            stored(
                                                s.spec_decode_address(addr),
                                                w,
                                                flags,
                                                Flow::Continue,
                                            ),
                                        ),
                                ),
                        ),
                ),
        ),
        _ => Eval::Undefined,
    }
}

/// Evaluate a load or a store.
pub fn eval_access<'a, V: Value, S: State<'a, V>, I: InstructionContext>(
    s: &S,
    c: &I,
    op: Opcode,
    ty: Type,
) -> (r: ActionResult<'a, V>)
    requires
        access_effect::<V, S, I>(*s, *c, op, ty).defined(),
    ensures
        eval_action(r) == access_effect::<V, S, I>(*s, *c, op, ty),
{
    match op {
        Opcode::Load
        | Opcode::Uload8
        | Opcode::Sload8
        | Opcode::Uload16
        | Opcode::Sload16
        | Opcode::Uload32
        | Opcode::Sload32 => {
            let (load_ty, kind) = get_load_shape(op, ty);
            let base: V = imm(s, c, ty);
            let values: Vec<V> = args(s, c)?;
            let addr: u64 = lift(calculate_addr(Type::Lane(LaneType::I64), base, &values))?;
            let flags: MemFlags = c.data().memflags().unwrap();
            match load::<V, S>(s, addr, load_ty, flags) {
                Ok(v) => {
                    let w: V = convert_if(v, kind)?;
                    Ok(assign(w))
                },
                Err(e) => Ok(trap_with(CraneliftTrap::User(memerror_to_trap(e)))),
            }
        },
        Opcode::Store | Opcode::Istore8 | Opcode::Istore16 | Opcode::Istore32 => {
            let kind: Option<ValueConversionKind> = get_store_shape(op);
            let base: V = imm(s, c, ty);
            let values: Vec<V> = args_from_second(s, c)?;
            let addr: u64 = lift(calculate_addr(Type::Lane(LaneType::I64), base, &values))?;
            let flags: MemFlags = c.data().memflags().unwrap();
            let v: V = arg(s, c, 0)?;
            let w: V = convert_if(v, kind)?;
            Ok(store(s.decode_address(addr), w, flags, ControlFlow::Continue))
        },
        _ => vstd::pervasive::unreached(),
    }
}

/// The offset into a stack slot: the immediate offset and the given values.
pub open spec fn slot_offset<'a, V: Value, S: State<'a, V>, I: InstructionContext>(
    s: S,
    c: I,
    ty: Type,
    values: Eval<Seq<V>, StepError>,
) -> Eval<(StackSlot, u64), StepError> {
    present(c.spec_data().stack_slot()).bind(
        |slot: StackSlot|
            imm_value(s, c, ty).bind(
                |base: V|
                    values.bind(
                        |values: Seq<V>|
                            lifted(total(base, values)).bind(
                                |n: i128| Eval::Value((slot, low_64_bits(n))),
                            ),
                    ),
            ),
    )
}

/// A 64-bit stack address.
pub open spec fn slot_address<'a, V: Value, S: State<'a, V>>(s: S, at: (StackSlot, u64)) -> Result<
    Address,
    MemoryError,
> {
    s.spec_stack_address(AddressSize::Bits64, at.0, at.1)
}

/// A stack address as a value of type `ty`.
pub open spec fn slot_pointer<'a, V: Value, S: State<'a, V>>(
    s: S,
    ty: Type,
    at: (StackSlot, u64),
) -> Result<V, MemoryError> {
    match s.spec_address_size(ty) {
        Ok(size) => match s.spec_stack_address(size, at.0, at.1) {
            Ok(addr) => match s.spec_address_to_data(addr) {
                Ok(data) => Ok(V::spec_from_data(data)),
                Err(e) => Err(e),
            },
            Err(e) => Err(e),
        },
        Err(e) => Err(e),
    }
}

fn get_slot_pointer<'a, V: Value, S: State<'a, V>>(s: &S, ty: Type, slot: StackSlot, offset: u64) -> (
v: Result<V, MemoryError>)
    ensures
        v == slot_pointer::<V, S>(*s, ty, (slot, offset)),
{
    let size: AddressSize = s.address_size(ty)?;
    let addr: Address = s.stack_address(size, slot, offset)?;
    let data: DataValue = s.address_to_data(addr)?;
    Ok(V::from_data(data))
}

/// Accesses to stack slots, and their addresses.
pub open spec fn stack_effect<'a, V: Value, S: State<'a, V>, I: InstructionContext>(
    s: S,
    c: I,
    op: Opcode,
    ty: Type,
) -> Eval<Effect<V>, StepError> {
    match op {
        Opcode::StackLoad => slot_offset::<V, S, I>(s, c, ty, arg_values(s, c)).bind(
            |at: (StackSlot, u64)|
                Eval::Value(
                    assigned_or_memtrapped(
                        match slot_address::<V, S>(s, at) {
                            Ok(addr) => s.spec_checked_load(addr, ty, MemFlags::empty()),
                            Err(e) => Err(e),
                        },
                    ),
                ),
        ),
        Opcode::StackStore => arg_value(s, c, 0).bind(
            |v: V|
                slot_offset::<V, S, I>(s, c, ty, args_after_first(s, c)).bind(
                    |at: (StackSlot, u64)|
                        Eval::Value(
                            stored(
                                slot_address::<V, S>(s, at),
                                v,
                                MemFlags::empty(),
                                Flow::Continue,
                            ),
                        ),
                ),
        ),
        Opcode::StackAddr => slot_offset::<V, S, I>(s, c, ty, arg_values(s, c)).bind(
            |at: (StackSlot, u64)|
                Eval::Value(assigned_or_memtrapped(slot_pointer::<V, S>(s, ty, at))),
        ),
        _ => Eval::Undefined,
    }
}

/// Evaluate an access to a stack slot.
pub fn eval_stack<'a, V: Value, S: State<'a, V>, I: InstructionContext>(
    s: &S,
    c: &I,
    op: Opcode,
    ty: Type,
) -> (r: ActionResult<'a, V>)
    requires
        stack_effect::<V, S, I>(*s, *c, op, ty).defined(),
    ensures
        eval_action(r) == stack_effect::<V, S, I>(*s, *c, op, ty),
{
    match op {
        Opcode::StackLoad => {
            let slot: StackSlot = c.data().stack_slot().unwrap();
            let base: V = imm(s, c, ty);
            let values: Vec<V> = args(s, c)?;
            let offset: u64 = truncate_to_64_bits(lift(sum(base, &values))?);
            let v: Result<V, MemoryError> = match s.stack_address(
                AddressSize::Bits64,
                slot,
                offset,
            ) {
                Ok(addr) => s.checked_load(addr, ty, MemFlags::new()),
                Err(e) => Err(e),
            };
            Ok(assign_or_memtrap(v))
        },
        Opcode::StackStore => {
            let v: V = arg(s, c, 0)?;
            let slot: StackSlot = c.data().stack_slot().unwrap();
            let base: V = imm(s, c, ty);
            let values: Vec<V> = args_from_second(s, c)?;
            let offset: u64 = truncate_to_64_bits(lift(sum(base, &values))?);
            Ok(
                store(
                    s.stack_address(AddressSize::Bits64, slot, offset),
                    v,
                    MemFlags::new(),
                    ControlFlow::Continue,
                ),
            )
        },
        Opcode::StackAddr => {
            let slot: StackSlot = c.data().stack_slot().unwrap();
            let base: V = imm(s, c, ty);
            let values: Vec<V> = args(s, c)?;
            let offset: u64 = truncate_to_64_bits(lift(sum(base, &values))?);
            Ok(assign_or_memtrap(get_slot_pointer(s, ty, slot, offset)))
        },
        _ => vstd::pervasive::unreached(),
    }
}

/// A global value; that it cannot be resolved is an error.
pub open spec fn global<'a, V: Value, S: State<'a, V>>(s: S, gv: GlobalValue) -> Eval<V, StepError> {
    match s.spec_resolve_global_value(gv) {
        Ok(v) => Eval::Value(v),
        Err(e) => Eval::Error(StepError::MemoryError(e)),
    }
}

fn get_global<'a, V: Value, S: State<'a, V>>(s: &S, gv: GlobalValue) -> (v: Result<V, StepError>)
    ensures
        eval(v) == global::<V, S>(*s, gv),
{
    match s.resolve_global_value(gv) {
        Ok(v) => Ok(v),
        Err(e) => Err(StepError::from(e)),
    }
}

/// The address of the entry of a table that starts at `base` and has `bound` entries: `index` times
/// the size of an entry, plus `offset`, must not lie behind the end.
pub open spec fn table_entry<V: Value>(
    base: V,
    bound: V,
    index: V,
    element_size: V,
    offset: V,
) -> Eval<Effect<V>, ValueError> {
    eval(index.spec_mul(element_size)).bind(
        |scaled: V|
            eval(scaled.spec_add(offset)).bind(
                |byte_offset: V|
                    eval(bound.spec_mul(element_size)).bind(
                        |bound_bytes: V|
                            eval(byte_offset.spec_gt(bound_bytes)).bind(
                                |outside: bool|
                                    if outside {
                                        Eval::Value(
                                            trapped(CraneliftTrap::User(TrapCode::HeapOutOfBounds)),
                                        )
                                    } else {
                                        eval(base.spec_add(byte_offset)).bind(
                                            |addr: V| Eval::Value(assigned(addr)),
                                        )
                                    },
                            ),
                    ),
            ),
    )
}

fn get_table_entry<'a, V: Value>(base: V, bound: V, index: V, element_size: V, offset: V) -> (r:
    ValueResult<Action<'a, V>>)
    ensures
        match r {
            Ok(action) => table_entry(base, bound, index, element_size, offset) == Eval::<
                Effect<V>,
                ValueError,
            >::Value(action@),
            Err(e) => table_entry(base, bound, index, element_size, offset) == Eval::<
                Effect<V>,
                ValueError,
            >::Error(e),
        },
{
    let byte_offset: V = index.mul(element_size.duplicate())?.add(offset)?;
    let bound_bytes: V = bound.mul(element_size)?;
    if byte_offset.gt(&bound_bytes)? {
        return Ok(trap_with(CraneliftTrap::User(TrapCode::HeapOutOfBounds)));
    }
    let addr: V = base.add(byte_offset)?;
    Ok(assign(addr))
}

/// Global values, tables and the pinned register.
pub open spec fn global_effect<'a, V: Value, S: State<'a, V>, I: InstructionContext>(
    s: S,
    c: I,
    op: Opcode,
) -> Eval<Effect<V>, StepError> {
    match op {
        Opcode::GlobalValue => match c.spec_data() {
            InstructionData::UnaryGlobalValue { global_value, .. } => Eval::Value(
                assigned_or_memtrapped(s.spec_resolve_global_value(global_value)),
            ),
            _ => Eval::Undefined,
        },
        Opcode::GetPinnedReg => Eval::Value(assigned(s.pinned_reg())),
        Opcode::SetPinnedReg => arg_value(s, c, 0).bind(
            |value: V| Eval::Value(Effect::SetPinnedReg { value }),
        ),
        Opcode::TableAddr => match c.spec_data() {
            InstructionData::TableAddr { table, offset, .. } => present(
                s.current_function().table(table),
            ).bind(
                |t: TableData|
                    global::<V, S>(s, t.base_gv).bind(
                        |base: V|
                            global::<V, S>(s, t.bound_gv).bind(
                                |bound: V|
                                    lifted(
                                        eval(V::spec_integer(t.element_size as int, t.index_type)),
                                    ).bind(
                                        |element_size: V|
                                            lifted(
                                                eval(V::spec_integer(offset as int, t.index_type)),
                                            ).bind(
                                                |inst_offset: V|
                                                    arg_value(s, c, 0).bind(
                                                        |index: V|
                                                            lifted(
                                                                table_entry(
                                                                    base,
                                                                    bound,
                                                                    index,
                                                                    element_size,
                                                                    inst_offset,
                                                                ),
                                                            ),
                                                    ),
                                            ),
                                    ),
                            ),
                    ),
            ),
            _ => Eval::Undefined,
        },
        _ => Eval::Undefined,
    }
}

/// Evaluate an access to a global value, a table or the pinned register.
pub fn eval_global<'a, V: Value, S: State<'a, V>, I: InstructionContext>(s: &S, c: &I, op: Opcode) -> (
r: ActionResult<'a, V>)
    requires
        global_effect::<V, S, I>(*s, *c, op).defined(),
    ensures
        eval_action(r) == global_effect::<V, S, I>(*s, *c, op),
{
    match op {
        Opcode::GlobalValue => match c.data() {
            InstructionData::UnaryGlobalValue { global_value, .. } => Ok(
                assign_or_memtrap(s.resolve_global_value(*global_value)),
            ),
            _ => vstd::pervasive::unreached(),
        },
        Opcode::GetPinnedReg => Ok(assign(s.get_pinned_reg())),
        Opcode::SetPinnedReg => {
            let value: V = arg(s, c, 0)?;
            Ok(Action::SetPinnedReg { value })
        },
        Opcode::TableAddr => match c.data() {
            InstructionData::TableAddr { table, offset, .. } => {
                let t: TableData = s.get_current_function().tables[table.0 as usize];
                let base: V = get_global(s, t.base_gv)?;
                let bound: V = get_global(s, t.bound_gv)?;
                let element_size: V = lift(V::integer(t.element_size as i128, t.index_type))?;
                let inst_offset: V = lift(V::integer(*offset as i128, t.index_type))?;
                let index: V = arg(s, c, 0)?;
                lift(get_table_entry(base, bound, index, element_size, inst_offset))
            },
            _ => vstd::pervasive::unreached(),
        },
        _ => vstd::pervasive::unreached(),
    }
}

/// The greater or the lesser of two values, read as unsigned integers.
pub open spec fn unsigned_extreme<V: Value>(prev: V, val: V, greater: bool) -> Eval<V, ValueError> {
    eval(val.spec_convert(ValueConversionKind::ToUnsigned)).bind(
        |v: V|
            eval(prev.spec_convert(ValueConversionKind::ToUnsigned)).bind(
                |p: V|
                    eval(
                        if greater {
                            v.spec_max(p)
                        } else {
                            v.spec_min(p)
                        },
                    ).bind(|w: V| eval(w.spec_convert(ValueConversionKind::ToSigned))),
            ),
    )
}

/// What an atomic read-modify-write puts in the place of `prev`.
pub open spec fn replacement<V: Value>(op: AtomicRmwOp, prev: V, val: V) -> Eval<V, ValueError> {
    match op {
        AtomicRmwOp::Xchg => Eval::Value(val),
        AtomicRmwOp::Add => eval(prev.spec_add(val)),
        AtomicRmwOp::Sub => eval(prev.spec_sub(val)),
        AtomicRmwOp::And => eval(prev.spec_and(val)),
        AtomicRmwOp::Or => eval(prev.spec_or(val)),
        AtomicRmwOp::Xor => eval(prev.spec_xor(val)),
        AtomicRmwOp::Nand => eval(prev.spec_and(val)).bind(|v: V| eval(v.spec_not())),
        AtomicRmwOp::Smax => eval(prev.spec_max(val)),
        AtomicRmwOp::Smin => eval(prev.spec_min(val)),
        AtomicRmwOp::Umax => unsigned_extreme(prev, val, true),
        AtomicRmwOp::Umin => unsigned_extreme(prev, val, false),
    }
}

fn replace<V: Value>(op: AtomicRmwOp, prev: V, val: V) -> (v: ValueResult<V>)
    ensures
        eval(v) == replacement(op, prev, val),
{
    match op {
        AtomicRmwOp::Xchg => Ok(val),
        AtomicRmwOp::Add => prev.add(val),
        AtomicRmwOp::Sub => prev.sub(val),
        AtomicRmwOp::And => prev.and(val),
        AtomicRmwOp::Or => prev.or(val),
        AtomicRmwOp::Xor => prev.xor(val),
        AtomicRmwOp::Nand => prev.and(val)?.not(),
        AtomicRmwOp::Smax => prev.max(val),
        AtomicRmwOp::Smin => prev.min(val),
        AtomicRmwOp::Umax => {
            let v: V = val.convert(ValueConversionKind::ToUnsigned)?;
            let p: V = prev.convert(ValueConversionKind::ToUnsigned)?;
            v.max(p)?.convert(ValueConversionKind::ToSigned)
        },
        AtomicRmwOp::Umin => {
            let v: V = val.convert(ValueConversionKind::ToUnsigned)?;
            let p: V = prev.convert(ValueConversionKind::ToUnsigned)?;
            v.min(p)?.convert(ValueConversionKind::ToSigned)
        },
    }
}

/// Atomic accesses. The interpreter always runs in a single threaded context.
pub open spec fn atomic_effect<'a, V: Value, S: State<'a, V>, I: InstructionContext>(
    s: S,
    c: I,
    op: Opcode,
    ty: Type,
) -> Eval<Effect<V>, StepError> {
    let flags = present::<MemFlags, StepError>(c.spec_data().memflags());
    match op {
        Opcode::AtomicRmw => present(c.spec_data().atomic_rmw_op()).bind(
            |rmw: AtomicRmwOp|
                arg_value(s, c, 1).bind(
                    |val: V|
                        arg_bits::<V, S, I>(s, c, 0).bind(
                            |addr: u64|
                                flags.bind(
                                    |flags: MemFlags|
                                        match loaded::<V, S>(s, addr, ty, flags) {
                                            Ok(prev) => lifted(replacement(rmw, prev, val)).bind(
                                                |new: V|
                                                    Eval::Value(
                                                        stored(
                                                            s.spec_decode_address(addr),
                                                            new,
                                                            flags,
                                                            Flow::Assign(seq![prev]),
                                                        ),
                                                    ),
                                            ),
                                            Err(e) => Eval::Value(
                                                trapped(CraneliftTrap::User(memory_trap(e))),
                                            ),
                                        },
                                ),
                        ),
                ),
        ),
        Opcode::AtomicCas => arg_bits::<V, S, I>(s, c, 0).bind(
            |addr: u64|
                flags.bind(
                    |flags: MemFlags|
                        match loaded::<V, S>(s, addr, ty, flags) {
                            Ok(prev) => arg_value(s, c, 1).bind(
                                |expected: V|
                                    lifted(eval(prev.spec_eq(expected))).bind(
                                        |equal: bool|
                                            if equal {
                                                arg_value(s, c, 2).bind(
                                                    |new: V|
                                                        Eval::Value(
                                                            stored(
                                                                s.spec_decode_address(addr),
                                                                new,
                                                                flags,
                                                                Flow::Assign(seq![prev]),
                                                            ),
                                                        ),
                                                )
                                            } else {
                                                Eval::Value(assigned(prev))
                                            },
                                    ),
                            ),
                            Err(e) => Eval::Value(trapped(CraneliftTrap::User(memory_trap(e)))),
                        },
                ),
        ),
        Opcode::AtomicLoad => arg_bits::<V, S, I>(s, c, 0).bind(
            |addr: u64|
                flags.bind(
                    |flags: MemFlags|
                        Eval::Value(assigned_or_memtrapped(loaded::<V, S>(s, addr, ty, flags))),
                ),
        ),
        Opcode::AtomicStore => arg_value(s, c, 0).bind(
            |val: V|
                arg_bits::<V, S, I>(s, c, 1).bind(
                    |addr: u64|
                        flags.bind(
                            |flags: MemFlags|
                                Eval::Value(
                                    stored(
                                        s.spec_decode_address(addr),
                                        val,
                                        flags,
                                        Flow::Continue,
                                    ),
                                ),
                        ),
                ),
        ),
        Opcode::Fence => Eval::Value(Effect::Flow(Flow::Continue)),
        _ => Eval::Undefined,
    }
}

/// Evaluate an atomic access.
pub fn eval_atomic<'a, V: Value, S: State<'a, V>, I: InstructionContext>(
    s: &S,
    c: &I,
    op: Opcode,
    ty: Type,
) -> (r: ActionResult<'a, V>)
    requires
        atomic_effect::<V, S, I>(*s, *c, op, ty).defined(),
    ensures
        eval_action(r) == atomic_effect::<V, S, I>(*s, *c, op, ty),
{
    match op {
        Opcode::AtomicRmw => {
            let rmw: AtomicRmwOp = c.data().atomic_rmw_op().unwrap();
            let val: V = arg(s, c, 1)?;
            let addr: u64 = read_arg_bits::<V, S, I>(s, c, 0)?;
            let flags: MemFlags = c.data().memflags().unwrap();
            let prev: V = match load::<V, S>(s, addr, ty, flags) {
                Ok(v) => v,
                Err(e) => {
                    return Ok(trap_with(CraneliftTrap::User(memerror_to_trap(e))));
                },
            };
            let new: V = lift(replace(rmw, prev.duplicate(), val))?;
            let values: Vec<V> = vec![prev];
            assert(values@ =~= seq![prev]);
            Ok(store(s.decode_address(addr), new, flags, ControlFlow::Assign(values)))
        },
        Opcode::AtomicCas => {
            let addr: u64 = read_arg_bits::<V, S, I>(s, c, 0)?;
            let flags: MemFlags = c.data().memflags().unwrap();
            let prev: V = match load::<V, S>(s, addr, ty, flags) {
                Ok(v) => v,
                Err(e) => {
                    return Ok(trap_with(CraneliftTrap::User(memerror_to_trap(e))));
                },
            };
            let expected: V = arg(s, c, 1)?;
            let equal: bool = lift(prev.eq(&expected))?;
            if equal {
                let new: V = arg(s, c, 2)?;
                let values: Vec<V> = vec![prev];
                assert(values@ =~= seq![prev]);
                Ok(store(s.decode_address(addr), new, flags, ControlFlow::Assign(values)))
            } else {
                Ok(assign(prev))
            }
        },
        Opcode::AtomicLoad => {
            let addr: u64 = read_arg_bits::<V, S, I>(s, c, 0)?;
            let flags: MemFlags = c.data().memflags().unwrap();
            // We are doing a regular load here, this isn't actually thread safe.
            Ok(assign_or_memtrap(load::<V, S>(s, addr, ty, flags)))
        },
        Opcode::AtomicStore => {
            let val: V = arg(s, c, 0)?;
            let addr: u64 = read_arg_bits::<V, S, I>(s, c, 1)?;
            let flags: MemFlags = c.data().memflags().unwrap();
            // We are doing a regular store here, this isn't actually thread safe.
            Ok(store(s.decode_address(addr), val, flags, ControlFlow::Continue))
        },
        // The interpreter always runs in a single threaded context, so we don't actually need to
        // emit a fence here.
        Opcode::Fence => Ok(Action::Flow(ControlFlow::Continue)),
        _ => vstd::pervasive::unreached(),
    }
}

} // verus!
