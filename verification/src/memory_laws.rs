//! What accesses to memory, to stack slots, to globals and to tables do.
use crate::arith::{fold_lanes, total, LaneMap};
use crate::control_laws::{lemma_first_unknown, lemma_values};
use crate::eval::{eval, lemma_sequence_stop, lemma_sequence_value, sequence, Eval};
use crate::flow::{CraneliftTrap, Effect, Flow, StepError};
use crate::ir::{
    AtomicRmwOp, GlobalValue, InstructionData, MemFlags, Opcode, StackSlot, Table, TableData,
    TrapCode, ValueRef,
};
use crate::operands::{address_sum, values_at};
use crate::state::{Address, AddressSize, InstructionContext, MemoryError, State};
use crate::step::{performed, step_effect};
use crate::terms::{
    accesses, are_values_of, arg_is, arg_unknown, assigns, fails_with, goes_on, is_first_unknown,
    misses, stores_value, traps, traps_for, yields,
};
use crate::types::{LaneType, Type};
use crate::value::{BinaryOp, Datum, Value, ValueConversionKind, ValueError, ValueResult};
use vstd::arithmetic::power2::*;
use vstd::prelude::*;

verus! {

/// Whether `sums` are the sums of `start` and the first of the values `zs`: each one is the one
/// before plus the next value.
pub open spec fn are_sums<V: Value>(sums: Seq<V>, start: V, zs: Seq<V>) -> bool {
    &&& 1 <= sums.len() <= zs.len() + 1
    &&& sums[0] == start
    &&& forall|i: int|
        0 <= i < sums.len() - 1 ==> (#[trigger] sums[i]).spec_add(zs[i]) == Ok::<V, ValueError>(
            sums[i + 1],
        )
}

proof fn lemma_sums<V: Value>(sums: Seq<V>, start: V, zs: Seq<V>)
    requires
        are_sums(sums, start, zs),
    ensures
        sums.len() == zs.len() + 1 ==> fold_lanes(zs, start, BinaryOp::Add) == Eval::<
            V,
            ValueError,
        >::Value(sums.last()),
        sums.len() <= zs.len() ==> (sums.last().spec_add(zs[sums.len() - 1]) matches Err(e)
            ==> fold_lanes(zs, start, BinaryOp::Add) == Eval::<V, ValueError>::Error(e)),
    decreases zs.len(),
{
    if zs.len() > 0 {
        if sums.len() > 1 {
            let later = sums.drop_first();
            let rest = zs.drop_first();
            assert(sums[0].spec_add(zs[0]) == Ok::<V, ValueError>(sums[1]));
            assert forall|i: int| 0 <= i < later.len() - 1 implies (
            #[trigger] later[i]).spec_add(rest[i]) == Ok::<V, ValueError>(later[i + 1]) by {
                assert(sums[i + 1].spec_add(zs[i + 1]) == Ok::<V, ValueError>(sums[i + 1 + 1]));
            }
            lemma_sums(later, sums[1], rest);
        }
    }
}

/// A sum is computed from left to right, and fails at the first addition that fails.
pub proof fn law_total<V: Value>(start: V, zs: Seq<V>, sums: Seq<V>)
    requires
        are_sums(sums, start, zs),
    ensures
        sums.len() == zs.len() + 1 ==> total(start, zs) == eval(sums.last().spec_into_int()),
        sums.len() <= zs.len() ==> (sums.last().spec_add(zs[sums.len() - 1]) matches Err(e)
            ==> total(start, zs) == Eval::<i128, ValueError>::Error(e)),
{
    lemma_sums(sums, start, zs);
}

/// How an address of 64 bits extends its parts.
pub open spec fn to_address_size() -> ValueConversionKind {
    ValueConversionKind::ZeroExtend(Type::Lane(LaneType::I64))
}

/// Whether the offset of an access and the values of its arguments add up to `bits`: each is
/// zero-extended to 64 bits, they are added from left to right, and of the sum the low 64 bits
/// count.
pub open spec fn adds_up_to<V: Value>(
    offset: i32,
    values: Seq<V>,
    zs: Seq<V>,
    sums: Seq<V>,
    bits: u64,
) -> bool {
    &&& V::spec_from_data(Datum::I32(offset)).spec_convert(to_address_size()) == Ok::<
        V,
        ValueError,
    >(sums[0])
    &&& zs.len() == values.len()
    &&& forall|i: int|
        0 <= i < values.len() ==> (#[trigger] values[i]).spec_convert(to_address_size()) == Ok::<
            V,
            ValueError,
        >(zs[i])
    &&& are_sums(sums, sums[0], zs)
    &&& sums.len() == zs.len() + 1
    &&& sums.last().spec_into_int() matches Ok(n) && bits == n as int % 0x1_0000_0000_0000_0000
}

proof fn lemma_address<V: Value>(
    offset: i32,
    values: Seq<V>,
    zs: Seq<V>,
    sums: Seq<V>,
    bits: u64,
)
    requires
        adds_up_to(offset, values, zs, sums, bits),
    ensures
        address_sum(
            Type::Lane(LaneType::I64),
            V::spec_from_data(Datum::I32(offset)),
            values,
        ) == Eval::<u64, ValueError>::Value(bits),
{
    let evals = LaneMap::<V>::Convert { kind: to_address_size() }.results(values);
    assert forall|i: int| 0 <= i < evals.len() implies (#[trigger] evals[i]) == Eval::<
        V,
        ValueError,
    >::Value(zs[i]) by {
        assert(values[i].spec_convert(to_address_size()) == Ok::<V, ValueError>(zs[i]));
    }
    lemma_sequence_value(evals);
    assert(sequence(evals) is Value);
    let tail = sequence(evals)->Value_0;
    assert forall|i: int| 0 <= i < zs.len() implies tail[i] == zs[i] by {
        assert(evals[i] == Eval::<V, ValueError>::Value(tail[i]));
    }
    assert(tail =~= zs);
    law_total(sums[0], zs, sums);
}

/// Whether the step assigns what is in memory, converted by `kind`, or traps since the access
/// fails.
pub open spec fn extends<V: Value>(
    r: Eval<Effect<V>, StepError>,
    outcome: Result<V, MemoryError>,
    kind: ValueConversionKind,
) -> bool {
    match outcome {
        Ok(v) => yields(r, v.spec_convert(kind)),
        Err(e) => traps_for(r, e),
    }
}

/// A load reads the memory at the sum of its offset and its arguments: as a value of the controlling
/// type, or as an integer of 8, 16 or 32 bits that is zero-extended or sign-extended to it.
pub proof fn law_load<'a, V: Value, S: State<'a, V>, I: InstructionContext>(
    s: S,
    c: I,
    opcode: Opcode,
    flags: MemFlags,
    offset: i32,
    ty: Type,
    values: Seq<V>,
    zs: Seq<V>,
    sums: Seq<V>,
    bits: u64,
)
    requires
        c.spec_data() == (InstructionData::Load { opcode, flags, offset }),
        c.spec_controlling_type() == Some(ty),
        are_values_of::<V, S>(s, c.spec_args(), values),
        adds_up_to(offset, values, zs, sums, bits),
    ensures
        ({
            let r = step_effect::<V, S, I>(s, c);
            let i8 = Type::Lane(LaneType::I8);
            let i16 = Type::Lane(LaneType::I16);
            let i32 = Type::Lane(LaneType::I32);
            match s.spec_decode_address(bits) {
                Err(e) => opcode is Load || opcode is Uload8 || opcode is Sload8 || opcode is Uload16
                    || opcode is Sload16 || opcode is Uload32 || opcode is Sload32 ==> traps_for(r, e),
                Ok(addr) => {
                    &&& opcode is Load ==> accesses(r, s.spec_checked_load(addr, ty, flags))
                    &&& opcode is Uload8 ==> extends(
                        r,
                        s.spec_checked_load(addr, i8, flags),
                        ValueConversionKind::ZeroExtend(ty),
                    )
                    &&& opcode is Sload8 ==> extends(
                        r,
                        s.spec_checked_load(addr, i8, flags),
                        ValueConversionKind::SignExtend(ty),
                    )
                    &&& opcode is Uload16 ==> extends(
                        r,
                        s.spec_checked_load(addr, i16, flags),
                        ValueConversionKind::ZeroExtend(ty),
                    )
                    &&& opcode is Sload16 ==> extends(
                        r,
                        s.spec_checked_load(addr, i16, flags),
                        ValueConversionKind::SignExtend(ty),
                    )
                    &&& opcode is Uload32 ==> extends(
                        r,
                        s.spec_checked_load(addr, i32, flags),
                        ValueConversionKind::ZeroExtend(ty),
                    )
                    &&& opcode is Sload32 ==> extends(
                        r,
                        s.spec_checked_load(addr, i32, flags),
                        ValueConversionKind::SignExtend(ty),
                    )
                },
            }
        }),
{
    lemma_values::<V, S>(s, c.spec_args(), values);
    lemma_address(offset, values, zs, sums, bits);
}

/// The number of bits that a widening load reads.
pub open spec fn bits_read(op: Opcode) -> Option<nat> {
    match op {
        Opcode::Uload8 | Opcode::Sload8 => Some(8),
        Opcode::Uload16 | Opcode::Sload16 => Some(16),
        Opcode::Uload32 | Opcode::Sload32 => Some(32),
        _ => None,
    }
}

/// Whether sign-extending `v` to type `ty` keeps the number `p` that it stands for, and
/// zero-extending it gives that number modulo `2^bits`.
pub open spec fn extends_as_number<V: Value>(v: V, p: i128, bits: nat, ty: Type) -> bool {
    &&& v.spec_convert(ValueConversionKind::SignExtend(ty)) matches Ok(w) && w.spec_into_int()
        == Ok::<i128, ValueError>(p)
    &&& v.spec_convert(ValueConversionKind::ZeroExtend(ty)) matches Ok(w) && (
    w.spec_into_int() matches Ok(q) && q == p as int % pow2(bits) as int)
}

/// In numbers: a signed load of `n` bits assigns the number from `-2^(n-1)` up to `2^(n-1)` that the
/// memory holds, an unsigned one that number modulo `2^n`.
pub proof fn law_loaded_number<'a, V: Value, S: State<'a, V>, I: InstructionContext>(
    s: S,
    c: I,
    opcode: Opcode,
    flags: MemFlags,
    offset: i32,
    ty: Type,
    values: Seq<V>,
    zs: Seq<V>,
    sums: Seq<V>,
    bits: u64,
    addr: Address,
    width: nat,
    narrow: Type,
    v: V,
    p: i128,
)
    requires
        c.spec_data() == (InstructionData::Load { opcode, flags, offset }),
        c.spec_controlling_type() == Some(ty),
        are_values_of::<V, S>(s, c.spec_args(), values),
        adds_up_to(offset, values, zs, sums, bits),
        s.spec_decode_address(bits) == Ok::<Address, MemoryError>(addr),
        bits_read(opcode) == Some(width),
        narrow == Type::Lane(LaneType::I8) && width == 8 || narrow == Type::Lane(LaneType::I16)
            && width == 16 || narrow == Type::Lane(LaneType::I32) && width == 32,
        s.spec_checked_load(addr, narrow, flags) == Ok::<V, MemoryError>(v),
        v.spec_into_int() == Ok::<i128, ValueError>(p),
        -pow2((width - 1) as nat) <= p
            < pow2((width - 1) as nat),
        extends_as_number(v, p, width, ty),
    ensures
        ({
            let r = step_effect::<V, S, I>(s, c);
            exists|w: V| #[trigger]
                assigns(r, w) && (w.spec_into_int() matches Ok(q) && if opcode is Sload8
                    || opcode is Sload16 || opcode is Sload32 {
                    q == p
                } else {
                    q == p as int % pow2(width) as int
                })
        }),
{
    law_load::<V, S, I>(s, c, opcode, flags, offset, ty, values, zs, sums, bits);
    if opcode is Sload8 || opcode is Sload16 || opcode is Sload32 {
        let w = v.spec_convert(ValueConversionKind::SignExtend(ty))->Ok_0;
        assert(assigns(step_effect::<V, S, I>(s, c), w));
    } else {
        let w = v.spec_convert(ValueConversionKind::ZeroExtend(ty))->Ok_0;
        assert(assigns(step_effect::<V, S, I>(s, c), w));
    }
}

/// A store puts its first argument at the sum of its offset and the other arguments: as it is, or
/// truncated to 8, 16 or 32 bits. It then goes on.
pub proof fn law_store<'a, V: Value, S: State<'a, V>, I: InstructionContext>(
    s: S,
    c: I,
    opcode: Opcode,
    flags: MemFlags,
    offset: i32,
    ty: Type,
    v: V,
    values: Seq<V>,
    zs: Seq<V>,
    sums: Seq<V>,
    bits: u64,
)
    requires
        c.spec_data() == (InstructionData::Store { opcode, flags, offset }),
        opcode is Store || opcode is Istore8 || opcode is Istore16 || opcode is Istore32,
        c.spec_controlling_type() == Some(ty),
        arg_is::<V, S, I>(s, c, 0, v),
        values.len() == c.spec_args().len() - 1,
        forall|i: int|
            0 <= i < values.len() ==> s.value_of(c.spec_args()[i + 1]) == Some(#[trigger] values[i]),
        adds_up_to(offset, values, zs, sums, bits),
    ensures
        ({
            let r = step_effect::<V, S, I>(s, c);
            let written: ValueResult<V> = match opcode {
                Opcode::Istore8 => v.spec_convert(
                    ValueConversionKind::Truncate(Type::Lane(LaneType::I8)),
                ),
                Opcode::Istore16 => v.spec_convert(
                    ValueConversionKind::Truncate(Type::Lane(LaneType::I16)),
                ),
                Opcode::Istore32 => v.spec_convert(
                    ValueConversionKind::Truncate(Type::Lane(LaneType::I32)),
                ),
                _ => Ok(v),
            };
            match written {
                Err(e) => fails_with(r, e),
                Ok(w) => match s.spec_decode_address(bits) {
                    Ok(addr) => stores_value(r, addr, w, flags, Flow::Continue),
                    Err(e) => traps_for(r, e),
                },
            }
        }),
{
    lemma_all_values::<V, S, I>(s, c, v, values);
    lemma_address(offset, values, zs, sums, bits);
}

/// The values of all arguments, and those of all but the first.
proof fn lemma_all_values<'a, V: Value, S: State<'a, V>, I: InstructionContext>(
    s: S,
    c: I,
    first: V,
    others: Seq<V>,
)
    requires
        arg_is::<V, S, I>(s, c, 0, first),
        others.len() == c.spec_args().len() - 1,
        forall|i: int|
            0 <= i < others.len() ==> s.value_of(c.spec_args()[i + 1]) == Some(#[trigger] others[i]),
    ensures
        sequence(values_at::<V, S>(s, c.spec_args())) matches Eval::Value(values) && values.len() > 0
            && values.drop_first() == others,
{
    let values = seq![first] + others;
    assert forall|i: int| 0 <= i < values.len() implies s.value_of(c.spec_args()[i]) == Some(
        #[trigger] values[i],
    ) by {
        if i > 0 {
            assert(values[i] == others[i - 1]);
        }
    }
    lemma_values::<V, S>(s, c.spec_args(), values);
    assert(values.drop_first() =~= others);
}

/// An access to memory misses the first of its arguments that has no value.
pub proof fn law_access_misses<'a, V: Value, S: State<'a, V>, I: InstructionContext>(
    s: S,
    c: I,
    opcode: Opcode,
    flags: MemFlags,
    offset: i32,
    name: ValueRef,
)
    requires
        c.spec_data() == (InstructionData::Load { opcode, flags, offset }) && (opcode is Load
            || opcode is Uload8 || opcode is Sload8 || opcode is Uload16 || opcode is Sload16
            || opcode is Uload32 || opcode is Sload32) || c.spec_data() == (InstructionData::Store {
            opcode,
            flags,
            offset,
        }) && (opcode is Store || opcode is Istore8 || opcode is Istore16 || opcode is Istore32),
        c.spec_controlling_type() is Some,
        is_first_unknown::<V, S>(s, c.spec_args(), name),
    ensures
        misses(step_effect::<V, S, I>(s, c), name),
{
    lemma_first_unknown::<V, S>(s, c.spec_args(), name);
}

/// An access fails if its offset or one of the arguments that make its address cannot be extended;
/// the first one of them decides.
pub proof fn law_access_fails<'a, V: Value, S: State<'a, V>, I: InstructionContext>(
    s: S,
    c: I,
    opcode: Opcode,
    flags: MemFlags,
    offset: i32,
    values: Seq<V>,
    k: int,
    e: ValueError,
)
    requires
        c.spec_data() == (InstructionData::Load { opcode, flags, offset }),
        opcode is Load || opcode is Uload8 || opcode is Sload8 || opcode is Uload16
            || opcode is Sload16 || opcode is Uload32 || opcode is Sload32,
        c.spec_controlling_type() is Some,
        are_values_of::<V, S>(s, c.spec_args(), values),
    ensures
        V::spec_from_data(Datum::I32(offset)).spec_convert(to_address_size()) == Err::<
            V,
            ValueError,
        >(e) ==> fails_with(step_effect::<V, S, I>(s, c), e),
        V::spec_from_data(Datum::I32(offset)).spec_convert(to_address_size()) is Ok && 0 <= k
            < values.len() && (forall|i: int|
            0 <= i < k ==> (#[trigger] values[i]).spec_convert(to_address_size()) is Ok)
            && values[k].spec_convert(to_address_size()) == Err::<V, ValueError>(e) ==> fails_with(
            step_effect::<V, S, I>(s, c),
            e,
        ),
{
    lemma_values::<V, S>(s, c.spec_args(), values);
    let evals = LaneMap::<V>::Convert { kind: to_address_size() }.results(values);
    if 0 <= k < values.len() && (forall|i: int|
        0 <= i < k ==> (#[trigger] values[i]).spec_convert(to_address_size()) is Ok)
        && values[k].spec_convert(to_address_size()) == Err::<V, ValueError>(e) {
        let first = evals.take(k);
        assert forall|i: int| 0 <= i < first.len() implies (#[trigger] first[i]) is Value by {
            assert(values[i].spec_convert(to_address_size()) is Ok);
        }
        lemma_sequence_value(first);
        lemma_sequence_stop(evals, k);
    }
}

/// Whether the offset of an access to a stack slot and the values of its arguments add up to `bits`:
/// they are added from left to right, and of the sum the low 64 bits count.
pub open spec fn slot_offset_is<V: Value>(
    offset: i32,
    values: Seq<V>,
    sums: Seq<V>,
    bits: u64,
) -> bool {
    &&& are_sums(sums, V::spec_from_data(Datum::I32(offset)), values)
    &&& sums.len() == values.len() + 1
    &&& sums.last().spec_into_int() matches Ok(n) && bits == n as int % 0x1_0000_0000_0000_0000
}

/// A load from a stack slot reads a value of the controlling type at the offset in the slot, and the
/// address of a slot is that of the offset in it, in the size that the controlling type asks for.
pub proof fn law_stack_load<'a, V: Value, S: State<'a, V>, I: InstructionContext>(
    s: S,
    c: I,
    opcode: Opcode,
    stack_slot: StackSlot,
    offset: i32,
    ty: Type,
    values: Seq<V>,
    sums: Seq<V>,
    bits: u64,
)
    requires
        c.spec_data() == (InstructionData::StackLoad { opcode, stack_slot, offset }),
        c.spec_controlling_type() == Some(ty),
        are_values_of::<V, S>(s, c.spec_args(), values),
        slot_offset_is(offset, values, sums, bits),
    ensures
        opcode is StackLoad ==> match s.spec_stack_address(AddressSize::Bits64, stack_slot, bits) {
            Ok(addr) => accesses(
                step_effect::<V, S, I>(s, c),
                s.spec_checked_load(addr, ty, MemFlags::empty()),
            ),
            Err(e) => traps_for(step_effect::<V, S, I>(s, c), e),
        },
        opcode is StackAddr ==> match s.spec_address_size(ty) {
            Err(e) => traps_for(step_effect::<V, S, I>(s, c), e),
            Ok(size) => match s.spec_stack_address(size, stack_slot, bits) {
                Err(e) => traps_for(step_effect::<V, S, I>(s, c), e),
                Ok(addr) => match s.spec_address_to_data(addr) {
                    Err(e) => traps_for(step_effect::<V, S, I>(s, c), e),
                    Ok(data) => assigns(step_effect::<V, S, I>(s, c), V::spec_from_data(data)),
                },
            },
        },
{
    lemma_values::<V, S>(s, c.spec_args(), values);
    law_total(V::spec_from_data(Datum::I32(offset)), values, sums);
}

/// A store to a stack slot puts its first argument at the offset in the slot, and then goes on.
pub proof fn law_stack_store<'a, V: Value, S: State<'a, V>, I: InstructionContext>(
    s: S,
    c: I,
    stack_slot: StackSlot,
    offset: i32,
    ty: Type,
    v: V,
    values: Seq<V>,
    sums: Seq<V>,
    bits: u64,
)
    requires
        c.spec_data() == (InstructionData::StackStore {
            opcode: Opcode::StackStore,
            stack_slot,
            offset,
        }),
        c.spec_controlling_type() == Some(ty),
        arg_is::<V, S, I>(s, c, 0, v),
        values.len() == c.spec_args().len() - 1,
        forall|i: int|
            0 <= i < values.len() ==> s.value_of(c.spec_args()[i + 1]) == Some(#[trigger] values[i]),
        slot_offset_is(offset, values, sums, bits),
    ensures
        match s.spec_stack_address(AddressSize::Bits64, stack_slot, bits) {
            Ok(addr) => stores_value(
                step_effect::<V, S, I>(s, c),
                addr,
                v,
                MemFlags::empty(),
                Flow::Continue,
            ),
            Err(e) => traps_for(step_effect::<V, S, I>(s, c), e),
        },
{
    lemma_all_values::<V, S, I>(s, c, v, values);
    law_total(V::spec_from_data(Datum::I32(offset)), values, sums);
}

/// A global value is assigned as the state resolves it; the pinned register is read as it is, and
/// written with the first argument.
pub proof fn law_globals<'a, V: Value, S: State<'a, V>, I: InstructionContext>(
    s: S,
    c: I,
    gv: GlobalValue,
    v: V,
)
    requires
        c.spec_controlling_type() is Some,
    ensures
        c.spec_data() == (InstructionData::UnaryGlobalValue {
            opcode: Opcode::GlobalValue,
            global_value: gv,
        }) ==> accesses(step_effect::<V, S, I>(s, c), s.spec_resolve_global_value(gv)),
        c.spec_data().opcode() is GetPinnedReg ==> assigns(
            step_effect::<V, S, I>(s, c),
            s.pinned_reg(),
        ),
        c.spec_data().opcode() is SetPinnedReg && arg_is::<V, S, I>(s, c, 0, v) ==> step_effect::<
            V,
            S,
            I,
        >(s, c) == Eval::<Effect<V>, StepError>::Value(Effect::SetPinnedReg { value: v }),
        c.spec_data().opcode() is SetPinnedReg && arg_unknown::<V, S, I>(s, c, 0) ==> misses(
            step_effect::<V, S, I>(s, c),
            c.spec_args()[0],
        ),
        c.spec_data().opcode() is Fence ==> goes_on(step_effect::<V, S, I>(s, c)),
{
}

/// The address of an entry of a table is that of the table, plus the index times the size of an
/// entry, plus the offset; it is a trap if that lies behind the end of the table.
pub proof fn law_table_addr<'a, V: Value, S: State<'a, V>, I: InstructionContext>(
    s: S,
    c: I,
    table: Table,
    offset: i32,
    t: TableData,
    base: V,
    bound: V,
    size: V,
    inst_offset: V,
    index: V,
    scaled: V,
    distance: V,
    end: V,
    outside: bool,
)
    requires
        c.spec_data() == (InstructionData::TableAddr { opcode: Opcode::TableAddr, table, offset }),
        c.spec_controlling_type() is Some,
        table.0 < s.current_function().tables@.len(),
        s.current_function().tables@[table.0 as int] == t,
        s.spec_resolve_global_value(t.base_gv) == Ok::<V, MemoryError>(base),
        s.spec_resolve_global_value(t.bound_gv) == Ok::<V, MemoryError>(bound),
        V::spec_integer(t.element_size as int, t.index_type) == Ok::<V, ValueError>(size),
        V::spec_integer(offset as int, t.index_type) == Ok::<V, ValueError>(inst_offset),
        arg_is::<V, S, I>(s, c, 0, index),
        index.spec_mul(size) == Ok::<V, ValueError>(scaled),
        scaled.spec_add(inst_offset) == Ok::<V, ValueError>(distance),
        bound.spec_mul(size) == Ok::<V, ValueError>(end),
        distance.spec_gt(end) == Ok::<bool, ValueError>(outside),
    ensures
        outside ==> traps(step_effect::<V, S, I>(s, c), TrapCode::HeapOutOfBounds),
        !outside ==> yields(step_effect::<V, S, I>(s, c), base.spec_add(distance)),
{
}

/// The address of an entry of a table fails where the table or its bound cannot be resolved.
pub proof fn law_table_addr_failure<'a, V: Value, S: State<'a, V>, I: InstructionContext>(
    s: S,
    c: I,
    table: Table,
    offset: i32,
    t: TableData,
)
    requires
        c.spec_data() == (InstructionData::TableAddr { opcode: Opcode::TableAddr, table, offset }),
        c.spec_controlling_type() is Some,
        table.0 < s.current_function().tables@.len(),
        s.current_function().tables@[table.0 as int] == t,
    ensures
        s.spec_resolve_global_value(t.base_gv) matches Err(e) ==> step_effect::<V, S, I>(s, c)
            == Eval::<Effect<V>, StepError>::Error(StepError::MemoryError(e)),
        s.spec_resolve_global_value(t.base_gv) is Ok ==> (s.spec_resolve_global_value(
            t.bound_gv,
        ) matches Err(e) ==> step_effect::<V, S, I>(s, c) == Eval::<Effect<V>, StepError>::Error(
            StepError::MemoryError(e),
        )),
{
}

/// Whether the step stores what an operation gives in the place of `prev` and assigns `prev`, or
/// fails with the error of the operation.
pub open spec fn swaps<V>(
    r: Eval<Effect<V>, StepError>,
    addr: Address,
    flags: MemFlags,
    prev: V,
    new: ValueResult<V>,
) -> bool {
    match new {
        Ok(v) => stores_value(r, addr, v, flags, Flow::Assign(seq![prev])),
        Err(e) => fails_with(r, e),
    }
}

/// An atomic read-modify-write gives the value that was in memory before. It stores: the operand; the
/// sum, the difference, the bits in both, in either, in one of them, or not in both; the signed
/// maximum or minimum.
pub proof fn law_atomic_update<'a, V: Value, S: State<'a, V>, I: InstructionContext>(
    s: S,
    c: I,
    ty: Type,
    flags: MemFlags,
    op: AtomicRmwOp,
    p: V,
    n: i128,
    bits: u64,
    addr: Address,
    val: V,
    prev: V,
)
    requires
        c.spec_data() == (InstructionData::AtomicRmw { opcode: Opcode::AtomicRmw, flags, op }),
        c.spec_controlling_type() == Some(ty),
        arg_is::<V, S, I>(s, c, 0, p),
        p.spec_into_int() == Ok::<i128, ValueError>(n),
        bits == n as int % 0x1_0000_0000_0000_0000,
        arg_is::<V, S, I>(s, c, 1, val),
        s.spec_decode_address(bits) == Ok::<Address, MemoryError>(addr),
        s.spec_checked_load(addr, ty, flags) == Ok::<V, MemoryError>(prev),
    ensures
        ({
            let r = step_effect::<V, S, I>(s, c);
            &&& op is Xchg ==> swaps(r, addr, flags, prev, Ok(val))
            &&& op is Add ==> swaps(r, addr, flags, prev, prev.spec_add(val))
            &&& op is Sub ==> swaps(r, addr, flags, prev, prev.spec_sub(val))
            &&& op is And ==> swaps(r, addr, flags, prev, prev.spec_and(val))
            &&& op is Or ==> swaps(r, addr, flags, prev, prev.spec_or(val))
            &&& op is Xor ==> swaps(r, addr, flags, prev, prev.spec_xor(val))
            &&& op is Nand ==> match prev.spec_and(val) {
                Ok(both) => swaps(r, addr, flags, prev, both.spec_not()),
                Err(e) => fails_with(r, e),
            }
            &&& op is Smax ==> swaps(r, addr, flags, prev, prev.spec_max(val))
            &&& op is Smin ==> swaps(r, addr, flags, prev, prev.spec_min(val))
        }),
{
}

/// The unsigned maximum and minimum of an atomic read-modify-write: both values are read as unsigned
/// integers, and the greater or the lesser one is stored as a signed integer again.
pub proof fn law_atomic_unsigned<'a, V: Value, S: State<'a, V>, I: InstructionContext>(
    s: S,
    c: I,
    ty: Type,
    flags: MemFlags,
    op: AtomicRmwOp,
    p: V,
    n: i128,
    bits: u64,
    addr: Address,
    val: V,
    prev: V,
    unsigned_val: V,
    unsigned_prev: V,
    m: V,
)
    requires
        c.spec_data() == (InstructionData::AtomicRmw { opcode: Opcode::AtomicRmw, flags, op }),
        c.spec_controlling_type() == Some(ty),
        arg_is::<V, S, I>(s, c, 0, p),
        p.spec_into_int() == Ok::<i128, ValueError>(n),
        bits == n as int % 0x1_0000_0000_0000_0000,
        arg_is::<V, S, I>(s, c, 1, val),
        s.spec_decode_address(bits) == Ok::<Address, MemoryError>(addr),
        s.spec_checked_load(addr, ty, flags) == Ok::<V, MemoryError>(prev),
        val.spec_convert(ValueConversionKind::ToUnsigned) == Ok::<V, ValueError>(unsigned_val),
        prev.spec_convert(ValueConversionKind::ToUnsigned) == Ok::<V, ValueError>(unsigned_prev),
        op is Umax && unsigned_val.spec_max(unsigned_prev) == Ok::<V, ValueError>(m) || op is Umin
            && unsigned_val.spec_min(unsigned_prev) == Ok::<V, ValueError>(m),
    ensures
        swaps(
            step_effect::<V, S, I>(s, c),
            addr,
            flags,
            prev,
            m.spec_convert(ValueConversionKind::ToSigned),
        ),
{
}

/// Whether the maximum of two values is the one that stands for the greater number, and their
/// minimum the one that stands for the lesser.
pub open spec fn extremes_are_numbers<V: Value>(a: V, b: V) -> bool {
    a.spec_into_int() matches Ok(x) && (b.spec_into_int() matches Ok(y) && {
        &&& a.spec_max(b) matches Ok(m) && m.spec_into_int() == Ok::<i128, ValueError>(
            if x < y {
                y
            } else {
                x
            },
        )
        &&& a.spec_min(b) matches Ok(m) && m.spec_into_int() == Ok::<i128, ValueError>(
            if x < y {
                x
            } else {
                y
            },
        )
    })
}

/// In numbers: after a signed maximum the store holds a number that is not less than the one before
/// and the operand, and is one of them; after a signed minimum, one that is not greater.
pub proof fn law_atomic_extreme<'a, V: Value, S: State<'a, V>, I: InstructionContext>(
    s: S,
    c: I,
    ty: Type,
    flags: MemFlags,
    op: AtomicRmwOp,
    p: V,
    n: i128,
    bits: u64,
    addr: Address,
    val: V,
    prev: V,
    x: i128,
    y: i128,
)
    requires
        c.spec_data() == (InstructionData::AtomicRmw { opcode: Opcode::AtomicRmw, flags, op }),
        op is Smax || op is Smin,
        c.spec_controlling_type() == Some(ty),
        arg_is::<V, S, I>(s, c, 0, p),
        p.spec_into_int() == Ok::<i128, ValueError>(n),
        bits == n as int % 0x1_0000_0000_0000_0000,
        arg_is::<V, S, I>(s, c, 1, val),
        s.spec_decode_address(bits) == Ok::<Address, MemoryError>(addr),
        s.spec_checked_load(addr, ty, flags) == Ok::<V, MemoryError>(prev),
        prev.spec_into_int() == Ok::<i128, ValueError>(x),
        val.spec_into_int() == Ok::<i128, ValueError>(y),
        extremes_are_numbers(prev, val),
    ensures
        exists|m: V| #[trigger]
            stores_value(
                step_effect::<V, S, I>(s, c),
                addr,
                m,
                flags,
                Flow::Assign(seq![prev]),
            ) && (m.spec_into_int() matches Ok(number) && (number == x || number == y) && (op is Smax
                ==> number >= x && number >= y) && (op is Smin ==> number <= x && number <= y)),
{
    law_atomic_update::<V, S, I>(s, c, ty, flags, op, p, n, bits, addr, val, prev);
    let m = if op is Smax {
        prev.spec_max(val)->Ok_0
    } else {
        prev.spec_min(val)->Ok_0
    };
    assert(stores_value(
        step_effect::<V, S, I>(s, c),
        addr,
        m,
        flags,
        Flow::Assign(seq![prev]),
    ));
}

/// A compare-and-swap gives the value that was in memory before. It stores its third argument if that
/// value equals its second one, and nothing otherwise.
pub proof fn law_compare_and_swap<'a, V: Value, S: State<'a, V>, I: InstructionContext>(
    s: S,
    c: I,
    ty: Type,
    flags: MemFlags,
    p: V,
    n: i128,
    bits: u64,
    addr: Address,
    prev: V,
    expected: V,
    new: V,
)
    requires
        c.spec_data() == (InstructionData::AtomicCas { opcode: Opcode::AtomicCas, flags }),
        c.spec_controlling_type() == Some(ty),
        arg_is::<V, S, I>(s, c, 0, p),
        p.spec_into_int() == Ok::<i128, ValueError>(n),
        bits == n as int % 0x1_0000_0000_0000_0000,
        s.spec_decode_address(bits) == Ok::<Address, MemoryError>(addr),
        s.spec_checked_load(addr, ty, flags) == Ok::<V, MemoryError>(prev),
        arg_is::<V, S, I>(s, c, 1, expected),
        arg_is::<V, S, I>(s, c, 2, new),
    ensures
        match prev.spec_eq(expected) {
            Ok(true) => stores_value(
                step_effect::<V, S, I>(s, c),
                addr,
                new,
                flags,
                Flow::Assign(seq![prev]),
            ),
            Ok(false) => assigns(step_effect::<V, S, I>(s, c), prev),
            Err(e) => fails_with(step_effect::<V, S, I>(s, c), e),
        },
{
}

/// An atomic load reads the memory at its argument; an atomic store puts its first argument at its
/// second one.
pub proof fn law_atomic_access<'a, V: Value, S: State<'a, V>, I: InstructionContext>(
    s: S,
    c: I,
    flags: MemFlags,
    ty: Type,
    p: V,
    n: i128,
    bits: u64,
    v: V,
)
    requires
        c.spec_data().memflags() == Some(flags),
        c.spec_controlling_type() == Some(ty),
        p.spec_into_int() == Ok::<i128, ValueError>(n),
        bits == n as int % 0x1_0000_0000_0000_0000,
    ensures
        c.spec_data().opcode() is AtomicLoad && arg_is::<V, S, I>(s, c, 0, p)
            ==> match s.spec_decode_address(bits) {
            Ok(addr) => accesses(
                step_effect::<V, S, I>(s, c),
                s.spec_checked_load(addr, ty, flags),
            ),
            Err(e) => traps_for(step_effect::<V, S, I>(s, c), e),
        },
        c.spec_data().opcode() is AtomicStore && arg_is::<V, S, I>(s, c, 0, v) && arg_is::<V, S, I>(
            s,
            c,
            1,
            p,
        ) ==> match s.spec_decode_address(bits) {
            Ok(addr) => stores_value(
                step_effect::<V, S, I>(s, c),
                addr,
                v,
                flags,
                Flow::Continue,
            ),
            Err(e) => traps_for(step_effect::<V, S, I>(s, c), e),
        },
{
}

/// The flags of an access are those of its instruction.
pub proof fn law_flags(data: InstructionData, flags: MemFlags, offset: i32, op: Opcode)
    ensures
        data == (InstructionData::Load { opcode: op, flags, offset }) ==> data.memflags() == Some(
            flags,
        ),
        data == (InstructionData::LoadNoOffset { opcode: op, flags }) ==> data.memflags() == Some(
            flags,
        ),
        data == (InstructionData::Store { opcode: op, flags, offset }) ==> data.memflags() == Some(
            flags,
        ),
        data == (InstructionData::StoreNoOffset { opcode: op, flags }) ==> data.memflags() == Some(
            flags,
        ),
        data == (InstructionData::AtomicCas { opcode: op, flags }) ==> data.memflags() == Some(flags),
{
}

/// An atomic access traps where its address is none, or where nothing can be read from it.
pub proof fn law_atomic_traps<'a, V: Value, S: State<'a, V>, I: InstructionContext>(
    s: S,
    c: I,
    flags: MemFlags,
    op: AtomicRmwOp,
    ty: Type,
    p: V,
    n: i128,
    bits: u64,
    val: V,
)
    requires
        c.spec_data() == (InstructionData::AtomicCas { opcode: Opcode::AtomicCas, flags })
            || c.spec_data() == (InstructionData::AtomicRmw { opcode: Opcode::AtomicRmw, flags, op }),
        c.spec_controlling_type() == Some(ty),
        arg_is::<V, S, I>(s, c, 0, p),
        p.spec_into_int() == Ok::<i128, ValueError>(n),
        bits == n as int % 0x1_0000_0000_0000_0000,
        arg_is::<V, S, I>(s, c, 1, val),
    ensures
        match s.spec_decode_address(bits) {
            Err(e) => traps_for(step_effect::<V, S, I>(s, c), e),
            Ok(addr) => s.spec_checked_load(addr, ty, flags) matches Err(e) ==> traps_for(
                step_effect::<V, S, I>(s, c),
                e,
            ),
        },
{
}

/// Performing a store asks the state for exactly that store. If it succeeds, the step goes on as
/// planned; if it fails, the step traps, and the code tells an access that is misaligned from any
/// other.
pub proof fn law_store_performed<'a, V: Value, S: State<'a, V>>(
    pre: S,
    addr: Address,
    value: V,
    flags: MemFlags,
    done: Flow<V>,
    post: S,
    flow: Flow<V>,
)
    requires
        performed::<V, S>(pre, Effect::Store { addr, value, flags, done }, post, flow),
    ensures
        exists|outcome: Result<(), MemoryError>| #[trigger]
            pre.stores(addr, value, flags, post, outcome) && match outcome {
                Ok(_) => flow == done,
                Err(MemoryError::MisalignedLoad { .. }) | Err(MemoryError::MisalignedStore { .. }) => flow
                    == Flow::<V>::Trap(CraneliftTrap::User(TrapCode::HeapMisaligned)),
                Err(_) => flow == Flow::<V>::Trap(CraneliftTrap::User(TrapCode::HeapOutOfBounds)),
            },
{
    let outcome = choose|outcome: Result<(), MemoryError>| #[trigger]
        pre.stores(addr, value, flags, post, outcome) && flow == crate::step::flow_after_store(
            outcome,
            done,
        );
    assert(pre.stores(addr, value, flags, post, outcome));
}

/// Performing a write of the pinned register writes exactly that value, and goes on; performing a
/// change of the control flow leaves the state as it is.
pub proof fn law_performed<'a, V: Value, S: State<'a, V>>(
    pre: S,
    value: V,
    done: Flow<V>,
    post: S,
    flow: Flow<V>,
)
    ensures
        performed::<V, S>(pre, Effect::SetPinnedReg { value }, post, flow) ==> pre.sets_pinned_reg(
            value,
            post,
        ) && flow == Flow::<V>::Continue,
        performed::<V, S>(pre, Effect::Flow(done), post, flow) ==> post == pre && flow == done,
{
}

} // verus!
