//! What lies outside the domain of the interpreter: no step makes up a result there.
use crate::arith::pair_results;
use crate::control_laws::{lemma_values, may_be_passed, routine_type};
use crate::eval::{lemma_sequence_value, Eval};
use crate::failure_laws::needed;
use crate::integer_laws::product_type_of;
use crate::ir::{
    Constant, ExternalName, FuncRef, InstructionData, JumpTable, LibCall, Opcode, Table,
};
use crate::lanes::{lane_width, lanes_from_bytes, lanes_of, lanes_to_ints, vector_of_all};
use crate::state::{InstructionContext, InterpreterFunctionRef, State};
use crate::step::step_effect;
use crate::terms::{are_values_of, arg_is, is_instruction};
use crate::types::{LaneType, Lanes, Type};
use crate::value::{BinaryOp, Value, ValueError};
use crate::vector_laws::names_lane;
use vstd::prelude::*;

verus! {

/// The instructions that cannot be interpreted.
pub open spec fn is_unsupported(op: Opcode) -> bool {
    match op {
        Opcode::Uload8x8 | Opcode::Sload8x8 | Opcode::Uload16x4 | Opcode::Sload16x4
        | Opcode::Uload32x2 | Opcode::Sload32x2 | Opcode::DynamicStackAddr
        | Opcode::DynamicStackLoad | Opcode::DynamicStackStore | Opcode::SymbolValue
        | Opcode::TlsValue | Opcode::Null | Opcode::IsNull | Opcode::IsInvalid
        | Opcode::ExtractVector | Opcode::GetFramePointer | Opcode::GetStackPointer
        | Opcode::GetReturnAddress | Opcode::X86Pshufb | Opcode::X86Blendv | Opcode::X86Pmulhrsw
        | Opcode::X86Pmaddubsw | Opcode::X86Cvtt2dq => true,
        _ => false,
    }
}

/// An instruction that cannot be interpreted, or that has no controlling type, is outside the domain.
pub proof fn law_unsupported<'a, V: Value, S: State<'a, V>, I: InstructionContext>(s: S, c: I)
    ensures
        is_unsupported(c.spec_data().opcode()) ==> step_effect::<V, S, I>(s, c) is Undefined,
        c.spec_controlling_type() is None ==> step_effect::<V, S, I>(s, c) is Undefined,
{
}

/// A step never succeeds without an argument that its instruction needs.
pub proof fn law_missing_arguments<'a, V: Value, S: State<'a, V>, I: InstructionContext>(
    s: S,
    c: I,
    op: Opcode,
    ty: Type,
)
    requires
        is_instruction(c, op, ty),
        c.spec_args().len() < needed(op),
    ensures
        !(step_effect::<V, S, I>(s, c) is Value),
{
    let n = c.spec_args().len();
    assert(n == 0 || n == 1 || n == 2);
}

/// A lane that the vector does not have can be neither read nor written.
pub proof fn law_lane_out_of_range<'a, V: Value, S: State<'a, V>, I: InstructionContext>(
    s: S,
    c: I,
    imm: u8,
    ty: Type,
    v: V,
    x: V,
    lanes: Seq<V>,
    k: int,
)
    requires
        c.spec_data() == (InstructionData::BinaryImm8 { opcode: Opcode::Extractlane, imm })
            || c.spec_data() == (InstructionData::TernaryImm8 { opcode: Opcode::Insertlane, imm })
            && arg_is::<V, S, I>(s, c, 1, x),
        c.spec_controlling_type() == Some(ty),
        arg_is::<V, S, I>(s, c, 0, v),
        names_lane::<V>(imm, k),
        lanes_of(v, ty) == Eval::<Seq<V>, ValueError>::Value(lanes),
        k >= lanes.len(),
    ensures
        step_effect::<V, S, I>(s, c) is Undefined,
{
}

/// A vector is taken apart only if its lanes are integers or floats of up to 64 bits, and all of them
/// are within its sixteen bytes.
pub proof fn law_lanes_domain<V: Value>(x: V, ty: Type, width: nat)
    requires
        x.spec_ty() is Vector,
    ensures
        lane_width(ty.lane_type()) is None ==> lanes_of(x, ty) is Undefined,
        lane_width(ty.lane_type()) == Some(width) && ty.lane_count() * width > 16 ==> !(lanes_of(
            x,
            ty,
        ) is Value),
{
    if lane_width(ty.lane_type()) == Some(width) && ty.lane_count() * width > 16 && lanes_of(
        x,
        ty,
    ) is Value {
        let bytes = x.spec_into_array()->Ok_0;
        let count = ty.lane_count() as nat;
        let evals = lanes_from_bytes::<V>(bytes, ty.lane_type(), width, count);
        lemma_sequence_value(evals);
        assert(count > 0) by (nonlinear_arith)
            requires
                count * width > 16,
        ;
        assert((count - 1) * width + width == count * width) by (nonlinear_arith);
        assert(evals[count - 1] is Value);
    }
}

/// Lanes are put together only if they are integers or floats of up to 64 bits, and fit into sixteen
/// bytes.
pub proof fn law_vector_domain<V: Value>(lanes: Seq<V>, ty: Type, width: nat)
    ensures
        lane_width(ty.lane_type()) is None ==> vector_of_all(lanes, ty) is Undefined,
        lane_width(ty.lane_type()) == Some(width) && lanes.len() * width > 16 ==> !(vector_of_all(
            lanes,
            ty,
        ) is Value),
{
    if lane_width(ty.lane_type()) == Some(width) && lanes.len() * width > 16 && vector_of_all(
        lanes,
        ty,
    ) is Value {
        let count = lanes.len();
        let evals = lanes_to_ints(lanes, ty.lane_type(), width);
        lemma_sequence_value(evals);
        assert(count > 0) by (nonlinear_arith)
            requires
                count * width > 16,
        ;
        assert((count - 1) * width + width == count * width) by (nonlinear_arith);
        assert(evals[count - 1] is Value);
    }
}

/// A library routine cannot be tail-called, a routine on memory not be called at all, and neither can
/// a symbol of the linker.
pub proof fn law_call_domain<'a, V: Value, S: State<'a, V>, I: InstructionContext>(
    s: S,
    c: I,
    opcode: Opcode,
    func_ref: FuncRef,
    name: ExternalName,
    libcall: LibCall,
    values: Seq<V>,
)
    requires
        c.spec_data() == (InstructionData::Call { opcode, func_ref }),
        opcode is Call || opcode is ReturnCall,
        c.spec_controlling_type() is Some,
        func_ref.0 < s.current_function().ext_funcs@.len(),
        s.current_function().ext_funcs@[func_ref.0 as int].name == name,
        are_values_of::<V, S>(s, c.spec_args(), values),
    ensures
        name is KnownSymbol ==> step_effect::<V, S, I>(s, c) is Undefined,
        name == ExternalName::LibCall(libcall) && routine_type(libcall) is None ==> step_effect::<
            V,
            S,
            I,
        >(s, c) is Undefined,
        name == ExternalName::LibCall(libcall) && opcode is ReturnCall && routine_type(
            libcall,
        ) is Some && (forall|i: int|
            0 <= i < values.len() ==> may_be_passed(
                (#[trigger] values[i]).spec_ty(),
                routine_type(libcall)->0,
            )) ==> step_effect::<V, S, I>(s, c) is Undefined,
{
    lemma_values::<V, S>(s, c.spec_args(), values);
    let params = InterpreterFunctionRef::LibCall(libcall).params();
    crate::control_laws::law_signature_params(params, values);
}

/// Handles that the function does not have, and constants of another size than the controlling type
/// asks for, are outside the domain.
pub proof fn law_handles<'a, V: Value, S: State<'a, V>, I: InstructionContext>(
    s: S,
    c: I,
    ty: Type,
    table: JumpTable,
    entry_table: Table,
    offset: i32,
    constant_handle: Constant,
)
    requires
        c.spec_controlling_type() == Some(ty),
    ensures
        c.spec_data() == (InstructionData::BranchTable { opcode: Opcode::BrTable, table }) && table.0
            >= s.current_function().jump_tables@.len() ==> step_effect::<V, S, I>(s, c) is Undefined,
        c.spec_data() == (InstructionData::TableAddr {
            opcode: Opcode::TableAddr,
            table: entry_table,
            offset,
        }) && entry_table.0 >= s.current_function().tables@.len() ==> step_effect::<V, S, I>(
            s,
            c,
        ) is Undefined,
        c.spec_data() == (InstructionData::UnaryConst { opcode: Opcode::Vconst, constant_handle })
            && (constant_handle.0 >= s.current_function().constants@.len()
            || s.current_function().constants@[constant_handle.0 as int] is None || (
        s.current_function().constants@[constant_handle.0 as int] matches Some(bytes)
            && bytes@.len() != ty.bytes()) || (ty.bytes() != 16 && ty.bytes() != 8)) ==> step_effect::<
            V,
            S,
            I,
        >(s, c) is Undefined,
{
}

/// Widening, narrowing and multiplying need a type of the other width, and promoting or demoting a
/// vector of floats needs one of exactly that shape.
pub proof fn law_width_domain<'a, V: Value, S: State<'a, V>, I: InstructionContext>(
    s: S,
    c: I,
    op: Opcode,
    ty: Type,
)
    requires
        is_instruction(c, op, ty),
    ensures
        (op is SwidenLow || op is SwidenHigh || op is UwidenLow || op is UwidenHigh)
            && ty.merge_lanes() is None ==> step_effect::<V, S, I>(s, c) is Undefined,
        (op is Snarrow || op is Unarrow || op is Uunarrow) && ty.split_lanes() is None ==> !(
        step_effect::<V, S, I>(s, c) is Value),
        (op is Umulhi || op is Smulhi) && product_type_of(ty.lane_bits()) is None ==> step_effect::<
            V,
            S,
            I,
        >(s, c) is Undefined,
        op is SqmulRoundSat && ty.double_width() is None ==> step_effect::<V, S, I>(
            s,
            c,
        ) is Undefined,
        op is FvpromoteLow && 0 < c.spec_args().len() && c.spec_type_of(c.spec_args()[0]) != Some(
            Type::Vector(LaneType::F32, Lanes::X4),
        ) ==> step_effect::<V, S, I>(s, c) is Undefined,
        op is Fvdemote && 0 < c.spec_args().len() && c.spec_type_of(c.spec_args()[0]) != Some(
            Type::Vector(LaneType::F64, Lanes::X2),
        ) ==> step_effect::<V, S, I>(s, c) is Undefined,
{
}

/// Pairwise arithmetic needs a partner for each lane.
pub proof fn law_pairwise_domain<'a, V: Value, S: State<'a, V>, I: InstructionContext>(
    s: S,
    c: I,
    ty: Type,
    x: V,
    y: V,
    xs: Seq<V>,
    ys: Seq<V>,
)
    requires
        is_instruction(c, Opcode::IaddPairwise, ty),
        arg_is::<V, S, I>(s, c, 0, x),
        arg_is::<V, S, I>(s, c, 1, y),
        lanes_of(x, ty) == Eval::<Seq<V>, ValueError>::Value(xs),
        lanes_of(y, ty) == Eval::<Seq<V>, ValueError>::Value(ys),
        xs.len() % 2 == 1 || ys.len() % 2 == 1,
    ensures
        !(step_effect::<V, S, I>(s, c) is Value),
{
    let first = pair_results(xs, BinaryOp::Add);
    let second = pair_results(ys, BinaryOp::Add);
    let all = first + second;
    lemma_sequence_value(all);
    if xs.len() % 2 == 1 {
        assert(all[first.len() - 1] is Undefined);
    } else {
        assert(all[all.len() - 1] == second[second.len() - 1]);
        assert(all[all.len() - 1] is Undefined);
    }
}

} // verus!
