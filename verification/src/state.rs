//! The interpreter's surroundings: the state that a step reads and writes, and the instruction
//! that it interprets.
use crate::ir::{
    libcall_arity, libcall_lane, uniform_params, AbiParam, ExternalName, FuncRef, Function,
    GlobalValue, InstructionData, LibCall, MemFlags, StackSlot, TrapCode, ValueRef,
};
use crate::types::Type;
use crate::value::{DataValue, Datum, Value};
use vstd::prelude::*;

verus! {

/// The size of an address.
#[derive(Clone, Copy, PartialEq, Eq, Structural, Debug, Hash)]
pub enum AddressSize {
    Bits32,
    Bits64,
}

/// An address in the memory of the interpreter: an offset into an entry of a region.
#[derive(Clone, Copy, PartialEq, Eq, Structural, Debug, Hash)]
pub struct Address {
    pub size: AddressSize,
    pub region: u64,
    pub entry: u64,
    pub offset: u64,
}

/// Why an access to memory failed.
#[derive(Clone, PartialEq, Eq, Debug, Hash)]
pub enum MemoryError {
    InvalidAddress(DataValue),
    InvalidAddressType(Type),
    InvalidOffset { offset: u64, max: u64 },
    InvalidEntry { entry: u64, max: u64 },
    OutOfBoundsStore { addr: Address, load_size: usize },
    OutOfBoundsLoad { addr: Address, load_size: usize },
    MisalignedLoad { addr: Address, load_size: usize },
    MisalignedStore { addr: Address, load_size: usize },
}

/// Something that can be called.
#[derive(Clone, Copy, Debug)]
pub enum InterpreterFunctionRef<'a> {
    /// A function to interpret.
    Function(&'a Function),
    /// A routine of the runtime library.
    LibCall(LibCall),
}

impl<'a> InterpreterFunctionRef<'a> {
    /// Whether the signature is known: routines on memory have none.
    pub open spec fn has_signature(self) -> bool {
        self matches InterpreterFunctionRef::LibCall(libcall) ==> libcall_lane(libcall) is Some
    }

    /// The parameters.
    pub open spec fn params(self) -> Seq<AbiParam> {
        match self {
            InterpreterFunctionRef::Function(func) => func.signature.params@,
            InterpreterFunctionRef::LibCall(libcall) => uniform_params(
                libcall_lane(libcall)->0,
                libcall_arity(libcall),
            ),
        }
    }

    /// The return values.
    pub open spec fn return_params(self) -> Seq<AbiParam> {
        match self {
            InterpreterFunctionRef::Function(func) => func.signature.returns@,
            InterpreterFunctionRef::LibCall(libcall) => uniform_params(libcall_lane(libcall)->0, 1),
        }
    }
}

/// The state of the interpreter.
///
/// Reading the state is a function of the state; the specification function that goes with a
/// reading method names what it gives. A store and a call of a library routine are described by a
/// relation, since the implementation may decide them as it likes. As they stand here, the
/// specification functions say nothing; an implementation that is verified itself defines them.
pub trait State<'a, V: Value>: Sized {
    /// The function that is interpreted.
    closed spec fn current_function(&self) -> &'a Function {
        arbitrary()
    }

    /// The function that is interpreted.
    fn get_current_function(&self) -> (func: &'a Function)
        ensures
            func == self.current_function(),
    ;

    /// The function that a reference of the current function stands for.
    closed spec fn function(&self, func_ref: FuncRef) -> Option<&'a Function> {
        arbitrary()
    }

    /// The function that a reference of the current function stands for.
    fn get_function(&self, func_ref: FuncRef) -> (func: Option<&'a Function>)
        ensures
            func == self.function(func_ref),
    ;

    /// The function at an address.
    closed spec fn function_at(&self, addr: Address) -> Option<InterpreterFunctionRef<'a>> {
        arbitrary()
    }

    /// The function at an address.
    fn get_function_from_address(&self, addr: Address) -> (func: Option<InterpreterFunctionRef<'a>>)
        ensures
            func == self.function_at(addr),
    ;

    /// The current value of an SSA reference.
    closed spec fn value_of(&self, value: ValueRef) -> Option<V> {
        arbitrary()
    }

    /// The current value of an SSA reference.
    fn get_value(&self, value: ValueRef) -> (v: Option<V>)
        ensures
            v == self.value_of(value),
    ;

    /// Whether `reply` is an outcome of calling a library routine with these arguments.
    closed spec fn libcall_replies(
        &self,
        libcall: LibCall,
        args: Seq<V>,
        reply: Result<Seq<V>, TrapCode>,
    ) -> bool {
        arbitrary()
    }

    /// Call a library routine: it gives its return values, or a trap.
    fn call_libcall(&self, libcall: LibCall, args: Vec<V>) -> (reply: Result<Vec<V>, TrapCode>)
        ensures
            self.libcall_replies(libcall, args@, reply_of(reply)),
    ;

    /// The size of addresses of type `ty`.
    closed spec fn spec_address_size(&self, ty: Type) -> Result<AddressSize, MemoryError> {
        arbitrary()
    }

    /// The size of addresses of type `ty`.
    fn address_size(&self, ty: Type) -> (size: Result<AddressSize, MemoryError>)
        ensures
            size == self.spec_address_size(ty),
    ;

    /// The address that a number encodes.
    closed spec fn spec_decode_address(&self, bits: u64) -> Result<Address, MemoryError> {
        arbitrary()
    }

    /// The address that a number encodes.
    fn decode_address(&self, bits: u64) -> (addr: Result<Address, MemoryError>)
        ensures
            addr == self.spec_decode_address(bits),
    ;

    /// The address that an immediate encodes.
    closed spec fn spec_address_from_data(&self, data: Datum) -> Result<Address, MemoryError> {
        arbitrary()
    }

    /// The address that an immediate encodes.
    fn address_from_data(&self, data: DataValue) -> (addr: Result<Address, MemoryError>)
        ensures
            addr == self.spec_address_from_data(data@),
    ;

    /// The immediate that encodes an address.
    closed spec fn spec_address_to_data(&self, addr: Address) -> Result<Datum, MemoryError> {
        arbitrary()
    }

    /// The immediate that encodes an address.
    fn address_to_data(&self, addr: Address) -> (data: Result<DataValue, MemoryError>)
        ensures
            data_of(data) == self.spec_address_to_data(addr),
    ;

    /// The address of an offset into a stack slot of the current frame.
    closed spec fn spec_stack_address(&self, size: AddressSize, slot: StackSlot, offset: u64) -> Result<
        Address,
        MemoryError,
    > {
        arbitrary()
    }

    /// The address of an offset into a stack slot of the current frame.
    fn stack_address(&self, size: AddressSize, slot: StackSlot, offset: u64) -> (addr: Result<
        Address,
        MemoryError,
    >)
        ensures
            addr == self.spec_stack_address(size, slot, offset),
    ;

    /// The address of a function.
    closed spec fn spec_function_address(&self, size: AddressSize, name: ExternalName) -> Result<
        Address,
        MemoryError,
    > {
        arbitrary()
    }

    /// The address of a function.
    fn function_address(&self, size: AddressSize, name: &ExternalName) -> (addr: Result<
        Address,
        MemoryError,
    >)
        ensures
            addr == self.spec_function_address(size, *name),
    ;

    /// The value of type `ty` in memory at `addr`.
    closed spec fn spec_checked_load(&self, addr: Address, ty: Type, flags: MemFlags) -> Result<
        V,
        MemoryError,
    > {
        arbitrary()
    }

    /// The value of type `ty` in memory at `addr`.
    fn checked_load(&self, addr: Address, ty: Type, flags: MemFlags) -> (v: Result<V, MemoryError>)
        ensures
            v == self.spec_checked_load(addr, ty, flags),
    ;

    /// Whether storing `v` at `addr` may lead to the state `post` with this outcome.
    closed spec fn stores(
        &self,
        addr: Address,
        v: V,
        flags: MemFlags,
        post: Self,
        outcome: Result<(), MemoryError>,
    ) -> bool {
        arbitrary()
    }

    /// Store `v` in memory at `addr`.
    fn checked_store(&mut self, addr: Address, v: V, flags: MemFlags) -> (outcome: Result<
        (),
        MemoryError,
    >)
        ensures
            old(self).stores(addr, v, flags, *final(self), outcome),
    ;

    /// The value of a global value.
    closed spec fn spec_resolve_global_value(&self, gv: GlobalValue) -> Result<V, MemoryError> {
        arbitrary()
    }

    /// The value of a global value.
    fn resolve_global_value(&self, gv: GlobalValue) -> (v: Result<V, MemoryError>)
        ensures
            v == self.spec_resolve_global_value(gv),
    ;

    /// The pinned register.
    closed spec fn pinned_reg(&self) -> V {
        arbitrary()
    }

    /// The pinned register.
    fn get_pinned_reg(&self) -> (v: V)
        ensures
            v == self.pinned_reg(),
    ;

    /// Whether writing `v` to the pinned register may lead to the state `post`.
    closed spec fn sets_pinned_reg(&self, v: V, post: Self) -> bool {
        arbitrary()
    }

    /// Write the pinned register.
    fn set_pinned_reg(&mut self, v: V)
        ensures
            old(self).sets_pinned_reg(v, *final(self)),
    ;
}

/// The reply of a library routine, by its values.
pub open spec fn reply_of<V>(reply: Result<Vec<V>, TrapCode>) -> Result<Seq<V>, TrapCode> {
    match reply {
        Ok(values) => Ok(values@),
        Err(trap) => Err(trap),
    }
}

/// The immediate in a result, by its content.
pub open spec fn data_of(r: Result<DataValue, MemoryError>) -> Result<Datum, MemoryError> {
    match r {
        Ok(data) => Ok(data@),
        Err(e) => Err(e),
    }
}

/// The instruction to interpret, in its function.
pub trait InstructionContext: Sized {
    /// The instruction.
    closed spec fn spec_data(&self) -> InstructionData {
        arbitrary()
    }

    /// The instruction.
    fn data(&self) -> (data: &InstructionData)
        ensures
            *data == self.spec_data(),
    ;

    /// The value arguments of the instruction.
    closed spec fn spec_args(&self) -> Seq<ValueRef> {
        arbitrary()
    }

    /// The value arguments of the instruction.
    fn args(&self) -> (args: &[ValueRef])
        ensures
            args@ == self.spec_args(),
    ;

    /// The type of an SSA reference.
    closed spec fn spec_type_of(&self, value: ValueRef) -> Option<Type> {
        arbitrary()
    }

    /// The type of an SSA reference.
    fn type_of(&self, value: ValueRef) -> (ty: Option<Type>)
        ensures
            ty == self.spec_type_of(value),
    ;

    /// The controlling type of the instruction.
    closed spec fn spec_controlling_type(&self) -> Option<Type> {
        arbitrary()
    }

    /// The controlling type of the instruction.
    fn controlling_type(&self) -> (ty: Option<Type>)
        ensures
            ty == self.spec_controlling_type(),
    ;
}

} // verus!
