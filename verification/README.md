# cranelift_step

A verified single-step interpreter for Cranelift instructions.

`step` takes the state of an interpreter and one instruction, and gives the change of the control
flow: values to assign, a branch, a call, a return, or a trap. It is generic over the values that
instructions compute with and over the state; an embedding implements the traits `Value`, `State`
and `InstructionContext`.

## Contracts

Every contract speaks of the meaning of an instruction: an effect, an error, or "outside the
domain", where the instruction lacks an operand or a type, or is not one that can be interpreted.
`step` asks that the instruction is within the domain, and gives the result that the meaning
states. An instruction has at most one effect on the state, and that comes last: a store, a write
of the pinned register, or the call of a library routine.

The public proof functions in `laws`, `lane_laws`, `operation_laws`, `round_trip_laws`,
`condition_laws` and `float` state what holds of all instructions: which of them may change the
state, which errors and traps can come from where, how the immediate forms and the tail calls relate
to the plain ones, and how opposite and mirrored conditions relate. Taking a vector of up to sixteen
bytes apart and putting it together again keeps its bytes, and the other way round its lanes, for a
type of values that keeps the bits of a lane and the bytes of a vector; the premises say so.

The contracts say nothing of an instruction outside the domain, and no verified caller can hand one
to `step`. What an unverified caller gets there is not proved. The code is written to stop rather
than to make up a result: an arm that the precondition rules out calls `vstd::pervasive::unreached`,
an absent operand is unwrapped, and an index is bounds-checked, each of which panics when compiled.
Arithmetic that a precondition keeps in range is checked there as the build profile says.

`unary_arith`, `binary_arith`, `binary_pairwise` and `fold_vector` in `lanewise` take any operation
on lanes. Their contracts say which results are possible, given what the contract of the operation
allows on each lane. `arith` states the one result for the operations that instructions name.

## Layout

- `src/`: the verified library.
- `tests/`: single steps on concrete values.
- `app/`: the interpreter on the functions of `cranelift_codegen`, with error messages and a log.
