//! A verified single-step interpreter for Cranelift instructions.
//!
//! [`step::step`] interprets one instruction against a [`state::State`]; the interpretation is
//! generic over the [`value::Value`]s that the instruction computes with.
//!
//! * [`eval`]: how contracts speak of results, errors and inputs outside the domain;
//! * [`types`], [`ir`]: the types, opcodes and instruction data that the interpreter reads;
//! * [`value`], [`state`]: what an embedding provides;
//! * [`flow`]: what a step leads to;
//! * [`bytes`], [`float`]: lanes in bytes, and integers as IEEE bit patterns;
//! * [`lanes`], [`lanewise`], [`arith`]: SIMD vectors as lists of lanes, any operation lane by lane,
//!   and the arithmetic that instructions name;
//! * [`operands`]: the operands of an instruction;
//! * [`control`], [`memory`], [`select`], [`elementwise`], [`integer`], [`floating`], [`convert`],
//!   [`vector`]: the instructions, group by group;
//! * [`step`]: a whole step;
//! * [`terms`]: the words in which the laws speak of instructions and steps;
//! * [`control_laws`], [`memory_laws`], [`select_laws`], [`element_laws`], [`integer_laws`],
//!   [`conversion_laws`], [`vector_laws`]: what each instruction does, in terms of its operands and
//!   its results; [`failure_laws`], [`domain_laws`]: where a step fails, and where there is none;
//! * [`layout_laws`], [`lane_laws`], [`round_trip_laws`]: how types, lanes and bytes hang together;
//! * [`laws`], [`operation_laws`], [`condition_laws`]: what holds of all instructions, of any
//!   operation on lanes, and of comparisons.
pub mod arith;
pub mod bytes;
pub mod condition_laws;
pub mod control;
pub mod control_laws;
pub mod conversion_laws;
pub mod convert;
pub mod domain_laws;
pub mod element_laws;
pub mod elementwise;
pub mod eval;
pub mod failure_laws;
pub mod float;
pub mod floating;
pub mod flow;
pub mod integer;
pub mod integer_laws;
pub mod ir;
pub mod lane_laws;
pub mod lanes;
pub mod lanewise;
pub mod laws;
pub mod layout_laws;
pub mod memory;
pub mod memory_laws;
pub mod operands;
pub mod operation_laws;
pub mod round_trip_laws;
pub mod select;
pub mod select_laws;
pub mod state;
pub mod step;
pub mod terms;
pub mod types;
pub mod value;
pub mod vector;
pub mod vector_laws;
