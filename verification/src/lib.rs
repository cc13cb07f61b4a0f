//! A small debugger-driven virtual machine for a cell-based bytecode.
//!
//! The machine executes a linear instruction stream over a paged, growable
//! memory of 32-bit cells. Everything the machine decides is verified; the
//! work that only a host can do (system calls and floating-point arithmetic)
//! is requested from the caller and handed back as plain values.
//!
//! - `bits`: reinterpretation between unsigned and signed words.
//! - `convert`: numeric conversion between signed words and single-precision
//!   patterns.
//! - `memory`: pages and the paged address space.
//! - `alu`: the arithmetic/logic unit.
//! - `opcode`: the instruction set.
//! - `semantics`: what a step does, as a function on states.
//! - `processor`: the executable processor.
//! - `program`: the debug controller.
pub mod alu;
pub mod bits;
pub mod convert;
pub mod memory;
pub mod opcode;
pub mod processor;
pub mod program;
pub mod semantics;
