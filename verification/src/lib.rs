//! A small instruction-set simulator core for a 32-bit fixed-width RISC
//! encoding: a flat byte memory, a stateless field decoder, and an execution
//! engine with thirty-two 64-bit registers and a program counter.
//!
//! Every executable function is stated against a mathematical model: the
//! decoder against arithmetic on the unsigned instruction word, the engine
//! against a decode-then-execute semantics on [`isa::Machine`].
pub mod alu;
pub mod cpu;
pub mod error;
pub mod isa;
pub mod mem;
pub mod parse;
pub mod text;
