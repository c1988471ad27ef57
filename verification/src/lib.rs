//! A minimal virtual CPU: a fetch-decode-execute engine over a flat
//! byte-addressable memory, with two 8-bit registers (A and B), an
//! instruction pointer, and a byte stack.
//!
//! The engine interprets a small fixed instruction set encoded directly as
//! raw bytes in memory: arithmetic (always writing register A), indirect
//! jumps, conditional indirect jumps, stack push/pop, a register move, an
//! output instruction, and an explicit halt. Every memory access is
//! bounds-checked; every instruction either succeeds with the instruction
//! pointer advanced or returns a fault leaving the state untouched.

pub mod arith;
pub mod cpu;
pub mod decode;
pub mod fault;
pub mod laws;
