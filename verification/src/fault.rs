//! The fault taxonomy of the CPU core.
//!
//! Every instruction operation returns either success (with the instruction
//! pointer already advanced) or exactly one of these faults. Faults are
//! never recovered internally: the execution driver decides whether a
//! faulted cycle halts the whole run.

use vstd::prelude::*;

verus! {

/// A fault raised by an instruction operation or by the fetch step.
#[derive(Clone, Copy, Debug, PartialEq, Eq, Structural)]
pub enum CpuError {
    /// A register-selector byte decoded to neither register A nor B.
    InvalidRegisterSelector,
    /// A conditional jump's selector byte names the wrong register for
    /// that instruction variant.
    RegisterSelectorMismatch,
    /// A division instruction read a zero divisor.
    DivisionByZero,
    /// A pop was attempted on an empty stack.
    StackUnderflow,
    /// The instruction pointer or an operand address falls outside the
    /// memory bounds.
    AddressOutOfRange,
    /// The fetched opcode byte names no instruction of the set.
    InvalidOpcode,
}

} // verus!
