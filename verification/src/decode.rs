//! Decoding of register-selector bytes and opcode bytes.
//!
//! A register-selector byte is a memory byte encoding which register an
//! instruction operand refers to: `1` selects register A, `2` selects
//! register B, and every other value is an `InvalidRegisterSelector` fault,
//! never a silent default. An opcode byte selects one instruction of the
//! closed instruction set, or is an `InvalidOpcode` fault.

use vstd::prelude::*;

use crate::fault::CpuError;

verus! {

/// The selector byte that names register A.
pub const SEL_A: u8 = 1;

/// The selector byte that names register B.
pub const SEL_B: u8 = 2;

/// One of the two general-purpose 8-bit registers.
#[derive(Clone, Copy, Debug, PartialEq, Eq, Structural)]
pub enum Reg {
    A,
    B,
}

/// Whether a selector byte names a register at all.
pub open spec fn sel_valid(b: u8) -> bool {
    b == SEL_A || b == SEL_B
}

/// The register a valid selector byte names (meaningful only when
/// `sel_valid(b)` holds).
pub open spec fn sel_decode(b: u8) -> Reg {
    if b == SEL_A {
        Reg::A
    } else {
        Reg::B
    }
}

/// Decode one register-selector byte: `1` names register A, `2` names
/// register B, and any other value faults with `InvalidRegisterSelector`.
pub fn decode_register(b: u8) -> (r: Result<Reg, CpuError>)
    ensures
        sel_valid(b) ==> r == Ok::<Reg, CpuError>(sel_decode(b)),
        !sel_valid(b) ==> r == Err::<Reg, CpuError>(CpuError::InvalidRegisterSelector),
{
    if b == SEL_A {
        Ok(Reg::A)
    } else if b == SEL_B {
        Ok(Reg::B)
    } else {
        Err(CpuError::InvalidRegisterSelector)
    }
}

/// The opcode byte of the explicit halt instruction; a zero-filled memory
/// therefore halts at the first fetch rather than running off the end.
pub const OP_HALT: u8 = 0;

/// The opcode byte of the ADD instruction.
pub const OP_ADD: u8 = 1;

/// The opcode byte of the SUB instruction.
pub const OP_SUB: u8 = 2;

/// The opcode byte of the MULT instruction.
pub const OP_MULT: u8 = 3;

/// The opcode byte of the DIV instruction.
pub const OP_DIV: u8 = 4;

/// The opcode byte of the MOV instruction.
pub const OP_MOV: u8 = 5;

/// The opcode byte of the indirect jump instruction.
pub const OP_JMP: u8 = 6;

/// The opcode byte of the conditional jump on register A.
pub const OP_JMP_IF_A: u8 = 7;

/// The opcode byte of the conditional jump on register B.
pub const OP_JMP_IF_B: u8 = 8;

/// The opcode byte of the PUSH instruction.
pub const OP_PUSH: u8 = 9;

/// The opcode byte of the POP instruction.
pub const OP_POP: u8 = 10;

/// The opcode byte of the PRINT instruction.
pub const OP_PRINT: u8 = 11;

/// The closed, tagged set of instructions, one variant per opcode.
#[derive(Clone, Copy, Debug, PartialEq, Eq, Structural)]
pub enum Opcode {
    Halt,
    Add,
    Sub,
    Mult,
    Div,
    Mov,
    Jmp,
    JmpIfA,
    JmpIfB,
    Push,
    Pop,
    Print,
}

/// The instruction an opcode byte names, if any.
pub open spec fn opcode_of(b: u8) -> Option<Opcode> {
    if b == OP_HALT {
        Some(Opcode::Halt)
    } else if b == OP_ADD {
        Some(Opcode::Add)
    } else if b == OP_SUB {
        Some(Opcode::Sub)
    } else if b == OP_MULT {
        Some(Opcode::Mult)
    } else if b == OP_DIV {
        Some(Opcode::Div)
    } else if b == OP_MOV {
        Some(Opcode::Mov)
    } else if b == OP_JMP {
        Some(Opcode::Jmp)
    } else if b == OP_JMP_IF_A {
        Some(Opcode::JmpIfA)
    } else if b == OP_JMP_IF_B {
        Some(Opcode::JmpIfB)
    } else if b == OP_PUSH {
        Some(Opcode::Push)
    } else if b == OP_POP {
        Some(Opcode::Pop)
    } else if b == OP_PRINT {
        Some(Opcode::Print)
    } else {
        None
    }
}

/// Decode one opcode byte into the instruction it names.
pub fn decode_opcode(b: u8) -> (r: Option<Opcode>)
    ensures
        r == opcode_of(b),
{
    if b == OP_HALT {
        Some(Opcode::Halt)
    } else if b == OP_ADD {
        Some(Opcode::Add)
    } else if b == OP_SUB {
        Some(Opcode::Sub)
    } else if b == OP_MULT {
        Some(Opcode::Mult)
    } else if b == OP_DIV {
        Some(Opcode::Div)
    } else if b == OP_MOV {
        Some(Opcode::Mov)
    } else if b == OP_JMP {
        Some(Opcode::Jmp)
    } else if b == OP_JMP_IF_A {
        Some(Opcode::JmpIfA)
    } else if b == OP_JMP_IF_B {
        Some(Opcode::JmpIfB)
    } else if b == OP_PUSH {
        Some(Opcode::Push)
    } else if b == OP_POP {
        Some(Opcode::Pop)
    } else if b == OP_PRINT {
        Some(Opcode::Print)
    } else {
        None
    }
}

} // verus!
