//! The numeric semantics of the arithmetic instructions.
//!
//! ADD, SUB and MULT wrap on 8-bit overflow and underflow, as a CPU model
//! should, rather than fault; DIV truncates toward zero and faults on a
//! zero divisor (the divisor check is made by the instruction itself, so
//! `arith_eval` is only ever applied to a non-zero DIV divisor).

use vstd::prelude::*;

verus! {

/// The operation an arithmetic instruction performs.
#[derive(Clone, Copy, Debug, PartialEq, Eq, Structural)]
pub enum ArithOp {
    Add,
    Sub,
    Mult,
    Div,
}

/// The value an arithmetic instruction stores into register A, given the
/// selected source register's value `x` and the immediate operand `y`:
/// ADD, SUB and MULT modulo 256, DIV truncating (meaningful only for a
/// non-zero `y` in the DIV case).
pub open spec fn arith_eval(op: ArithOp, x: u8, y: u8) -> u8 {
    match op {
        ArithOp::Add => (((x as int) + (y as int)) % 256) as u8,
        ArithOp::Sub => (((x as int) - (y as int) + 256) % 256) as u8,
        ArithOp::Mult => (((x as int) * (y as int)) % 256) as u8,
        ArithOp::Div => if y != 0 {
            ((x as int) / (y as int)) as u8
        } else {
            0u8
        },
    }
}

} // verus!
