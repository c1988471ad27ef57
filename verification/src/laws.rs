//! Laws of the instruction set: properties that relate several operations,
//! stated and proved over the specification functions that the executable
//! methods' contracts use.

use vstd::prelude::*;

use crate::arith::ArithOp;
use crate::arith::arith_eval;
use crate::cpu::Cpu;
use crate::cpu::MEM_SIZE;
use crate::cpu::arith_behavior;
use crate::cpu::arith_fault_at;
use crate::cpu::arith_ok_at;
use crate::cpu::jmp_fault_at;
use crate::cpu::jmp_if_fault_at;
use crate::cpu::jmp_if_ok_at;
use crate::cpu::jmp_ok_at;
use crate::cpu::pop_ok_at;
use crate::cpu::push_ok_at;
use crate::decode::SEL_A;
use crate::decode::sel_valid;
use crate::fault::CpuError;

verus! {

/// Adding an immediate to a byte modulo 256 and then subtracting the same
/// immediate modulo 256 restores the byte, wraparound included.
pub proof fn lemma_arith_add_sub_inverse(x: u8, y: u8)
    ensures
        arith_eval(ArithOp::Sub, arith_eval(ArithOp::Add, x, y), y) == x,
{
    let s = (x as int) + (y as int);
    if s < 256 {
        assert(s % 256 == s);
        assert((s - (y as int) + 256) % 256 == x as int);
    } else {
        assert(s % 256 == s - 256);
        assert((s - 256 - (y as int) + 256) % 256 == x as int);
    }
}

/// Executing ADD with the selector naming register A and some immediate,
/// then SUB with the selector naming register A and the same immediate,
/// restores register A's prior value — wraparound included.
pub proof fn lemma_add_sub_round_trip(pre: Cpu, mid: Cpu, post: Cpu)
    requires
        pre.mem(pre.ic as int) == SEL_A,
        mid.mem(mid.ic as int) == SEL_A,
        mid.mem(mid.ic + 1) == pre.mem(pre.ic + 1),
        arith_ok_at(pre, pre.ic as int, ArithOp::Add, mid),
        arith_ok_at(mid, mid.ic as int, ArithOp::Sub, post),
    ensures
        post.a == pre.a,
{
    lemma_arith_add_sub_inverse(pre.a, pre.mem(pre.ic + 1));
}

/// DIV with a zero divisor byte (and an in-range, validly selected operand
/// pair) always faults with `DivisionByZero` and never mutates register A —
/// nor anything else of the state.
pub proof fn lemma_div_by_zero(pre: Cpu, post: Cpu, r: Result<(), CpuError>)
    requires
        pre.ic + 1 < MEM_SIZE,
        sel_valid(pre.mem(pre.ic as int)),
        pre.mem(pre.ic + 1) == 0,
        arith_behavior(pre, ArithOp::Div, post, r),
    ensures
        r == Err::<(), CpuError>(CpuError::DivisionByZero),
        post.a == pre.a,
        post.ic == pre.ic,
        post.stack@ == pre.stack@,
{
    assert(arith_fault_at(pre, pre.ic as int, ArithOp::Div) == Some(CpuError::DivisionByZero));
}

/// PUSH followed by POP leaves the stack exactly as it was — in particular
/// its length is unchanged, and a pair run from an empty stack returns to
/// empty.
pub proof fn lemma_push_pop_round_trip(pre: Cpu, mid: Cpu, post: Cpu)
    requires
        push_ok_at(pre, pre.ic as int, mid),
        pop_ok_at(mid, mid.ic as int, post),
    ensures
        post.stack@ == pre.stack@,
        post.stack@.len() == pre.stack@.len(),
        pre.stack@.len() == 0 ==> post.stack@.len() == 0,
{
    assert(post.stack@ =~= pre.stack@);
}

/// A taken JMP_IF_A — selector naming register A, register A at zero —
/// behaves exactly as JMP fed from one past the selector: the same
/// one-level indirection, the same final state.
pub proof fn lemma_jmp_if_a_taken_is_jmp(pre: Cpu, post: Cpu)
    requires
        pre.a == 0,
        pre.mem(pre.ic as int) == SEL_A,
        jmp_if_ok_at(pre, pre.ic as int, SEL_A, post),
    ensures
        jmp_ok_at(pre, pre.ic + 1, post),
{
}

/// The fault side of the same equivalence: with the selector naming
/// register A and register A at zero, JMP_IF_A faults exactly when — and
/// with exactly the fault that — JMP fed from one past the selector would.
pub proof fn lemma_jmp_if_a_taken_fault_matches_jmp(pre: Cpu)
    requires
        pre.a == 0,
        pre.ic < MEM_SIZE,
        pre.mem(pre.ic as int) == SEL_A,
    ensures
        jmp_if_fault_at(pre, pre.ic as int, SEL_A) == jmp_fault_at(pre, pre.ic + 1),
{
}

/// A not-taken JMP_IF_A — selector naming register A, register A non-zero —
/// advances the instruction pointer by exactly two and touches nothing
/// else: not memory, not the registers, not the stack.
pub proof fn lemma_jmp_if_a_not_taken(pre: Cpu, post: Cpu)
    requires
        pre.a != 0,
        pre.mem(pre.ic as int) == SEL_A,
        jmp_if_ok_at(pre, pre.ic as int, SEL_A, post),
    ensures
        post.ic == pre.ic + 2,
        post.a == pre.a,
        post.b == pre.b,
        post.stack@ == pre.stack@,
        post.ram@ == pre.ram@,
        post.rom@ == pre.rom@,
{
}

} // verus!
