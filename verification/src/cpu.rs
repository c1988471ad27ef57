//! The CPU core: state, per-instruction semantics, and the fetch-execute
//! step.
//!
//! The core owns the two registers, the instruction pointer, the stack and
//! the two memory images. Each instruction operation reads its operands
//! from RAM starting at the instruction pointer and advances the pointer by
//! the width it consumed; a taken jump replaces the pointer instead. Every
//! operation either succeeds or returns a fault with the whole state
//! untouched.
//!
//! For each instruction there is a pair of specification functions: a
//! `*_fault_at` function giving the fault, if any, of executing it with its
//! first operand at a given base address, and a `*_ok_at` predicate relating
//! the prior and the new state on success. The executable methods promise
//! exactly these, and the proof functions in `laws` build on them.

use vstd::prelude::*;

use crate::arith::ArithOp;
use crate::arith::arith_eval;
use crate::decode::Opcode;
use crate::decode::Reg;
use crate::decode::SEL_A;
use crate::decode::SEL_B;
use crate::decode::decode_opcode;
use crate::decode::decode_register;
use crate::decode::opcode_of;
use crate::decode::sel_decode;
use crate::decode::sel_valid;
use crate::fault::CpuError;

verus! {

/// The size in bytes of each memory image (RAM and ROM).
pub const MEM_SIZE: usize = 0xFFFF;

/// The CPU core's state: registers A and B, the instruction pointer `ic`,
/// the byte stack, and the two flat memory images. The instruction stream
/// is always read from RAM; ROM is a loadable image that a driver may copy
/// into RAM before execution, never read by the engine itself.
pub struct Cpu {
    pub a: u8,
    pub b: u8,
    pub ic: usize,
    pub stack: Vec<u8>,
    pub ram: Vec<u8>,
    pub rom: Vec<u8>,
}

/// What an instruction emits to the driver on a successful cycle: continue
/// fetching, halt, or hand a byte to the output sink.
#[derive(Clone, Copy, Debug, PartialEq, Eq, Structural)]
pub enum StepOutcome {
    Continue,
    Halt,
    Output(u8),
}

impl Cpu {
    /// Well-formedness: both memory images have exactly `MEM_SIZE` bytes.
    /// The instruction pointer is not constrained here: it is validated
    /// against the memory bounds at every fetch.
    pub open spec fn wf(&self) -> bool {
        &&& self.ram@.len() == MEM_SIZE
        &&& self.rom@.len() == MEM_SIZE
    }

    /// The RAM byte at address `i` (meaningful for `0 <= i < MEM_SIZE`).
    pub open spec fn mem(&self, i: int) -> u8 {
        self.ram@[i]
    }

    /// The current value of a register.
    pub open spec fn reg(&self, r: Reg) -> u8 {
        match r {
            Reg::A => self.a,
            Reg::B => self.b,
        }
    }
}

/// The two states are equal field for field: what a faulting operation
/// guarantees of the state it leaves behind.
pub open spec fn unchanged(pre: Cpu, post: Cpu) -> bool {
    &&& post.a == pre.a
    &&& post.b == pre.b
    &&& post.ic == pre.ic
    &&& post.stack@ == pre.stack@
    &&& post.ram@ == pre.ram@
    &&& post.rom@ == pre.rom@
}

/// The fault, if any, of an arithmetic instruction whose first operand (the
/// register selector) sits at address `base`, with the immediate at
/// `base + 1`: an out-of-range operand address, an invalid selector, or a
/// zero DIV divisor, checked in that order.
pub open spec fn arith_fault_at(c: Cpu, base: int, op: ArithOp) -> Option<CpuError> {
    if base + 1 >= MEM_SIZE {
        Some(CpuError::AddressOutOfRange)
    } else if !sel_valid(c.mem(base)) {
        Some(CpuError::InvalidRegisterSelector)
    } else if op is Div && c.mem(base + 1) == 0 {
        Some(CpuError::DivisionByZero)
    } else {
        None
    }
}

/// The state after a successful arithmetic instruction with its operands at
/// `base` and `base + 1`: the result of `op` on the selected source
/// register and the immediate is stored into register A — the destination
/// is always A, whichever register the selector named — and the
/// instruction pointer lands one past the immediate. Everything else is
/// untouched.
pub open spec fn arith_ok_at(pre: Cpu, base: int, op: ArithOp, post: Cpu) -> bool {
    &&& post.a == arith_eval(op, pre.reg(sel_decode(pre.mem(base))), pre.mem(base + 1))
    &&& post.b == pre.b
    &&& post.ic == base + 2
    &&& post.stack@ == pre.stack@
    &&& post.ram@ == pre.ram@
    &&& post.rom@ == pre.rom@
}

/// The full contract of an arithmetic instruction executed with the
/// selector at the current instruction pointer: it faults exactly as
/// `arith_fault_at` says, leaving the state untouched, and otherwise
/// succeeds as `arith_ok_at` says.
pub open spec fn arith_behavior(pre: Cpu, op: ArithOp, post: Cpu, r: Result<(), CpuError>) -> bool {
    match arith_fault_at(pre, pre.ic as int, op) {
        Some(e) => r == Err::<(), CpuError>(e) && unchanged(pre, post),
        None => r == Ok::<(), CpuError>(()) && arith_ok_at(pre, pre.ic as int, op, post),
    }
}

/// The fault, if any, of the indirect jump with the pointer byte at
/// `base + 1`: only that byte can be out of range, since the pointer it
/// holds is a byte and so always a valid address itself.
pub open spec fn jmp_fault_at(c: Cpu, base: int) -> Option<CpuError> {
    if base + 1 >= MEM_SIZE {
        Some(CpuError::AddressOutOfRange)
    } else {
        None
    }
}

/// The jump target: the byte stored at the address held one byte past
/// `base` — one level of indirection, a pointer through memory, not a
/// directly encoded target.
pub open spec fn jmp_target(c: Cpu, base: int) -> u8 {
    c.mem(c.mem(base + 1) as int)
}

/// The state after a successful indirect jump from `base`: the instruction
/// pointer is exactly the target read through memory; no increment follows
/// a taken jump. Everything else is untouched.
pub open spec fn jmp_ok_at(pre: Cpu, base: int, post: Cpu) -> bool {
    &&& post.a == pre.a
    &&& post.b == pre.b
    &&& post.ic == jmp_target(pre, base) as int
    &&& post.stack@ == pre.stack@
    &&& post.ram@ == pre.ram@
    &&& post.rom@ == pre.rom@
}

/// The full contract of the indirect jump executed at the current
/// instruction pointer.
pub open spec fn jmp_behavior(pre: Cpu, post: Cpu, r: Result<(), CpuError>) -> bool {
    match jmp_fault_at(pre, pre.ic as int) {
        Some(e) => r == Err::<(), CpuError>(e) && unchanged(pre, post),
        None => r == Ok::<(), CpuError>(()) && jmp_ok_at(pre, pre.ic as int, post),
    }
}

/// The fault, if any, of a conditional jump whose selector byte sits at
/// `base` and must equal `want` (the selector byte of the register the
/// variant is conditioned on): an out-of-range selector address, a byte
/// that names no register, a byte that names the other register, and — only
/// on the taken branch — an out-of-range pointer-byte address, checked in
/// that order.
pub open spec fn jmp_if_fault_at(c: Cpu, base: int, want: u8) -> Option<CpuError> {
    if base >= MEM_SIZE {
        Some(CpuError::AddressOutOfRange)
    } else if !sel_valid(c.mem(base)) {
        Some(CpuError::InvalidRegisterSelector)
    } else if c.mem(base) != want {
        Some(CpuError::RegisterSelectorMismatch)
    } else if c.reg(sel_decode(want)) == 0 && base + 2 >= MEM_SIZE {
        Some(CpuError::AddressOutOfRange)
    } else {
        None
    }
}

/// The state after a successful conditional jump from `base`. When the
/// named register holds zero the branch is taken: the pointer advances past
/// the selector and the same one-level indirection as the plain jump runs
/// from there, reading the pointer byte at `base + 2`. When the register is
/// non-zero the pointer advances by exactly two and memory is not touched
/// further.
pub open spec fn jmp_if_ok_at(pre: Cpu, base: int, want: u8, post: Cpu) -> bool {
    &&& post.a == pre.a
    &&& post.b == pre.b
    &&& (if pre.reg(sel_decode(want)) == 0 {
        post.ic == jmp_target(pre, base + 1) as int
    } else {
        post.ic == base + 2
    })
    &&& post.stack@ == pre.stack@
    &&& post.ram@ == pre.ram@
    &&& post.rom@ == pre.rom@
}

/// The full contract of a conditional jump executed at the current
/// instruction pointer.
pub open spec fn jmp_if_behavior(pre: Cpu, want: u8, post: Cpu, r: Result<(), CpuError>) -> bool {
    match jmp_if_fault_at(pre, pre.ic as int, want) {
        Some(e) => r == Err::<(), CpuError>(e) && unchanged(pre, post),
        None => r == Ok::<(), CpuError>(()) && jmp_if_ok_at(pre, pre.ic as int, want, post),
    }
}

/// The fault, if any, of PUSH with its immediate at `base + 1`.
pub open spec fn push_fault_at(c: Cpu, base: int) -> Option<CpuError> {
    if base + 1 >= MEM_SIZE {
        Some(CpuError::AddressOutOfRange)
    } else {
        None
    }
}

/// The state after a successful PUSH from `base`: the immediate byte is on
/// top of the stack and the pointer lands one past it.
pub open spec fn push_ok_at(pre: Cpu, base: int, post: Cpu) -> bool {
    &&& post.a == pre.a
    &&& post.b == pre.b
    &&& post.ic == base + 2
    &&& post.stack@ == pre.stack@.push(pre.mem(base + 1))
    &&& post.ram@ == pre.ram@
    &&& post.rom@ == pre.rom@
}

/// The full contract of PUSH executed at the current instruction pointer.
pub open spec fn push_behavior(pre: Cpu, post: Cpu, r: Result<(), CpuError>) -> bool {
    match push_fault_at(pre, pre.ic as int) {
        Some(e) => r == Err::<(), CpuError>(e) && unchanged(pre, post),
        None => r == Ok::<(), CpuError>(()) && push_ok_at(pre, pre.ic as int, post),
    }
}

/// The fault, if any, of POP at `base`: POP reads no operand bytes, but the
/// instruction pointer must still name a valid address — a pointer outside
/// the memory bounds is a fatal addressing fault — and popping an empty
/// stack is an underflow, checked in that order.
pub open spec fn pop_fault_at(c: Cpu, base: int) -> Option<CpuError> {
    if base >= MEM_SIZE {
        Some(CpuError::AddressOutOfRange)
    } else if c.stack@.len() == 0 {
        Some(CpuError::StackUnderflow)
    } else {
        None
    }
}

/// The state after a successful POP from `base`: the top of the stack is
/// discarded — no register is written — and the pointer advances by one.
pub open spec fn pop_ok_at(pre: Cpu, base: int, post: Cpu) -> bool {
    &&& post.a == pre.a
    &&& post.b == pre.b
    &&& post.ic == base + 1
    &&& post.stack@ == pre.stack@.drop_last()
    &&& post.ram@ == pre.ram@
    &&& post.rom@ == pre.rom@
}

/// The full contract of POP executed at the current instruction pointer.
pub open spec fn pop_behavior(pre: Cpu, post: Cpu, r: Result<(), CpuError>) -> bool {
    match pop_fault_at(pre, pre.ic as int) {
        Some(e) => r == Err::<(), CpuError>(e) && unchanged(pre, post),
        None => r == Ok::<(), CpuError>(()) && pop_ok_at(pre, pre.ic as int, post),
    }
}

/// The fault, if any, of MOV with its two selector operands at `base` and
/// `base + 1`: an out-of-range operand address, or either selector byte
/// naming no register (the destination is checked first; both give the
/// same fault).
pub open spec fn mov_fault_at(c: Cpu, base: int) -> Option<CpuError> {
    if base + 1 >= MEM_SIZE {
        Some(CpuError::AddressOutOfRange)
    } else if !sel_valid(c.mem(base)) {
        Some(CpuError::InvalidRegisterSelector)
    } else if !sel_valid(c.mem(base + 1)) {
        Some(CpuError::InvalidRegisterSelector)
    } else {
        None
    }
}

/// The state after a successful MOV from `base`: the register named by the
/// first selector receives the value of the register named by the second
/// (destination first, mirroring the two-operand arithmetic encoding), and
/// the pointer lands one past the second selector.
pub open spec fn mov_ok_at(pre: Cpu, base: int, post: Cpu) -> bool {
    let dst = sel_decode(pre.mem(base));
    let v = pre.reg(sel_decode(pre.mem(base + 1)));
    &&& post.a == (if dst is A {
        v
    } else {
        pre.a
    })
    &&& post.b == (if dst is B {
        v
    } else {
        pre.b
    })
    &&& post.ic == base + 2
    &&& post.stack@ == pre.stack@
    &&& post.ram@ == pre.ram@
    &&& post.rom@ == pre.rom@
}

/// The full contract of MOV executed at the current instruction pointer.
pub open spec fn mov_behavior(pre: Cpu, post: Cpu, r: Result<(), CpuError>) -> bool {
    match mov_fault_at(pre, pre.ic as int) {
        Some(e) => r == Err::<(), CpuError>(e) && unchanged(pre, post),
        None => r == Ok::<(), CpuError>(()) && mov_ok_at(pre, pre.ic as int, post),
    }
}

/// The fault, if any, of PRINT with its selector at `base`.
pub open spec fn print_fault_at(c: Cpu, base: int) -> Option<CpuError> {
    if base >= MEM_SIZE {
        Some(CpuError::AddressOutOfRange)
    } else if !sel_valid(c.mem(base)) {
        Some(CpuError::InvalidRegisterSelector)
    } else {
        None
    }
}

/// The state after a successful PRINT from `base`: nothing but the pointer
/// moves, by one. The emitted byte is the selected register's value, which
/// the operation returns for the driver's output sink.
pub open spec fn print_ok_at(pre: Cpu, base: int, post: Cpu) -> bool {
    &&& post.a == pre.a
    &&& post.b == pre.b
    &&& post.ic == base + 1
    &&& post.stack@ == pre.stack@
    &&& post.ram@ == pre.ram@
    &&& post.rom@ == pre.rom@
}

/// The full contract of PRINT executed at the current instruction pointer.
pub open spec fn print_behavior(pre: Cpu, post: Cpu, r: Result<u8, CpuError>) -> bool {
    match print_fault_at(pre, pre.ic as int) {
        Some(e) => r == Err::<u8, CpuError>(e) && unchanged(pre, post),
        None => r == Ok::<u8, CpuError>(pre.reg(sel_decode(pre.mem(pre.ic as int)))) && print_ok_at(
            pre,
            pre.ic as int,
            post,
        ),
    }
}

/// The fault, if any, of one whole fetch-execute cycle: the instruction
/// pointer must name a valid address, the byte there must name an
/// instruction, and the dispatched instruction — its operands starting one
/// byte past the opcode — must not fault.
pub open spec fn step_fault(c: Cpu) -> Option<CpuError> {
    if c.ic >= MEM_SIZE {
        Some(CpuError::AddressOutOfRange)
    } else {
        match opcode_of(c.mem(c.ic as int)) {
            None => Some(CpuError::InvalidOpcode),
            Some(op) => match op {
                Opcode::Halt => None,
                Opcode::Add => arith_fault_at(c, c.ic + 1, ArithOp::Add),
                Opcode::Sub => arith_fault_at(c, c.ic + 1, ArithOp::Sub),
                Opcode::Mult => arith_fault_at(c, c.ic + 1, ArithOp::Mult),
                Opcode::Div => arith_fault_at(c, c.ic + 1, ArithOp::Div),
                Opcode::Mov => mov_fault_at(c, c.ic + 1),
                Opcode::Jmp => jmp_fault_at(c, c.ic + 1),
                Opcode::JmpIfA => jmp_if_fault_at(c, c.ic + 1, SEL_A),
                Opcode::JmpIfB => jmp_if_fault_at(c, c.ic + 1, SEL_B),
                Opcode::Push => push_fault_at(c, c.ic + 1),
                Opcode::Pop => pop_fault_at(c, c.ic + 1),
                Opcode::Print => print_fault_at(c, c.ic + 1),
            },
        }
    }
}

/// The state and outcome of a successful fetch-execute cycle (meaningful
/// when `step_fault` is `None`): the opcode byte at the instruction pointer
/// is consumed, and the named instruction runs with its operands starting
/// one byte further. HALT consumes only its opcode and reports the halt;
/// PRINT hands the selected register's value out for the output sink; every
/// other instruction reports a plain continue.
pub open spec fn step_ok(pre: Cpu, post: Cpu, s: StepOutcome) -> bool {
    match opcode_of(pre.mem(pre.ic as int)) {
        None => false,
        Some(op) => match op {
            Opcode::Halt => {
                &&& s is Halt
                &&& post.a == pre.a
                &&& post.b == pre.b
                &&& post.ic == pre.ic + 1
                &&& post.stack@ == pre.stack@
                &&& post.ram@ == pre.ram@
                &&& post.rom@ == pre.rom@
            },
            Opcode::Add => s is Continue && arith_ok_at(pre, pre.ic + 1, ArithOp::Add, post),
            Opcode::Sub => s is Continue && arith_ok_at(pre, pre.ic + 1, ArithOp::Sub, post),
            Opcode::Mult => s is Continue && arith_ok_at(pre, pre.ic + 1, ArithOp::Mult, post),
            Opcode::Div => s is Continue && arith_ok_at(pre, pre.ic + 1, ArithOp::Div, post),
            Opcode::Mov => s is Continue && mov_ok_at(pre, pre.ic + 1, post),
            Opcode::Jmp => s is Continue && jmp_ok_at(pre, pre.ic + 1, post),
            Opcode::JmpIfA => s is Continue && jmp_if_ok_at(pre, pre.ic + 1, SEL_A, post),
            Opcode::JmpIfB => s is Continue && jmp_if_ok_at(pre, pre.ic + 1, SEL_B, post),
            Opcode::Push => s is Continue && push_ok_at(pre, pre.ic + 1, post),
            Opcode::Pop => s is Continue && pop_ok_at(pre, pre.ic + 1, post),
            Opcode::Print => s == StepOutcome::Output(
                pre.reg(sel_decode(pre.mem(pre.ic + 1))),
            ) && print_ok_at(pre, pre.ic + 1, post),
        },
    }
}

/// A `MEM_SIZE`-byte zero-filled buffer.
fn zero_filled() -> (v: Vec<u8>)
    ensures
        v@.len() == MEM_SIZE,
        forall|i: int| 0 <= i < MEM_SIZE ==> v@[i] == 0u8,
{
    let mut v: Vec<u8> = Vec::new();
    while v.len() < MEM_SIZE
        invariant
            v@.len() <= MEM_SIZE,
            forall|i: int| 0 <= i < v@.len() ==> v@[i] == 0u8,
        decreases MEM_SIZE - v@.len(),
    {
        v.push(0);
    }
    v
}

impl Cpu {
    /// A fresh CPU: zeroed registers and instruction pointer, empty stack,
    /// zero-filled RAM and ROM.
    pub fn new() -> (c: Cpu)
        ensures
            c.wf(),
            c.a == 0,
            c.b == 0,
            c.ic == 0,
            c.stack@.len() == 0,
            forall|i: int| 0 <= i < MEM_SIZE ==> c.ram@[i] == 0u8,
            forall|i: int| 0 <= i < MEM_SIZE ==> c.rom@[i] == 0u8,
    {
        Cpu {
            a: 0,
            b: 0,
            ic: 0,
            stack: Vec::new(),
            ram: zero_filled(),
            rom: zero_filled(),
        }
    }

    /// The current instruction pointer: the index of the next instruction
    /// byte to fetch from RAM.
    pub fn counter_register_pos(&self) -> (r: usize)
        ensures
            r == self.ic,
    {
        self.ic
    }

    /// Replace the whole ROM image in one bulk overwrite.
    pub fn load_rom(&mut self, rom: Vec<u8>)
        requires
            old(self).wf(),
            rom@.len() == MEM_SIZE,
        ensures
            final(self).wf(),
            final(self).rom@ == rom@,
            final(self).a == old(self).a,
            final(self).b == old(self).b,
            final(self).ic == old(self).ic,
            final(self).stack@ == old(self).stack@,
            final(self).ram@ == old(self).ram@,
    {
        self.rom = rom;
    }

    /// Replace the whole RAM image in one bulk overwrite.
    pub fn load_ram(&mut self, ram: Vec<u8>)
        requires
            old(self).wf(),
            ram@.len() == MEM_SIZE,
        ensures
            final(self).wf(),
            final(self).ram@ == ram@,
            final(self).a == old(self).a,
            final(self).b == old(self).b,
            final(self).ic == old(self).ic,
            final(self).stack@ == old(self).stack@,
            final(self).rom@ == old(self).rom@,
    {
        self.ram = ram;
    }

    /// The shared body of the four arithmetic instructions: decode the
    /// selector at the instruction pointer, read the immediate one byte
    /// further, store `src op imm` into register A, and advance the
    /// pointer by the two operand bytes consumed.
    fn arith(&mut self, op: ArithOp) -> (r: Result<(), CpuError>)
        requires
            old(self).wf(),
        ensures
            final(self).wf(),
            arith_behavior(*old(self), op, *final(self), r),
    {
        if self.ic >= MEM_SIZE - 1 {
            return Err(CpuError::AddressOutOfRange);
        }
        let sel = self.ram[self.ic];
        let src = match decode_register(sel) {
            Ok(g) => g,
            Err(e) => {
                return Err(e);
            },
        };
        let x = match src {
            Reg::A => self.a,
            Reg::B => self.b,
        };
        let y = self.ram[self.ic + 1];
        let value: u8 = match op {
            ArithOp::Add => {
                let s: u16 = x as u16 + y as u16;
                (s % 256) as u8
            },
            ArithOp::Sub => {
                let s: u16 = x as u16 + 256 - y as u16;
                (s % 256) as u8
            },
            ArithOp::Mult => {
                assert((x as int) * (y as int) < 65536) by (nonlinear_arith)
                    requires
                        x <= 255,
                        y <= 255,
                ;
                let p: u16 = x as u16 * y as u16;
                (p % 256) as u8
            },
            ArithOp::Div => {
                if y == 0 {
                    return Err(CpuError::DivisionByZero);
                }
                x / y
            },
        };
        self.a = value;
        self.ic = self.ic + 2;
        Ok(())
    }

    /// ADD: register A receives the selected source register plus the
    /// immediate, modulo 256.
    pub fn add(&mut self) -> (r: Result<(), CpuError>)
        requires
            old(self).wf(),
        ensures
            final(self).wf(),
            arith_behavior(*old(self), ArithOp::Add, *final(self), r),
    {
        self.arith(ArithOp::Add)
    }

    /// SUB: register A receives the selected source register minus the
    /// immediate, modulo 256.
    pub fn sub(&mut self) -> (r: Result<(), CpuError>)
        requires
            old(self).wf(),
        ensures
            final(self).wf(),
            arith_behavior(*old(self), ArithOp::Sub, *final(self), r),
    {
        self.arith(ArithOp::Sub)
    }

    /// MULT: register A receives the selected source register times the
    /// immediate, modulo 256.
    pub fn mult(&mut self) -> (r: Result<(), CpuError>)
        requires
            old(self).wf(),
        ensures
            final(self).wf(),
            arith_behavior(*old(self), ArithOp::Mult, *final(self), r),
    {
        self.arith(ArithOp::Mult)
    }

    /// DIV: register A receives the selected source register divided by the
    /// immediate, truncating; a zero divisor faults with `DivisionByZero`
    /// before register A is written.
    pub fn div(&mut self) -> (r: Result<(), CpuError>)
        requires
            old(self).wf(),
        ensures
            final(self).wf(),
            arith_behavior(*old(self), ArithOp::Div, *final(self), r),
    {
        self.arith(ArithOp::Div)
    }

    /// JMP: read the byte one past the instruction pointer as an address,
    /// read the byte stored there, and set the instruction pointer to that
    /// value — a pointer-through-memory jump, with no increment after it.
    pub fn jmp(&mut self) -> (r: Result<(), CpuError>)
        requires
            old(self).wf(),
        ensures
            final(self).wf(),
            jmp_behavior(*old(self), *final(self), r),
    {
        if self.ic >= MEM_SIZE - 1 {
            return Err(CpuError::AddressOutOfRange);
        }
        let p = self.ram[self.ic + 1];
        let t = self.ram[p as usize];
        self.ic = t as usize;
        Ok(())
    }

    /// The shared body of the two conditional jumps: the selector byte at
    /// the instruction pointer must equal `want`; a byte naming no register
    /// is an invalid selector, the other register's byte is a mismatch.
    /// With the named register at zero the pointer advances past the
    /// selector and the plain indirect jump runs from there; otherwise the
    /// pointer advances by two without touching memory further.
    fn jmp_if(&mut self, want: u8) -> (r: Result<(), CpuError>)
        requires
            old(self).wf(),
            want == SEL_A || want == SEL_B,
        ensures
            final(self).wf(),
            jmp_if_behavior(*old(self), want, *final(self), r),
    {
        if self.ic >= MEM_SIZE {
            return Err(CpuError::AddressOutOfRange);
        }
        let sel = self.ram[self.ic];
        if !(sel == SEL_A || sel == SEL_B) {
            return Err(CpuError::InvalidRegisterSelector);
        }
        if sel != want {
            return Err(CpuError::RegisterSelectorMismatch);
        }
        let cond = if want == SEL_A {
            self.a
        } else {
            self.b
        };
        if cond == 0 {
            if self.ic >= MEM_SIZE - 2 {
                return Err(CpuError::AddressOutOfRange);
            }
            let p = self.ram[self.ic + 2];
            let t = self.ram[p as usize];
            self.ic = t as usize;
            Ok(())
        } else {
            self.ic = self.ic + 2;
            Ok(())
        }
    }

    /// JMP_IF_A: conditional indirect jump on register A; the selector byte
    /// must name register A.
    pub fn jmp_if_a(&mut self) -> (r: Result<(), CpuError>)
        requires
            old(self).wf(),
        ensures
            final(self).wf(),
            jmp_if_behavior(*old(self), SEL_A, *final(self), r),
    {
        self.jmp_if(SEL_A)
    }

    /// JMP_IF_B: conditional indirect jump on register B; the selector byte
    /// must name register B.
    pub fn jmp_if_b(&mut self) -> (r: Result<(), CpuError>)
        requires
            old(self).wf(),
        ensures
            final(self).wf(),
            jmp_if_behavior(*old(self), SEL_B, *final(self), r),
    {
        self.jmp_if(SEL_B)
    }

    /// PUSH: read the immediate byte one past the instruction pointer, push
    /// it onto the stack, and advance the pointer by two.
    pub fn push(&mut self) -> (r: Result<(), CpuError>)
        requires
            old(self).wf(),
        ensures
            final(self).wf(),
            push_behavior(*old(self), *final(self), r),
    {
        if self.ic >= MEM_SIZE - 1 {
            return Err(CpuError::AddressOutOfRange);
        }
        let v = self.ram[self.ic + 1];
        self.stack.push(v);
        self.ic = self.ic + 2;
        Ok(())
    }

    /// POP: discard the top of the stack — no register is written — and
    /// advance the pointer by one. An empty stack is an underflow fault.
    pub fn pop(&mut self) -> (r: Result<(), CpuError>)
        requires
            old(self).wf(),
        ensures
            final(self).wf(),
            pop_behavior(*old(self), *final(self), r),
    {
        if self.ic >= MEM_SIZE {
            return Err(CpuError::AddressOutOfRange);
        }
        if self.stack.len() == 0 {
            return Err(CpuError::StackUnderflow);
        }
        let _discarded = self.stack.pop();
        self.ic = self.ic + 1;
        Ok(())
    }

    /// MOV: read a destination selector at the instruction pointer and a
    /// source selector one byte further, copy the source register's value
    /// into the destination register, and advance the pointer by two.
    pub fn mov(&mut self) -> (r: Result<(), CpuError>)
        requires
            old(self).wf(),
        ensures
            final(self).wf(),
            mov_behavior(*old(self), *final(self), r),
    {
        if self.ic >= MEM_SIZE - 1 {
            return Err(CpuError::AddressOutOfRange);
        }
        let dst = match decode_register(self.ram[self.ic]) {
            Ok(g) => g,
            Err(e) => {
                return Err(e);
            },
        };
        let src = match decode_register(self.ram[self.ic + 1]) {
            Ok(g) => g,
            Err(e) => {
                return Err(e);
            },
        };
        let v = match src {
            Reg::A => self.a,
            Reg::B => self.b,
        };
        match dst {
            Reg::A => self.a = v,
            Reg::B => self.b = v,
        }
        self.ic = self.ic + 2;
        Ok(())
    }

    /// PRINT: read a register selector at the instruction pointer, advance
    /// the pointer by one, and return the selected register's value for the
    /// driver's output sink — emission and formatting are the driver's
    /// concern, not the core's.
    pub fn print(&mut self) -> (r: Result<u8, CpuError>)
        requires
            old(self).wf(),
        ensures
            final(self).wf(),
            print_behavior(*old(self), *final(self), r),
    {
        if self.ic >= MEM_SIZE {
            return Err(CpuError::AddressOutOfRange);
        }
        let sel = match decode_register(self.ram[self.ic]) {
            Ok(g) => g,
            Err(e) => {
                return Err(e);
            },
        };
        let v = match sel {
            Reg::A => self.a,
            Reg::B => self.b,
        };
        self.ic = self.ic + 1;
        Ok(v)
    }

    /// One fetch-execute cycle: fetch the opcode byte at the instruction
    /// pointer, consume it, and dispatch to the named instruction, which
    /// consumes its own operands. A faulted cycle leaves the whole state
    /// untouched, the instruction pointer included.
    pub fn step(&mut self) -> (r: Result<StepOutcome, CpuError>)
        requires
            old(self).wf(),
        ensures
            final(self).wf(),
            match step_fault(*old(self)) {
                Some(e) => r == Err::<StepOutcome, CpuError>(e) && unchanged(
                    *old(self),
                    *final(self),
                ),
                None => match r {
                    Ok(s) => step_ok(*old(self), *final(self), s),
                    Err(_) => false,
                },
            },
    {
        if self.ic >= MEM_SIZE {
            return Err(CpuError::AddressOutOfRange);
        }
        let op = match decode_opcode(self.ram[self.ic]) {
            Some(op) => op,
            None => {
                return Err(CpuError::InvalidOpcode);
            },
        };
        let saved_ic = self.ic;
        self.ic = self.ic + 1;
        let outcome: Result<StepOutcome, CpuError> = match op {
            Opcode::Halt => Ok(StepOutcome::Halt),
            Opcode::Add => match self.arith(ArithOp::Add) {
                Ok(()) => Ok(StepOutcome::Continue),
                Err(e) => Err(e),
            },
            Opcode::Sub => match self.arith(ArithOp::Sub) {
                Ok(()) => Ok(StepOutcome::Continue),
                Err(e) => Err(e),
            },
            Opcode::Mult => match self.arith(ArithOp::Mult) {
                Ok(()) => Ok(StepOutcome::Continue),
                Err(e) => Err(e),
            },
            Opcode::Div => match self.arith(ArithOp::Div) {
                Ok(()) => Ok(StepOutcome::Continue),
                Err(e) => Err(e),
            },
            Opcode::Mov => match self.mov() {
                Ok(()) => Ok(StepOutcome::Continue),
                Err(e) => Err(e),
            },
            Opcode::Jmp => match self.jmp() {
                Ok(()) => Ok(StepOutcome::Continue),
                Err(e) => Err(e),
            },
            Opcode::JmpIfA => match self.jmp_if(SEL_A) {
                Ok(()) => Ok(StepOutcome::Continue),
                Err(e) => Err(e),
            },
            Opcode::JmpIfB => match self.jmp_if(SEL_B) {
                Ok(()) => Ok(StepOutcome::Continue),
                Err(e) => Err(e),
            },
            Opcode::Push => match self.push() {
                Ok(()) => Ok(StepOutcome::Continue),
                Err(e) => Err(e),
            },
            Opcode::Pop => match self.pop() {
                Ok(()) => Ok(StepOutcome::Continue),
                Err(e) => Err(e),
            },
            Opcode::Print => match self.print() {
                Ok(v) => Ok(StepOutcome::Output(v)),
                Err(e) => Err(e),
            },
        };
        match outcome {
            Ok(s) => Ok(s),
            Err(e) => {
                self.ic = saved_ic;
                Err(e)
            },
        }
    }
}

} // verus!

