use vstd::prelude::*;

verus! {

/// Number of words of memory; also the first register selector.
pub const MEMORY_SIZE: u16 = 32768;

/// Number of registers.
pub const REGISTER_COUNT: u16 = 8;

/// One decoded instruction. Operands are raw words, resolved only when the
/// instruction executes.
#[derive(Clone, Copy, Debug, PartialEq, Eq, Structural)]
pub enum Instruction {
    Halt,
    /// `set`: copy a value into a register.
    SetReg(u16, u16),
    Push(u16),
    Pop(u16),
    Eq(u16, u16, u16),
    Gt(u16, u16, u16),
    Jmp(u16),
    Jt(u16, u16),
    Jf(u16, u16),
    Add(u16, u16, u16),
    Mult(u16, u16, u16),
    Mod(u16, u16, u16),
    And(u16, u16, u16),
    Or(u16, u16, u16),
    Not(u16, u16),
    Rmem(u16, u16),
    Wmem(u16, u16),
    Call(u16),
    Ret,
    Out(u16),
    In(u16),
    Noop,
    /// An opcode outside 0..=21, kept for the fault it raises.
    Invalid(u16),
}

/// What a step, or a run of steps, hands back to the caller.
#[derive(Clone, Copy, Debug, PartialEq, Eq, Structural)]
pub enum Event {
    /// The instruction completed; the machine can go on.
    Continue,
    /// The machine stopped: `halt`, or `pop` / `ret` on an empty stack.
    Halt,
    /// `out`: the byte to emit (the low eight bits of the resolved value).
    Output(u8),
    /// `in`: the register that is to receive the next input byte.
    Input(u16),
}

/// A fatal condition: the machine cannot go on.
#[derive(Clone, Copy, Debug, PartialEq, Eq, Structural)]
pub enum Fault {
    /// An operand above the last register selector.
    InvalidOperand(u16),
    /// A destination that is not a register selector.
    InvalidRegister(u16),
    /// An opcode outside 0..=21.
    InvalidOpcode(u16),
    /// An address outside memory.
    InvalidAddress(u16),
    /// `mod` with a zero divisor.
    DivisionByZero,
    /// The input ended while `in` waited for a byte.
    EndOfInput,
}

/// How many operand words follow an opcode.
pub open spec fn arity(op: u16) -> nat {
    if op == 1 || op == 7 || op == 8 || op == 14 || op == 15 || op == 16 {
        2
    } else if op == 2 || op == 3 || op == 6 || op == 17 || op == 19 || op == 20 {
        1
    } else if op == 4 || op == 5 || (9 <= op && op <= 13) {
        3
    } else {
        0
    }
}

/// The instruction that an opcode and its operand words make.
pub open spec fn shape(op: u16, a: u16, b: u16, c: u16) -> Instruction {
    if op == 0 {
        Instruction::Halt
    } else if op == 1 {
        Instruction::SetReg(a, b)
    } else if op == 2 {
        Instruction::Push(a)
    } else if op == 3 {
        Instruction::Pop(a)
    } else if op == 4 {
        Instruction::Eq(a, b, c)
    } else if op == 5 {
        Instruction::Gt(a, b, c)
    } else if op == 6 {
        Instruction::Jmp(a)
    } else if op == 7 {
        Instruction::Jt(a, b)
    } else if op == 8 {
        Instruction::Jf(a, b)
    } else if op == 9 {
        Instruction::Add(a, b, c)
    } else if op == 10 {
        Instruction::Mult(a, b, c)
    } else if op == 11 {
        Instruction::Mod(a, b, c)
    } else if op == 12 {
        Instruction::And(a, b, c)
    } else if op == 13 {
        Instruction::Or(a, b, c)
    } else if op == 14 {
        Instruction::Not(a, b)
    } else if op == 15 {
        Instruction::Rmem(a, b)
    } else if op == 16 {
        Instruction::Wmem(a, b)
    } else if op == 17 {
        Instruction::Call(a)
    } else if op == 18 {
        Instruction::Ret
    } else if op == 19 {
        Instruction::Out(a)
    } else if op == 20 {
        Instruction::In(a)
    } else if op == 21 {
        Instruction::Noop
    } else {
        Instruction::Invalid(op)
    }
}

/// Whether a word selects a register.
pub open spec fn is_register(w: u16) -> bool {
    MEMORY_SIZE <= w && w < MEMORY_SIZE + REGISTER_COUNT
}

/// The value of an operand: a literal as it is, a register selector through
/// the register file, anything larger a fault.
pub open spec fn resolve(registers: Seq<u16>, w: u16) -> Result<u16, Fault> {
    if w < MEMORY_SIZE {
        Ok(w)
    } else if is_register(w) {
        Ok(registers[w - MEMORY_SIZE])
    } else {
        Err(Fault::InvalidOperand(w))
    }
}

/// Bitwise complement, kept to 15 bits.
pub open spec fn complement(x: u16) -> u16 {
    !x & 32767u16
}

/// The little-endian word of two bytes.
pub open spec fn word_le(lo: u8, hi: u8) -> u16 {
    (lo as int + 256 * hi as int) as u16
}

} // verus!
