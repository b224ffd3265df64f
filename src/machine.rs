use vstd::prelude::*;

use crate::instruction::{
    arity, complement, is_register, resolve, shape, word_le, Event, Fault, Instruction, MEMORY_SIZE,
    REGISTER_COUNT,
};

verus! {

/// The whole state of a machine, as mathematical sequences.
pub struct MachineView {
    pub memory: Seq<u16>,
    pub registers: Seq<u16>,
    pub stack: Seq<u16>,
    pub pc: u16,
}

impl MachineView {
    /// Memory and register file have their fixed sizes.
    pub open spec fn wf(self) -> bool {
        &&& self.memory.len() == MEMORY_SIZE as nat
        &&& self.registers.len() == REGISTER_COUNT as nat
    }

    /// The state with register selector `r` set to `v`.
    pub open spec fn with_register(self, r: u16, v: u16) -> MachineView {
        MachineView { registers: self.registers.update(r - MEMORY_SIZE, v), ..self }
    }
}

/// The instruction at `pc` and the position just past its operands.
pub open spec fn decode(memory: Seq<u16>, pc: u16) -> Result<(Instruction, u16), Fault> {
    if pc >= MEMORY_SIZE {
        Err(Fault::InvalidAddress(pc))
    } else {
        let op = memory[pc as int];
        let n = arity(op);
        if pc + n >= MEMORY_SIZE {
            Err(Fault::InvalidAddress(MEMORY_SIZE))
        } else {
            Ok(
                (
                    shape(op, memory[pc + 1], memory[pc + 2], memory[pc + 3]),
                    (pc + 1 + n) as u16,
                ),
            )
        }
    }
}

/// Writes a register and continues; a destination that is no register faults.
pub open spec fn store(s: MachineView, d: u16, v: u16) -> Result<(MachineView, Event), Fault> {
    if is_register(d) {
        Ok((s.with_register(d, v), Event::Continue))
    } else {
        Err(Fault::InvalidRegister(d))
    }
}

/// Resolves two operands, the first one first.
pub open spec fn resolve2(registers: Seq<u16>, a: u16, b: u16) -> Result<(u16, u16), Fault> {
    match resolve(registers, a) {
        Err(f) => Err(f),
        Ok(x) => match resolve(registers, b) {
            Err(f) => Err(f),
            Ok(y) => Ok((x, y)),
        },
    }
}

/// Sets `pc` to the value of operand `a`; the target is resolved only here,
/// so a branch that is not taken never looks at it.
pub open spec fn jump(s: MachineView, a: u16) -> Result<(MachineView, Event), Fault> {
    match resolve(s.registers, a) {
        Err(f) => Err(f),
        Ok(x) => Ok((MachineView { pc: x, ..s }, Event::Continue)),
    }
}

/// `1` for true, `0` for false.
pub open spec fn flag(b: bool) -> u16 {
    if b {
        1
    } else {
        0
    }
}

/// The value that `eq`, `gt`, `add`, `mult`, `mod`, `and` or `or` computes from
/// its two resolved sources.
pub open spec fn binary(i: Instruction, x: u16, y: u16) -> Result<u16, Fault> {
    match i {
        Instruction::Eq(..) => Ok(flag(x == y)),
        Instruction::Gt(..) => Ok(flag(x > y)),
        Instruction::Add(..) => Ok(((x + y) % 32768) as u16),
        Instruction::Mult(..) => Ok(((x * y) % 32768) as u16),
        Instruction::Mod(..) => if y == 0 {
            Err(Fault::DivisionByZero)
        } else {
            Ok(x % y)
        },
        Instruction::And(..) => Ok(x & y),
        _ => Ok(x | y),
    }
}

/// Executes one decoded instruction on a state whose `pc` already points past it.
pub open spec fn execute(s: MachineView, i: Instruction) -> Result<(MachineView, Event), Fault> {
    match i {
        Instruction::Halt => Ok((s, Event::Halt)),
        Instruction::SetReg(d, a) => match resolve(s.registers, a) {
            Err(f) => Err(f),
            Ok(x) => store(s, d, x),
        },
        Instruction::Push(a) => match resolve(s.registers, a) {
            Err(f) => Err(f),
            Ok(x) => Ok((MachineView { stack: s.stack.push(x), ..s }, Event::Continue)),
        },
        Instruction::Pop(d) => if s.stack.len() == 0 {
            Ok((s, Event::Halt))
        } else {
            store(MachineView { stack: s.stack.drop_last(), ..s }, d, s.stack.last())
        },
        Instruction::Eq(d, a, b) | Instruction::Gt(d, a, b) | Instruction::Add(d, a, b)
        | Instruction::Mult(d, a, b) | Instruction::Mod(d, a, b) | Instruction::And(d, a, b)
        | Instruction::Or(d, a, b) => match resolve2(s.registers, a, b) {
            Err(f) => Err(f),
            Ok((x, y)) => match binary(i, x, y) {
                Err(f) => Err(f),
                Ok(v) => store(s, d, v),
            },
        },
        Instruction::Jmp(a) => jump(s, a),
        Instruction::Jt(c, a) => match resolve(s.registers, c) {
            Err(f) => Err(f),
            Ok(x) => if x != 0 {
                jump(s, a)
            } else {
                Ok((s, Event::Continue))
            },
        },
        Instruction::Jf(c, a) => match resolve(s.registers, c) {
            Err(f) => Err(f),
            Ok(x) => if x == 0 {
                jump(s, a)
            } else {
                Ok((s, Event::Continue))
            },
        },
        Instruction::Not(d, a) => match resolve(s.registers, a) {
            Err(f) => Err(f),
            Ok(x) => store(s, d, complement(x)),
        },
        Instruction::Rmem(d, a) => match resolve(s.registers, a) {
            Err(f) => Err(f),
            Ok(x) => if x < MEMORY_SIZE {
                store(s, d, s.memory[x as int])
            } else {
                Err(Fault::InvalidAddress(x))
            },
        },
        Instruction::Wmem(a, b) => match resolve2(s.registers, a, b) {
            Err(f) => Err(f),
            Ok((x, y)) => if x < MEMORY_SIZE {
                Ok((MachineView { memory: s.memory.update(x as int, y), ..s }, Event::Continue))
            } else {
                Err(Fault::InvalidAddress(x))
            },
        },
        Instruction::Call(a) => match resolve(s.registers, a) {
            Err(f) => Err(f),
            Ok(x) => Ok((MachineView { stack: s.stack.push(s.pc), pc: x, ..s }, Event::Continue)),
        },
        Instruction::Ret => if s.stack.len() == 0 {
            Ok((s, Event::Halt))
        } else {
            Ok((MachineView { stack: s.stack.drop_last(), pc: s.stack.last(), ..s }, Event::Continue))
        },
        Instruction::Out(a) => match resolve(s.registers, a) {
            Err(f) => Err(f),
            Ok(x) => Ok((s, Event::Output((x % 256) as u8))),
        },
        Instruction::In(d) => if is_register(d) {
            Ok((s, Event::Input(d)))
        } else {
            Err(Fault::InvalidRegister(d))
        },
        Instruction::Noop => Ok((s, Event::Continue)),
        Instruction::Invalid(op) => Err(Fault::InvalidOpcode(op)),
    }
}

/// One fetch-decode-execute step.
pub open spec fn step(s: MachineView) -> Result<(MachineView, Event), Fault> {
    match decode(s.memory, s.pc) {
        Err(f) => Err(f),
        Ok((i, next)) => execute(MachineView { pc: next, ..s }, i),
    }
}

/// At most `fuel` steps, stopping at the first one that does not simply continue.
/// `Event::Continue` comes back only when the fuel ran out.
pub open spec fn run(s: MachineView, fuel: nat) -> Result<(MachineView, Event), Fault>
    decreases fuel,
{
    if fuel == 0 {
        Ok((s, Event::Continue))
    } else {
        match step(s) {
            Ok((t, Event::Continue)) => run(t, (fuel - 1) as nat),
            other => other,
        }
    }
}

/// Memory after a program image is copied in: word `k` is made of bytes
/// `2k` and `2k + 1`; a trailing odd byte is ignored.
pub open spec fn loaded(memory: Seq<u16>, image: Seq<u8>) -> Seq<u16> {
    Seq::new(
        memory.len(),
        |k: int|
            if k < image.len() / 2 {
                word_le(image[2 * k], image[2 * k + 1])
            } else {
                memory[k]
            },
    )
}

/// The machine: memory, registers, stack and program counter.
pub struct Machine {
    memory: Vec<u16>,
    registers: Vec<u16>,
    stack: Vec<u16>,
    pos: u16,
}

impl View for Machine {
    type V = MachineView;

    closed spec fn view(&self) -> MachineView {
        MachineView {
            memory: self.memory@,
            registers: self.registers@,
            stack: self.stack@,
            pc: self.pos,
        }
    }
}

impl Default for Machine {
    /// The same zeroed machine as [`Machine::new`].
    fn default() -> (m: Machine)
        ensures
            m.wf(),
            m@.memory == Seq::new(MEMORY_SIZE as nat, |i: int| 0u16),
            m@.registers == Seq::new(REGISTER_COUNT as nat, |i: int| 0u16),
            m@.stack == Seq::<u16>::empty(),
            m@.pc == 0,
    {
        Machine::new()
    }
}

impl Machine {
    /// Memory and register file have their fixed sizes.
    pub open spec fn wf(&self) -> bool {
        self@.wf()
    }

    /// A machine with zeroed memory and registers, an empty stack and `pc` 0.
    pub fn new() -> (m: Machine)
        ensures
            m.wf(),
            m@.memory == Seq::new(MEMORY_SIZE as nat, |i: int| 0u16),
            m@.registers == Seq::new(REGISTER_COUNT as nat, |i: int| 0u16),
            m@.stack == Seq::<u16>::empty(),
            m@.pc == 0,
    {
        let m = Machine {
            memory: vec![0u16; 32768],
            registers: vec![0u16; 8],
            stack: Vec::new(),
            pos: 0,
        };
        assert(m@.memory =~= Seq::new(MEMORY_SIZE as nat, |i: int| 0u16));
        assert(m@.registers =~= Seq::new(REGISTER_COUNT as nat, |i: int| 0u16));
        m
    }

    /// The content of register selector `reg`.
    pub fn get_register(&self, reg: u16) -> (v: u16)
        requires
            self.wf(),
            is_register(reg),
        ensures
            v == self@.registers[reg - MEMORY_SIZE],
    {
        self.registers[(reg - MEMORY_SIZE) as usize]
    }

    /// The program counter.
    pub fn pc(&self) -> (p: u16)
        ensures
            p == self@.pc,
    {
        self.pos
    }

    /// How many words the stack holds.
    pub fn stack_len(&self) -> (n: usize)
        ensures
            n == self@.stack.len(),
    {
        self.stack.len()
    }

    /// The word at address `addr`.
    pub fn read_memory(&self, addr: u16) -> (w: u16)
        requires
            self.wf(),
            addr < MEMORY_SIZE,
        ensures
            w == self@.memory[addr as int],
    {
        self.memory[addr as usize]
    }

    /// Writes register selector `reg`; any other word is a fault.
    pub fn set_register(&mut self, reg: u16, val: u16) -> (r: Result<(), Fault>)
        requires
            old(self).wf(),
        ensures
            final(self).wf(),
            is_register(reg) ==> r == Ok::<(), Fault>(()) && final(self)@ == old(self)@.with_register(reg, val),
            !is_register(reg) ==> r == Err::<(), Fault>(Fault::InvalidRegister(reg)) && final(self)@ == old(self)@,
    {
        if MEMORY_SIZE <= reg && reg < MEMORY_SIZE + REGISTER_COUNT {
            self.registers.set((reg - MEMORY_SIZE) as usize, val);
            Ok(())
        } else {
            Err(Fault::InvalidRegister(reg))
        }
    }

    /// Resolves an operand: a literal, or the register it selects.
    pub fn value(&self, arg: u16) -> (r: Result<u16, Fault>)
        requires
            self.wf(),
        ensures
            r == resolve(self@.registers, arg),
    {
        if arg < MEMORY_SIZE {
            Ok(arg)
        } else if arg < MEMORY_SIZE + REGISTER_COUNT {
            Ok(self.get_register(arg))
        } else {
            Err(Fault::InvalidOperand(arg))
        }
    }

    /// The word at `pc`, advancing `pc` past it.
    fn next(&mut self) -> (r: Result<u16, Fault>)
        requires
            old(self).wf(),
        ensures
            final(self).wf(),
            old(self)@.pc < MEMORY_SIZE ==> r == Ok::<u16, Fault>(old(self)@.memory[old(self)@.pc as int])
                && final(self)@ == (MachineView { pc: (old(self)@.pc + 1) as u16, ..old(self)@ }),
            old(self)@.pc >= MEMORY_SIZE ==> r == Err::<u16, Fault>(Fault::InvalidAddress(old(self)@.pc))
                && final(self)@ == old(self)@,
    {
        if self.pos >= MEMORY_SIZE {
            return Err(Fault::InvalidAddress(self.pos));
        }
        let ret = self.memory[self.pos as usize];
        self.pos = self.pos + 1;
        Ok(ret)
    }

    /// Reads one instruction at `pc` and its operand words, leaving `pc` past them.
    pub fn match_opcode(&mut self) -> (r: Result<Instruction, Fault>)
        requires
            old(self).wf(),
        ensures
            final(self).wf(),
            final(self)@.memory == old(self)@.memory,
            final(self)@.registers == old(self)@.registers,
            final(self)@.stack == old(self)@.stack,
            r matches Ok(i) ==> decode(old(self)@.memory, old(self)@.pc) == Ok::<(Instruction, u16), Fault>((i, final(self)@.pc)),
            r matches Err(f) ==> decode(old(self)@.memory, old(self)@.pc) == Err::<(Instruction, u16), Fault>(f),
    {
        let op = match self.next() {
            Ok(w) => w,
            Err(f) => return Err(f),
        };
        let n = operand_count(op);
        let a: u16 = if n >= 1 {
            match self.next() {
                Ok(w) => w,
                Err(f) => return Err(f),
            }
        } else {
            0
        };
        let b: u16 = if n >= 2 {
            match self.next() {
                Ok(w) => w,
                Err(f) => return Err(f),
            }
        } else {
            0
        };
        let c: u16 = if n >= 3 {
            match self.next() {
                Ok(w) => w,
                Err(f) => return Err(f),
            }
        } else {
            0
        };
        Ok(instruction_of(op, a, b, c))
    }

    /// `(a + b) mod 32768`.
    pub fn add(&self, a: u16, b: u16) -> (r: u16)
        ensures
            r == (a + b) % 32768,
    {
        let res = ((a as u32) + (b as u32)) % 32768;
        res as u16
    }

    /// `(a * b) mod 32768`, the product taken in 32 bits so that it cannot overflow.
    pub fn mult(&self, a: u16, b: u16) -> (r: u16)
        ensures
            r == (a * b) % 32768,
    {
        assert((a as u32) * (b as u32) <= 0xffff_ffffu32) by (nonlinear_arith);
        let res = ((a as u32) * (b as u32)) % 32768;
        res as u16
    }

    /// The value of `eq`, `gt`, `add`, `mult`, `mod`, `and` or `or` on resolved sources.
    fn binary_op(&self, i: Instruction, x: u16, y: u16) -> (r: Result<u16, Fault>)
        ensures
            r == binary(i, x, y),
    {
        match i {
            Instruction::Eq(..) => Ok(if x == y { 1 } else { 0 }),
            Instruction::Gt(..) => Ok(if x > y { 1 } else { 0 }),
            Instruction::Add(..) => Ok(self.add(x, y)),
            Instruction::Mult(..) => Ok(self.mult(x, y)),
            Instruction::Mod(..) => if y == 0 {
                Err(Fault::DivisionByZero)
            } else {
                Ok(x % y)
            },
            Instruction::And(..) => Ok(x & y),
            _ => Ok(x | y),
        }
    }

    /// Executes one instruction. `out` and `in` are reported to the caller: the
    /// byte to emit, or the register that waits for a byte (see [`Machine::input`]).
    pub fn tick(&mut self) -> (r: Result<Event, Fault>)
        requires
            old(self).wf(),
        ensures
            final(self).wf(),
            r matches Ok(e) ==> step(old(self)@) == Ok::<(MachineView, Event), Fault>((final(self)@, e)),
            r matches Err(f) ==> step(old(self)@) == Err::<(MachineView, Event), Fault>(f),
    {
        let i = self.match_opcode()?;
        match i {
            Instruction::Halt => Ok(Event::Halt),
            Instruction::SetReg(d, a) => {
                let x = self.value(a)?;
                self.set_register(d, x)?;
                Ok(Event::Continue)
            },
            Instruction::Push(a) => {
                let x = self.value(a)?;
                self.stack.push(x);
                Ok(Event::Continue)
            },
            Instruction::Pop(d) => match self.stack.pop() {
                Some(top) => {
                    self.set_register(d, top)?;
                    Ok(Event::Continue)
                },
                None => Ok(Event::Halt),
            },
            Instruction::Eq(d, a, b) | Instruction::Gt(d, a, b) | Instruction::Add(d, a, b)
            | Instruction::Mult(d, a, b) | Instruction::Mod(d, a, b) | Instruction::And(d, a, b)
            | Instruction::Or(d, a, b) => {
                let x = self.value(a)?;
                let y = self.value(b)?;
                let v = self.binary_op(i, x, y)?;
                self.set_register(d, v)?;
                Ok(Event::Continue)
            },
            Instruction::Jmp(a) => {
                self.pos = self.value(a)?;
                Ok(Event::Continue)
            },
            Instruction::Jt(c, a) => {
                let x = self.value(c)?;
                if x != 0 {
                    self.pos = self.value(a)?;
                }
                Ok(Event::Continue)
            },
            Instruction::Jf(c, a) => {
                let x = self.value(c)?;
                if x == 0 {
                    self.pos = self.value(a)?;
                }
                Ok(Event::Continue)
            },
            Instruction::Not(d, a) => {
                let x = self.value(a)?;
                self.set_register(d, !x & 32767u16)?;
                Ok(Event::Continue)
            },
            Instruction::Rmem(d, a) => {
                let x = self.value(a)?;
                if x >= MEMORY_SIZE {
                    return Err(Fault::InvalidAddress(x));
                }
                let v = self.memory[x as usize];
                self.set_register(d, v)?;
                Ok(Event::Continue)
            },
            Instruction::Wmem(a, b) => {
                let x = self.value(a)?;
                let y = self.value(b)?;
                if x >= MEMORY_SIZE {
                    return Err(Fault::InvalidAddress(x));
                }
                self.memory.set(x as usize, y);
                Ok(Event::Continue)
            },
            Instruction::Call(a) => {
                let x = self.value(a)?;
                self.stack.push(self.pos);
                self.pos = x;
                Ok(Event::Continue)
            },
            Instruction::Ret => match self.stack.pop() {
                Some(top) => {
                    self.pos = top;
                    Ok(Event::Continue)
                },
                None => Ok(Event::Halt),
            },
            Instruction::Out(a) => {
                let x = self.value(a)?;
                Ok(Event::Output((x % 256) as u8))
            },
            Instruction::In(d) => if MEMORY_SIZE <= d && d < MEMORY_SIZE + REGISTER_COUNT {
                Ok(Event::Input(d))
            } else {
                Err(Fault::InvalidRegister(d))
            },
            Instruction::Noop => Ok(Event::Continue),
            Instruction::Invalid(op) => Err(Fault::InvalidOpcode(op)),
        }
    }

    /// Completes an `in`: stores `byte` in register selector `dest`. `None`, the
    /// input having ended, is a fault.
    pub fn input(&mut self, dest: u16, byte: Option<u8>) -> (r: Result<(), Fault>)
        requires
            old(self).wf(),
        ensures
            final(self).wf(),
            byte is None ==> r == Err::<(), Fault>(Fault::EndOfInput) && final(self)@ == old(self)@,
            byte matches Some(b) ==> (is_register(dest) ==> r == Ok::<(), Fault>(())
                && final(self)@ == old(self)@.with_register(dest, b as u16)),
            byte is Some && !is_register(dest) ==> r == Err::<(), Fault>(Fault::InvalidRegister(dest))
                && final(self)@ == old(self)@,
    {
        match byte {
            Some(b) => self.set_register(dest, b as u16),
            None => Err(Fault::EndOfInput),
        }
    }

    /// Steps until an instruction does more than continue (a halt, an output,
    /// a request for input, a fault), or until `fuel` steps have run; in the
    /// latter case the result is `Ok(Event::Continue)`.
    pub fn exec(&mut self, fuel: u64) -> (r: Result<Event, Fault>)
        requires
            old(self).wf(),
        ensures
            final(self).wf(),
            r matches Ok(e) ==> run(old(self)@, fuel as nat) == Ok::<(MachineView, Event), Fault>((final(self)@, e)),
            r matches Err(f) ==> run(old(self)@, fuel as nat) == Err::<(MachineView, Event), Fault>(f),
    {
        let mut left: u64 = fuel;
        while left > 0
            invariant
                self.wf(),
                run(old(self)@, fuel as nat) == run(self@, left as nat),
            decreases left,
        {
            let e = self.tick()?;
            match e {
                Event::Continue => {},
                _ => return Ok(e),
            }
            left = left - 1;
        }
        Ok(Event::Continue)
    }

    /// Copies a program image into memory from address 0, two bytes
    /// (little-endian) to a word, and returns the number of bytes read.
    pub fn load(&mut self, image: &Vec<u8>) -> (read: usize)
        requires
            old(self).wf(),
            image.len() <= 2 * MEMORY_SIZE,
        ensures
            final(self).wf(),
            read == image.len(),
            final(self)@ == (MachineView { memory: loaded(old(self)@.memory, image@), ..old(self)@ }),
    {
        let words = image.len() / 2;
        let mut k: usize = 0;
        while k < words
            invariant
                self.wf(),
                words == image.len() / 2,
                words <= MEMORY_SIZE,
                k <= words,
                self@.registers == old(self)@.registers,
                self@.stack == old(self)@.stack,
                self@.pc == old(self)@.pc,
                forall|j: int| 0 <= j < MEMORY_SIZE ==> #[trigger] self@.memory[j] == if j < k {
                    word_le(image@[2 * j], image@[2 * j + 1])
                } else {
                    old(self)@.memory[j]
                },
            decreases words - k,
        {
            let lo = image[2 * k];
            let hi = image[2 * k + 1];
            self.memory.set(k, (lo as u16) + (hi as u16) * 256);
            k = k + 1;
        }
        assert(self@.memory =~= loaded(old(self)@.memory, image@));
        image.len()
    }
}

/// How many operand words follow opcode `op`.
fn operand_count(op: u16) -> (n: u16)
    ensures
        n == arity(op),
{
    match op {
        1 | 7 | 8 | 14 | 15 | 16 => 2,
        2 | 3 | 6 | 17 | 19 | 20 => 1,
        4 | 5 | 9 | 10 | 11 | 12 | 13 => 3,
        _ => 0,
    }
}

/// The instruction that opcode `op` makes with operand words `a`, `b`, `c`.
fn instruction_of(op: u16, a: u16, b: u16, c: u16) -> (i: Instruction)
    ensures
        i == shape(op, a, b, c),
{
    match op {
        0 => Instruction::Halt,
        1 => Instruction::SetReg(a, b),
        2 => Instruction::Push(a),
        3 => Instruction::Pop(a),
        4 => Instruction::Eq(a, b, c),
        5 => Instruction::Gt(a, b, c),
        6 => Instruction::Jmp(a),
        7 => Instruction::Jt(a, b),
        8 => Instruction::Jf(a, b),
        9 => Instruction::Add(a, b, c),
        10 => Instruction::Mult(a, b, c),
        11 => Instruction::Mod(a, b, c),
        12 => Instruction::And(a, b, c),
        13 => Instruction::Or(a, b, c),
        14 => Instruction::Not(a, b),
        15 => Instruction::Rmem(a, b),
        16 => Instruction::Wmem(a, b),
        17 => Instruction::Call(a),
        18 => Instruction::Ret,
        19 => Instruction::Out(a),
        20 => Instruction::In(a),
        21 => Instruction::Noop,
        _ => Instruction::Invalid(op),
    }
}

} // verus!
