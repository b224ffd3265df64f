//! Properties of the instruction set, stated over single steps of the model.
use vstd::prelude::*;

use crate::instruction::{complement, is_register, resolve, Event, Fault, MEMORY_SIZE};
use crate::machine::{step, MachineView};

verus! {

/// `set r, v` followed by reading register `r` gives back `v`, for every
/// register and every 15-bit value.
pub proof fn set_then_read(s: MachineView, r: u16, v: u16)
    requires
        s.wf(),
        is_register(r),
        v < MEMORY_SIZE,
        s.pc + 2 < MEMORY_SIZE,
        s.memory[s.pc as int] == 1,
        s.memory[s.pc + 1] == r,
        s.memory[s.pc + 2] == v,
    ensures
        step(s) matches Ok((t, e)) && e == Event::Continue && resolve(t.registers, r) == Ok::<u16, Fault>(v),
{
}

/// Writing register `r` and then reading it gives back what was written; the
/// other registers keep their values.
pub proof fn write_then_read_register(s: MachineView, r: u16, v: u16)
    requires
        s.wf(),
        is_register(r),
    ensures
        s.with_register(r, v).wf(),
        s.with_register(r, v).registers[r - MEMORY_SIZE] == v,
        resolve(s.with_register(r, v).registers, r) == Ok::<u16, Fault>(v),
        forall|q: u16| is_register(q) && q != r ==> #[trigger] s.with_register(r, v).registers[q - MEMORY_SIZE]
            == s.registers[q - MEMORY_SIZE],
{
}

/// Complementing twice within 15 bits gives back the 15-bit value.
pub proof fn complement_twice(x: u16)
    requires
        x < MEMORY_SIZE,
    ensures
        complement(complement(x)) == x,
{
    assert(!(!x & 32767u16) & 32767u16 == x) by (bit_vector)
        requires
            x < 32768u16,
    ;
}

/// `push a` then `pop d` leaves the pushed value in `d` and the stack as it was.
pub proof fn push_then_pop(s: MachineView, a: u16, d: u16)
    requires
        s.wf(),
        is_register(d),
        resolve(s.registers, a) is Ok,
        s.pc + 3 < MEMORY_SIZE,
        s.memory[s.pc as int] == 2,
        s.memory[s.pc + 1] == a,
        s.memory[s.pc + 2] == 3,
        s.memory[s.pc + 3] == d,
    ensures
        ({
            &&& step(s) matches Ok((t, e1))
            &&& e1 == Event::Continue
            &&& step(t) matches Ok((u, e2))
            &&& e2 == Event::Continue
            &&& u.registers[d - MEMORY_SIZE] == resolve(s.registers, a)->Ok_0
            &&& u.stack == s.stack
            &&& u.pc == s.pc + 4
        }),
{
    let t = step(s)->Ok_0.0;
    assert(t.memory == s.memory);
    assert(t.stack.drop_last() =~= s.stack);
}

/// `call a` into a `ret` comes back to the word after the call, with the stack
/// as it was.
pub proof fn call_then_ret(s: MachineView, a: u16)
    requires
        s.wf(),
        s.pc + 1 < MEMORY_SIZE,
        s.memory[s.pc as int] == 17,
        s.memory[s.pc + 1] == a,
        resolve(s.registers, a) matches Ok(x) && x < MEMORY_SIZE && s.memory[x as int] == 18,
    ensures
        ({
            &&& step(s) matches Ok((t, e1))
            &&& e1 == Event::Continue
            &&& step(t) matches Ok((u, e2))
            &&& e2 == Event::Continue
            &&& u.pc == s.pc + 2
            &&& u.stack == s.stack
            &&& u.registers == s.registers
            &&& u.memory == s.memory
        }),
{
    let t = step(s)->Ok_0.0;
    assert(t.stack.drop_last() =~= s.stack);
}

/// `jt c, a` jumps to `a` when `c` is nonzero and falls through to the next
/// instruction when it is zero; then `a` is not resolved and may be any word.
pub proof fn jump_if_true(s: MachineView, c: u16, a: u16)
    requires
        s.wf(),
        s.pc + 2 < MEMORY_SIZE,
        s.memory[s.pc as int] == 7,
        s.memory[s.pc + 1] == c,
        s.memory[s.pc + 2] == a,
        resolve(s.registers, c) is Ok,
        resolve(s.registers, c)->Ok_0 != 0 ==> resolve(s.registers, a) is Ok,
    ensures
        step(s) matches Ok((t, e)) && e == Event::Continue && t.pc == if resolve(s.registers, c)->Ok_0
            != 0 {
            resolve(s.registers, a)->Ok_0
        } else {
            (s.pc + 3) as u16
        },
{
}

/// `jf c, a` jumps to `a` when `c` is zero and falls through to the next
/// instruction when it is nonzero; then `a` is not resolved and may be any word.
pub proof fn jump_if_false(s: MachineView, c: u16, a: u16)
    requires
        s.wf(),
        s.pc + 2 < MEMORY_SIZE,
        s.memory[s.pc as int] == 8,
        s.memory[s.pc + 1] == c,
        s.memory[s.pc + 2] == a,
        resolve(s.registers, c) is Ok,
        resolve(s.registers, c)->Ok_0 == 0 ==> resolve(s.registers, a) is Ok,
    ensures
        step(s) matches Ok((t, e)) && e == Event::Continue && t.pc == if resolve(s.registers, c)->Ok_0
            == 0 {
            resolve(s.registers, a)->Ok_0
        } else {
            (s.pc + 3) as u16
        },
{
}

/// `pop` on an empty stack stops the machine; it is no fault.
pub proof fn pop_empty_halts(s: MachineView)
    requires
        s.wf(),
        s.pc + 1 < MEMORY_SIZE,
        s.memory[s.pc as int] == 3,
        s.stack.len() == 0,
    ensures
        step(s) matches Ok((t, e)) && e == Event::Halt,
{
}

/// `ret` on an empty stack stops the machine too.
pub proof fn ret_empty_halts(s: MachineView)
    requires
        s.wf(),
        s.pc < MEMORY_SIZE,
        s.memory[s.pc as int] == 18,
        s.stack.len() == 0,
    ensures
        step(s) matches Ok((t, e)) && e == Event::Halt,
{
}

/// An operand above the last register selector cannot be resolved.
pub proof fn large_operand_faults(registers: Seq<u16>, w: u16)
    requires
        w >= MEMORY_SIZE + 8,
    ensures
        resolve(registers, w) == Err::<u16, Fault>(Fault::InvalidOperand(w)),
{
}

} // verus!
