//! A virtual machine for a 16-bit word instruction set: 32768 words of memory,
//! eight registers and an unbounded stack, stepped one instruction at a time.
//! Input and output are left to the caller: a step reports the byte to print or
//! the register that waits for a byte.
pub mod instruction;
pub mod laws;
pub mod machine;

pub use instruction::{Event, Fault, Instruction};
pub use machine::{Machine, MachineView};
