//! A small 16-bit stored-program machine: flat byte memory, a register file of
//! twelve 16-bit registers, and a fetch-decode-execute cycle with a stack-based
//! calling convention.
//!
//! - [`memory`]: the byte buffer and the laws of big-endian words in it.
//! - [`machine`]: the mathematical model, a state and what each operation
//!   makes of it.
//! - [`cpu`]: the processor itself. Every function of it states in its
//!   contract which state of the model it leaves.
//! - [`laws`]: what holds of the model whatever the state: push and pop,
//!   call and return, the single instructions, runs of steps.
//!
//! The machine stops where an instruction would read or write outside a
//! buffer, or move a register or the frame counter out of its range. The
//! functions that would do so exclude those states in their `requires`; for each
//! there is a function that tells whether a state is excluded
//! ([`cpu::Cpu::can_step`] and its like), and [`cpu::Cpu::try_step`] steps only
//! where it can.

pub mod cpu;
pub mod laws;
pub mod machine;
pub mod memory;
