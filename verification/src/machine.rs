//! The mathematical model of the machine.
//!
//! A [`CpuState`] is what a processor holds at an instant: main memory, the
//! register file and the size of the current stack frame. Each operation of
//! the processor is given here twice, as a predicate that says on which
//! states the operation is defined and as a function that says which state
//! follows. Where an operation is not defined the machine stops: an address
//! would fall outside a buffer, or a register or the frame counter would
//! leave its range.

use crate::cpu::{Instruction, Register, REGISTER_COUNT, REGISTER_FILE_BYTES};
use crate::memory::{word_at, write_word};
use vstd::prelude::*;

verus! {

broadcast use crate::memory::group_word_laws;

/// Registers hold 16 bits, so this is the largest address a register can name.
pub const MAX_ADDRESS: u16 = 0xFFFF;

/// What a processor holds at an instant.
pub struct CpuState {
    /// Main memory: program, data and stack.
    pub memory: Seq<u8>,
    /// The register file: one big-endian word per register, in index order.
    pub registers: Seq<u8>,
    /// Bytes pushed since the last call, or since the start.
    pub frame_size: nat,
}

impl CpuState {
    /// The register file has room for exactly the named registers.
    pub open spec fn wf(self) -> bool {
        self.registers.len() == REGISTER_FILE_BYTES
    }

    /// The state in which a processor starts on a memory image: every
    /// register zero but the stack and frame pointers, which name the last
    /// word of memory (as far as 16 bits can), and an empty frame.
    pub open spec fn initial(memory: Seq<u8>) -> CpuState {
        let bottom_of_stack = ((memory.len() - 2) % 0x1_0000) as u16;
        CpuState {
            memory,
            registers: Seq::new(REGISTER_FILE_BYTES as nat, |i: int| 0u8),
            frame_size: 0,
        }.with_reg(Register::StackPointer, bottom_of_stack).with_reg(
            Register::FramePointer,
            bottom_of_stack,
        )
    }

    // Registers

    /// The word at byte `offset` of the register file.
    pub open spec fn reg_at(self, offset: int) -> u16 {
        word_at(self.registers, offset)
    }

    /// The value of a named register.
    pub open spec fn reg(self, name: Register) -> u16 {
        self.reg_at(name.offset())
    }

    /// This state with `value` stored at byte `offset` of the register file.
    pub open spec fn with_reg_at(self, offset: int, value: u16) -> CpuState {
        CpuState { registers: write_word(self.registers, offset, value), ..self }
    }

    /// This state with `value` in a named register.
    pub open spec fn with_reg(self, name: Register, value: u16) -> CpuState {
        self.with_reg_at(name.offset(), value)
    }

    /// The instruction pointer: the address of the next byte to fetch.
    pub open spec fn ip(self) -> u16 {
        self.reg(Register::InstructionPointer)
    }

    /// The accumulator.
    pub open spec fn acc(self) -> u16 {
        self.reg(Register::Accumulator)
    }

    /// The stack pointer: the address at which the next push writes.
    pub open spec fn sp(self) -> u16 {
        self.reg(Register::StackPointer)
    }

    /// The frame pointer: the address just below the frame that the last
    /// call saved.
    pub open spec fn fp(self) -> u16 {
        self.reg(Register::FramePointer)
    }

    /// Whether two states give every named register the same value.
    pub open spec fn same_registers(self, other: CpuState) -> bool {
        &&& self.reg(Register::InstructionPointer) == other.reg(Register::InstructionPointer)
        &&& self.reg(Register::Accumulator) == other.reg(Register::Accumulator)
        &&& self.reg(Register::Register1) == other.reg(Register::Register1)
        &&& self.reg(Register::Register2) == other.reg(Register::Register2)
        &&& self.reg(Register::Register3) == other.reg(Register::Register3)
        &&& self.reg(Register::Register4) == other.reg(Register::Register4)
        &&& self.reg(Register::Register5) == other.reg(Register::Register5)
        &&& self.reg(Register::Register6) == other.reg(Register::Register6)
        &&& self.reg(Register::Register7) == other.reg(Register::Register7)
        &&& self.reg(Register::Register8) == other.reg(Register::Register8)
        &&& self.reg(Register::StackPointer) == other.reg(Register::StackPointer)
        &&& self.reg(Register::FramePointer) == other.reg(Register::FramePointer)
    }

    /// A register file is no more than the values of the twelve registers:
    /// two of them that agree on every register are equal.
    pub proof fn lemma_registers_determine_file(self, other: CpuState)
        requires
            self.wf(),
            other.wf(),
            self.same_registers(other),
        ensures
            self.registers == other.registers,
    {
        let a = self.registers;
        let b = other.registers;
        reveal(word_at);
        assert(a[0] == b[0] && a[1] == b[1]) by {
            assert(self.reg(Register::InstructionPointer) == other.reg(
                Register::InstructionPointer,
            ));
        }
        assert(a[2] == b[2] && a[3] == b[3]) by {
            assert(self.reg(Register::Accumulator) == other.reg(Register::Accumulator));
        }
        assert(a[4] == b[4] && a[5] == b[5]) by {
            assert(self.reg(Register::Register1) == other.reg(Register::Register1));
        }
        assert(a[6] == b[6] && a[7] == b[7]) by {
            assert(self.reg(Register::Register2) == other.reg(Register::Register2));
        }
        assert(a[8] == b[8] && a[9] == b[9]) by {
            assert(self.reg(Register::Register3) == other.reg(Register::Register3));
        }
        assert(a[10] == b[10] && a[11] == b[11]) by {
            assert(self.reg(Register::Register4) == other.reg(Register::Register4));
        }
        assert(a[12] == b[12] && a[13] == b[13]) by {
            assert(self.reg(Register::Register5) == other.reg(Register::Register5));
        }
        assert(a[14] == b[14] && a[15] == b[15]) by {
            assert(self.reg(Register::Register6) == other.reg(Register::Register6));
        }
        assert(a[16] == b[16] && a[17] == b[17]) by {
            assert(self.reg(Register::Register7) == other.reg(Register::Register7));
        }
        assert(a[18] == b[18] && a[19] == b[19]) by {
            assert(self.reg(Register::Register8) == other.reg(Register::Register8));
        }
        assert(a[20] == b[20] && a[21] == b[21]) by {
            assert(self.reg(Register::StackPointer) == other.reg(Register::StackPointer));
        }
        assert(a[22] == b[22] && a[23] == b[23]) by {
            assert(self.reg(Register::FramePointer) == other.reg(Register::FramePointer));
        }
        assert(a =~= b);
    }

    // Fetching

    /// Whether the next `count` bytes of the instruction stream can be
    /// fetched: they lie in memory, and the instruction pointer can move past
    /// them.
    pub open spec fn can_fetch(self, count: int) -> bool {
        &&& self.ip() + count <= self.memory.len()
        &&& self.ip() + count <= MAX_ADDRESS
    }

    /// The byte `at` bytes after the instruction pointer.
    pub open spec fn byte_ahead(self, at: int) -> u8 {
        self.memory[self.ip() + at]
    }

    /// The word `at` bytes after the instruction pointer.
    pub open spec fn word_ahead(self, at: int) -> u16 {
        word_at(self.memory, self.ip() + at)
    }

    /// The index of the register that the operand byte `at` bytes after the
    /// instruction pointer selects. Every byte selects a register: the byte is
    /// reduced modulo the number of registers.
    pub open spec fn index_ahead(self, at: int) -> int {
        self.byte_ahead(at) as int % REGISTER_COUNT as int
    }

    /// This state with the instruction pointer moved forward by `count`.
    pub open spec fn advance(self, count: int) -> CpuState {
        self.with_reg(Register::InstructionPointer, (self.ip() + count) as u16)
    }

    // Stack

    /// Whether a word can be pushed: the word at the stack pointer lies in
    /// memory, and the stack pointer and the frame counter can move.
    pub open spec fn can_push(self) -> bool {
        &&& self.sp() + 1 < self.memory.len()
        &&& self.sp() >= 2
        &&& self.frame_size + 2 <= usize::MAX
    }

    /// The state after pushing `value`: the word is written at the stack
    /// pointer, which then moves down by two; the frame grows by two.
    pub open spec fn push(self, value: u16) -> CpuState {
        CpuState {
            memory: write_word(self.memory, self.sp() as int, value),
            frame_size: self.frame_size + 2,
            ..self.with_reg(Register::StackPointer, (self.sp() - 2) as u16)
        }
    }

    /// Whether a word can be popped: the stack pointer can move up by two,
    /// the word it then names lies in memory, and the frame holds a word.
    pub open spec fn can_pop(self) -> bool {
        &&& self.sp() + 2 <= MAX_ADDRESS
        &&& self.sp() + 3 < self.memory.len()
        &&& self.frame_size >= 2
    }

    /// The word that a pop returns.
    pub open spec fn pop_value(self) -> u16 {
        word_at(self.memory, self.sp() + 2)
    }

    /// The state after a pop: the stack pointer moves up by two and the frame
    /// shrinks by two. Memory keeps the popped word.
    pub open spec fn pop(self) -> CpuState {
        CpuState {
            frame_size: (self.frame_size - 2) as nat,
            ..self.with_reg(Register::StackPointer, (self.sp() + 2) as u16)
        }
    }

    // Calls

    /// Whether the caller's state can be saved: ten words can be pushed.
    pub open spec fn can_push_state(self) -> bool {
        &&& self.sp() + 1 < self.memory.len()
        &&& self.sp() >= 20
        &&& self.frame_size + 20 <= usize::MAX
    }

    /// The frame size that a call records: the caller's frame with the ten
    /// saved words, as far as 16 bits can hold it.
    pub open spec fn recorded_frame_size(self) -> u16 {
        ((self.frame_size + 20) % 0x1_0000) as u16
    }

    /// The state after saving the caller's state. From the stack pointer
    /// downwards memory holds `Register1` to `Register8`, the instruction
    /// pointer and the recorded frame size. The stack pointer and the frame
    /// pointer name the word below them, and a new, empty frame begins.
    pub open spec fn push_state(self) -> CpuState {
        let sp = self.sp() as int;
        let m0 = self.memory;
        let m1 = write_word(m0, sp, self.reg(Register::Register1));
        let m2 = write_word(m1, sp - 2, self.reg(Register::Register2));
        let m3 = write_word(m2, sp - 4, self.reg(Register::Register3));
        let m4 = write_word(m3, sp - 6, self.reg(Register::Register4));
        let m5 = write_word(m4, sp - 8, self.reg(Register::Register5));
        let m6 = write_word(m5, sp - 10, self.reg(Register::Register6));
        let m7 = write_word(m6, sp - 12, self.reg(Register::Register7));
        let m8 = write_word(m7, sp - 14, self.reg(Register::Register8));
        let m9 = write_word(m8, sp - 16, self.ip());
        let m10 = write_word(m9, sp - 18, self.recorded_frame_size());
        CpuState {
            memory: m10,
            frame_size: 0,
            ..self.with_reg(Register::StackPointer, (sp - 20) as u16).with_reg(
                Register::FramePointer,
                (sp - 20) as u16,
            )
        }
    }

    /// The frame size that the frame at the frame pointer records.
    pub open spec fn saved_frame_size(self) -> u16 {
        word_at(self.memory, self.fp() + 2)
    }

    /// The argument count that the caller pushed just before the call.
    pub open spec fn saved_arg_count(self) -> u16 {
        word_at(self.memory, self.fp() + 22)
    }

    /// Whether the caller's state can be restored from the frame at the frame
    /// pointer: the frame, the argument count and the arguments lie in
    /// memory, the recorded frame size covers them, and the stack pointer and
    /// the frame pointer stay in range.
    pub open spec fn can_pop_state(self) -> bool {
        &&& self.fp() + 23 < self.memory.len()
        &&& self.fp() + 23 + 2 * self.saved_arg_count() < self.memory.len()
        &&& self.fp() + 22 + 2 * self.saved_arg_count() <= MAX_ADDRESS
        &&& self.saved_frame_size() >= 20 + 2 * self.saved_arg_count()
        &&& self.fp() + self.saved_frame_size() <= MAX_ADDRESS
    }

    /// The state after restoring the caller's state. Going up from the frame
    /// pointer, memory gives the frame size, the instruction pointer and
    /// `Register8` down to `Register1`. The argument count and that many
    /// argument words above them are dropped from the stack. The frame
    /// pointer moves up by the recorded frame size. Memory is unchanged.
    pub open spec fn pop_state(self) -> CpuState {
        let fp = self.fp() as int;
        let size = self.saved_frame_size();
        let args = self.saved_arg_count();
        CpuState {
            frame_size: (size - 20 - 2 * args) as nat,
            ..self.with_reg(Register::InstructionPointer, word_at(self.memory, fp + 4)).with_reg(
                Register::Register8,
                word_at(self.memory, fp + 6),
            ).with_reg(Register::Register7, word_at(self.memory, fp + 8)).with_reg(
                Register::Register6,
                word_at(self.memory, fp + 10),
            ).with_reg(Register::Register5, word_at(self.memory, fp + 12)).with_reg(
                Register::Register4,
                word_at(self.memory, fp + 14),
            ).with_reg(Register::Register3, word_at(self.memory, fp + 16)).with_reg(
                Register::Register2,
                word_at(self.memory, fp + 18),
            ).with_reg(Register::Register1, word_at(self.memory, fp + 20)).with_reg(
                Register::StackPointer,
                (fp + 22 + 2 * args) as u16,
            ).with_reg(Register::FramePointer, (fp + size) as u16)
        }
    }

    // Instructions

    /// Whether `instruction` can be executed in this state, in which the
    /// instruction pointer names the first operand byte.
    pub open spec fn can_execute(self, instruction: Instruction) -> bool {
        match instruction {
            Instruction::Noop => true,
            Instruction::MovLitReg => {
                &&& self.can_fetch(3)
                &&& self.byte_ahead(2) < REGISTER_COUNT
            },
            Instruction::MovRegReg => {
                &&& self.can_fetch(2)
                &&& self.byte_ahead(0) < REGISTER_COUNT
                &&& self.byte_ahead(1) < REGISTER_COUNT
            },
            Instruction::MovMemReg => {
                &&& self.can_fetch(3)
                &&& self.byte_ahead(2) < REGISTER_COUNT
                &&& self.word_ahead(0) + 1 < self.memory.len()
            },
            Instruction::MovRegMem => {
                &&& self.can_fetch(3)
                &&& self.byte_ahead(0) < REGISTER_COUNT
                &&& self.word_ahead(1) + 1 < self.memory.len()
            },
            Instruction::AddRegReg => {
                &&& self.can_fetch(2)
                &&& self.byte_ahead(0) < REGISTER_COUNT
                &&& self.byte_ahead(1) < REGISTER_COUNT
            },
            Instruction::JmpNotEq => self.can_fetch(4),
            Instruction::PushLit => self.can_fetch(2) && self.advance(2).can_push(),
            Instruction::PushReg => self.can_fetch(1) && self.advance(1).can_push(),
            Instruction::Pop => self.can_fetch(1) && self.advance(1).can_pop(),
            Instruction::CalLit => self.can_fetch(2) && self.advance(2).can_push_state(),
            Instruction::CalReg => self.can_fetch(1) && self.advance(1).can_push_state(),
            Instruction::Ret => self.can_pop_state(),
        }
    }

    /// The state after executing `instruction` in this state, in which the
    /// instruction pointer names the first operand byte. Registers are read
    /// after the operands have been fetched.
    pub open spec fn execute(self, instruction: Instruction) -> CpuState {
        match instruction {
            Instruction::Noop => self,
            Instruction::MovLitReg => self.advance(3).with_reg(
                Register::decode(self.byte_ahead(2)),
                self.word_ahead(0),
            ),
            Instruction::MovRegReg => {
                let fetched = self.advance(2);
                fetched.with_reg(
                    Register::decode(self.byte_ahead(1)),
                    fetched.reg(Register::decode(self.byte_ahead(0))),
                )
            },
            Instruction::MovMemReg => self.advance(3).with_reg(
                Register::decode(self.byte_ahead(2)),
                word_at(self.memory, self.word_ahead(0) as int),
            ),
            Instruction::MovRegMem => {
                let fetched = self.advance(3);
                CpuState {
                    memory: write_word(
                        self.memory,
                        self.word_ahead(1) as int,
                        fetched.reg(Register::decode(self.byte_ahead(0))),
                    ),
                    ..fetched
                }
            },
            Instruction::AddRegReg => {
                let fetched = self.advance(2);
                let sum = fetched.reg_at(2 * self.byte_ahead(0)) + fetched.reg_at(
                    2 * self.byte_ahead(1),
                );
                fetched.with_reg(Register::Accumulator, (sum % 0x1_0000) as u16)
            },
            Instruction::JmpNotEq => {
                let fetched = self.advance(4);
                if self.word_ahead(0) != self.acc() {
                    fetched.with_reg(Register::InstructionPointer, self.word_ahead(2))
                } else {
                    fetched
                }
            },
            Instruction::PushLit => self.advance(2).push(self.word_ahead(0)),
            Instruction::PushReg => {
                let fetched = self.advance(1);
                fetched.push(fetched.reg_at(2 * self.index_ahead(0)))
            },
            Instruction::Pop => {
                let fetched = self.advance(1);
                fetched.pop().with_reg_at(2 * self.index_ahead(0), fetched.pop_value())
            },
            Instruction::CalLit => self.advance(2).push_state().with_reg(
                Register::InstructionPointer,
                self.word_ahead(0),
            ),
            Instruction::CalReg => {
                let fetched = self.advance(1);
                fetched.push_state().with_reg(
                    Register::InstructionPointer,
                    fetched.reg_at(2 * self.index_ahead(0)),
                )
            },
            Instruction::Ret => self.pop_state(),
        }
    }

    /// Whether one instruction can be fetched and executed.
    pub open spec fn can_step(self) -> bool {
        &&& self.can_fetch(1)
        &&& self.advance(1).can_execute(Instruction::decode(self.byte_ahead(0)))
    }

    /// The state after one fetch-decode-execute cycle.
    pub open spec fn step(self) -> CpuState {
        self.advance(1).execute(Instruction::decode(self.byte_ahead(0)))
    }

    /// Whether `n` instructions in a row can be fetched and executed.
    pub open spec fn can_step_n(self, n: nat) -> bool
        decreases n,
    {
        n == 0 || (self.can_step() && self.step().can_step_n((n - 1) as nat))
    }

    /// The state after `n` cycles.
    pub open spec fn step_n(self, n: nat) -> CpuState
        decreases n,
    {
        if n == 0 {
            self
        } else {
            self.step().step_n((n - 1) as nat)
        }
    }
}

} // verus!
