//! The processor: register names, the instruction set, and the
//! fetch-decode-execute cycle over main memory and the register file.

use crate::laws::{lemma_step_n_add, lemma_step_n_one};
use crate::machine::{CpuState, MAX_ADDRESS};
use crate::memory::{word_at, Memory};
use vstd::prelude::*;
use vstd::std_specs::convert::FromSpecImpl;

verus! {

broadcast use crate::memory::group_word_laws;

/// Number of named registers.
pub const REGISTER_COUNT: usize = 12;

/// Size of the register file in bytes: one big-endian word per register.
pub const REGISTER_FILE_BYTES: usize = 24;

/// A processor with its main memory and its register file.
///
/// Its view is the [`CpuState`] it is in.
pub struct Cpu {
    memory: Memory,
    register: Memory,
    stack_frame_size: usize,
}

impl View for Cpu {
    type V = CpuState;

    closed spec fn view(&self) -> CpuState {
        CpuState {
            memory: self.memory@,
            registers: self.register@,
            frame_size: self.stack_frame_size as nat,
        }
    }
}

impl Cpu {
    /// The register file has room for exactly the named registers. This holds
    /// of every processor.
    #[verifier::type_invariant]
    pub open spec fn wf(&self) -> bool {
        self@.wf()
    }

    /// A processor on the memory image `memory`, which must hold at least one
    /// word: the stack starts at its last word.
    pub fn new(memory: Memory) -> (cpu: Cpu)
        requires
            memory@.len() >= 2,
        ensures
            cpu.wf(),
            cpu@ == CpuState::initial(memory@),
    {
        let bottom_of_stack: u16 = ((memory.byte_length() - 2) % 0x1_0000) as u16;
        let mut cpu = Cpu { memory, register: Memory::new(REGISTER_FILE_BYTES), stack_frame_size: 0 };
        cpu.set_register(Register::StackPointer, bottom_of_stack);
        cpu.set_register(Register::FramePointer, bottom_of_stack);
        cpu
    }

    /// The eight bytes of main memory that start at `address`, all of which
    /// must lie in memory.
    pub fn peek_tape(&self, address: usize) -> (bytes: Vec<u8>)
        requires
            address + 8 <= self@.memory.len(),
        ensures
            bytes@ == self@.memory.subrange(address as int, address + 8),
    {
        self.memory.peek(address, 8)
    }

    /// The live stack: main memory from the stack pointer, which must not lie
    /// beyond memory, to the end.
    pub fn peek_stack(&self) -> (bytes: Vec<u8>)
        requires
            self@.sp() <= self@.memory.len(),
        ensures
            bytes@ == self@.memory.subrange(self@.sp() as int, self@.memory.len() as int),
    {
        let start: usize = self.get_register(Register::StackPointer) as usize;
        let end: usize = self.memory.byte_length();
        self.memory.peek(start, end - start)
    }

    /// The word of main memory at `address` and `address + 1`, both of which
    /// must lie in memory.
    pub fn peek(&self, address: usize) -> (word: u16)
        requires
            address + 1 < self@.memory.len(),
        ensures
            word == word_at(self@.memory, address as int),
    {
        self.memory.get_word(address)
    }

    /// The value of a named register.
    pub fn peek_register(&self, register: Register) -> (value: u16)
        requires
            register.is_named(),
        ensures
            value == self@.reg(register),
    {
        self.get_register(register)
    }

    /// Main memory, for inspection.
    pub fn memory(&self) -> (memory: &Memory)
        ensures
            memory@ == self@.memory,
    {
        &self.memory
    }

    /// Bytes pushed since the last call, or since the start.
    pub fn stack_frame_size(&self) -> (size: usize)
        ensures
            size == self@.frame_size,
    {
        self.stack_frame_size
    }

    /// Byte offset of a register's word in the register file.
    pub fn register_map(&self, name: Register) -> (offset: usize)
        ensures
            offset == name.offset(),
    {
        name.index() as usize * 2
    }

    /// The value of a named register.
    pub fn get_register(&self, name: Register) -> (value: u16)
        requires
            name.is_named(),
        ensures
            value == self@.reg(name),
    {
        self.get_register_at(self.register_map(name))
    }

    /// The word at byte `index` of the register file.
    pub fn get_register_at(&self, index: usize) -> (value: u16)
        requires
            index + 1 < REGISTER_FILE_BYTES,
        ensures
            value == self@.reg_at(index as int),
    {
        proof {
            use_type_invariant(&*self);
        }
        self.register.get_word(index)
    }

    /// Stores `value` in a named register.
    pub fn set_register(&mut self, name: Register, value: u16)
        requires
            name.is_named(),
        ensures
            final(self).wf(),
            final(self)@ == old(self)@.with_reg(name, value),
    {
        let offset: usize = self.register_map(name);
        self.set_register_at(offset, value);
    }

    /// Stores `value` at byte `index` of the register file.
    pub fn set_register_at(&mut self, index: usize, value: u16)
        requires
            index + 1 < REGISTER_FILE_BYTES,
        ensures
            final(self).wf(),
            final(self)@ == old(self)@.with_reg_at(index as int, value),
    {
        proof {
            use_type_invariant(&*self);
        }
        self.register.set_word(index, value);
    }

    /// Whether `count` bytes lie in memory from `start` on, and the
    /// instruction pointer can move from `start` past them.
    fn fits(&self, start: u16, count: usize) -> (ok: bool)
        ensures
            ok == (start + count <= self@.memory.len() && start + count <= MAX_ADDRESS),
    {
        count <= MAX_ADDRESS as usize && start as usize + count <= self.memory.byte_length()
            && start as usize + count <= MAX_ADDRESS as usize
    }

    /// Whether the next `count` bytes of the instruction stream can be
    /// fetched.
    pub fn can_fetch(&self, count: usize) -> (ok: bool)
        ensures
            ok == self@.can_fetch(count as int),
    {
        self.fits(self.get_register(Register::InstructionPointer), count)
    }

    /// Whether a word can be pushed.
    pub fn can_push(&self) -> (ok: bool)
        ensures
            ok == self@.can_push(),
    {
        let stack_pointer: usize = self.get_register(Register::StackPointer) as usize;
        stack_pointer + 1 < self.memory.byte_length() && stack_pointer >= 2
            && self.stack_frame_size <= usize::MAX - 2
    }

    /// Whether a word can be popped.
    pub fn can_pop(&self) -> (ok: bool)
        ensures
            ok == self@.can_pop(),
    {
        let stack_pointer: usize = self.get_register(Register::StackPointer) as usize;
        stack_pointer + 2 <= MAX_ADDRESS as usize && stack_pointer + 3 < self.memory.byte_length()
            && self.stack_frame_size >= 2
    }

    /// Whether the caller's state can be saved for a call.
    pub fn can_push_state(&self) -> (ok: bool)
        ensures
            ok == self@.can_push_state(),
    {
        let stack_pointer: usize = self.get_register(Register::StackPointer) as usize;
        stack_pointer + 1 < self.memory.byte_length() && stack_pointer >= 20
            && self.stack_frame_size <= usize::MAX - 20
    }

    /// Whether the caller's state can be restored from the frame at the frame
    /// pointer.
    pub fn can_pop_state(&self) -> (ok: bool)
        ensures
            ok == self@.can_pop_state(),
    {
        let frame_pointer: usize = self.get_register(Register::FramePointer) as usize;
        let length: usize = self.memory.byte_length();
        if frame_pointer + 23 >= length {
            return false;
        }
        let frame_size: usize = self.memory.get_word(frame_pointer + 2) as usize;
        let n_args: usize = self.memory.get_word(frame_pointer + 22) as usize;
        frame_pointer + 23 + 2 * n_args < length && frame_pointer + 22 + 2 * n_args
            <= MAX_ADDRESS as usize && frame_size >= 20 + 2 * n_args && frame_pointer + frame_size
            <= MAX_ADDRESS as usize
    }

    /// Whether `instruction` can be executed with its operands starting at
    /// `start`.
    fn can_execute_from(&self, start: u16, instruction: Instruction) -> (ok: bool)
        ensures
            ok == self@.with_reg(Register::InstructionPointer, start).can_execute(instruction),
    {
        proof {
            use_type_invariant(&*self);
        }
        let at: usize = start as usize;
        match instruction {
            Instruction::Noop => true,
            Instruction::MovLitReg => self.fits(start, 3) && self.memory.get_byte(at + 2)
                < REGISTER_COUNT as u8,
            Instruction::MovRegReg => self.fits(start, 2) && self.memory.get_byte(at)
                < REGISTER_COUNT as u8 && self.memory.get_byte(at + 1) < REGISTER_COUNT as u8,
            Instruction::MovMemReg => self.fits(start, 3) && self.memory.get_byte(at + 2)
                < REGISTER_COUNT as u8 && self.memory.get_word(at) as usize + 1
                < self.memory.byte_length(),
            Instruction::MovRegMem => self.fits(start, 3) && self.memory.get_byte(at)
                < REGISTER_COUNT as u8 && self.memory.get_word(at + 1) as usize + 1
                < self.memory.byte_length(),
            Instruction::AddRegReg => self.fits(start, 2) && self.memory.get_byte(at)
                < REGISTER_COUNT as u8 && self.memory.get_byte(at + 1) < REGISTER_COUNT as u8,
            Instruction::JmpNotEq => self.fits(start, 4),
            Instruction::PushLit => self.fits(start, 2) && self.can_push(),
            Instruction::PushReg => self.fits(start, 1) && self.can_push(),
            Instruction::Pop => self.fits(start, 1) && self.can_pop(),
            Instruction::CalLit => self.fits(start, 2) && self.can_push_state(),
            Instruction::CalReg => self.fits(start, 1) && self.can_push_state(),
            Instruction::Ret => self.can_pop_state(),
        }
    }

    /// Whether `instruction` can be executed with its operands starting at
    /// the instruction pointer.
    pub fn can_execute(&self, instruction: Instruction) -> (ok: bool)
        ensures
            ok == self@.can_execute(instruction),
    {
        proof {
            use_type_invariant(&*self);
        }
        let start: u16 = self.get_register(Register::InstructionPointer);
        proof {
            self@.with_reg(Register::InstructionPointer, start).lemma_registers_determine_file(
                self@,
            );
        }
        self.can_execute_from(start, instruction)
    }

    /// Whether one instruction can be fetched and executed. Where this is
    /// false the machine has stopped: [`Cpu::step`] has no next state.
    pub fn can_step(&self) -> (ok: bool)
        ensures
            ok == self@.can_step(),
    {
        let instruction_addr: u16 = self.get_register(Register::InstructionPointer);
        if !self.fits(instruction_addr, 1) {
            return false;
        }
        let instruction: u8 = self.memory.get_byte(instruction_addr as usize);
        self.can_execute_from(instruction_addr + 1, Instruction::from(instruction))
    }

    /// Reads the byte at the instruction pointer and moves the pointer past
    /// it.
    pub fn fetch(&mut self) -> (byte: u8)
        requires
            old(self)@.can_fetch(1),
        ensures
            final(self).wf(),
            byte == old(self)@.byte_ahead(0),
            final(self)@ == old(self)@.advance(1),
    {
        let next_instruction_addr: u16 = self.get_register(Register::InstructionPointer);
        self.set_register(Register::InstructionPointer, next_instruction_addr + 1);
        self.memory.get_byte(next_instruction_addr as usize)
    }

    /// Reads the word at the instruction pointer and moves the pointer past
    /// it.
    pub fn fetch16(&mut self) -> (word: u16)
        requires
            old(self)@.can_fetch(2),
        ensures
            final(self).wf(),
            word == old(self)@.word_ahead(0),
            final(self)@ == old(self)@.advance(2),
    {
        let next_instruction_addr: u16 = self.get_register(Register::InstructionPointer);
        self.set_register(Register::InstructionPointer, next_instruction_addr + 2);
        self.memory.get_word(next_instruction_addr as usize)
    }

    /// Reads an operand byte and reduces it modulo the number of registers,
    /// so that every byte gives the index of a register.
    pub fn fetch_register_index(&mut self) -> (index: usize)
        requires
            old(self)@.can_fetch(1),
        ensures
            final(self).wf(),
            index == old(self)@.index_ahead(0),
            index < REGISTER_COUNT,
            final(self)@ == old(self)@.advance(1),
    {
        let address: u8 = self.fetch();
        address as usize % REGISTER_COUNT
    }

    /// Writes `value` at the stack pointer and moves the pointer down by two.
    pub fn push(&mut self, value: u16)
        requires
            old(self)@.can_push(),
        ensures
            final(self).wf(),
            final(self)@ == old(self)@.push(value),
    {
        proof {
            use_type_invariant(&*self);
        }
        let stack_pointer: u16 = self.get_register(Register::StackPointer);
        self.memory.set_word(stack_pointer as usize, value);
        self.set_register(Register::StackPointer, stack_pointer - 2);
        self.stack_frame_size += 2;
    }

    /// Moves the stack pointer up by two and reads the word it then names.
    pub fn pop(&mut self) -> (value: u16)
        requires
            old(self)@.can_pop(),
        ensures
            final(self).wf(),
            value == old(self)@.pop_value(),
            final(self)@ == old(self)@.pop(),
    {
        let next_stack_pointer: u16 = self.get_register(Register::StackPointer) + 2;
        self.set_register(Register::StackPointer, next_stack_pointer);
        self.stack_frame_size -= 2;
        self.memory.get_word(next_stack_pointer as usize)
    }

    /// Saves the caller's state on the stack before a call: the eight general
    /// registers, the return address and the frame size. The frame pointer
    /// then names the saved frame, and a new, empty frame begins.
    pub fn push_state(&mut self)
        requires
            old(self)@.can_push_state(),
        ensures
            final(self).wf(),
            final(self)@ == old(self)@.push_state(),
    {
        proof {
            use_type_invariant(&*self);
        }
        self.push(self.get_register(Register::Register1));
        self.push(self.get_register(Register::Register2));
        self.push(self.get_register(Register::Register3));
        self.push(self.get_register(Register::Register4));
        self.push(self.get_register(Register::Register5));
        self.push(self.get_register(Register::Register6));
        self.push(self.get_register(Register::Register7));
        self.push(self.get_register(Register::Register8));
        self.push(self.get_register(Register::InstructionPointer));
        let stack_size_to_save: usize = self.stack_frame_size + 2;
        self.push((stack_size_to_save % 0x1_0000) as u16);
        self.set_register(Register::FramePointer, self.get_register(Register::StackPointer));
        self.stack_frame_size = 0;
    }

    /// Restores the caller's state from the frame at the frame pointer on a
    /// return: the frame size, the return address and the eight general
    /// registers. Drops the argument count and the arguments that the caller
    /// pushed, and moves the frame pointer back up to the caller's frame.
    pub fn pop_state(&mut self)
        requires
            old(self)@.can_pop_state(),
        ensures
            final(self).wf(),
            final(self)@ == old(self)@.pop_state(),
    {
        proof {
            use_type_invariant(&*self);
        }
        let stack_pointer_address: u16 = self.get_register(Register::FramePointer);
        self.set_register(Register::StackPointer, stack_pointer_address);

        // The frame counter is about to be replaced; two is what one pop takes.
        self.stack_frame_size = 2;
        let frame_size: u16 = self.pop();
        self.stack_frame_size = frame_size as usize;

        let register_value: u16 = self.pop();
        self.set_register(Register::InstructionPointer, register_value);

        let register_value: u16 = self.pop();
        self.set_register(Register::Register8, register_value);
        let register_value: u16 = self.pop();
        self.set_register(Register::Register7, register_value);
        let register_value: u16 = self.pop();
        self.set_register(Register::Register6, register_value);
        let register_value: u16 = self.pop();
        self.set_register(Register::Register5, register_value);
        let register_value: u16 = self.pop();
        self.set_register(Register::Register4, register_value);
        let register_value: u16 = self.pop();
        self.set_register(Register::Register3, register_value);
        let register_value: u16 = self.pop();
        self.set_register(Register::Register2, register_value);
        let register_value: u16 = self.pop();
        self.set_register(Register::Register1, register_value);

        let n_args: u16 = self.pop();
        let ghost restored = self@;
        for dropped in 0..n_args
            invariant
                self.wf(),
                restored.wf(),
                restored.sp() + 2 * n_args + 1 < restored.memory.len(),
                restored.sp() + 2 * n_args <= 0xFFFF,
                restored.frame_size >= 2 * n_args,
                self@ == (CpuState {
                    frame_size: (restored.frame_size - 2 * dropped) as nat,
                    ..restored.with_reg(
                        Register::StackPointer,
                        (restored.sp() + 2 * dropped) as u16,
                    )
                }),
        {
            self.pop();
        }
        let frame_pointer_address: u16 = stack_pointer_address + frame_size;
        self.set_register(Register::FramePointer, frame_pointer_address);
        proof {
            self@.lemma_registers_determine_file(old(self)@.pop_state());
        }
    }

    /// Executes `instruction`, whose operands start at the instruction
    /// pointer. `Noop` changes nothing and reads no operand.
    pub fn execute(&mut self, instruction: Instruction)
        requires
            old(self)@.can_execute(instruction),
        ensures
            final(self).wf(),
            final(self)@ == old(self)@.execute(instruction),
    {
        proof {
            use_type_invariant(&*self);
        }
        match instruction {
            Instruction::MovLitReg => {
                let value: u16 = self.fetch16();
                let register: u8 = self.fetch();
                self.set_register(Register::from(register), value);
            },
            Instruction::MovRegReg => {
                let register_from: u8 = self.fetch();
                let register_to: u8 = self.fetch();
                let value: u16 = self.get_register(Register::from(register_from));
                self.set_register(Register::from(register_to), value);
            },
            Instruction::MovMemReg => {
                let address: u16 = self.fetch16();
                let register_to: u8 = self.fetch();
                let value: u16 = self.memory.get_word(address as usize);
                self.set_register(Register::from(register_to), value);
            },
            Instruction::MovRegMem => {
                let register_from: u8 = self.fetch();
                let address: u16 = self.fetch16();
                let value: u16 = self.get_register(Register::from(register_from));
                self.memory.set_word(address as usize, value);
            },
            Instruction::AddRegReg => {
                let register1: u8 = self.fetch();
                let register2: u8 = self.fetch();

                let value1: u16 = self.register.get_word(register1 as usize * 2);
                let value2: u16 = self.register.get_word(register2 as usize * 2);

                self.set_register(Register::Accumulator, value1.wrapping_add(value2));
            },
            Instruction::JmpNotEq => {
                let value: u16 = self.fetch16();
                let address: u16 = self.fetch16();

                let acc_value: u16 = self.get_register(Register::Accumulator);

                if value != acc_value {
                    self.set_register(Register::InstructionPointer, address);
                }
            },
            Instruction::PushLit => {
                let value: u16 = self.fetch16();
                self.push(value);
            },
            Instruction::PushReg => {
                let index: usize = self.fetch_register_index();
                let value: u16 = self.get_register_at(index * 2);
                self.push(value);
            },
            Instruction::Pop => {
                let index: usize = self.fetch_register_index();
                let value: u16 = self.pop();
                self.set_register_at(index * 2, value);
            },
            Instruction::CalLit => {
                let address: u16 = self.fetch16();
                self.push_state();
                self.set_register(Register::InstructionPointer, address);
            },
            Instruction::CalReg => {
                let register_index: usize = self.fetch_register_index();
                let address: u16 = self.get_register_at(register_index * 2);
                self.push_state();
                self.set_register(Register::InstructionPointer, address);
            },
            Instruction::Ret => {
                self.pop_state();
            },
            Instruction::Noop => {},
        }
    }

    /// One fetch-decode-execute cycle.
    pub fn step(&mut self)
        requires
            old(self)@.can_step(),
        ensures
            final(self).wf(),
            final(self)@ == old(self)@.step(),
    {
        let instruction: u8 = self.fetch();
        self.execute(Instruction::from(instruction));
    }

    /// `n` cycles in a row.
    pub fn step_n(&mut self, n: usize)
        requires
            old(self)@.can_step_n(n as nat),
        ensures
            final(self).wf(),
            final(self)@ == old(self)@.step_n(n as nat),
    {
        proof {
            use_type_invariant(&*self);
        }
        for done in 0..n
            invariant
                self.wf(),
                self@.can_step_n((n - done) as nat),
                self@.step_n((n - done) as nat) == old(self)@.step_n(n as nat),
        {
            self.step();
        }
    }

    /// One cycle if the machine can take it. Returns whether it did; if not,
    /// nothing has changed.
    pub fn try_step(&mut self) -> (stepped: bool)
        ensures
            final(self).wf(),
            stepped == old(self)@.can_step(),
            final(self)@ == if stepped {
                old(self)@.step()
            } else {
                old(self)@
            },
    {
        proof {
            use_type_invariant(&*self);
        }
        if self.can_step() {
            self.step();
            true
        } else {
            false
        }
    }

    /// Up to `n` cycles: the machine runs until it has taken `n` steps or
    /// cannot take another. Returns the number of steps taken.
    pub fn try_step_n(&mut self, n: usize) -> (taken: usize)
        ensures
            final(self).wf(),
            taken <= n,
            old(self)@.can_step_n(taken as nat),
            final(self)@ == old(self)@.step_n(taken as nat),
            taken < n ==> !final(self)@.can_step(),
    {
        proof {
            use_type_invariant(&*self);
        }
        let mut taken: usize = 0;
        while taken < n
            invariant
                self.wf(),
                taken <= n,
                old(self)@.can_step_n(taken as nat),
                self@ == old(self)@.step_n(taken as nat),
            decreases n - taken,
        {
            if !self.can_step() {
                return taken;
            }
            proof {
                lemma_step_n_add(old(self)@, taken as nat, 1);
                lemma_step_n_one(self@);
            }
            self.step();
            taken += 1;
        }
        taken
    }
}

/// The named registers, in the order of their indices, followed by the
/// sentinel `Invalid`, which stands for every byte that names no register.
#[derive(Debug, Clone, Copy)]
pub enum Register {
    InstructionPointer,
    Accumulator,
    Register1,
    Register2,
    Register3,
    Register4,
    Register5,
    Register6,
    Register7,
    Register8,
    StackPointer,
    FramePointer,
    Invalid,
}

impl Register {
    /// The register that an operand byte names.
    pub open spec fn decode(byte: u8) -> Register {
        match byte {
            0 => Register::InstructionPointer,
            1 => Register::Accumulator,
            2 => Register::Register1,
            3 => Register::Register2,
            4 => Register::Register3,
            5 => Register::Register4,
            6 => Register::Register5,
            7 => Register::Register6,
            8 => Register::Register7,
            9 => Register::Register8,
            10 => Register::StackPointer,
            11 => Register::FramePointer,
            _ => Register::Invalid,
        }
    }

    /// Position in the register file; `REGISTER_COUNT` for `Invalid`.
    pub open spec fn spec_index(self) -> u8 {
        match self {
            Register::InstructionPointer => 0,
            Register::Accumulator => 1,
            Register::Register1 => 2,
            Register::Register2 => 3,
            Register::Register3 => 4,
            Register::Register4 => 5,
            Register::Register5 => 6,
            Register::Register6 => 7,
            Register::Register7 => 8,
            Register::Register8 => 9,
            Register::StackPointer => 10,
            Register::FramePointer => 11,
            Register::Invalid => 12,
        }
    }

    /// Byte offset of the register's word in the register file.
    pub open spec fn offset(self) -> int {
        2 * self.spec_index()
    }

    /// Whether this is one of the twelve registers rather than the sentinel.
    pub open spec fn is_named(self) -> bool {
        self.spec_index() < REGISTER_COUNT
    }

    /// Position in the register file; `REGISTER_COUNT` for `Invalid`.
    #[verifier::when_used_as_spec(spec_index)]
    pub fn index(self) -> (index: u8)
        ensures
            index == self.spec_index(),
    {
        match self {
            Register::InstructionPointer => 0,
            Register::Accumulator => 1,
            Register::Register1 => 2,
            Register::Register2 => 3,
            Register::Register3 => 4,
            Register::Register4 => 5,
            Register::Register5 => 6,
            Register::Register6 => 7,
            Register::Register7 => 8,
            Register::Register8 => 9,
            Register::StackPointer => 10,
            Register::FramePointer => 11,
            Register::Invalid => 12,
        }
    }

    /// Decoding is total: a byte below `REGISTER_COUNT` names the register with
    /// that index, and every other byte names `Invalid`.
    pub proof fn lemma_decode_index(byte: u8)
        ensures
            Register::decode(byte).spec_index() == if byte < REGISTER_COUNT { byte } else { 12u8 },
            Register::decode(byte).is_named() <==> byte < REGISTER_COUNT,
    {
    }

    /// A register is recovered from its index.
    pub proof fn lemma_index_decode(register: Register)
        ensures
            Register::decode(register.spec_index()) == register,
    {
    }
}

impl From<u8> for Register {
    fn from(value: u8) -> (register: Register) {
        match value {
            0 => Register::InstructionPointer,
            1 => Register::Accumulator,
            2 => Register::Register1,
            3 => Register::Register2,
            4 => Register::Register3,
            5 => Register::Register4,
            6 => Register::Register5,
            7 => Register::Register6,
            8 => Register::Register7,
            9 => Register::Register8,
            10 => Register::StackPointer,
            11 => Register::FramePointer,
            _ => Register::Invalid,
        }
    }
}

impl FromSpecImpl<u8> for Register {
    open spec fn obeys_from_spec() -> bool {
        true
    }

    open spec fn from_spec(value: u8) -> Register {
        Register::decode(value)
    }
}

/// The instruction set. The operands follow the opcode byte in the order
/// given, words big-endian.
#[derive(Debug, Clone, Copy)]
pub enum Instruction {
    /// No operation; also what every unassigned opcode decodes to.
    Noop,
    /// Move a literal to a register: literal word, register byte.
    MovLitReg,
    /// Move a register to a register: source byte, destination byte.
    MovRegReg,
    /// Move a register to memory: register byte, address word.
    MovRegMem,
    /// Move a memory word to a register: address word, register byte.
    MovMemReg,
    /// Add two registers into the accumulator: two register bytes.
    AddRegReg,
    /// Jump if a literal differs from the accumulator: literal word,
    /// address word.
    JmpNotEq,
    /// Push a literal: literal word.
    PushLit,
    /// Push a register: register byte.
    PushReg,
    /// Pop into a register: register byte.
    Pop,
    /// Call the subroutine at a literal address: address word.
    CalLit,
    /// Call the subroutine whose address a register holds: register byte.
    CalReg,
    /// Return from a subroutine.
    Ret,
}

impl Instruction {
    /// The instruction that an opcode byte selects.
    pub open spec fn decode(byte: u8) -> Instruction {
        match byte {
            0x10 => Instruction::MovLitReg,
            0x11 => Instruction::MovRegReg,
            0x12 => Instruction::MovRegMem,
            0x13 => Instruction::MovMemReg,
            0x14 => Instruction::AddRegReg,
            0x15 => Instruction::JmpNotEq,
            0x17 => Instruction::PushLit,
            0x18 => Instruction::PushReg,
            0x1a => Instruction::Pop,
            0x5e => Instruction::CalLit,
            0x5f => Instruction::CalReg,
            0x60 => Instruction::Ret,
            _ => Instruction::Noop,
        }
    }

    /// The opcode byte of an instruction.
    pub open spec fn spec_opcode(self) -> u8 {
        match self {
            Instruction::Noop => 0x00,
            Instruction::MovLitReg => 0x10,
            Instruction::MovRegReg => 0x11,
            Instruction::MovRegMem => 0x12,
            Instruction::MovMemReg => 0x13,
            Instruction::AddRegReg => 0x14,
            Instruction::JmpNotEq => 0x15,
            Instruction::PushLit => 0x17,
            Instruction::PushReg => 0x18,
            Instruction::Pop => 0x1a,
            Instruction::CalLit => 0x5e,
            Instruction::CalReg => 0x5f,
            Instruction::Ret => 0x60,
        }
    }

    /// The opcode byte of an instruction.
    #[verifier::when_used_as_spec(spec_opcode)]
    pub fn opcode(self) -> (byte: u8)
        ensures
            byte == self.spec_opcode(),
    {
        match self {
            Instruction::Noop => 0x00,
            Instruction::MovLitReg => 0x10,
            Instruction::MovRegReg => 0x11,
            Instruction::MovRegMem => 0x12,
            Instruction::MovMemReg => 0x13,
            Instruction::AddRegReg => 0x14,
            Instruction::JmpNotEq => 0x15,
            Instruction::PushLit => 0x17,
            Instruction::PushReg => 0x18,
            Instruction::Pop => 0x1a,
            Instruction::CalLit => 0x5e,
            Instruction::CalReg => 0x5f,
            Instruction::Ret => 0x60,
        }
    }

    /// An instruction is recovered from its opcode.
    pub proof fn lemma_opcode_decode(instruction: Instruction)
        ensures
            Instruction::decode(instruction.spec_opcode()) == instruction,
    {
    }

    /// Decoding is total, and a byte that is no instruction's opcode decodes
    /// to `Noop`.
    pub proof fn lemma_decode_unassigned(byte: u8)
        ensures
            Instruction::decode(byte).spec_opcode() != byte ==> Instruction::decode(byte)
                == Instruction::Noop,
    {
    }
}

impl From<u8> for Instruction {
    fn from(value: u8) -> (instruction: Instruction) {
        match value {
            0x10 => Instruction::MovLitReg,
            0x11 => Instruction::MovRegReg,
            0x12 => Instruction::MovRegMem,
            0x13 => Instruction::MovMemReg,
            0x14 => Instruction::AddRegReg,
            0x15 => Instruction::JmpNotEq,
            0x17 => Instruction::PushLit,
            0x18 => Instruction::PushReg,
            0x1a => Instruction::Pop,
            0x5e => Instruction::CalLit,
            0x5f => Instruction::CalReg,
            0x60 => Instruction::Ret,
            _ => Instruction::Noop,
        }
    }
}

impl FromSpecImpl<u8> for Instruction {
    open spec fn obeys_from_spec() -> bool {
        true
    }

    open spec fn from_spec(value: u8) -> Instruction {
        Instruction::decode(value)
    }
}

} // verus!
