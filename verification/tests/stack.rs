use vm16::cpu::{Cpu, Register};
use vm16::memory::Memory;

const GENERAL: [Register; 8] = [
    Register::Register1,
    Register::Register2,
    Register::Register3,
    Register::Register4,
    Register::Register5,
    Register::Register6,
    Register::Register7,
    Register::Register8,
];

fn machine(size: usize, program: &[u8]) -> Cpu {
    let mut memory = Memory::new(size);
    for (offset, byte) in program.iter().enumerate() {
        memory.set_byte(offset, *byte);
    }
    Cpu::new(memory)
}

fn run(cpu: &mut Cpu, steps: usize) {
    for _ in 0..steps {
        assert!(cpu.can_step());
        cpu.step();
    }
}

#[test]
fn pop_after_push_returns_the_word_and_restores_the_stack() {
    for value in [0x0000u16, 0x0001, 0x00ff, 0x0100, 0x4243, 0x8000, 0xffff] {
        let mut cpu = machine(64, &[1, 2, 3]);
        cpu.push(0x0a0b);
        cpu.set_register(Register::Register3, 0x3333);
        let before_memory = cpu.memory().peek(0, 64);
        let before_stack_pointer = cpu.get_register(Register::StackPointer);
        let before_frame_size = cpu.stack_frame_size();
        assert_eq!(before_stack_pointer, 60);
        assert_eq!(before_frame_size, 2);

        assert!(cpu.can_push());
        cpu.push(value);
        assert_eq!(cpu.get_register(Register::StackPointer), 58);
        assert_eq!(cpu.stack_frame_size(), 4);
        assert!(cpu.can_pop());
        assert_eq!(cpu.pop(), value);

        assert_eq!(cpu.get_register(Register::StackPointer), before_stack_pointer);
        assert_eq!(cpu.stack_frame_size(), before_frame_size);
        assert_eq!(cpu.get_register(Register::Register3), 0x3333);
        assert_eq!(cpu.get_register(Register::FramePointer), 62);
        assert_eq!(cpu.get_register(Register::InstructionPointer), 0);

        // The popped word stays in memory; nothing else has changed.
        let after_memory = cpu.memory().peek(0, 64);
        assert_eq!(cpu.peek(60), value);
        assert_eq!(after_memory[..60], before_memory[..60]);
        assert_eq!(after_memory[62..], before_memory[62..]);
    }
}

#[test]
fn pop_after_push_of_the_word_already_there_restores_memory() {
    let mut cpu = machine(64, &[]);
    let before = cpu.memory().peek(0, 64);
    cpu.push(0x0000);
    assert_eq!(cpu.pop(), 0x0000);
    assert_eq!(cpu.memory().peek(0, 64), before);
    assert_eq!(cpu.get_register(Register::StackPointer), 62);
    assert_eq!(cpu.stack_frame_size(), 0);
}

#[test]
fn the_stack_is_last_in_first_out() {
    let mut cpu = machine(64, &[]);
    cpu.push(0x0001);
    cpu.push(0x0002);
    cpu.push(0x0003);
    assert_eq!(cpu.stack_frame_size(), 6);
    assert_eq!(cpu.get_register(Register::StackPointer), 56);
    assert_eq!(cpu.peek_stack(), vec![0, 0, 0, 3, 0, 2, 0, 1]);
    assert_eq!(cpu.pop(), 0x0003);
    assert_eq!(cpu.pop(), 0x0002);
    assert_eq!(cpu.pop(), 0x0001);
    assert_eq!(cpu.stack_frame_size(), 0);
    assert_eq!(cpu.get_register(Register::StackPointer), 62);
    assert_eq!(cpu.peek_stack(), vec![0, 1]);
}

#[test]
fn peek_stack_runs_from_the_stack_pointer_to_the_end() {
    let mut cpu = machine(16, &[]);
    assert_eq!(cpu.peek_stack(), vec![0, 0]);
    cpu.push(0xa1a2);
    assert_eq!(cpu.peek_stack(), vec![0, 0, 0xa1, 0xa2]);
    cpu.set_register(Register::StackPointer, 16);
    assert_eq!(cpu.peek_stack(), Vec::<u8>::new());
    cpu.set_register(Register::StackPointer, 0);
    assert_eq!(cpu.peek_stack().len(), 16);
}

#[test]
fn push_state_lays_out_the_frame() {
    let mut cpu = machine(64, &[]);
    for (position, register) in GENERAL.iter().enumerate() {
        cpu.set_register(*register, 0x0101 * (position as u16 + 1));
    }
    cpu.set_register(Register::InstructionPointer, 0x0e0f);
    cpu.set_register(Register::Accumulator, 0xacac);
    cpu.push(0x0000);
    assert_eq!(cpu.stack_frame_size(), 2);
    assert_eq!(cpu.get_register(Register::StackPointer), 60);

    assert!(cpu.can_push_state());
    cpu.push_state();

    assert_eq!(cpu.get_register(Register::StackPointer), 40);
    assert_eq!(cpu.get_register(Register::FramePointer), 40);
    assert_eq!(cpu.stack_frame_size(), 0);
    assert_eq!(cpu.peek(60), 0x0101);
    assert_eq!(cpu.peek(58), 0x0202);
    assert_eq!(cpu.peek(56), 0x0303);
    assert_eq!(cpu.peek(54), 0x0404);
    assert_eq!(cpu.peek(52), 0x0505);
    assert_eq!(cpu.peek(50), 0x0606);
    assert_eq!(cpu.peek(48), 0x0707);
    assert_eq!(cpu.peek(46), 0x0808);
    assert_eq!(cpu.peek(44), 0x0e0f);
    assert_eq!(cpu.peek(42), 22);
    assert_eq!(cpu.peek(40), 0);
    assert_eq!(cpu.peek(62), 0x0000);
    // Registers other than the two pointers are as they were.
    assert_eq!(cpu.get_register(Register::InstructionPointer), 0x0e0f);
    assert_eq!(cpu.get_register(Register::Accumulator), 0xacac);
    for (position, register) in GENERAL.iter().enumerate() {
        assert_eq!(cpu.get_register(*register), 0x0101 * (position as u16 + 1));
    }
}

#[test]
fn pop_state_restores_what_push_state_saved() {
    let mut cpu = machine(128, &[]);
    for (position, register) in GENERAL.iter().enumerate() {
        cpu.set_register(*register, 0x1000 + position as u16);
    }
    cpu.set_register(Register::InstructionPointer, 0x0030);
    cpu.push(0xaaaa);
    cpu.push(0xbbbb);
    cpu.push(0xcccc);
    cpu.push(0x0003);
    assert_eq!(cpu.get_register(Register::StackPointer), 118);
    cpu.push_state();
    assert_eq!(cpu.get_register(Register::StackPointer), 98);
    assert_eq!(cpu.peek(100), 28);

    // The callee works: it overwrites every register and uses the stack.
    for register in GENERAL {
        cpu.set_register(register, 0xdead);
    }
    cpu.set_register(Register::InstructionPointer, 0x0077);
    cpu.set_register(Register::Accumulator, 0x00cc);
    cpu.push(0x0e0e);
    cpu.push(0x0f0f);
    assert_eq!(cpu.pop(), 0x0f0f);

    assert!(cpu.can_pop_state());
    cpu.pop_state();

    for (position, register) in GENERAL.iter().enumerate() {
        assert_eq!(cpu.get_register(*register), 0x1000 + position as u16);
    }
    assert_eq!(cpu.get_register(Register::InstructionPointer), 0x0030);
    // Above the stack pointer at the call: the count word and three arguments.
    assert_eq!(cpu.get_register(Register::StackPointer), 118 + 2 + 2 * 3);
    assert_eq!(cpu.get_register(Register::FramePointer), 98 + 28);
    assert_eq!(cpu.stack_frame_size(), 28 - 20 - 2 * 3);
    assert_eq!(cpu.get_register(Register::Accumulator), 0x00cc);
    assert_eq!(cpu.peek(98), 0x0e0e);
    assert_eq!(cpu.peek(96), 0x0f0f);
}

#[test]
fn cal_lit_then_ret_returns_behind_the_call() {
    let mut program = vec![0u8; 0x45];
    // psh 0x00aa; psh 0x00bb; psh 0x0002; mov 0x1111, r1; cal 0x0040
    program[..16].copy_from_slice(&[
        0x17, 0x00, 0xaa, 0x17, 0x00, 0xbb, 0x17, 0x00, 0x02, 0x10, 0x11, 0x11, 0x02, 0x5e, 0x00,
        0x40,
    ]);
    // mov 0x9999, r1; ret
    program[0x40..0x45].copy_from_slice(&[0x10, 0x99, 0x99, 0x02, 0x60]);
    let mut cpu = machine(256, &program);

    run(&mut cpu, 4);
    assert_eq!(cpu.peek_register(Register::StackPointer), 248);
    assert_eq!(cpu.peek_register(Register::InstructionPointer), 13);

    run(&mut cpu, 1);
    assert_eq!(cpu.peek_register(Register::InstructionPointer), 0x0040);
    assert_eq!(cpu.peek_register(Register::StackPointer), 228);
    assert_eq!(cpu.peek_register(Register::FramePointer), 228);
    assert_eq!(cpu.stack_frame_size(), 0);
    assert_eq!(cpu.peek(248), 0x1111);
    assert_eq!(cpu.peek(232), 16);
    assert_eq!(cpu.peek(230), 26);

    run(&mut cpu, 1);
    assert_eq!(cpu.peek_register(Register::Register1), 0x9999);

    run(&mut cpu, 1);
    assert_eq!(cpu.peek_register(Register::InstructionPointer), 16);
    assert_eq!(cpu.peek_register(Register::Register1), 0x1111);
    assert_eq!(cpu.peek_register(Register::StackPointer), 248 + 2 + 2 * 2);
    assert_eq!(cpu.peek_register(Register::FramePointer), 254);
    assert_eq!(cpu.stack_frame_size(), 2);
}

#[test]
fn cal_reg_then_ret_returns_behind_the_call() {
    let mut program = vec![0u8; 0x41];
    // mov 0x0040, r3; psh 0x0000; cal r3
    program[..9].copy_from_slice(&[0x10, 0x00, 0x40, 0x04, 0x17, 0x00, 0x00, 0x5f, 0x04]);
    program[0x40] = 0x60;
    let mut cpu = machine(256, &program);

    run(&mut cpu, 3);
    assert_eq!(cpu.peek_register(Register::InstructionPointer), 0x0040);
    assert_eq!(cpu.peek_register(Register::StackPointer), 232);
    assert_eq!(cpu.peek(236), 9);

    run(&mut cpu, 1);
    assert_eq!(cpu.peek_register(Register::InstructionPointer), 9);
    assert_eq!(cpu.peek_register(Register::Register3), 0x0040);
    assert_eq!(cpu.peek_register(Register::StackPointer), 254);
    assert_eq!(cpu.peek_register(Register::FramePointer), 254);
}

#[test]
fn cal_reg_reduces_the_operand_modulo_the_register_count() {
    let mut program = vec![0u8; 0x41];
    // 16 % 12 == 4 selects Register3.
    program[..9].copy_from_slice(&[0x10, 0x00, 0x40, 0x04, 0x17, 0x00, 0x00, 0x5f, 16]);
    program[0x40] = 0x60;
    let mut cpu = machine(256, &program);
    run(&mut cpu, 3);
    assert_eq!(cpu.peek_register(Register::InstructionPointer), 0x0040);
}

#[test]
fn calls_nest() {
    let mut program = vec![0u8; 0x61];
    // psh 0x0000; cal 0x0040
    program[..6].copy_from_slice(&[0x17, 0x00, 0x00, 0x5e, 0x00, 0x40]);
    // mov 0x0001, r1; psh 0x0000; cal 0x0060; ret
    program[0x40..0x4b].copy_from_slice(&[
        0x10, 0x00, 0x01, 0x02, 0x17, 0x00, 0x00, 0x5e, 0x00, 0x60, 0x60,
    ]);
    program[0x60] = 0x60;
    let mut cpu = machine(256, &program);

    run(&mut cpu, 5);
    assert_eq!(cpu.peek_register(Register::InstructionPointer), 0x0060);
    assert_eq!(cpu.peek_register(Register::StackPointer), 254 - 2 - 20 - 2 - 20);
    assert_eq!(cpu.peek_register(Register::FramePointer), 210);

    run(&mut cpu, 1);
    assert_eq!(cpu.peek_register(Register::InstructionPointer), 0x004a);
    assert_eq!(cpu.peek_register(Register::Register1), 0x0001);
    assert_eq!(cpu.peek_register(Register::StackPointer), 232);
    assert_eq!(cpu.peek_register(Register::FramePointer), 232);

    run(&mut cpu, 1);
    assert_eq!(cpu.peek_register(Register::InstructionPointer), 6);
    assert_eq!(cpu.peek_register(Register::Register1), 0x0000);
    assert_eq!(cpu.peek_register(Register::StackPointer), 254);
    assert_eq!(cpu.peek_register(Register::FramePointer), 254);
}

#[test]
fn the_recorded_frame_size_keeps_the_low_16_bits() {
    let mut cpu = machine(64, &[]);
    for _ in 0..32760 {
        cpu.push(0);
        cpu.set_register(Register::StackPointer, 62);
    }
    assert_eq!(cpu.stack_frame_size(), 65520);
    cpu.push_state();
    assert_eq!(cpu.peek(44), 4);
    assert_eq!(cpu.stack_frame_size(), 0);
}
