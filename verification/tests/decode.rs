use vm16::cpu::{Instruction, Register, REGISTER_COUNT, REGISTER_FILE_BYTES};

fn registers() -> [Register; 12] {
    [
        Register::InstructionPointer,
        Register::Accumulator,
        Register::Register1,
        Register::Register2,
        Register::Register3,
        Register::Register4,
        Register::Register5,
        Register::Register6,
        Register::Register7,
        Register::Register8,
        Register::StackPointer,
        Register::FramePointer,
    ]
}

#[test]
fn register_indices_are_dense() {
    for (position, register) in registers().iter().enumerate() {
        assert_eq!(register.index() as usize, position);
        assert_eq!(*register as usize, position);
    }
    assert_eq!(Register::Invalid.index(), 12);
    assert_eq!(REGISTER_COUNT, 12);
    assert_eq!(REGISTER_FILE_BYTES, 2 * REGISTER_COUNT);
}

#[test]
fn register_from_byte_is_total() {
    for byte in 0..=255u8 {
        let register = Register::from(byte);
        if byte < 12 {
            assert_eq!(register.index(), byte);
        } else {
            assert!(matches!(register, Register::Invalid));
        }
    }
    assert!(matches!(Register::from(0), Register::InstructionPointer));
    assert!(matches!(Register::from(1), Register::Accumulator));
    assert!(matches!(Register::from(2), Register::Register1));
    assert!(matches!(Register::from(9), Register::Register8));
    assert!(matches!(Register::from(10), Register::StackPointer));
    assert!(matches!(Register::from(11), Register::FramePointer));
    let through_into: Register = 5u8.into();
    assert!(matches!(through_into, Register::Register4));
}

#[test]
fn opcodes_are_fixed() {
    assert_eq!(Instruction::Noop.opcode(), 0x00);
    assert_eq!(Instruction::MovLitReg.opcode(), 0x10);
    assert_eq!(Instruction::MovRegReg.opcode(), 0x11);
    assert_eq!(Instruction::MovRegMem.opcode(), 0x12);
    assert_eq!(Instruction::MovMemReg.opcode(), 0x13);
    assert_eq!(Instruction::AddRegReg.opcode(), 0x14);
    assert_eq!(Instruction::JmpNotEq.opcode(), 0x15);
    assert_eq!(Instruction::PushLit.opcode(), 0x17);
    assert_eq!(Instruction::PushReg.opcode(), 0x18);
    assert_eq!(Instruction::Pop.opcode(), 0x1a);
    assert_eq!(Instruction::CalLit.opcode(), 0x5e);
    assert_eq!(Instruction::CalReg.opcode(), 0x5f);
    assert_eq!(Instruction::Ret.opcode(), 0x60);
}

#[test]
fn instruction_from_byte_is_total() {
    let assigned: [u8; 12] = [
        0x10, 0x11, 0x12, 0x13, 0x14, 0x15, 0x17, 0x18, 0x1a, 0x5e, 0x5f, 0x60,
    ];
    for byte in 0..=255u8 {
        let instruction = Instruction::from(byte);
        if assigned.contains(&byte) {
            assert_eq!(instruction.opcode(), byte);
        } else {
            assert!(matches!(instruction, Instruction::Noop));
        }
    }
    assert!(matches!(Instruction::from(0x16), Instruction::Noop));
    assert!(matches!(Instruction::from(0x19), Instruction::Noop));
    assert!(matches!(Instruction::from(0x5e), Instruction::CalLit));
    let through_into: Instruction = 0x60u8.into();
    assert!(matches!(through_into, Instruction::Ret));
}
