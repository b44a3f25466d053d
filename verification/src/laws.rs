//! Laws of the machine: what holds of every state, proved from the model in
//! [`crate::machine`].

use crate::cpu::{Instruction, Register, REGISTER_COUNT};
use crate::machine::CpuState;
use crate::memory::{group_word_laws, lemma_word_of_bytes, word_at, write_word};
use vstd::prelude::*;

verus! {

broadcast use group_word_laws;

/// Raw addressing of the register file and addressing by name agree: the
/// register that a byte below the register count names lies at twice that
/// byte.
pub proof fn lemma_raw_register_addressing(s: CpuState, byte: u8)
    requires
        byte < REGISTER_COUNT,
    ensures
        Register::decode(byte).is_named(),
        s.reg_at(2 * byte) == s.reg(Register::decode(byte)),
{
}

/// A register that was set holds the value, and every other register, main
/// memory and the frame counter are as before.
pub proof fn lemma_set_register(s: CpuState, name: Register, value: u16, other: Register)
    requires
        s.wf(),
        name.is_named(),
        other.is_named(),
    ensures
        s.with_reg(name, value).wf(),
        s.with_reg(name, value).reg(name) == value,
        other != name ==> s.with_reg(name, value).reg(other) == s.reg(other),
        s.with_reg(name, value).memory == s.memory,
        s.with_reg(name, value).frame_size == s.frame_size,
{
}

/// Push, then pop: the pop returns the pushed word, and the stack pointer,
/// every other register and the frame counter are as before the push. Memory
/// keeps the pushed word at the stack pointer and is otherwise as before.
pub proof fn lemma_push_pop(s: CpuState, value: u16)
    requires
        s.wf(),
        s.can_push(),
    ensures
        s.push(value).can_pop(),
        s.push(value).pop_value() == value,
        s.push(value).pop() == (CpuState {
            memory: write_word(s.memory, s.sp() as int, value),
            ..s
        }),
{
    let pushed = s.push(value);
    let popped = pushed.pop();
    assert(popped.registers =~= s.registers) by {
        popped.lemma_registers_determine_file(s);
    }
}

/// Push, then pop, where the word at the stack pointer already was the
/// pushed word: the state is exactly as before the push.
pub proof fn lemma_push_pop_restores(s: CpuState, value: u16)
    requires
        s.wf(),
        s.can_push(),
        word_at(s.memory, s.sp() as int) == value,
    ensures
        s.push(value).pop() == s,
{
    lemma_push_pop(s, value);
    lemma_word_of_bytes(s.memory, s.sp() as int);
    assert(write_word(s.memory, s.sp() as int, value) =~= s.memory);
}

/// Whether `callee` still holds the frame that a call saved, where `called`
/// is the state right after the call: the frame pointer has not moved, and
/// the bytes of the ten saved words above it are as the call left them.
pub open spec fn frame_intact(called: CpuState, callee: CpuState) -> bool {
    &&& callee.memory.len() == called.memory.len()
    &&& callee.fp() == called.fp()
    &&& forall|a: int|
        called.fp() + 2 <= a < called.fp() + 22 ==> #[trigger] callee.memory[a]
            == called.memory[a]
}

/// Saving the caller's state leaves a state of the same sizes, with the stack
/// pointer and the frame pointer twenty bytes below the old stack pointer and
/// an empty frame. Its saved frame is intact.
pub proof fn lemma_push_state_frame(caller: CpuState)
    requires
        caller.wf(),
        caller.can_push_state(),
    ensures
        caller.push_state().wf(),
        caller.push_state().memory.len() == caller.memory.len(),
        caller.push_state().sp() == caller.sp() - 20,
        caller.push_state().fp() == caller.sp() - 20,
        caller.push_state().frame_size == 0,
        frame_intact(caller.push_state(), caller.push_state()),
{
}

/// Call, then return: whatever the callee did to the registers and to the
/// rest of memory, as long as the saved frame is intact the return gives
/// `Register1` to `Register8` and the instruction pointer the values they had
/// at the call. The stack pointer ends above its value at the call by the
/// argument count word and the argument words that the count declares. The
/// frame pointer moves up by the recorded frame size, and the frame counter
/// is what the recorded size leaves after the saved words and the arguments.
pub proof fn lemma_call_return(caller: CpuState, callee: CpuState)
    requires
        caller.wf(),
        caller.can_push_state(),
        callee.wf(),
        frame_intact(caller.push_state(), callee),
        callee.can_pop_state(),
    ensures
        callee.pop_state().reg(Register::Register1) == caller.reg(Register::Register1),
        callee.pop_state().reg(Register::Register2) == caller.reg(Register::Register2),
        callee.pop_state().reg(Register::Register3) == caller.reg(Register::Register3),
        callee.pop_state().reg(Register::Register4) == caller.reg(Register::Register4),
        callee.pop_state().reg(Register::Register5) == caller.reg(Register::Register5),
        callee.pop_state().reg(Register::Register6) == caller.reg(Register::Register6),
        callee.pop_state().reg(Register::Register7) == caller.reg(Register::Register7),
        callee.pop_state().reg(Register::Register8) == caller.reg(Register::Register8),
        callee.pop_state().ip() == caller.ip(),
        callee.saved_arg_count() == word_at(callee.memory, caller.sp() + 2),
        callee.pop_state().sp() == caller.sp() + 2 + 2 * callee.saved_arg_count(),
        callee.saved_frame_size() == caller.recorded_frame_size(),
        callee.pop_state().fp() == callee.fp() + caller.recorded_frame_size(),
        callee.pop_state().frame_size == caller.recorded_frame_size() - 20 - 2
            * callee.saved_arg_count(),
        callee.pop_state().reg(Register::Accumulator) == callee.reg(Register::Accumulator),
        callee.pop_state().memory == callee.memory,
{
    let saved = caller.push_state().memory;
    let fp = caller.sp() - 20;
    assert(callee.fp() == fp);
    assert forall|k: int| 1 <= k <= 10 implies #[trigger] word_at(callee.memory, fp + 2 * k)
        == word_at(saved, fp + 2 * k) by {
        lemma_word_of_bytes(callee.memory, fp + 2 * k);
        lemma_word_of_bytes(saved, fp + 2 * k);
        assert(callee.memory[fp + 2 * k] == saved[fp + 2 * k]);
        assert(callee.memory[fp + 2 * k + 1] == saved[fp + 2 * k + 1]);
    }
    assert(word_at(callee.memory, fp + 2 * 1) == word_at(saved, fp + 2));
    assert(word_at(callee.memory, fp + 2 * 2) == word_at(saved, fp + 4));
    assert(word_at(callee.memory, fp + 2 * 3) == word_at(saved, fp + 6));
    assert(word_at(callee.memory, fp + 2 * 4) == word_at(saved, fp + 8));
    assert(word_at(callee.memory, fp + 2 * 5) == word_at(saved, fp + 10));
    assert(word_at(callee.memory, fp + 2 * 6) == word_at(saved, fp + 12));
    assert(word_at(callee.memory, fp + 2 * 7) == word_at(saved, fp + 14));
    assert(word_at(callee.memory, fp + 2 * 8) == word_at(saved, fp + 16));
    assert(word_at(callee.memory, fp + 2 * 9) == word_at(saved, fp + 18));
    assert(word_at(callee.memory, fp + 2 * 10) == word_at(saved, fp + 20));
}

/// `CalLit`, then `Ret`: the call jumps to the address in its operand. As
/// long as the saved frame is intact, the return restores `Register1` to
/// `Register8`, sets the instruction pointer to the address after the call's
/// operand, and leaves the stack pointer above its value before the call by
/// the argument count word and the argument words that the count declares.
pub proof fn lemma_cal_lit_ret(caller: CpuState, callee: CpuState)
    requires
        caller.wf(),
        caller.can_step(),
        Instruction::decode(caller.byte_ahead(0)) == Instruction::CalLit,
        callee.wf(),
        frame_intact(caller.step(), callee),
        callee.can_step(),
        Instruction::decode(callee.byte_ahead(0)) == Instruction::Ret,
    ensures
        caller.step().ip() == caller.word_ahead(1),
        callee.step().ip() == caller.ip() + 3,
        callee.step().sp() == caller.sp() + 2 + 2 * word_at(callee.memory, caller.sp() + 2),
        callee.step().reg(Register::Register1) == caller.reg(Register::Register1),
        callee.step().reg(Register::Register2) == caller.reg(Register::Register2),
        callee.step().reg(Register::Register3) == caller.reg(Register::Register3),
        callee.step().reg(Register::Register4) == caller.reg(Register::Register4),
        callee.step().reg(Register::Register5) == caller.reg(Register::Register5),
        callee.step().reg(Register::Register6) == caller.reg(Register::Register6),
        callee.step().reg(Register::Register7) == caller.reg(Register::Register7),
        callee.step().reg(Register::Register8) == caller.reg(Register::Register8),
{
    let at_call = caller.advance(1).advance(2);
    let at_ret = callee.advance(1);
    lemma_push_state_frame(at_call);
    assert(frame_intact(at_call.push_state(), at_ret));
    lemma_call_return(at_call, at_ret);
}

/// `CalReg`, then `Ret`: as for `CalLit`, but the call jumps to the address
/// in the register that its operand byte selects, and the return address is
/// one byte earlier, since the operand is one byte.
pub proof fn lemma_cal_reg_ret(caller: CpuState, callee: CpuState)
    requires
        caller.wf(),
        caller.can_step(),
        Instruction::decode(caller.byte_ahead(0)) == Instruction::CalReg,
        callee.wf(),
        frame_intact(caller.step(), callee),
        callee.can_step(),
        Instruction::decode(callee.byte_ahead(0)) == Instruction::Ret,
    ensures
        caller.step().ip() == caller.advance(2).reg_at(
            2 * (caller.byte_ahead(1) as int % REGISTER_COUNT as int),
        ),
        callee.step().ip() == caller.ip() + 2,
        callee.step().sp() == caller.sp() + 2 + 2 * word_at(callee.memory, caller.sp() + 2),
        callee.step().reg(Register::Register1) == caller.reg(Register::Register1),
        callee.step().reg(Register::Register2) == caller.reg(Register::Register2),
        callee.step().reg(Register::Register3) == caller.reg(Register::Register3),
        callee.step().reg(Register::Register4) == caller.reg(Register::Register4),
        callee.step().reg(Register::Register5) == caller.reg(Register::Register5),
        callee.step().reg(Register::Register6) == caller.reg(Register::Register6),
        callee.step().reg(Register::Register7) == caller.reg(Register::Register7),
        callee.step().reg(Register::Register8) == caller.reg(Register::Register8),
{
    let at_call = caller.advance(1).advance(1);
    let at_ret = callee.advance(1);
    lemma_push_state_frame(at_call);
    assert(frame_intact(at_call.push_state(), at_ret));
    lemma_call_return(at_call, at_ret);
}

/// `AddRegReg` puts the sum of its two operand registers, modulo 2^16, into
/// the accumulator. The registers are read once the instruction pointer has
/// moved past the instruction; nothing else changes.
pub proof fn lemma_add_reg_reg(s: CpuState)
    requires
        s.wf(),
        s.can_step(),
        Instruction::decode(s.byte_ahead(0)) == Instruction::AddRegReg,
    ensures
        Register::decode(s.byte_ahead(1)).is_named(),
        Register::decode(s.byte_ahead(2)).is_named(),
        s.step().acc() == (s.advance(3).reg(Register::decode(s.byte_ahead(1))) + s.advance(3).reg(
            Register::decode(s.byte_ahead(2)),
        )) % 0x1_0000,
        s.step() == s.advance(3).with_reg(Register::Accumulator, s.step().acc()),
{
    let fetched = s.advance(1);
    lemma_raw_register_addressing(fetched.advance(2), s.byte_ahead(1));
    lemma_raw_register_addressing(fetched.advance(2), s.byte_ahead(2));
}

/// `JmpNotEq` sets the instruction pointer to its address operand if its
/// literal operand differs from the accumulator, and moves it past the
/// instruction if the two are equal. Nothing else changes.
pub proof fn lemma_jmp_not_eq(s: CpuState)
    requires
        s.wf(),
        s.can_step(),
        Instruction::decode(s.byte_ahead(0)) == Instruction::JmpNotEq,
    ensures
        s.word_ahead(1) != s.acc() ==> s.step().ip() == s.word_ahead(3),
        s.word_ahead(1) == s.acc() ==> s.step().ip() == s.ip() + 5,
        s.step() == s.with_reg(Register::InstructionPointer, s.step().ip()),
{
}

/// An opcode that selects no instruction never stops the machine: the step
/// moves the instruction pointer past the opcode byte and changes nothing
/// else.
pub proof fn lemma_unassigned_opcode(s: CpuState)
    requires
        s.wf(),
        s.can_fetch(1),
        Instruction::decode(s.byte_ahead(0)) == Instruction::Noop,
    ensures
        s.can_step(),
        s.step() == s.advance(1),
{
}

/// A processor starts with the instruction pointer at zero, the stack pointer
/// and the frame pointer at the last word of memory, every other register
/// zero and an empty frame. Where memory is too large for a register to name
/// its last word, the two pointers hold the low 16 bits of that address.
pub proof fn lemma_initial(memory: Seq<u8>)
    requires
        memory.len() >= 2,
    ensures
        CpuState::initial(memory).wf(),
        CpuState::initial(memory).memory == memory,
        CpuState::initial(memory).frame_size == 0,
        CpuState::initial(memory).ip() == 0,
        CpuState::initial(memory).acc() == 0,
        CpuState::initial(memory).reg(Register::Register1) == 0,
        CpuState::initial(memory).reg(Register::Register2) == 0,
        CpuState::initial(memory).reg(Register::Register3) == 0,
        CpuState::initial(memory).reg(Register::Register4) == 0,
        CpuState::initial(memory).reg(Register::Register5) == 0,
        CpuState::initial(memory).reg(Register::Register6) == 0,
        CpuState::initial(memory).reg(Register::Register7) == 0,
        CpuState::initial(memory).reg(Register::Register8) == 0,
        CpuState::initial(memory).sp() == (memory.len() - 2) % 0x1_0000,
        CpuState::initial(memory).fp() == (memory.len() - 2) % 0x1_0000,
        memory.len() <= 0x1_0001 ==> CpuState::initial(memory).sp() == memory.len() - 2,
{
    let zero = CpuState { memory, registers: Seq::new(24, |i: int| 0u8), frame_size: 0 };
    assert forall|offset: int| 0 <= offset < 23 implies #[trigger] zero.reg_at(offset) == 0 by {
        lemma_word_of_bytes(zero.registers, offset);
    }
    assert(zero.reg_at(0) == 0);
    assert(zero.reg_at(2) == 0);
    assert(zero.reg_at(4) == 0);
    assert(zero.reg_at(6) == 0);
    assert(zero.reg_at(8) == 0);
    assert(zero.reg_at(10) == 0);
    assert(zero.reg_at(12) == 0);
    assert(zero.reg_at(14) == 0);
    assert(zero.reg_at(16) == 0);
    assert(zero.reg_at(18) == 0);
}

/// Memory and the register file never change size.
pub proof fn lemma_step_keeps_sizes(s: CpuState)
    requires
        s.wf(),
        s.can_step(),
    ensures
        s.step().wf(),
        s.step().memory.len() == s.memory.len(),
{
}

/// Memory and the register file never change size, however many steps are
/// taken.
pub proof fn lemma_step_n_keeps_sizes(s: CpuState, n: nat)
    requires
        s.wf(),
        s.can_step_n(n),
    ensures
        s.step_n(n).wf(),
        s.step_n(n).memory.len() == s.memory.len(),
    decreases n,
{
    if n > 0 {
        lemma_step_keeps_sizes(s);
        lemma_step_n_keeps_sizes(s.step(), (n - 1) as nat);
    }
}

/// One step is a run of one step.
pub proof fn lemma_step_n_one(s: CpuState)
    ensures
        s.can_step_n(1) <==> s.can_step(),
        s.step_n(1) == s.step(),
{
    reveal_with_fuel(CpuState::can_step_n, 2);
    reveal_with_fuel(CpuState::step_n, 2);
}

/// Steps add up: `first + second` steps are `first` steps followed by
/// `second` steps, and can be taken exactly when those can.
pub proof fn lemma_step_n_add(s: CpuState, first: nat, second: nat)
    ensures
        s.can_step_n(first + second) <==> s.can_step_n(first) && s.step_n(first).can_step_n(
            second,
        ),
        s.step_n(first + second) == s.step_n(first).step_n(second),
    decreases first,
{
    if first > 0 {
        lemma_step_n_add(s.step(), (first - 1) as nat, second);
        assert((first + second - 1) as nat == (first - 1) as nat + second);
    }
}

/// Only pushes, pops, calls and returns touch the frame counter.
pub proof fn lemma_frame_size_kept(s: CpuState)
    requires
        s.wf(),
        s.can_step(),
        Instruction::decode(s.byte_ahead(0)) != Instruction::PushLit,
        Instruction::decode(s.byte_ahead(0)) != Instruction::PushReg,
        Instruction::decode(s.byte_ahead(0)) != Instruction::Pop,
        Instruction::decode(s.byte_ahead(0)) != Instruction::CalLit,
        Instruction::decode(s.byte_ahead(0)) != Instruction::CalReg,
        Instruction::decode(s.byte_ahead(0)) != Instruction::Ret,
    ensures
        s.step().frame_size == s.frame_size,
{
}

/// The call protocol, step by step: push `Register1` to `Register8`, push the
/// instruction pointer, push the frame size with that very push counted in,
/// point the frame pointer at the stack pointer and begin an empty frame.
pub open spec fn push_state_steps(s: CpuState) -> CpuState {
    let s1 = s.push(s.reg(Register::Register1));
    let s2 = s1.push(s1.reg(Register::Register2));
    let s3 = s2.push(s2.reg(Register::Register3));
    let s4 = s3.push(s3.reg(Register::Register4));
    let s5 = s4.push(s4.reg(Register::Register5));
    let s6 = s5.push(s5.reg(Register::Register6));
    let s7 = s6.push(s6.reg(Register::Register7));
    let s8 = s7.push(s7.reg(Register::Register8));
    let s9 = s8.push(s8.ip());
    let s10 = s9.push(((s9.frame_size + 2) % 0x1_0000) as u16);
    CpuState { frame_size: 0, ..s10.with_reg(Register::FramePointer, s10.sp()) }
}

/// Whether each of the ten pushes of the call protocol can be made in its
/// turn.
pub open spec fn push_state_steps_allowed(s: CpuState) -> bool {
    let s1 = s.push(s.reg(Register::Register1));
    let s2 = s1.push(s1.reg(Register::Register2));
    let s3 = s2.push(s2.reg(Register::Register3));
    let s4 = s3.push(s3.reg(Register::Register4));
    let s5 = s4.push(s4.reg(Register::Register5));
    let s6 = s5.push(s5.reg(Register::Register6));
    let s7 = s6.push(s6.reg(Register::Register7));
    let s8 = s7.push(s7.reg(Register::Register8));
    let s9 = s8.push(s8.ip());
    &&& s.can_push()
    &&& s1.can_push()
    &&& s2.can_push()
    &&& s3.can_push()
    &&& s4.can_push()
    &&& s5.can_push()
    &&& s6.can_push()
    &&& s7.can_push()
    &&& s8.can_push()
    &&& s9.can_push()
}

/// Saving the caller's state is the call protocol carried out step by step,
/// and it can be done exactly when every step can.
pub proof fn lemma_push_state_steps(s: CpuState)
    requires
        s.wf(),
    ensures
        s.can_push_state() <==> push_state_steps_allowed(s),
        s.can_push_state() ==> s.push_state() == push_state_steps(s),
{
    if s.can_push_state() {
        s.push_state().lemma_registers_determine_file(push_state_steps(s));
    }
}

/// The state after `count` pops in a row.
pub open spec fn pop_n(s: CpuState, count: nat) -> CpuState
    decreases count,
{
    if count == 0 {
        s
    } else {
        pop_n(s.pop(), (count - 1) as nat)
    }
}

/// Whether `count` pops in a row can be made.
pub open spec fn can_pop_n(s: CpuState, count: nat) -> bool
    decreases count,
{
    count == 0 || (s.can_pop() && can_pop_n(s.pop(), (count - 1) as nat))
}

/// Pops in a row can be made exactly when the last of them can: the stack
/// pointer stays in range, the last word lies in memory and the frame holds
/// all of them. They move the stack pointer up by two each and shrink the
/// frame by as much.
pub proof fn lemma_pop_n(s: CpuState, count: nat)
    requires
        s.wf(),
    ensures
        can_pop_n(s, count) <==> count == 0 || {
            &&& s.sp() + 2 * count <= 0xFFFF
            &&& s.sp() + 2 * count + 1 < s.memory.len()
            &&& s.frame_size >= 2 * count
        },
        can_pop_n(s, count) ==> pop_n(s, count) == (CpuState {
            frame_size: (s.frame_size - 2 * count) as nat,
            ..s.with_reg(Register::StackPointer, (s.sp() + 2 * count) as u16)
        }),
    decreases count,
{
    if count == 0 {
        s.lemma_registers_determine_file(s.with_reg(Register::StackPointer, s.sp()));
    } else if s.can_pop() {
        lemma_pop_n(s.pop(), (count - 1) as nat);
        if can_pop_n(s, count) {
            pop_n(s, count).lemma_registers_determine_file(
                s.with_reg(Register::StackPointer, (s.sp() + 2 * count) as u16),
            );
        }
    }
}

/// The return protocol, step by step: move the stack pointer to the frame
/// pointer, pop the frame size, pop the instruction pointer, pop `Register8`
/// down to `Register1`, pop the argument count and that many arguments, and
/// move the frame pointer up by the frame size. The frame counter is set to
/// two before the first pop, which takes two from it, and to the popped frame
/// size after it.
pub open spec fn pop_state_steps(s: CpuState) -> CpuState {
    let r0 = CpuState { frame_size: 2, ..s.with_reg(Register::StackPointer, s.fp()) };
    let r1 = CpuState { frame_size: r0.pop_value() as nat, ..r0.pop() };
    let r2 = r1.pop().with_reg(Register::InstructionPointer, r1.pop_value());
    let r3 = r2.pop().with_reg(Register::Register8, r2.pop_value());
    let r4 = r3.pop().with_reg(Register::Register7, r3.pop_value());
    let r5 = r4.pop().with_reg(Register::Register6, r4.pop_value());
    let r6 = r5.pop().with_reg(Register::Register5, r5.pop_value());
    let r7 = r6.pop().with_reg(Register::Register4, r6.pop_value());
    let r8 = r7.pop().with_reg(Register::Register3, r7.pop_value());
    let r9 = r8.pop().with_reg(Register::Register2, r8.pop_value());
    let r10 = r9.pop().with_reg(Register::Register1, r9.pop_value());
    let r11 = pop_n(r10.pop(), r10.pop_value() as nat);
    r11.with_reg(Register::FramePointer, (s.fp() + r0.pop_value()) as u16)
}

/// Whether each step of the return protocol can be made in its turn.
pub open spec fn pop_state_steps_allowed(s: CpuState) -> bool {
    let r0 = CpuState { frame_size: 2, ..s.with_reg(Register::StackPointer, s.fp()) };
    let r1 = CpuState { frame_size: r0.pop_value() as nat, ..r0.pop() };
    let r2 = r1.pop().with_reg(Register::InstructionPointer, r1.pop_value());
    let r3 = r2.pop().with_reg(Register::Register8, r2.pop_value());
    let r4 = r3.pop().with_reg(Register::Register7, r3.pop_value());
    let r5 = r4.pop().with_reg(Register::Register6, r4.pop_value());
    let r6 = r5.pop().with_reg(Register::Register5, r5.pop_value());
    let r7 = r6.pop().with_reg(Register::Register4, r6.pop_value());
    let r8 = r7.pop().with_reg(Register::Register3, r7.pop_value());
    let r9 = r8.pop().with_reg(Register::Register2, r8.pop_value());
    let r10 = r9.pop().with_reg(Register::Register1, r9.pop_value());
    &&& r0.can_pop()
    &&& r1.can_pop()
    &&& r2.can_pop()
    &&& r3.can_pop()
    &&& r4.can_pop()
    &&& r5.can_pop()
    &&& r6.can_pop()
    &&& r7.can_pop()
    &&& r8.can_pop()
    &&& r9.can_pop()
    &&& r10.can_pop()
    &&& can_pop_n(r10.pop(), r10.pop_value() as nat)
    &&& s.fp() + r0.pop_value() <= 0xFFFF
}

/// Restoring the caller's state is the return protocol carried out step by
/// step, and it can be done exactly when every step can.
pub proof fn lemma_pop_state_steps(s: CpuState)
    requires
        s.wf(),
    ensures
        s.can_pop_state() <==> pop_state_steps_allowed(s),
        s.can_pop_state() ==> s.pop_state() == pop_state_steps(s),
{
    let r0 = CpuState { frame_size: 2, ..s.with_reg(Register::StackPointer, s.fp()) };
    let r1 = CpuState { frame_size: r0.pop_value() as nat, ..r0.pop() };
    let r2 = r1.pop().with_reg(Register::InstructionPointer, r1.pop_value());
    let r3 = r2.pop().with_reg(Register::Register8, r2.pop_value());
    let r4 = r3.pop().with_reg(Register::Register7, r3.pop_value());
    let r5 = r4.pop().with_reg(Register::Register6, r4.pop_value());
    let r6 = r5.pop().with_reg(Register::Register5, r5.pop_value());
    let r7 = r6.pop().with_reg(Register::Register4, r6.pop_value());
    let r8 = r7.pop().with_reg(Register::Register3, r7.pop_value());
    let r9 = r8.pop().with_reg(Register::Register2, r8.pop_value());
    let r10 = r9.pop().with_reg(Register::Register1, r9.pop_value());
    assert(r10.sp() == s.fp() + 20 || !r9.can_pop() || !r8.can_pop() || !r7.can_pop()
        || !r6.can_pop() || !r5.can_pop() || !r4.can_pop() || !r3.can_pop() || !r2.can_pop()
        || !r1.can_pop() || !r0.can_pop());
    lemma_pop_n(r10.pop(), r10.pop_value() as nat);
    if s.can_pop_state() {
        s.pop_state().lemma_registers_determine_file(pop_state_steps(s));
    }
}

} // verus!
