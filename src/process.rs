use crate::cell_pair::{add8, lemma_read_flags, sub8, CellPair, PairModel, FLAG_C, FLAG_N, FLAG_Z};
use crate::instruction::decode;
use crate::instruction::{
    Instruction, InstructionAdd, InstructionAnd, InstructionCall, InstructionCompare,
    InstructionDec, InstructionInc, InstructionJump, InstructionLeftShift, InstructionLoad,
    InstructionNop, InstructionNot, InstructionOr, InstructionPop, InstructionPush,
    InstructionReplicate, InstructionRet, InstructionRightShift, InstructionSub, InstructionXor,
    Register,
};
use vstd::prelude::*;

verus! {

/// Shifting a byte left by one doubles it modulo 256 and drops bit 7;
/// shifting right halves it and drops bit 0.
pub proof fn lemma_shift_one(v: u8)
    ensures
        v.wrapping_shl(1) as int == (2 * v) % 256,
        v.wrapping_shr(1) as int == v / 2,
        (v & 0x80 != 0) == (v >= 128),
        (v & 1 != 0) == (v % 2 == 1),
{
    let w: u16 = v as u16;
    assert(((w * 2) as u16) % 256 == ((v << 1u8) as u16)) by (bit_vector)
        requires
            w == v as u16,
    ;
    assert((v >> 1u8) == v / 2) by (bit_vector);
    assert((v & 0x80 != 0) == (v >= 128)) by (bit_vector);
    assert((v & 1 != 0) == (v % 2 == 1)) by (bit_vector);
}

/// A register, or the byte at the address it holds.
pub open spec fn operand(p: PairModel, r: Register, indirect: bool) -> u8 {
    if indirect {
        p.mem(p.reg(r))
    } else {
        p.reg(r)
    }
}

/// Writes a register, or the byte at the address the register holds.
pub open spec fn write_back(p: PairModel, r: Register, indirect: bool, value: u8) -> PairModel {
    if indirect {
        p.with_mem(p.reg(r), value)
    } else {
        p.with_reg(r, value)
    }
}

/// Pushes the program counter and sets it to `target`.
pub open spec fn jump_to(p: PairModel, target: u8) -> PairModel {
    p.pushed(p.pc()).with_reg(Register::ProgramCounter, target)
}

/// An 8-bit accumulator operation: result to the accumulator, flags first.
pub open spec fn acc_result(p: PairModel, result: u8, n: bool, c: bool) -> PairModel {
    p.with_znc(result == 0, n, c).with_reg(Register::Accumulator, result)
}

/// A unary operation in place: flags first, then the result written back.
pub open spec fn unary_result(
    p: PairModel,
    r: Register,
    indirect: bool,
    result: u8,
    n: bool,
    c: bool,
) -> PairModel {
    write_back(p.with_znc(result == 0, n, c), r, indirect, result)
}

pub open spec fn load_effect(i: InstructionLoad, p: PairModel) -> PairModel {
    match i {
        InstructionLoad::a_byte => p.advanced().with_reg(Register::Accumulator, p.at_pc()),
        InstructionLoad::a_reg(r) => p.with_reg(Register::Accumulator, p.reg(r)),
        InstructionLoad::atA_reg(r) => p.with_mem(p.acc(), p.reg(r)),
        InstructionLoad::reg_a(r) => p.with_reg(r, p.acc()),
        InstructionLoad::reg_atA(r) => p.with_reg(r, p.mem(p.acc())),
    }
}

pub open spec fn add_effect(i: InstructionAdd, p: PairModel) -> PairModel {
    let v = match i {
        InstructionAdd::a_reg(r) => p.reg(r),
        InstructionAdd::a_atReg(r) => p.mem(p.reg(r)),
    };
    acc_result(p, add8(p.acc(), v), false, p.acc() + v > 0xff)
}

pub open spec fn sub_effect(i: InstructionSub, p: PairModel) -> PairModel {
    let v = match i {
        InstructionSub::a_reg(r) => p.reg(r),
        InstructionSub::a_atReg(r) => p.mem(p.reg(r)),
    };
    acc_result(p, sub8(p.acc(), v), true, v > p.acc())
}

pub open spec fn and_effect(i: InstructionAnd, p: PairModel) -> PairModel {
    let v = match i {
        InstructionAnd::a_reg(r) => p.reg(r),
        InstructionAnd::a_atReg(r) => p.mem(p.reg(r)),
    };
    acc_result(p, p.acc() & v, false, false)
}

pub open spec fn or_effect(i: InstructionOr, p: PairModel) -> PairModel {
    let v = match i {
        InstructionOr::a_reg(r) => p.reg(r),
        InstructionOr::a_atReg(r) => p.mem(p.reg(r)),
    };
    acc_result(p, p.acc() | v, false, false)
}

pub open spec fn xor_effect(i: InstructionXor, p: PairModel) -> PairModel {
    let v = match i {
        InstructionXor::a_reg(r) => p.reg(r),
        InstructionXor::a_atReg(r) => p.mem(p.reg(r)),
    };
    acc_result(p, p.acc() ^ v, false, false)
}

pub open spec fn not_effect(i: InstructionNot, p: PairModel) -> PairModel {
    let (r, ind) = match i {
        InstructionNot::reg(r) => (r, false),
        InstructionNot::atReg(r) => (r, true),
    };
    let result = !operand(p, r, ind);
    unary_result(p, r, ind, result, false, false)
}

pub open spec fn inc_effect(i: InstructionInc, p: PairModel) -> PairModel {
    let (r, ind) = match i {
        InstructionInc::reg(r) => (r, false),
        InstructionInc::atReg(r) => (r, true),
    };
    let v = operand(p, r, ind);
    let result = add8(v, 1);
    unary_result(p, r, ind, result, false, result < v)
}

pub open spec fn dec_effect(i: InstructionDec, p: PairModel) -> PairModel {
    let (r, ind) = match i {
        InstructionDec::reg(r) => (r, false),
        InstructionDec::atReg(r) => (r, true),
    };
    let v = operand(p, r, ind);
    let result = sub8(v, 1);
    unary_result(p, r, ind, result, true, result > v)
}

pub open spec fn left_shift_effect(i: InstructionLeftShift, p: PairModel) -> PairModel {
    let (r, ind) = match i {
        InstructionLeftShift::reg(r) => (r, false),
        InstructionLeftShift::atReg(r) => (r, true),
    };
    let v = operand(p, r, ind);
    unary_result(p, r, ind, ((2 * v) % 256) as u8, false, v >= 128)
}

pub open spec fn right_shift_effect(i: InstructionRightShift, p: PairModel) -> PairModel {
    let (r, ind) = match i {
        InstructionRightShift::reg(r) => (r, false),
        InstructionRightShift::atReg(r) => (r, true),
    };
    let v = operand(p, r, ind);
    unary_result(p, r, ind, (v / 2) as u8, false, v % 2 == 1)
}

pub open spec fn jump_effect(i: InstructionJump, p: PairModel) -> PairModel {
    let conditional = match i {
        InstructionJump::byte { if_z } => if_z,
        InstructionJump::ifZ_reg(_) => true,
        InstructionJump::ifZ_atReg(_) => true,
        _ => false,
    };
    if conditional && !p.flag(FLAG_Z) {
        p
    } else {
        match i {
            InstructionJump::byte { .. } => jump_to(p.advanced(), p.at_pc()),
            InstructionJump::reg(r) => jump_to(p, p.reg(r)),
            InstructionJump::ifZ_reg(r) => jump_to(p, p.reg(r)),
            InstructionJump::atReg(r) => jump_to(p, p.mem(p.reg(r))),
            InstructionJump::ifZ_atReg(r) => jump_to(p, p.mem(p.reg(r))),
        }
    }
}

pub open spec fn push_effect(i: InstructionPush, p: PairModel) -> PairModel {
    match i {
        InstructionPush::reg(r) => p.pushed(p.reg(r)),
        InstructionPush::atReg(r) => p.pushed(p.mem(p.reg(r))),
    }
}

pub open spec fn pop_effect(i: InstructionPop, p: PairModel) -> PairModel {
    match i {
        InstructionPop::reg(r) => p.popped().with_reg(r, p.top()),
        InstructionPop::atReg(r) => p.popped().with_mem(p.popped().reg(r), p.top()),
    }
}

pub open spec fn call_effect(i: InstructionCall, p: PairModel) -> PairModel {
    let conditional = match i {
        InstructionCall::byte { if_z } => if_z,
        InstructionCall::ifZ_reg(_) => true,
        InstructionCall::reg(_) => false,
    };
    if conditional && !p.flag(FLAG_Z) {
        p
    } else {
        match i {
            InstructionCall::byte { .. } => jump_to(p.advanced(), p.at_pc()),
            InstructionCall::reg(r) => jump_to(p, p.reg(r)),
            InstructionCall::ifZ_reg(r) => jump_to(p, p.reg(r)),
        }
    }
}

pub open spec fn ret_effect(i: InstructionRet, p: PairModel) -> PairModel {
    if i.if_z && !p.flag(FLAG_Z) {
        p
    } else {
        p.popped().with_reg(Register::ProgramCounter, p.top())
    }
}

pub open spec fn compare_effect(i: InstructionCompare, p: PairModel) -> PairModel {
    let (a, b, q) = match i {
        InstructionCompare::a_reg(r) => (p.acc(), p.reg(r), p),
        InstructionCompare::a_byte => (p.acc(), p.at_pc(), p.advanced()),
        InstructionCompare::atA_byte => (p.mem(p.acc()), p.at_pc(), p.advanced()),
    };
    q.with_znc(a == b, true, a < b)
}

/// What executing a decoded instruction does to a pair (after its opcode was fetched).
pub open spec fn execute(i: Instruction, p: PairModel) -> PairModel {
    match i {
        Instruction::Nop(_) => p,
        Instruction::Load(x) => load_effect(x, p),
        Instruction::Add(x) => add_effect(x, p),
        Instruction::Sub(x) => sub_effect(x, p),
        Instruction::And(x) => and_effect(x, p),
        Instruction::Or(x) => or_effect(x, p),
        Instruction::Xor(x) => xor_effect(x, p),
        Instruction::Not(x) => not_effect(x, p),
        Instruction::Inc(x) => inc_effect(x, p),
        Instruction::Dec(x) => dec_effect(x, p),
        Instruction::Jmp(x) => jump_effect(x, p),
        Instruction::Push(x) => push_effect(x, p),
        Instruction::Pop(x) => pop_effect(x, p),
        Instruction::Call(x) => call_effect(x, p),
        Instruction::Ret(x) => ret_effect(x, p),
        Instruction::LeftShift(x) => left_shift_effect(x, p),
        Instruction::RightShift(x) => right_shift_effect(x, p),
        Instruction::Compare(x) => compare_effect(x, p),
        Instruction::Replicate(_) => p,
    }
}

/// Executing an instruction on a pair.
pub trait ProcessInstruction {
    /// The pair after the instruction.
    spec fn effect(&self, p: PairModel) -> PairModel;

    fn process(&self, state: &mut CellPair)
        ensures
            final(state)@ == self.effect(old(state)@),
            final(state).cycles_to_run == old(state).cycles_to_run,
    ;
}

impl ProcessInstruction for InstructionNop {
    open spec fn effect(&self, p: PairModel) -> PairModel {
        p
    }

    fn process(&self, state: &mut CellPair) {
    }
}

impl ProcessInstruction for InstructionLoad {
    open spec fn effect(&self, p: PairModel) -> PairModel {
        load_effect(*self, p)
    }

    fn process(&self, state: &mut CellPair) {
        match *self {
            Self::a_byte => {
                let value = state.advance_pc();
                state.set_reg_acc(value);
            },
            Self::a_reg(register) => {
                let value = state.get_reg(register);
                state.set_reg_acc(value);
            },
            Self::atA_reg(register) => {
                let value = state.get_reg(register);
                state.set_memory_at_acc(value);
            },
            Self::reg_a(register) => {
                let value = state.get_reg_acc();
                state.set_reg(register, value);
            },
            Self::reg_atA(register) => {
                let value = state.get_memory_at_acc();
                state.set_reg(register, value);
            },
        }
    }
}

impl ProcessInstruction for InstructionAdd {
    open spec fn effect(&self, p: PairModel) -> PairModel {
        add_effect(*self, p)
    }

    fn process(&self, state: &mut CellPair) {
        let value = match *self {
            Self::a_atReg(reg) => state.get_memory_at_reg(reg),
            Self::a_reg(reg) => state.get_reg(reg),
        };
        let acc = state.get_reg_acc();
        let result = acc.wrapping_add(value);
        state.set_flags_znc(result == 0, false, value as u16 + acc as u16 > 0xff);
        state.set_reg_acc(result);
    }
}

impl ProcessInstruction for InstructionSub {
    open spec fn effect(&self, p: PairModel) -> PairModel {
        sub_effect(*self, p)
    }

    fn process(&self, state: &mut CellPair) {
        let value = match *self {
            Self::a_atReg(reg) => state.get_memory_at_reg(reg),
            Self::a_reg(reg) => state.get_reg(reg),
        };
        let acc = state.get_reg_acc();
        let result = acc.wrapping_sub(value);
        state.set_flags_znc(result == 0, true, value > acc);
        state.set_reg_acc(result);
    }
}

impl ProcessInstruction for InstructionAnd {
    open spec fn effect(&self, p: PairModel) -> PairModel {
        and_effect(*self, p)
    }

    fn process(&self, state: &mut CellPair) {
        let v = match *self {
            Self::a_reg(reg) => state.get_reg(reg),
            Self::a_atReg(reg) => state.get_memory_at_reg(reg),
        };
        let result = state.get_reg_acc() & v;
        state.set_flags_znc(result == 0, false, false);
        state.set_reg_acc(result);
    }
}

impl ProcessInstruction for InstructionOr {
    open spec fn effect(&self, p: PairModel) -> PairModel {
        or_effect(*self, p)
    }

    fn process(&self, state: &mut CellPair) {
        let v = match *self {
            Self::a_reg(reg) => state.get_reg(reg),
            Self::a_atReg(reg) => state.get_memory_at_reg(reg),
        };
        let result = state.get_reg_acc() | v;
        state.set_flags_znc(result == 0, false, false);
        state.set_reg_acc(result);
    }
}

impl ProcessInstruction for InstructionXor {
    open spec fn effect(&self, p: PairModel) -> PairModel {
        xor_effect(*self, p)
    }

    fn process(&self, state: &mut CellPair) {
        let v = match *self {
            Self::a_reg(reg) => state.get_reg(reg),
            Self::a_atReg(reg) => state.get_memory_at_reg(reg),
        };
        let result = state.get_reg_acc() ^ v;
        state.set_flags_znc(result == 0, false, false);
        state.set_reg_acc(result);
    }
}

impl ProcessInstruction for InstructionNot {
    open spec fn effect(&self, p: PairModel) -> PairModel {
        not_effect(*self, p)
    }

    fn process(&self, state: &mut CellPair) {
        let value = match *self {
            Self::reg(reg) => state.get_reg(reg),
            Self::atReg(reg) => state.get_memory_at_reg(reg),
        };
        let result = !value;
        state.set_flags_znc(result == 0, false, false);
        match *self {
            Self::reg(reg) => state.set_reg(reg, result),
            Self::atReg(reg) => state.set_memory_at_reg(reg, result),
        }
    }
}

impl ProcessInstruction for InstructionInc {
    open spec fn effect(&self, p: PairModel) -> PairModel {
        inc_effect(*self, p)
    }

    fn process(&self, state: &mut CellPair) {
        let value = match *self {
            Self::reg(reg) => state.get_reg(reg),
            Self::atReg(reg) => state.get_memory_at_reg(reg),
        };
        let result = value.wrapping_add(1);
        state.set_flags_znc(result == 0, false, result < value);
        match *self {
            Self::reg(reg) => state.set_reg(reg, result),
            Self::atReg(reg) => state.set_memory_at_reg(reg, result),
        }
    }
}

impl ProcessInstruction for InstructionDec {
    open spec fn effect(&self, p: PairModel) -> PairModel {
        dec_effect(*self, p)
    }

    fn process(&self, state: &mut CellPair) {
        let value = match *self {
            Self::reg(reg) => state.get_reg(reg),
            Self::atReg(reg) => state.get_memory_at_reg(reg),
        };
        let result = value.wrapping_sub(1);
        state.set_flags_znc(result == 0, true, result > value);
        match *self {
            Self::reg(reg) => state.set_reg(reg, result),
            Self::atReg(reg) => state.set_memory_at_reg(reg, result),
        }
    }
}

impl ProcessInstruction for InstructionJump {
    open spec fn effect(&self, p: PairModel) -> PairModel {
        jump_effect(*self, p)
    }

    fn process(&self, state: &mut CellPair) {
        let conditional = match *self {
            Self::byte { if_z } => if_z,
            Self::ifZ_reg(_) | Self::ifZ_atReg(_) => true,
            _ => false,
        };
        if conditional && !state.get_flag_z() {
            return;
        }
        let address = match *self {
            Self::byte { .. } => state.advance_pc(),
            Self::reg(reg) | Self::ifZ_reg(reg) => state.get_reg(reg),
            Self::atReg(reg) | Self::ifZ_atReg(reg) => state.get_memory_at_reg(reg),
        };
        let pc = state.get_reg_pc();
        state.push_to_stack(pc);
        state.set_reg_pc(address);
    }
}

impl ProcessInstruction for InstructionPush {
    open spec fn effect(&self, p: PairModel) -> PairModel {
        push_effect(*self, p)
    }

    fn process(&self, state: &mut CellPair) {
        let value = match *self {
            Self::reg(reg) => state.get_reg(reg),
            Self::atReg(reg) => state.get_memory_at_reg(reg),
        };
        state.push_to_stack(value);
    }
}

impl ProcessInstruction for InstructionPop {
    open spec fn effect(&self, p: PairModel) -> PairModel {
        pop_effect(*self, p)
    }

    fn process(&self, state: &mut CellPair) {
        let value = state.pop_from_stack();
        match *self {
            Self::reg(reg) => state.set_reg(reg, value),
            Self::atReg(reg) => state.set_memory_at_reg(reg, value),
        }
    }
}

impl ProcessInstruction for InstructionCall {
    open spec fn effect(&self, p: PairModel) -> PairModel {
        call_effect(*self, p)
    }

    fn process(&self, state: &mut CellPair) {
        let conditional = match *self {
            Self::byte { if_z } => if_z,
            Self::ifZ_reg(_) => true,
            Self::reg(_) => false,
        };
        if conditional && !state.get_flag_z() {
            return;
        }
        let address = match *self {
            Self::byte { .. } => state.advance_pc(),
            Self::reg(reg) | Self::ifZ_reg(reg) => state.get_reg(reg),
        };
        let pc = state.get_reg_pc();
        state.push_to_stack(pc);
        state.set_reg_pc(address);
    }
}

impl ProcessInstruction for InstructionRet {
    open spec fn effect(&self, p: PairModel) -> PairModel {
        ret_effect(*self, p)
    }

    fn process(&self, state: &mut CellPair) {
        if self.if_z && !state.get_flag_z() {
            return;
        }
        let address = state.pop_from_stack();
        state.set_reg_pc(address);
    }
}

impl ProcessInstruction for InstructionLeftShift {
    open spec fn effect(&self, p: PairModel) -> PairModel {
        left_shift_effect(*self, p)
    }

    fn process(&self, state: &mut CellPair) {
        let value = match *self {
            Self::reg(reg) => state.get_reg(reg),
            Self::atReg(reg) => state.get_memory_at_reg(reg),
        };
        proof {
            lemma_shift_one(value);
        }
        let result = value.wrapping_shl(1);
        state.set_flags_znc(result == 0, false, value & 0b1000_0000 != 0);
        match *self {
            Self::reg(reg) => state.set_reg(reg, result),
            Self::atReg(reg) => state.set_memory_at_reg(reg, result),
        }
    }
}

impl ProcessInstruction for InstructionRightShift {
    open spec fn effect(&self, p: PairModel) -> PairModel {
        right_shift_effect(*self, p)
    }

    fn process(&self, state: &mut CellPair) {
        let value = match *self {
            Self::reg(reg) => state.get_reg(reg),
            Self::atReg(reg) => state.get_memory_at_reg(reg),
        };
        proof {
            lemma_shift_one(value);
        }
        let result = value.wrapping_shr(1);
        state.set_flags_znc(result == 0, false, value & 0b0000_0001 != 0);
        match *self {
            Self::reg(reg) => state.set_reg(reg, result),
            Self::atReg(reg) => state.set_memory_at_reg(reg, result),
        }
    }
}

impl ProcessInstruction for InstructionCompare {
    open spec fn effect(&self, p: PairModel) -> PairModel {
        compare_effect(*self, p)
    }

    fn process(&self, state: &mut CellPair) {
        let (a, b) = match *self {
            Self::a_reg(reg) => (state.get_reg_acc(), state.get_reg(reg)),
            Self::a_byte => {
                let a = state.get_reg_acc();
                (a, state.advance_pc())
            },
            Self::atA_byte => {
                let a = state.get_memory_at_acc();
                (a, state.advance_pc())
            },
        };
        state.set_flags_znc(a == b, true, a < b);
    }
}

impl ProcessInstruction for InstructionReplicate {
    open spec fn effect(&self, p: PairModel) -> PairModel {
        p
    }

    fn process(&self, state: &mut CellPair) {
    }
}

impl ProcessInstruction for Instruction {
    open spec fn effect(&self, p: PairModel) -> PairModel {
        execute(*self, p)
    }

    fn process(&self, state: &mut CellPair) {
        match self {
            Instruction::Nop(x) => x.process(state),
            Instruction::Load(x) => x.process(state),
            Instruction::Add(x) => x.process(state),
            Instruction::Sub(x) => x.process(state),
            Instruction::And(x) => x.process(state),
            Instruction::Or(x) => x.process(state),
            Instruction::Xor(x) => x.process(state),
            Instruction::Not(x) => x.process(state),
            Instruction::Inc(x) => x.process(state),
            Instruction::Dec(x) => x.process(state),
            Instruction::Jmp(x) => x.process(state),
            Instruction::Push(x) => x.process(state),
            Instruction::Pop(x) => x.process(state),
            Instruction::Call(x) => x.process(state),
            Instruction::Ret(x) => x.process(state),
            Instruction::LeftShift(x) => x.process(state),
            Instruction::RightShift(x) => x.process(state),
            Instruction::Compare(x) => x.process(state),
            Instruction::Replicate(x) => x.process(state),
        }
    }
}

/// One fetch-decode-execute step: the instruction at the program counter,
/// run after the program counter has moved past its opcode.
pub open spec fn step(p: PairModel) -> PairModel {
    execute(decode(p.at_pc()), p.advanced())
}

/// The pair after `n` steps.
pub open spec fn run_steps(p: PairModel, n: nat) -> PairModel
    decreases n,
{
    if n == 0 {
        p
    } else {
        step(run_steps(p, (n - 1) as nat))
    }
}

impl CellPair {
    /// Run the pair's cycle budget: one instruction for each cycle left and
    /// one more on the last.
    pub fn tick(&mut self)
        ensures
            final(self)@ == run_steps(old(self)@, old(self).cycles_to_run as nat + 1),
            final(self).cycles_to_run == 0,
    {
        loop
            invariant_except_break
                self.cycles_to_run <= old(self).cycles_to_run,
                self@ == run_steps(old(self)@, (old(self).cycles_to_run - self.cycles_to_run) as nat),
            ensures
                self@ == run_steps(old(self)@, old(self).cycles_to_run as nat + 1),
                self.cycles_to_run == 0,
            decreases self.cycles_to_run,
        {
            let instruction = self.read_instruction();
            instruction.process(self);
            if self.cycles_to_run == 0 {
                break;
            }
            self.cycles_to_run -= 1;
        }
    }

    /// Fetch the opcode at the program counter, advance it, and decode the opcode.
    pub fn read_instruction(&mut self) -> (r: Instruction)
        ensures
            r == decode(old(self)@.at_pc()),
            final(self)@ == old(self)@.advanced(),
            final(self).cycles_to_run == old(self).cycles_to_run,
    {
        let opcode = self.advance_pc();
        match opcode {
            0b0000_0000 => Instruction::Nop(InstructionNop),
            0b00000_001..=0b00000_111 => Instruction::Load(InstructionLoad::a_reg(Register::from(opcode))),
            0b00001_000..=0b00001_111 => Instruction::Load(InstructionLoad::atA_reg(Register::from(opcode))),
            0b00010_000..=0b00010_111 => Instruction::Load(InstructionLoad::reg_atA(Register::from(opcode))),
            0b00011_000 => Instruction::Load(InstructionLoad::a_byte),
            0b00011_001..=0b00011_111 => Instruction::Load(InstructionLoad::reg_a(Register::from(opcode))),

            0b00100_000..=0b00100_111 => Instruction::Add(InstructionAdd::a_reg(Register::from(opcode))),
            0b00101_000..=0b00101_111 => Instruction::Add(InstructionAdd::a_atReg(Register::from(opcode))),

            0b00110_000..=0b00110_111 => Instruction::Sub(InstructionSub::a_reg(Register::from(opcode))),
            0b00111_000..=0b00111_111 => Instruction::Sub(InstructionSub::a_atReg(Register::from(opcode))),

            0b01000_000..=0b01000_111 => Instruction::And(InstructionAnd::a_reg(Register::from(opcode))),
            0b01001_000..=0b01001_111 => Instruction::And(InstructionAnd::a_atReg(Register::from(opcode))),

            0b01010_000..=0b01010_111 => Instruction::Or(InstructionOr::a_reg(Register::from(opcode))),
            0b01011_000..=0b01011_111 => Instruction::Or(InstructionOr::a_atReg(Register::from(opcode))),

            0b01100_000..=0b01100_111 => Instruction::Xor(InstructionXor::a_reg(Register::from(opcode))),
            0b01101_000..=0b01101_111 => Instruction::Xor(InstructionXor::a_atReg(Register::from(opcode))),

            0b01110_000..=0b01110_111 => Instruction::Not(InstructionNot::reg(Register::from(opcode))),
            0b01111_000..=0b01111_111 => Instruction::Not(InstructionNot::atReg(Register::from(opcode))),

            0b10000_000..=0b10000_111 => Instruction::Jmp(InstructionJump::reg(Register::from(opcode))),
            0b10001_000..=0b10001_111 => Instruction::Jmp(InstructionJump::atReg(Register::from(opcode))),
            0b10010_000..=0b10010_111 => Instruction::Jmp(InstructionJump::ifZ_reg(Register::from(opcode))),
            0b10011_000..=0b10011_111 => Instruction::Jmp(InstructionJump::ifZ_atReg(Register::from(opcode))),

            0b10100_000..=0b10100_111 => Instruction::Push(InstructionPush::reg(Register::from(opcode))),
            0b10101_000..=0b10101_111 => Instruction::Push(InstructionPush::atReg(Register::from(opcode))),

            0b10110_000..=0b10110_111 => Instruction::Pop(InstructionPop::reg(Register::from(opcode))),
            0b10111_000..=0b10111_111 => Instruction::Pop(InstructionPop::atReg(Register::from(opcode))),

            0b11000_000..=0b11000_111 => Instruction::Call(InstructionCall::reg(Register::from(opcode))),
            0b11001_000..=0b11001_111 => Instruction::Call(InstructionCall::ifZ_reg(Register::from(opcode))),

            0b11010_000..=0b11010_111 => Instruction::LeftShift(InstructionLeftShift::reg(Register::from(opcode))),
            0b11011_000..=0b11011_111 => Instruction::LeftShift(InstructionLeftShift::atReg(Register::from(opcode))),

            0b11100_000..=0b11100_111 => Instruction::RightShift(InstructionRightShift::reg(Register::from(opcode))),
            0b11101_000..=0b11101_111 => Instruction::RightShift(InstructionRightShift::atReg(Register::from(opcode))),

            0b11110_000 => Instruction::Compare(InstructionCompare::a_byte),
            0b11110_001..=0b11110_111 => Instruction::Compare(InstructionCompare::a_reg(Register::from(opcode))),
            0b11111_000 => Instruction::Compare(InstructionCompare::atA_byte),

            0b11111_001 => Instruction::Replicate(InstructionReplicate),

            0b11111_010 => Instruction::Jmp(InstructionJump::byte { if_z: false }),
            0b11111_011 => Instruction::Jmp(InstructionJump::byte { if_z: true }),

            0b11111_100 => Instruction::Call(InstructionCall::byte { if_z: true }),
            0b11111_101 => Instruction::Call(InstructionCall::byte { if_z: false }),

            0b111_11_110 => Instruction::Ret(InstructionRet { if_z: false }),
            0b111_11_111 => Instruction::Ret(InstructionRet { if_z: true }),
        }
    }
}

/// Flags set by an operation, then a result written to another register:
/// the flags read back as set.
proof fn lemma_flags_after(p: PairModel, z: bool, n: bool, c: bool, r: Register, v: u8)
    requires
        p.wf(),
        r != Register::Flags,
    ensures
        p.with_znc(z, n, c).with_reg(r, v).flag(FLAG_Z) == z,
        p.with_znc(z, n, c).with_reg(r, v).flag(FLAG_N) == n,
        p.with_znc(z, n, c).with_reg(r, v).flag(FLAG_C) == c,
        p.with_znc(z, n, c).with_reg(r, v).reg(r) == v,
{
    lemma_read_flags(p.flags(), z, n, c);
}

/// ADD of a register wraps modulo 256: the accumulator becomes `(a + b) mod 256`,
/// carry is set exactly when `a + b` exceeds 255, zero exactly when the result is 0,
/// and negative is cleared.
pub proof fn lemma_add_wraps(p: PairModel, r: Register)
    requires
        p.wf(),
    ensures
        ({
            let q = execute(Instruction::Add(InstructionAdd::a_reg(r)), p);
            let (a, b) = (p.acc() as int, p.reg(r) as int);
            &&& q.acc() == (a + b) % 256
            &&& q.flag(FLAG_C) == (a + b >= 256)
            &&& q.flag(FLAG_Z) == ((a + b) % 256 == 0)
            &&& !q.flag(FLAG_N)
        }),
{
    let a = p.acc();
    let b = p.reg(r);
    lemma_flags_after(p, add8(a, b) == 0, false, a + b > 0xff, Register::Accumulator, add8(a, b));
}

/// SUB of a register wraps modulo 256: the accumulator becomes `(a - b) mod 256`,
/// carry (borrow) is set exactly when `b > a`, zero exactly when `a == b`, and
/// negative is set.
pub proof fn lemma_sub_wraps(p: PairModel, r: Register)
    requires
        p.wf(),
    ensures
        ({
            let q = execute(Instruction::Sub(InstructionSub::a_reg(r)), p);
            let (a, b) = (p.acc() as int, p.reg(r) as int);
            &&& q.acc() == (a - b + 256) % 256
            &&& q.flag(FLAG_C) == (b > a)
            &&& q.flag(FLAG_Z) == (a == b)
            &&& q.flag(FLAG_N)
        }),
{
    let a = p.acc();
    let b = p.reg(r);
    lemma_flags_after(p, sub8(a, b) == 0, true, b > a, Register::Accumulator, sub8(a, b));
}

/// INC of a register other than the flags wraps 255 to 0: carry and zero are
/// set exactly then, and negative is cleared.
pub proof fn lemma_inc_wraps(p: PairModel, r: Register)
    requires
        p.wf(),
        r != Register::Flags,
    ensures
        ({
            let q = execute(Instruction::Inc(InstructionInc::reg(r)), p);
            let v = p.reg(r) as int;
            &&& q.reg(r) == (v + 1) % 256
            &&& q.flag(FLAG_C) == (v == 255)
            &&& q.flag(FLAG_Z) == (v == 255)
            &&& !q.flag(FLAG_N)
        }),
{
    let v = p.reg(r);
    lemma_flags_after(p, add8(v, 1) == 0, false, add8(v, 1) < v, r, add8(v, 1));
}

/// DEC of a register other than the flags wraps 0 to 255: carry is set exactly
/// then, zero exactly when the register held 1, and negative is set.
pub proof fn lemma_dec_wraps(p: PairModel, r: Register)
    requires
        p.wf(),
        r != Register::Flags,
    ensures
        ({
            let q = execute(Instruction::Dec(InstructionDec::reg(r)), p);
            let v = p.reg(r) as int;
            &&& q.reg(r) == (v + 255) % 256
            &&& q.flag(FLAG_C) == (v == 0)
            &&& q.flag(FLAG_Z) == (v == 1)
            &&& q.flag(FLAG_N)
        }),
{
    let v = p.reg(r);
    lemma_flags_after(p, sub8(v, 1) == 0, true, sub8(v, 1) > v, r, sub8(v, 1));
}

/// SHL of a register other than the flags doubles it modulo 256; carry takes
/// the old bit 7, zero is set exactly when the result is 0, negative is cleared.
pub proof fn lemma_shl_wraps(p: PairModel, r: Register)
    requires
        p.wf(),
        r != Register::Flags,
    ensures
        ({
            let q = execute(Instruction::LeftShift(InstructionLeftShift::reg(r)), p);
            let v = p.reg(r) as int;
            &&& q.reg(r) == (2 * v) % 256
            &&& q.flag(FLAG_C) == (v >= 128)
            &&& q.flag(FLAG_Z) == ((2 * v) % 256 == 0)
            &&& !q.flag(FLAG_N)
        }),
{
    let v = p.reg(r);
    let res = ((2 * v) % 256) as u8;
    lemma_flags_after(p, res == 0, false, v >= 128, r, res);
}

/// SHR of a register other than the flags halves it; carry takes the old
/// bit 0, zero is set exactly when the result is 0, negative is cleared.
pub proof fn lemma_shr_wraps(p: PairModel, r: Register)
    requires
        p.wf(),
        r != Register::Flags,
    ensures
        ({
            let q = execute(Instruction::RightShift(InstructionRightShift::reg(r)), p);
            let v = p.reg(r) as int;
            &&& q.reg(r) == v / 2
            &&& q.flag(FLAG_C) == (v % 2 == 1)
            &&& q.flag(FLAG_Z) == (v / 2 == 0)
            &&& !q.flag(FLAG_N)
        }),
{
    let v = p.reg(r);
    let res = (v / 2) as u8;
    lemma_flags_after(p, res == 0, false, v % 2 == 1, r, res);
}

} // verus!
