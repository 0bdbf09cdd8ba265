use vstd::prelude::*;

verus! {

/// One of the eight registers of a cell, numbered as in the register file.
#[derive(Debug, Clone, Copy, PartialEq, Eq, Structural)]
pub enum Register {
    Accumulator,
    Flags,
    ProgramCounter,
    StackPointer,
    B,
    C,
    D,
    E,
}

impl Register {
    /// Position of the register in the register file.
    pub open spec fn index(self) -> int {
        match self {
            Register::Accumulator => 0,
            Register::Flags => 1,
            Register::ProgramCounter => 2,
            Register::StackPointer => 3,
            Register::B => 4,
            Register::C => 5,
            Register::D => 6,
            Register::E => 7,
        }
    }

    /// The register selected by the low three bits of `bits`.
    pub open spec fn from_bits(bits: u8) -> Register {
        let k = bits % 8;
        if k == 0 {
            Register::Accumulator
        } else if k == 1 {
            Register::Flags
        } else if k == 2 {
            Register::ProgramCounter
        } else if k == 3 {
            Register::StackPointer
        } else if k == 4 {
            Register::B
        } else if k == 5 {
            Register::C
        } else if k == 6 {
            Register::D
        } else {
            Register::E
        }
    }

    pub fn register_index(self) -> (r: usize)
        ensures
            r == self.index(),
            r < 8,
    {
        match self {
            Register::Accumulator => 0,
            Register::Flags => 1,
            Register::ProgramCounter => 2,
            Register::StackPointer => 3,
            Register::B => 4,
            Register::C => 5,
            Register::D => 6,
            Register::E => 7,
        }
    }
}

impl From<u8> for Register {
    fn from(value: u8) -> (r: Register)
        ensures
            r == Register::from_bits(value),
    {
        match value % 8 {
            0 => Register::Accumulator,
            1 => Register::Flags,
            2 => Register::ProgramCounter,
            3 => Register::StackPointer,
            4 => Register::B,
            5 => Register::C,
            6 => Register::D,
            _ => Register::E,
        }
    }
}

impl vstd::std_specs::convert::FromSpecImpl<u8> for Register {
    open spec fn obeys_from_spec() -> bool {
        true
    }

    open spec fn from_spec(v: u8) -> Register {
        Register::from_bits(v)
    }
}

/// Does nothing.
#[derive(Debug, Clone, Copy, PartialEq, Eq, Structural)]
pub struct InstructionNop;

#[allow(non_camel_case_types)]
#[derive(Debug, Clone, Copy, PartialEq, Eq, Structural)]
pub enum InstructionLoad {
    /// Load value from given register to accumulator.
    a_reg(Register),
    /// Load value from memory at address pointed by accumulator to given register.
    reg_atA(Register),
    /// Load value from accumulator to given register.
    reg_a(Register),
    /// Load value from register to memory at address pointed by accumulator.
    atA_reg(Register),
    /// Read byte at pc, increment pc and load byte to accumulator.
    a_byte,
}

#[allow(non_camel_case_types)]
#[derive(Debug, Clone, Copy, PartialEq, Eq, Structural)]
pub enum InstructionAdd {
    /// acc = acc + $reg
    a_reg(Register),
    /// acc = acc + [$reg]
    a_atReg(Register),
}

#[allow(non_camel_case_types)]
#[derive(Debug, Clone, Copy, PartialEq, Eq, Structural)]
pub enum InstructionSub {
    /// acc = acc - $reg
    a_reg(Register),
    /// acc = acc - [$reg]
    a_atReg(Register),
}

#[allow(non_camel_case_types)]
#[derive(Debug, Clone, Copy, PartialEq, Eq, Structural)]
pub enum InstructionAnd {
    /// acc = acc & $reg
    a_reg(Register),
    /// acc = acc & [$reg]
    a_atReg(Register),
}

#[allow(non_camel_case_types)]
#[derive(Debug, Clone, Copy, PartialEq, Eq, Structural)]
pub enum InstructionOr {
    /// acc = acc | $reg
    a_reg(Register),
    /// acc = acc | [$reg]
    a_atReg(Register),
}

#[allow(non_camel_case_types)]
#[derive(Debug, Clone, Copy, PartialEq, Eq, Structural)]
pub enum InstructionXor {
    /// acc = acc ^ $reg
    a_reg(Register),
    /// acc = acc ^ [$reg]
    a_atReg(Register),
}

#[allow(non_camel_case_types)]
#[derive(Debug, Clone, Copy, PartialEq, Eq, Structural)]
pub enum InstructionNot {
    /// $reg = ~$reg
    reg(Register),
    /// [$reg] = ~[$reg]
    atReg(Register),
}

#[allow(non_camel_case_types)]
#[derive(Debug, Clone, Copy, PartialEq, Eq, Structural)]
pub enum InstructionInc {
    /// $reg += 1
    reg(Register),
    /// [$reg] += 1
    atReg(Register),
}

#[allow(non_camel_case_types)]
#[derive(Debug, Clone, Copy, PartialEq, Eq, Structural)]
pub enum InstructionDec {
    /// $reg -= 1
    reg(Register),
    /// [$reg] -= 1
    atReg(Register),
}

/// A jump pushes the program counter, as a call does, before it sets it.
#[allow(non_camel_case_types)]
#[derive(Debug, Clone, Copy, PartialEq, Eq, Structural)]
pub enum InstructionJump {
    /// pc = $reg
    reg(Register),
    /// pc = [$reg]
    atReg(Register),
    /// if z { pc = $reg }
    ifZ_reg(Register),
    /// if z { pc = [$reg] }
    ifZ_atReg(Register),
    /// pc = next byte, if z when `if_z` is set
    byte { if_z: bool },
}

#[allow(non_camel_case_types)]
#[derive(Debug, Clone, Copy, PartialEq, Eq, Structural)]
pub enum InstructionPush {
    /// stack[--sp] = $reg
    reg(Register),
    /// stack[--sp] = [$reg]
    atReg(Register),
}

#[allow(non_camel_case_types)]
#[derive(Debug, Clone, Copy, PartialEq, Eq, Structural)]
pub enum InstructionPop {
    /// $reg = stack[sp++]
    reg(Register),
    /// [$reg] = stack[sp++]
    atReg(Register),
}

#[allow(non_camel_case_types)]
#[derive(Debug, Clone, Copy, PartialEq, Eq, Structural)]
pub enum InstructionCall {
    /// Store pc in stack and jump to $reg.
    reg(Register),
    /// As `reg`, if z.
    ifZ_reg(Register),
    /// Store pc in stack and jump to the next byte, if z when `if_z` is set.
    byte { if_z: bool },
}

/// Pop the program counter, if z when `if_z` is set.
#[derive(Debug, Clone, Copy, PartialEq, Eq, Structural)]
pub struct InstructionRet {
    pub if_z: bool,
}

#[allow(non_camel_case_types)]
#[derive(Debug, Clone, Copy, PartialEq, Eq, Structural)]
pub enum InstructionLeftShift {
    /// Shift value in register to the left.
    reg(Register),
    /// Shift value in memory at address pointed by register to the left.
    atReg(Register),
}

#[allow(non_camel_case_types)]
#[derive(Debug, Clone, Copy, PartialEq, Eq, Structural)]
pub enum InstructionRightShift {
    /// Shift value in register to the right.
    reg(Register),
    /// Shift value in memory at address pointed by register to the right.
    atReg(Register),
}

#[allow(non_camel_case_types)]
#[derive(Debug, Clone, Copy, PartialEq, Eq, Structural)]
pub enum InstructionCompare {
    /// Compare accumulator with value in register.
    a_reg(Register),
    /// Compare accumulator with next byte.
    a_byte,
    /// Compare memory at address pointed by accumulator with next byte.
    atA_byte,
}

/// Copy the main cell into the neighbour; in this revision it does nothing.
#[derive(Debug, Clone, Copy, PartialEq, Eq, Structural)]
pub struct InstructionReplicate;

/// A decoded instruction.
#[derive(Debug, Clone, Copy, PartialEq, Eq, Structural)]
pub enum Instruction {
    Nop(InstructionNop),
    Load(InstructionLoad),
    Add(InstructionAdd),
    Sub(InstructionSub),
    And(InstructionAnd),
    Or(InstructionOr),
    Xor(InstructionXor),
    Not(InstructionNot),
    Inc(InstructionInc),
    Dec(InstructionDec),
    Jmp(InstructionJump),
    Push(InstructionPush),
    Pop(InstructionPop),
    Call(InstructionCall),
    Ret(InstructionRet),
    LeftShift(InstructionLeftShift),
    RightShift(InstructionRightShift),
    Compare(InstructionCompare),
    Replicate(InstructionReplicate),
}

/// The instruction an opcode stands for. Bits 7..3 pick the family and form,
/// bits 2..0 a register (or, in the last groups, the form itself).
pub open spec fn decode(op: u8) -> Instruction {
    let r = Register::from_bits(op);
    let group = op / 8;
    let low = op % 8;
    if group == 0 {
        if low == 0 { Instruction::Nop(InstructionNop) } else { Instruction::Load(InstructionLoad::a_reg(r)) }
    } else if group == 1 {
        Instruction::Load(InstructionLoad::atA_reg(r))
    } else if group == 2 {
        Instruction::Load(InstructionLoad::reg_atA(r))
    } else if group == 3 {
        if low == 0 { Instruction::Load(InstructionLoad::a_byte) } else { Instruction::Load(InstructionLoad::reg_a(r)) }
    } else if group == 4 {
        Instruction::Add(InstructionAdd::a_reg(r))
    } else if group == 5 {
        Instruction::Add(InstructionAdd::a_atReg(r))
    } else if group == 6 {
        Instruction::Sub(InstructionSub::a_reg(r))
    } else if group == 7 {
        Instruction::Sub(InstructionSub::a_atReg(r))
    } else if group == 8 {
        Instruction::And(InstructionAnd::a_reg(r))
    } else if group == 9 {
        Instruction::And(InstructionAnd::a_atReg(r))
    } else if group == 10 {
        Instruction::Or(InstructionOr::a_reg(r))
    } else if group == 11 {
        Instruction::Or(InstructionOr::a_atReg(r))
    } else if group == 12 {
        Instruction::Xor(InstructionXor::a_reg(r))
    } else if group == 13 {
        Instruction::Xor(InstructionXor::a_atReg(r))
    } else if group == 14 {
        Instruction::Not(InstructionNot::reg(r))
    } else if group == 15 {
        Instruction::Not(InstructionNot::atReg(r))
    } else if group == 16 {
        Instruction::Jmp(InstructionJump::reg(r))
    } else if group == 17 {
        Instruction::Jmp(InstructionJump::atReg(r))
    } else if group == 18 {
        Instruction::Jmp(InstructionJump::ifZ_reg(r))
    } else if group == 19 {
        Instruction::Jmp(InstructionJump::ifZ_atReg(r))
    } else if group == 20 {
        Instruction::Push(InstructionPush::reg(r))
    } else if group == 21 {
        Instruction::Push(InstructionPush::atReg(r))
    } else if group == 22 {
        Instruction::Pop(InstructionPop::reg(r))
    } else if group == 23 {
        Instruction::Pop(InstructionPop::atReg(r))
    } else if group == 24 {
        Instruction::Call(InstructionCall::reg(r))
    } else if group == 25 {
        Instruction::Call(InstructionCall::ifZ_reg(r))
    } else if group == 26 {
        Instruction::LeftShift(InstructionLeftShift::reg(r))
    } else if group == 27 {
        Instruction::LeftShift(InstructionLeftShift::atReg(r))
    } else if group == 28 {
        Instruction::RightShift(InstructionRightShift::reg(r))
    } else if group == 29 {
        Instruction::RightShift(InstructionRightShift::atReg(r))
    } else if group == 30 {
        if low == 0 { Instruction::Compare(InstructionCompare::a_byte) } else { Instruction::Compare(InstructionCompare::a_reg(r)) }
    } else if low == 0 {
        Instruction::Compare(InstructionCompare::atA_byte)
    } else if low == 1 {
        Instruction::Replicate(InstructionReplicate)
    } else if low == 2 {
        Instruction::Jmp(InstructionJump::byte { if_z: false })
    } else if low == 3 {
        Instruction::Jmp(InstructionJump::byte { if_z: true })
    } else if low == 4 {
        Instruction::Call(InstructionCall::byte { if_z: true })
    } else if low == 5 {
        Instruction::Call(InstructionCall::byte { if_z: false })
    } else if low == 6 {
        Instruction::Ret(InstructionRet { if_z: false })
    } else {
        Instruction::Ret(InstructionRet { if_z: true })
    }
}

/// The opcode of an instruction: the inverse of `decode` on every opcode.
/// Increment and decrement have no opcode; they are given 0.
pub open spec fn encode(i: Instruction) -> int {
    match i {
        Instruction::Nop(_) => 0,
        Instruction::Load(InstructionLoad::a_reg(r)) => r.index(),
        Instruction::Load(InstructionLoad::atA_reg(r)) => 8 + r.index(),
        Instruction::Load(InstructionLoad::reg_atA(r)) => 16 + r.index(),
        Instruction::Load(InstructionLoad::a_byte) => 24,
        Instruction::Load(InstructionLoad::reg_a(r)) => 24 + r.index(),
        Instruction::Add(InstructionAdd::a_reg(r)) => 32 + r.index(),
        Instruction::Add(InstructionAdd::a_atReg(r)) => 40 + r.index(),
        Instruction::Sub(InstructionSub::a_reg(r)) => 48 + r.index(),
        Instruction::Sub(InstructionSub::a_atReg(r)) => 56 + r.index(),
        Instruction::And(InstructionAnd::a_reg(r)) => 64 + r.index(),
        Instruction::And(InstructionAnd::a_atReg(r)) => 72 + r.index(),
        Instruction::Or(InstructionOr::a_reg(r)) => 80 + r.index(),
        Instruction::Or(InstructionOr::a_atReg(r)) => 88 + r.index(),
        Instruction::Xor(InstructionXor::a_reg(r)) => 96 + r.index(),
        Instruction::Xor(InstructionXor::a_atReg(r)) => 104 + r.index(),
        Instruction::Not(InstructionNot::reg(r)) => 112 + r.index(),
        Instruction::Not(InstructionNot::atReg(r)) => 120 + r.index(),
        Instruction::Inc(_) => 0,
        Instruction::Dec(_) => 0,
        Instruction::Jmp(InstructionJump::reg(r)) => 128 + r.index(),
        Instruction::Jmp(InstructionJump::atReg(r)) => 136 + r.index(),
        Instruction::Jmp(InstructionJump::ifZ_reg(r)) => 144 + r.index(),
        Instruction::Jmp(InstructionJump::ifZ_atReg(r)) => 152 + r.index(),
        Instruction::Jmp(InstructionJump::byte { if_z }) => if if_z { 251 } else { 250 },
        Instruction::Push(InstructionPush::reg(r)) => 160 + r.index(),
        Instruction::Push(InstructionPush::atReg(r)) => 168 + r.index(),
        Instruction::Pop(InstructionPop::reg(r)) => 176 + r.index(),
        Instruction::Pop(InstructionPop::atReg(r)) => 184 + r.index(),
        Instruction::Call(InstructionCall::reg(r)) => 192 + r.index(),
        Instruction::Call(InstructionCall::ifZ_reg(r)) => 200 + r.index(),
        Instruction::Call(InstructionCall::byte { if_z }) => if if_z { 252 } else { 253 },
        Instruction::Ret(InstructionRet { if_z }) => if if_z { 255 } else { 254 },
        Instruction::LeftShift(InstructionLeftShift::reg(r)) => 208 + r.index(),
        Instruction::LeftShift(InstructionLeftShift::atReg(r)) => 216 + r.index(),
        Instruction::RightShift(InstructionRightShift::reg(r)) => 224 + r.index(),
        Instruction::RightShift(InstructionRightShift::atReg(r)) => 232 + r.index(),
        Instruction::Compare(InstructionCompare::a_byte) => 240,
        Instruction::Compare(InstructionCompare::a_reg(r)) => 240 + r.index(),
        Instruction::Compare(InstructionCompare::atA_byte) => 248,
        Instruction::Replicate(_) => 249,
    }
}

/// Every opcode decodes to an instruction that encodes back to that opcode:
/// decoding is total and loses nothing.
pub proof fn lemma_decode_round_trip(op: u8)
    ensures
        encode(decode(op)) == op,
{
    let g = op / 8;
    let l = op % 8;
    assert(op == 8 * g + l);
    assert(Register::from_bits(op).index() == l);
    if g == 0 {
    } else if g == 1 {
    } else if g == 2 {
    } else if g == 3 {
    } else if g == 4 {
    } else if g == 5 {
    } else if g == 6 {
    } else if g == 7 {
    } else if g == 8 {
    } else if g == 9 {
    } else if g == 10 {
    } else if g == 11 {
    } else if g == 12 {
    } else if g == 13 {
    } else if g == 14 {
    } else if g == 15 {
    } else if g == 16 {
    } else if g == 17 {
    } else if g == 18 {
    } else if g == 19 {
    } else if g == 20 {
    } else if g == 21 {
    } else if g == 22 {
    } else if g == 23 {
    } else if g == 24 {
    } else if g == 25 {
    } else if g == 26 {
    } else if g == 27 {
    } else if g == 28 {
    } else if g == 29 {
    } else if g == 30 {
    } else {
    }
}

/// Two opcodes never decode to the same instruction.
pub proof fn lemma_decode_injective(op1: u8, op2: u8)
    requires
        decode(op1) == decode(op2),
    ensures
        op1 == op2,
{
    lemma_decode_round_trip(op1);
    lemma_decode_round_trip(op2);
}

} // verus!
