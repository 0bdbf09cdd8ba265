use crate::cell_state::{CellModel, CellState, MEMORY_SIZE};
use crate::instruction::Register;
use vstd::prelude::*;

verus! {

/// Initial cycle counter of a pair: the loop runs one instruction more than this.
pub const CYCLES_PER_TICK: usize = 37;

/// Mask of the zero flag.
pub const FLAG_Z: u8 = 1;
/// Mask of the negative flag.
pub const FLAG_N: u8 = 2;
/// Mask of the carry flag.
pub const FLAG_C: u8 = 4;

/// The 8-bit sum of two bytes.
pub open spec fn add8(a: u8, b: u8) -> u8 {
    ((a + b) % 256) as u8
}

/// The 8-bit difference of two bytes.
pub open spec fn sub8(a: u8, b: u8) -> u8 {
    ((a - b + 256) % 256) as u8
}

/// Two cells seen as one 256-byte address space and the main cell's registers.
#[verifier::ext_equal]
pub ghost struct PairModel {
    pub main: CellModel,
    pub neighbor: CellModel,
}

impl PairModel {
    pub open spec fn wf(self) -> bool {
        self.main.wf() && self.neighbor.wf()
    }

    /// The byte at an address: the lower half is the main cell's memory, the
    /// upper half the neighbour's.
    pub open spec fn mem(self, address: u8) -> u8 {
        if address < MEMORY_SIZE {
            self.main.memory[address as int]
        } else {
            self.neighbor.memory[address - MEMORY_SIZE]
        }
    }

    pub open spec fn with_mem(self, address: u8, value: u8) -> PairModel {
        if address < MEMORY_SIZE {
            PairModel {
                main: CellModel {
                    memory: self.main.memory.update(address as int, value),
                    ..self.main
                },
                ..self
            }
        } else {
            PairModel {
                neighbor: CellModel {
                    memory: self.neighbor.memory.update(address - MEMORY_SIZE, value),
                    ..self.neighbor
                },
                ..self
            }
        }
    }

    /// A register of the main cell.
    pub open spec fn reg(self, r: Register) -> u8 {
        self.main.registers[r.index()]
    }

    pub open spec fn with_reg(self, r: Register, value: u8) -> PairModel {
        PairModel {
            main: CellModel { registers: self.main.registers.update(r.index(), value), ..self.main },
            ..self
        }
    }

    pub open spec fn acc(self) -> u8 {
        self.reg(Register::Accumulator)
    }

    pub open spec fn flags(self) -> u8 {
        self.reg(Register::Flags)
    }

    pub open spec fn pc(self) -> u8 {
        self.reg(Register::ProgramCounter)
    }

    pub open spec fn sp(self) -> u8 {
        self.reg(Register::StackPointer)
    }

    pub open spec fn flag(self, mask: u8) -> bool {
        self.flags() & mask != 0
    }

    pub open spec fn with_flag(self, mask: u8, value: bool) -> PairModel {
        self.with_reg(
            Register::Flags,
            if value { self.flags() | mask } else { self.flags() & !mask },
        )
    }

    /// Zero, negative and carry flags set to the given values, other flag bits kept.
    pub open spec fn with_znc(self, z: bool, n: bool, c: bool) -> PairModel {
        self.with_reg(
            Register::Flags,
            (self.flags() & 0xf8) | (if z { 1u8 } else { 0u8 }) | (if n { 2u8 } else { 0u8 }) | (
            if c { 4u8 } else { 0u8 }),
        )
    }

    /// The byte at the program counter.
    pub open spec fn at_pc(self) -> u8 {
        self.mem(self.pc())
    }

    /// The program counter moved past one byte.
    pub open spec fn advanced(self) -> PairModel {
        self.with_reg(Register::ProgramCounter, add8(self.pc(), 1))
    }

    /// The value written below the stack pointer, which moves down to it.
    pub open spec fn pushed(self, value: u8) -> PairModel {
        let sp = sub8(self.sp(), 1);
        self.with_reg(Register::StackPointer, sp).with_mem(sp, value)
    }

    /// The byte at the stack pointer.
    pub open spec fn top(self) -> u8 {
        self.mem(self.sp())
    }

    /// The stack pointer moved up past one byte.
    pub open spec fn popped(self) -> PairModel {
        self.with_reg(Register::StackPointer, add8(self.sp(), 1))
    }
}

/// Setting the three flags one after the other keeps the other flag bits.
pub proof fn lemma_set_flags(f: u8, z: bool, n: bool, c: bool)
    ensures
        ({
            let f1 = if z { f | 1 } else { f & !1u8 };
            let f2 = if n { f1 | 2 } else { f1 & !2u8 };
            let f3 = if c { f2 | 4 } else { f2 & !4u8 };
            f3 == (f & 0xf8) | (if z { 1u8 } else { 0u8 }) | (if n { 2u8 } else { 0u8 }) | (if c {
                4u8
            } else {
                0u8
            })
        }),
{
    if z {
        if n {
            if c {
                assert((((f | 1) | 2) | 4) == (f & 0xf8) | 1u8 | 2u8 | 4u8) by (bit_vector);
            } else {
                assert((((f | 1) | 2) & !4u8) == (f & 0xf8) | 1u8 | 2u8 | 0u8) by (bit_vector);
            }
        } else {
            if c {
                assert((((f | 1) & !2u8) | 4) == (f & 0xf8) | 1u8 | 0u8 | 4u8) by (bit_vector);
            } else {
                assert((((f | 1) & !2u8) & !4u8) == (f & 0xf8) | 1u8 | 0u8 | 0u8) by (bit_vector);
            }
        }
    } else {
        if n {
            if c {
                assert((((f & !1u8) | 2) | 4) == (f & 0xf8) | 0u8 | 2u8 | 4u8) by (bit_vector);
            } else {
                assert((((f & !1u8) | 2) & !4u8) == (f & 0xf8) | 0u8 | 2u8 | 0u8) by (bit_vector);
            }
        } else {
            if c {
                assert((((f & !1u8) & !2u8) | 4) == (f & 0xf8) | 0u8 | 0u8 | 4u8) by (bit_vector);
            } else {
                assert((((f & !1u8) & !2u8) & !4u8) == (f & 0xf8) | 0u8 | 0u8 | 0u8)
                    by (bit_vector);
            }
        }
    }
}

/// The flags read back as they were set.
pub proof fn lemma_read_flags(f: u8, z: bool, n: bool, c: bool)
    ensures
        ({
            let g = (f & 0xf8) | (if z { 1u8 } else { 0u8 }) | (if n { 2u8 } else { 0u8 }) | (if c {
                4u8
            } else {
                0u8
            });
            &&& (g & 1 != 0) == z
            &&& (g & 2 != 0) == n
            &&& (g & 4 != 0) == c
        }),
{
    let zb: u8 = if z { 1u8 } else { 0u8 };
    let nb: u8 = if n { 2u8 } else { 0u8 };
    let cb: u8 = if c { 4u8 } else { 0u8 };
    assert(zb == 0 || zb == 1);
    assert(nb == 0 || nb == 2);
    assert(cb == 0 || cb == 4);
    assert(((f & 0xf8) | zb | nb | cb) & 1 == zb) by (bit_vector)
        requires zb == 0 || zb == 1, nb == 0 || nb == 2, cb == 0 || cb == 4;
    assert(((f & 0xf8) | zb | nb | cb) & 2 == nb) by (bit_vector)
        requires zb == 0 || zb == 1, nb == 0 || nb == 2, cb == 0 || cb == 4;
    assert(((f & 0xf8) | zb | nb | cb) & 4 == cb) by (bit_vector)
        requires zb == 0 || zb == 1, nb == 0 || nb == 2, cb == 0 || cb == 4;
}

/// The working context of one pair for one phase: the main cell, whose
/// registers drive execution, the neighbour, and the cycles left.
#[derive(Debug, Clone, Copy)]
pub struct CellPair {
    pub main: CellState,
    pub neighbor: CellState,
    pub cycles_to_run: usize,
}

impl View for CellPair {
    type V = PairModel;

    open spec fn view(&self) -> PairModel {
        PairModel { main: self.main@, neighbor: self.neighbor@ }
    }
}

impl CellPair {
    /// A pair about to run a full cycle budget.
    pub fn new(main: CellState, neighbor: CellState) -> (r: Self)
        ensures
            r.main == main,
            r.neighbor == neighbor,
            r.cycles_to_run == CYCLES_PER_TICK,
    {
        Self { main, neighbor, cycles_to_run: CYCLES_PER_TICK }
    }

    /// Get the value of the memory cell at the given address.
    pub fn get_memory(&self, address: u8) -> (r: u8)
        ensures
            r == self@.mem(address),
    {
        if address < CellState::MEMORY_SIZE as u8 {
            self.main.memory[address as usize]
        } else {
            self.neighbor.memory[address as usize - CellState::MEMORY_SIZE]
        }
    }

    pub fn get_memory_at_acc(&self) -> (r: u8)
        ensures
            r == self@.mem(self@.acc()),
    {
        self.get_memory(self.get_reg_acc())
    }

    pub fn get_memory_at_reg(&self, register: Register) -> (r: u8)
        ensures
            r == self@.mem(self@.reg(register)),
    {
        self.get_memory(self.get_reg(register))
    }

    /// Set the value of the memory cell at the given address.
    pub fn set_memory(&mut self, address: u8, value: u8)
        ensures
            final(self)@ == old(self)@.with_mem(address, value),
            final(self).cycles_to_run == old(self).cycles_to_run,
    {
        if address < CellState::MEMORY_SIZE as u8 {
            self.main.memory[address as usize] = value;
        } else {
            self.neighbor.memory[address as usize - CellState::MEMORY_SIZE] = value;
        }
        assert(self@ =~= old(self)@.with_mem(address, value));
    }

    pub fn set_memory_at_acc(&mut self, value: u8)
        ensures
            final(self)@ == old(self)@.with_mem(old(self)@.acc(), value),
            final(self).cycles_to_run == old(self).cycles_to_run,
    {
        let address = self.get_reg_acc();
        self.set_memory(address, value);
    }

    pub fn set_memory_at_reg(&mut self, register: Register, value: u8)
        ensures
            final(self)@ == old(self)@.with_mem(old(self)@.reg(register), value),
            final(self).cycles_to_run == old(self).cycles_to_run,
    {
        let address = self.get_reg(register);
        self.set_memory(address, value);
    }

    /// Return the value at the current program counter and advance it.
    pub fn advance_pc(&mut self) -> (r: u8)
        ensures
            r == old(self)@.at_pc(),
            final(self)@ == old(self)@.advanced(),
            final(self).cycles_to_run == old(self).cycles_to_run,
    {
        let pc = self.main.registers[CellState::REGISTER_PROGRAM_COUNTER];
        let result = self.get_memory(pc);
        self.set_reg_pc(pc.wrapping_add(1));
        result
    }

    /// Decrease the stack pointer and write the value at the new address.
    pub fn push_to_stack(&mut self, value: u8)
        ensures
            final(self)@ == old(self)@.pushed(value),
            final(self).cycles_to_run == old(self).cycles_to_run,
    {
        let sp = self.main.registers[CellState::REGISTER_STACK_POINTER].wrapping_sub(1);
        self.set_reg_sp(sp);
        self.set_memory(sp, value);
    }

    /// Return the value at the stack pointer and increase it.
    pub fn pop_from_stack(&mut self) -> (r: u8)
        ensures
            r == old(self)@.top(),
            final(self)@ == old(self)@.popped(),
            final(self).cycles_to_run == old(self).cycles_to_run,
    {
        let sp = self.main.registers[CellState::REGISTER_STACK_POINTER];
        let result = self.get_memory(sp);
        self.set_reg_sp(sp.wrapping_add(1));
        result
    }

    pub fn get_reg_acc(&self) -> (r: u8)
        ensures
            r == self@.acc(),
    {
        self.main.registers[CellState::REGISTER_ACCUMULATOR]
    }

    pub fn get_reg_flags(&self) -> (r: u8)
        ensures
            r == self@.flags(),
    {
        self.main.registers[CellState::REGISTER_FLAGS]
    }

    pub fn get_reg_pc(&self) -> (r: u8)
        ensures
            r == self@.pc(),
    {
        self.main.registers[CellState::REGISTER_PROGRAM_COUNTER]
    }

    pub fn get_reg_sp(&self) -> (r: u8)
        ensures
            r == self@.sp(),
    {
        self.main.registers[CellState::REGISTER_STACK_POINTER]
    }

    pub fn get_reg_b(&self) -> (r: u8)
        ensures
            r == self@.reg(Register::B),
    {
        self.main.registers[CellState::REGISTER_B]
    }

    pub fn get_reg_c(&self) -> (r: u8)
        ensures
            r == self@.reg(Register::C),
    {
        self.main.registers[CellState::REGISTER_C]
    }

    pub fn get_reg_d(&self) -> (r: u8)
        ensures
            r == self@.reg(Register::D),
    {
        self.main.registers[CellState::REGISTER_D]
    }

    pub fn get_reg_e(&self) -> (r: u8)
        ensures
            r == self@.reg(Register::E),
    {
        self.main.registers[CellState::REGISTER_E]
    }

    pub fn get_reg(&self, register: Register) -> (r: u8)
        ensures
            r == self@.reg(register),
    {
        self.main.registers[register.register_index()]
    }

    /// A handle on a register of the main cell; what is written through it
    /// becomes that register.
    pub fn get_reg_mut(&mut self, register: Register) -> (r: &mut u8)
        ensures
            *r == old(self)@.reg(register),
            final(self)@ == old(self)@.with_reg(register, *final(r)),
            final(self).cycles_to_run == old(self).cycles_to_run,
    {
        let i = register.register_index();
        &mut self.main.registers[i]
    }

    pub fn set_reg_acc(&mut self, value: u8)
        ensures
            final(self)@ == old(self)@.with_reg(Register::Accumulator, value),
            final(self).cycles_to_run == old(self).cycles_to_run,
    {
        self.set_reg(Register::Accumulator, value);
    }

    pub fn set_reg_flags(&mut self, value: u8)
        ensures
            final(self)@ == old(self)@.with_reg(Register::Flags, value),
            final(self).cycles_to_run == old(self).cycles_to_run,
    {
        self.set_reg(Register::Flags, value);
    }

    pub fn set_reg_pc(&mut self, value: u8)
        ensures
            final(self)@ == old(self)@.with_reg(Register::ProgramCounter, value),
            final(self).cycles_to_run == old(self).cycles_to_run,
    {
        self.set_reg(Register::ProgramCounter, value);
    }

    pub fn set_reg_sp(&mut self, value: u8)
        ensures
            final(self)@ == old(self)@.with_reg(Register::StackPointer, value),
            final(self).cycles_to_run == old(self).cycles_to_run,
    {
        self.set_reg(Register::StackPointer, value);
    }

    pub fn set_reg_b(&mut self, value: u8)
        ensures
            final(self)@ == old(self)@.with_reg(Register::B, value),
            final(self).cycles_to_run == old(self).cycles_to_run,
    {
        self.set_reg(Register::B, value);
    }

    pub fn set_reg_c(&mut self, value: u8)
        ensures
            final(self)@ == old(self)@.with_reg(Register::C, value),
            final(self).cycles_to_run == old(self).cycles_to_run,
    {
        self.set_reg(Register::C, value);
    }

    pub fn set_reg_d(&mut self, value: u8)
        ensures
            final(self)@ == old(self)@.with_reg(Register::D, value),
            final(self).cycles_to_run == old(self).cycles_to_run,
    {
        self.set_reg(Register::D, value);
    }

    pub fn set_reg_e(&mut self, value: u8)
        ensures
            final(self)@ == old(self)@.with_reg(Register::E, value),
            final(self).cycles_to_run == old(self).cycles_to_run,
    {
        self.set_reg(Register::E, value);
    }

    pub fn set_reg(&mut self, register: Register, value: u8)
        ensures
            final(self)@ == old(self)@.with_reg(register, value),
            final(self).cycles_to_run == old(self).cycles_to_run,
    {
        let i = register.register_index();
        self.main.registers[i] = value;
        assert(self@ =~= old(self)@.with_reg(register, value));
    }

    /// Whether any bit of `mask` is set in the flags register.
    pub fn get_flag(&self, mask: u8) -> (r: bool)
        ensures
            r == self@.flag(mask),
    {
        self.get_reg_flags() & mask != 0
    }

    pub fn get_flag_z(&self) -> (r: bool)
        ensures
            r == self@.flag(FLAG_Z),
    {
        self.get_flag(CellState::FLAG_Z_MASK)
    }

    pub fn get_flag_n(&self) -> (r: bool)
        ensures
            r == self@.flag(FLAG_N),
    {
        self.get_flag(CellState::FLAG_N_MASK)
    }

    pub fn get_flag_c(&self) -> (r: bool)
        ensures
            r == self@.flag(FLAG_C),
    {
        self.get_flag(CellState::FLAG_C_MASK)
    }

    /// Set or clear the bits of `mask` in the flags register.
    pub fn set_flag(&mut self, mask: u8, value: bool)
        ensures
            final(self)@ == old(self)@.with_flag(mask, value),
            final(self).cycles_to_run == old(self).cycles_to_run,
    {
        let flags = self.get_reg_flags();
        if value {
            self.set_reg_flags(flags | mask);
        } else {
            self.set_reg_flags(flags & !mask);
        }
    }

    pub fn set_flag_z(&mut self, value: bool)
        ensures
            final(self)@ == old(self)@.with_flag(FLAG_Z, value),
            final(self).cycles_to_run == old(self).cycles_to_run,
    {
        self.set_flag(CellState::FLAG_Z_MASK, value);
    }

    pub fn set_flag_n(&mut self, value: bool)
        ensures
            final(self)@ == old(self)@.with_flag(FLAG_N, value),
            final(self).cycles_to_run == old(self).cycles_to_run,
    {
        self.set_flag(CellState::FLAG_N_MASK, value);
    }

    pub fn set_flag_c(&mut self, value: bool)
        ensures
            final(self)@ == old(self)@.with_flag(FLAG_C, value),
            final(self).cycles_to_run == old(self).cycles_to_run,
    {
        self.set_flag(CellState::FLAG_C_MASK, value);
    }

    /// Set the zero, negative and carry flags, keeping the other flag bits.
    pub fn set_flags_znc(&mut self, z: bool, n: bool, c: bool)
        ensures
            final(self)@ == old(self)@.with_znc(z, n, c),
            final(self).cycles_to_run == old(self).cycles_to_run,
    {
        proof {
            lemma_set_flags(old(self)@.flags(), z, n, c);
        }
        self.set_flag_z(z);
        self.set_flag_n(n);
        self.set_flag_c(c);
        assert(self@.main.registers =~= old(self)@.with_znc(z, n, c).main.registers);
        assert(self@ =~= old(self)@.with_znc(z, n, c));
    }
}

} // verus!
