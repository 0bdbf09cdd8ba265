use code_selection::{
    CellPair, CellState, Instruction, InstructionCompare, InstructionDec, InstructionInc,
    InstructionJump, InstructionLeftShift, InstructionLoad, InstructionNop, InstructionReplicate,
    InstructionRet, InstructionRightShift, ProcessInstruction, Register,
};

const Z: u8 = 1;
const N: u8 = 2;
const C: u8 = 4;

fn pair_with_program(program: &[u8]) -> CellPair {
    let mut memory = [0u8; 128];
    memory[..program.len()].copy_from_slice(program);
    CellPair::new(CellState::new(memory, [0u8; 8]), CellState::new([0u8; 128], [0u8; 8]))
}

fn step(pair: &mut CellPair) {
    let instruction = pair.read_instruction();
    instruction.process(pair);
}

fn run_one(instruction: Instruction, pair: &mut CellPair) {
    instruction.process(pair);
}

#[test]
fn load_immediate_then_add() {
    let mut pair = pair_with_program(&[0x18, 0x2A, 0x20]);
    step(&mut pair);
    step(&mut pair);
    assert_eq!(pair.get_reg_acc(), 0x54);
    assert!(!pair.get_flag_z());
    assert!(!pair.get_flag_c());
    assert!(!pair.get_flag_n());
    assert_eq!(pair.get_reg_pc(), 0x03);
}

#[test]
fn sub_to_zero_sets_z() {
    let mut pair = pair_with_program(&[0x18, 0x05, 0x30]);
    step(&mut pair);
    step(&mut pair);
    assert_eq!(pair.get_reg_acc(), 0);
    assert!(pair.get_flag_z());
    assert!(pair.get_flag_n());
    assert!(!pair.get_flag_c());
}

#[test]
fn conditional_jump_taken() {
    let mut pair = pair_with_program(&[0x18, 0x00, 0x30, 0xFB, 0x10]);
    step(&mut pair);
    step(&mut pair);
    step(&mut pair);
    assert_eq!(pair.get_reg_pc(), 0x10);
    assert_eq!(pair.get_reg_sp(), 0xFF);
    assert_eq!(pair.get_memory(pair.get_reg_sp()), 0x05);
    assert_eq!(pair.neighbor.memory[127], 0x05);
}

#[test]
fn conditional_jump_not_taken() {
    let mut pair = pair_with_program(&[0x18, 0x01, 0xFB, 0x10]);
    step(&mut pair);
    step(&mut pair);
    // the skipped jump leaves its operand to be read as the next opcode
    assert_eq!(pair.get_reg_pc(), 0x03);
    assert_eq!(pair.get_reg_sp(), 0x00);
}

#[test]
fn push_pop_round_trip() {
    // LOAD A,0xAB; PUSH A; LOAD A,0; POP A
    let mut pair = pair_with_program(&[0x18, 0xAB, 0xA0, 0x18, 0x00, 0xB0]);
    pair.set_reg_sp(0x40);
    for _ in 0..4 {
        step(&mut pair);
    }
    assert_eq!(pair.get_reg_acc(), 0xAB);
    assert_eq!(pair.get_reg_sp(), 0x40);
}

#[test]
fn cross_cell_memory_access() {
    // LOAD A,0x80; LOAD B,[A]
    let mut pair = pair_with_program(&[0x18, 0x80, 0x14]);
    pair.neighbor.memory[0] = 0x77;
    step(&mut pair);
    step(&mut pair);
    assert_eq!(pair.get_reg_b(), 0x77);
    assert_eq!(pair.get_memory(0x80), 0x77);
}

#[test]
fn store_reaches_neighbor() {
    // LOAD A,0x85; LOAD C,A (0x1D); STORE [A],C (0x0D)
    let mut pair = pair_with_program(&[0x18, 0x85, 0x1D, 0x0D]);
    step(&mut pair);
    step(&mut pair);
    step(&mut pair);
    assert_eq!(pair.get_reg_c(), 0x85);
    assert_eq!(pair.neighbor.memory[5], 0x85);
}

#[test]
fn add_wraps_and_sets_carry() {
    let mut pair = pair_with_program(&[0x18, 200, 0x24]);
    pair.set_reg_b(100);
    step(&mut pair);
    step(&mut pair);
    assert_eq!(pair.get_reg_acc(), 44);
    assert_eq!(pair.get_reg_flags() & (Z | N | C), C);
}

#[test]
fn add_to_exactly_256_sets_zero_and_carry() {
    let mut pair = pair_with_program(&[0x18, 0x80, 0x20]);
    step(&mut pair);
    step(&mut pair);
    assert_eq!(pair.get_reg_acc(), 0);
    assert_eq!(pair.get_reg_flags() & (Z | N | C), Z | C);
}

#[test]
fn sub_borrows() {
    let mut pair = pair_with_program(&[0x18, 5, 0x34]);
    pair.set_reg_b(10);
    step(&mut pair);
    step(&mut pair);
    assert_eq!(pair.get_reg_acc(), 251);
    assert_eq!(pair.get_reg_flags() & (Z | N | C), N | C);
}

#[test]
fn flags_keep_other_bits() {
    let mut pair = pair_with_program(&[0x18, 1, 0x20]);
    pair.set_reg_flags(0xF0);
    step(&mut pair);
    step(&mut pair);
    assert_eq!(pair.get_reg_acc(), 2);
    assert_eq!(pair.get_reg_flags(), 0xF0);
}

#[test]
fn logic_ops_clear_carry() {
    // LOAD A,0x0F; LOAD B,A; LOAD A,0xF0; AND A,B; OR A,B; XOR A,B
    let mut pair = pair_with_program(&[0x18, 0x0F, 0x1C, 0x18, 0xF0, 0x44, 0x54, 0x64]);
    pair.set_reg_flags(C);
    for _ in 0..4 {
        step(&mut pair);
    }
    assert_eq!(pair.get_reg_acc(), 0);
    assert_eq!(pair.get_reg_flags() & (Z | N | C), Z);
    step(&mut pair);
    assert_eq!(pair.get_reg_acc(), 0x0F);
    assert_eq!(pair.get_reg_flags() & (Z | N | C), 0);
    step(&mut pair);
    assert_eq!(pair.get_reg_acc(), 0);
    assert_eq!(pair.get_reg_flags() & (Z | N | C), Z);
}

#[test]
fn not_inverts_register() {
    // NOT B
    let mut pair = pair_with_program(&[0x74]);
    pair.set_reg_b(0xFF);
    step(&mut pair);
    assert_eq!(pair.get_reg_b(), 0);
    assert_eq!(pair.get_reg_flags() & (Z | N | C), Z);
}

#[test]
fn increment_and_decrement_wrap() {
    let mut pair = pair_with_program(&[]);
    pair.set_reg_b(255);
    run_one(Instruction::Inc(InstructionInc::reg(Register::B)), &mut pair);
    assert_eq!(pair.get_reg_b(), 0);
    assert_eq!(pair.get_reg_flags() & (Z | N | C), Z | C);
    run_one(Instruction::Dec(InstructionDec::reg(Register::B)), &mut pair);
    assert_eq!(pair.get_reg_b(), 255);
    assert_eq!(pair.get_reg_flags() & (Z | N | C), N | C);
    run_one(Instruction::Dec(InstructionDec::reg(Register::B)), &mut pair);
    assert_eq!(pair.get_reg_b(), 254);
    assert_eq!(pair.get_reg_flags() & (Z | N | C), N);
}

#[test]
fn shifts_move_bits_into_carry() {
    let mut pair = pair_with_program(&[]);
    pair.set_reg_d(0x81);
    run_one(Instruction::LeftShift(InstructionLeftShift::reg(Register::D)), &mut pair);
    assert_eq!(pair.get_reg_d(), 0x02);
    assert_eq!(pair.get_reg_flags() & (Z | N | C), C);
    pair.set_reg_e(0x03);
    run_one(Instruction::RightShift(InstructionRightShift::reg(Register::E)), &mut pair);
    assert_eq!(pair.get_reg_e(), 0x01);
    assert_eq!(pair.get_reg_flags() & (Z | N | C), C);
    pair.set_reg_e(0x80);
    run_one(Instruction::LeftShift(InstructionLeftShift::reg(Register::E)), &mut pair);
    assert_eq!(pair.get_reg_e(), 0);
    assert_eq!(pair.get_reg_flags() & (Z | N | C), Z | C);
}

#[test]
fn compare_sets_flags_only() {
    // LOAD A,3; CMP A,5; CMP A,3
    let mut pair = pair_with_program(&[0x18, 3, 0xF0, 5, 0xF0, 3]);
    step(&mut pair);
    step(&mut pair);
    assert_eq!(pair.get_reg_acc(), 3);
    assert_eq!(pair.get_reg_flags() & (Z | N | C), N | C);
    step(&mut pair);
    assert_eq!(pair.get_reg_flags() & (Z | N | C), Z | N);
    assert_eq!(pair.get_reg_pc(), 6);
}

#[test]
fn call_and_return() {
    // CALL imm 0x10 (unconditional, 0xFD); at 0x10: RET (0xFE)
    let mut program = [0u8; 0x11];
    program[0] = 0xFD;
    program[1] = 0x10;
    program[0x10] = 0xFE;
    let mut pair = pair_with_program(&program);
    step(&mut pair);
    assert_eq!(pair.get_reg_pc(), 0x10);
    assert_eq!(pair.get_reg_sp(), 0xFF);
    step(&mut pair);
    assert_eq!(pair.get_reg_pc(), 0x02);
    assert_eq!(pair.get_reg_sp(), 0x00);
}

#[test]
fn jump_through_register_pushes_pc() {
    // LOAD A,0x20; JMP A (0x80)
    let mut pair = pair_with_program(&[0x18, 0x20, 0x80]);
    pair.set_reg_sp(0x10);
    step(&mut pair);
    step(&mut pair);
    assert_eq!(pair.get_reg_pc(), 0x20);
    assert_eq!(pair.get_reg_sp(), 0x0F);
    assert_eq!(pair.get_memory(0x0F), 0x03);
}

#[test]
fn conditional_return_skipped_without_z() {
    let mut pair = pair_with_program(&[0xFF]);
    step(&mut pair);
    assert_eq!(pair.get_reg_pc(), 1);
    assert_eq!(pair.get_reg_sp(), 0);
}

#[test]
fn decoding_covers_every_opcode() {
    let expected = [
        (0x00u8, Instruction::Nop(InstructionNop)),
        (0x07, Instruction::Load(InstructionLoad::a_reg(Register::E))),
        (0x18, Instruction::Load(InstructionLoad::a_byte)),
        (0x19, Instruction::Load(InstructionLoad::reg_a(Register::Flags))),
        (0xF0, Instruction::Compare(InstructionCompare::a_byte)),
        (0xF8, Instruction::Compare(InstructionCompare::atA_byte)),
        (0xF9, Instruction::Replicate(InstructionReplicate)),
        (0xFA, Instruction::Jmp(InstructionJump::byte { if_z: false })),
        (0xFE, Instruction::Ret(InstructionRet { if_z: false })),
        (0xFF, Instruction::Ret(InstructionRet { if_z: true })),
    ];
    for (opcode, instruction) in expected {
        let mut pair = pair_with_program(&[opcode]);
        assert_eq!(pair.read_instruction(), instruction);
        assert_eq!(pair.get_reg_pc(), 1);
    }
    let mut seen = Vec::new();
    for opcode in 0..=255u8 {
        let mut pair = pair_with_program(&[opcode]);
        let instruction = pair.read_instruction();
        assert!(!seen.contains(&instruction));
        seen.push(instruction);
    }
    assert_eq!(seen.len(), 256);
}

#[test]
fn register_from_low_bits() {
    assert_eq!(Register::from(0u8), Register::Accumulator);
    assert_eq!(Register::from(13u8), Register::C);
    assert_eq!(Register::from(0xFFu8), Register::E);
}

#[test]
fn full_tick_runs_thirty_eight_instructions() {
    let mut pair = pair_with_program(&[]);
    pair.tick();
    assert_eq!(pair.get_reg_pc(), 38);
    assert_eq!(pair.cycles_to_run, 0);
}

#[test]
fn get_reg_mut_writes_register() {
    let mut pair = pair_with_program(&[]);
    *pair.get_reg_mut(Register::D) = 9;
    assert_eq!(pair.get_reg_d(), 9);
    assert_eq!(pair.main.registers[6], 9);
}

#[test]
fn tile_pixels_pack_registers_then_memory() {
    let mut memory = [0u8; 128];
    for (a, byte) in memory.iter_mut().enumerate() {
        *byte = a as u8 + 1;
    }
    let cell = CellState::new(memory, [10, 11, 12, 13, 14, 15, 16, 17]);
    let pixels = cell.pixels();
    assert_eq!(pixels.len(), 46);
    assert_eq!(pixels[0], (10, 11, 12));
    assert_eq!(pixels[1], (13, 14, 15));
    assert_eq!(pixels[2], (16, 17, 0));
    assert_eq!(pixels[3], (1, 2, 3));
    assert_eq!(pixels[4], (4, 5, 6));
    assert_eq!(pixels[45], (127, 128, 0));
}

#[test]
fn random_cells_have_full_memory() {
    let cell = CellState::random();
    assert_eq!(cell.memory.len(), 128);
    assert_eq!(cell.registers.len(), 8);
}
