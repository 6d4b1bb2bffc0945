use z80_undead::cpu::decoder::{Decoder, Prefix};
use z80_undead::cpu::instruction::{create_nop, Instruction, InstructionType, Op, Operands};
use z80_undead::cpu::tables::InstructionTables;
use z80_undead::cpu::Cpu;
use z80_undead::EmulatorError;

#[test]
fn test_nop_decoding() {
    let mut decoder = Decoder::new();
    let instruction = decoder.decode(0x00).unwrap();
    assert_eq!(instruction.length, 1);
    assert_eq!(instruction.mnemonic, "NOP");
    assert_eq!(instruction.instruction_type, InstructionType::Control);
    assert_eq!(instruction.t_states, 4);
}

#[test]
fn decoder_test_invalid_opcode() {
    let mut decoder = Decoder::new();
    let result = decoder.decode(0xFF);
    assert!(matches!(result, Err(EmulatorError::InvalidOpcode(0xFF))));
}

#[test]
fn test_prefix_handling() {
    let mut decoder = Decoder::new();
    assert!(decoder.handle_prefix(0xCB));
    assert_eq!(decoder.current_prefix, Prefix::Cb);
    decoder.current_prefix = Prefix::NoPrefix;
    assert!(decoder.handle_prefix(0xDD));
    assert_eq!(decoder.current_prefix, Prefix::Dd);
    assert!(decoder.handle_prefix(0xCB));
    assert_eq!(decoder.current_prefix, Prefix::DdCb);
}

#[test]
fn test_instruction_creation() {
    let nop = create_nop();
    assert_eq!(nop.length, 1);
}

#[test]
fn instruction_test_nop_execution() {
    let mut cpu = Cpu::new();
    let nop = create_nop();
    let pc = cpu.pc;
    cpu.execute(nop.op, Operands { d: 0, n: 0, nn: 0 });
    assert_eq!(cpu.pc, pc);
}

#[test]
fn test_instruction_display() {
    let instruction = Instruction::new(1, Op::Nop, "NOP", InstructionType::Control, 4);
    assert_eq!(instruction.label(), "NOP (Control)");
}

#[test]
fn test_instruction_type_display() {
    assert_eq!(InstructionType::Load.name(), "Load");
    assert_eq!(InstructionType::Arithmetic.name(), "Arithmetic");
    assert_eq!(InstructionType::BitManip.name(), "Bit Manipulation");
}

#[test]
fn test_nop_instruction() {
    let tables = InstructionTables::new();
    let nop = tables.lookup_main(0x00).expect("NOP instruction should exist");
    assert_eq!(nop.mnemonic, "NOP");
    assert_eq!(nop.length, 1);
    assert_eq!(nop.t_states, 4);
    assert_eq!(nop.instruction_type, InstructionType::Control);
}

#[test]
fn tables_test_invalid_opcode() {
    let tables = InstructionTables::new();
    assert!(tables.lookup_main(0xFF).is_none());
}

#[test]
fn test_cb_prefix_instructions() {
    let tables = InstructionTables::new();
    let rlc_b = tables.lookup_cb(0x00).expect("RLC B instruction should exist");
    assert_eq!(rlc_b.mnemonic, "RLC B");
    assert_eq!(rlc_b.length, 2);
    assert_eq!(rlc_b.t_states, 8);
    assert_eq!(rlc_b.instruction_type, InstructionType::Rotate);
    let rlc_hl = tables.lookup_cb(0x06).expect("RLC (HL) instruction should exist");
    assert_eq!(rlc_hl.mnemonic, "RLC (HL)");
    assert_eq!(rlc_hl.length, 2);
    assert_eq!(rlc_hl.t_states, 15);
    assert_eq!(rlc_hl.instruction_type, InstructionType::Rotate);
    let bit_7_a = tables.lookup_cb(0x7F).expect("BIT 7,A instruction should exist");
    assert_eq!(bit_7_a.mnemonic, "BIT 7, A");
    assert_eq!(bit_7_a.length, 2);
    assert_eq!(bit_7_a.t_states, 8);
    assert_eq!(bit_7_a.instruction_type, InstructionType::BitManip);
}

#[test]
fn test_bit_instructions() {
    let tables = InstructionTables::new();
    let bit_0_b = tables.lookup_cb(0x40).expect("BIT 0,B instruction should exist");
    assert_eq!(bit_0_b.mnemonic, "BIT 0, B");
    assert_eq!(bit_0_b.length, 2);
    assert_eq!(bit_0_b.t_states, 8);
    assert_eq!(bit_0_b.instruction_type, InstructionType::BitManip);
    let bit_7_a = tables.lookup_cb(0x7F).expect("BIT 7,A instruction should exist");
    assert_eq!(bit_7_a.mnemonic, "BIT 7, A");
    assert_eq!(bit_7_a.length, 2);
    assert_eq!(bit_7_a.t_states, 8);
    assert_eq!(bit_7_a.instruction_type, InstructionType::BitManip);
    let bit_3_hl = tables.lookup_cb(0x5E).expect("BIT 3,(HL) instruction should exist");
    assert_eq!(bit_3_hl.mnemonic, "BIT 3, (HL)");
    assert_eq!(bit_3_hl.length, 2);
    assert_eq!(bit_3_hl.t_states, 12);
    assert_eq!(bit_3_hl.instruction_type, InstructionType::BitManip);
}

#[test]
fn test_ix_load_instructions() {
    let tables = InstructionTables::new();
    let load_b_ix = tables.lookup_ddfd(0x46).expect("LD B,(IX+d) should exist");
    assert_eq!(load_b_ix.mnemonic, "LD B, (IX+d)");
    assert_eq!(load_b_ix.length, 3);
    assert_eq!(load_b_ix.t_states, 19);
    assert_eq!(load_b_ix.instruction_type, InstructionType::Load);
    let load_a_ix = tables.lookup_ddfd(0x7E).expect("LD A,(IX+d) should exist");
    assert_eq!(load_a_ix.mnemonic, "LD A, (IX+d)");
    assert_eq!(load_a_ix.length, 3);
    assert_eq!(load_a_ix.t_states, 19);
    assert_eq!(load_a_ix.instruction_type, InstructionType::Load);
}

#[test]
fn test_iy_load_instructions() {
    let tables = InstructionTables::new();
    let load_b_iy = tables.lookup_ddfd(0x46 | 0x80).expect("LD B,(IY+d) should exist");
    assert_eq!(load_b_iy.mnemonic, "LD B, (IY+d)");
    assert_eq!(load_b_iy.length, 3);
    assert_eq!(load_b_iy.t_states, 19);
    assert_eq!(load_b_iy.instruction_type, InstructionType::Load);
}

#[test]
fn test_ix_arithmetic() {
    let tables = InstructionTables::new();
    let add_ix_bc = tables.lookup_ddfd(0x84).expect("ADD IX,BC should exist");
    assert_eq!(add_ix_bc.mnemonic, "ADD IX, BC");
    assert_eq!(add_ix_bc.length, 2);
    assert_eq!(add_ix_bc.t_states, 15);
    assert_eq!(add_ix_bc.instruction_type, InstructionType::Arithmetic);
}

#[test]
fn test_ed_block_instructions() {
    let tables = InstructionTables::new();
    let ldi = tables.lookup_ed(0xA0).expect("LDI instruction should exist");
    assert_eq!(ldi.mnemonic, "LDI");
    assert_eq!(ldi.length, 2);
    assert_eq!(ldi.t_states, 16);
    assert_eq!(ldi.instruction_type, InstructionType::Block);
    let ldir = tables.lookup_ed(0xB0).expect("LDIR instruction should exist");
    assert_eq!(ldir.mnemonic, "LDIR");
    assert_eq!(ldir.length, 2);
    assert_eq!(ldir.t_states, 21);
    assert_eq!(ldir.instruction_type, InstructionType::Block);
}

#[test]
fn test_ed_io_instructions() {
    let tables = InstructionTables::new();
    let in_b = tables.lookup_ed(0x40).expect("IN B,(C) should exist");
    assert_eq!(in_b.mnemonic, "IN B,(C)");
    assert_eq!(in_b.length, 2);
    assert_eq!(in_b.t_states, 12);
    assert_eq!(in_b.instruction_type, InstructionType::IO);
    let out_a = tables.lookup_ed(0x79).expect("OUT (C),A should exist");
    assert_eq!(out_a.mnemonic, "OUT (C),A");
    assert_eq!(out_a.length, 2);
    assert_eq!(out_a.t_states, 12);
    assert_eq!(out_a.instruction_type, InstructionType::IO);
}

#[test]
fn test_ed_arithmetic_instructions() {
    let tables = InstructionTables::new();
    let neg = tables.lookup_ed(0x4C).expect("NEG instruction should exist");
    assert_eq!(neg.mnemonic, "NEG");
    assert_eq!(neg.length, 2);
    assert_eq!(neg.t_states, 8);
    assert_eq!(neg.instruction_type, InstructionType::Arithmetic);
    let rld = tables.lookup_ed(0x6F).expect("RLD instruction should exist");
    assert_eq!(rld.mnemonic, "RLD");
    assert_eq!(rld.length, 2);
    assert_eq!(rld.t_states, 18);
    assert_eq!(rld.instruction_type, InstructionType::Arithmetic);
}

#[test]
fn test_decoder_prefix_state() {
    // CB prefix state
    let mut decoder = Decoder::new();
    decoder.decode(0xCB).unwrap();
    assert_eq!(decoder.current_prefix, Prefix::Cb);
    // DD prefix state
    let mut decoder = Decoder::new();
    decoder.decode(0xDD).unwrap();
    assert_eq!(decoder.current_prefix, Prefix::Dd);
    // nested DD CB prefix state
    let mut decoder = Decoder::new();
    decoder.decode(0xDD).unwrap();
    decoder.decode(0xCB).unwrap();
    assert_eq!(decoder.current_prefix, Prefix::DdCb);
}

#[test]
fn test_decoder_reset() {
    let mut cpu = Cpu::new();
    cpu.decoder.current_prefix = Prefix::Cb;
    cpu.decoder.reset();
    assert_eq!(cpu.decoder.current_prefix, Prefix::NoPrefix);
}

#[test]
fn dd_cb_sequence_resolves_from_indexed_bit_table() {
    let mut decoder = Decoder::new();
    assert_eq!(decoder.current_prefix, Prefix::NoPrefix);
    assert_eq!(decoder.decode(0xDD).unwrap().op, Op::Prefix);
    assert_eq!(decoder.current_prefix, Prefix::Dd);
    assert_eq!(decoder.decode(0xCB).unwrap().op, Op::Prefix);
    assert_eq!(decoder.current_prefix, Prefix::DdCb);
    let instruction = decoder.decode(0x06).unwrap();
    assert_eq!(decoder.current_prefix, Prefix::NoPrefix);
    let tables = InstructionTables::new();
    let base = tables.lookup_ddcb(0x06).unwrap();
    assert_eq!(instruction.op, base.op);
    assert_eq!(instruction.t_states, 4 + 4 + base.t_states);
    assert_eq!(instruction.t_states, 23);
}

#[test]
fn fd_prefix_selects_iy_form() {
    let mut decoder = Decoder::new();
    decoder.decode(0xFD).unwrap();
    let instruction = decoder.decode(0x21).unwrap();
    assert_eq!(
        instruction.op,
        Op::LdIdxNn(z80_undead::cpu::registers::IndexRegister::IY)
    );
    assert_eq!(instruction.t_states, 14);
}

#[test]
fn undefined_ed_opcode_is_invalid() {
    let mut decoder = Decoder::new();
    decoder.decode(0xED).unwrap();
    assert!(matches!(decoder.decode(0x00), Err(EmulatorError::InvalidOpcode(0x00))));
    assert_eq!(decoder.current_prefix, Prefix::NoPrefix);
}

#[test]
fn main_table_names_and_costs() {
    let tables = InstructionTables::new();
    let ld = tables.lookup_main(0x78).unwrap();
    assert_eq!(ld.mnemonic, "LD A, B");
    assert_eq!(ld.t_states, 4);
    let ld_hl = tables.lookup_main(0x7E).unwrap();
    assert_eq!(ld_hl.mnemonic, "LD A, (HL)");
    assert_eq!(ld_hl.t_states, 7);
    assert_eq!(tables.lookup_main(0xC7).unwrap().mnemonic, "RST 00H");
    assert_eq!(tables.lookup_main(0x20).unwrap().mnemonic, "JR NZ, d");
    assert!(tables.lookup_main(0xCB).is_none());
    assert!(tables.lookup_main(0xDD).is_none());
    assert!(tables.lookup_ddcb(0x00).is_none());
    assert_eq!(tables.lookup_ddcb(0x46).unwrap().mnemonic, "BIT 0, (IX+d)");
}
