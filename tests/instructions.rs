use z80_undead::cpu::flags::{FLAG_C, FLAG_H, FLAG_N, FLAG_PV, FLAG_S, FLAG_X, FLAG_Y, FLAG_Z};
use z80_undead::cpu::interrupts::InterruptMode;
use z80_undead::cpu::registers::{Register, RegisterPair};
use z80_undead::cpu::Cpu;

#[test]
fn test_and_a() {
    let mut cpu = Cpu::new();
    cpu.a = 0b11001100;
    cpu.and_a(0b10101010);
    assert_eq!(cpu.a, 0b10001000);
    assert!(cpu.get_flag(FLAG_H));
    assert!(!cpu.get_flag(FLAG_N));
    assert!(!cpu.get_flag(FLAG_C));
}

#[test]
fn test_or_a() {
    let mut cpu = Cpu::new();
    cpu.a = 0b11001100;
    cpu.or_a(0b10101010);
    assert_eq!(cpu.a, 0b11101110);
    assert!(!cpu.get_flag(FLAG_H));
    assert!(!cpu.get_flag(FLAG_N));
    assert!(!cpu.get_flag(FLAG_C));
}

#[test]
fn test_xor_a() {
    let mut cpu = Cpu::new();
    cpu.a = 0b11001100;
    cpu.xor_a(0b10101010);
    assert_eq!(cpu.a, 0b01100110);
    assert!(!cpu.get_flag(FLAG_H));
    assert!(!cpu.get_flag(FLAG_N));
    assert!(!cpu.get_flag(FLAG_C));
}

#[test]
fn test_cp_a() {
    let mut cpu = Cpu::new();
    cpu.a = 0x40;
    cpu.cp_a(0x40);
    assert!(cpu.get_flag(FLAG_Z));
    assert!(!cpu.get_flag(FLAG_C));
    assert!(cpu.get_flag(FLAG_N));
    cpu.a = 0x40;
    cpu.cp_a(0x41);
    assert!(!cpu.get_flag(FLAG_Z));
    assert!(cpu.get_flag(FLAG_C));
    assert!(cpu.get_flag(FLAG_N));
}

#[test]
fn test_bit() {
    let mut cpu = Cpu::new();
    cpu.bit(3, 0b00001000);
    assert!(!cpu.get_flag(FLAG_Z));
    assert!(cpu.get_flag(FLAG_H));
    assert!(!cpu.get_flag(FLAG_N));
    cpu.bit(3, 0b11110111);
    assert!(cpu.get_flag(FLAG_Z));
    assert!(cpu.get_flag(FLAG_H));
    assert!(!cpu.get_flag(FLAG_N));
}

#[test]
fn test_set_bit() {
    let mut cpu = Cpu::new();
    let mut value = 0b11110111;
    cpu.set_bit(3, &mut value);
    assert_eq!(value, 0b11111111);
}

#[test]
fn test_res_bit() {
    let mut cpu = Cpu::new();
    let mut value = 0b11111111;
    cpu.res_bit(3, &mut value);
    assert_eq!(value, 0b11110111);
}

#[test]
fn test_rotations() {
    let mut cpu = Cpu::new();
    let rlc_result = cpu.rlc(0b10000001);
    assert_eq!(rlc_result, 0b00000011);
    assert!(cpu.get_flag(FLAG_C));
    let rrc_result = cpu.rrc(0b10000001);
    assert_eq!(rrc_result, 0b11000000);
    assert!(cpu.get_flag(FLAG_C));
    cpu.set_flag(FLAG_C, true);
    let rl_result = cpu.rl(0b10000000);
    assert_eq!(rl_result, 0b00000001);
    assert!(cpu.get_flag(FLAG_C));
    cpu.set_flag(FLAG_C, true);
    let rr_result = cpu.rr(0b00000001);
    assert_eq!(rr_result, 0b10000000);
    assert!(cpu.get_flag(FLAG_C));
}

#[test]
fn test_shifts() {
    let mut cpu = Cpu::new();
    let sla_result = cpu.sla(0b10000001);
    assert_eq!(sla_result, 0b00000010);
    assert!(cpu.get_flag(FLAG_C));
    let sra_result = cpu.sra(0b10000001);
    assert_eq!(sra_result, 0b11000000);
    assert!(cpu.get_flag(FLAG_C));
    let srl_result = cpu.srl(0b10000001);
    assert_eq!(srl_result, 0b01000000);
    assert!(cpu.get_flag(FLAG_C));
}

#[test]
fn test_rlca() {
    let mut cpu = Cpu::new();
    cpu.a = 0b10000001;
    cpu.rlca();
    assert_eq!(cpu.a, 0b00000011);
    assert!(cpu.get_flag(FLAG_C));
    assert!(!cpu.get_flag(FLAG_H));
    assert!(!cpu.get_flag(FLAG_N));
}

#[test]
fn test_rrca() {
    let mut cpu = Cpu::new();
    cpu.a = 0b10000001;
    cpu.rrca();
    assert_eq!(cpu.a, 0b11000000);
    assert!(cpu.get_flag(FLAG_C));
    assert!(!cpu.get_flag(FLAG_H));
    assert!(!cpu.get_flag(FLAG_N));
}

#[test]
fn test_rla() {
    let mut cpu = Cpu::new();
    cpu.a = 0b10000001;
    cpu.set_flag(FLAG_C, true);
    cpu.rla();
    assert_eq!(cpu.a, 0b00000011);
    assert!(cpu.get_flag(FLAG_C));
    assert!(!cpu.get_flag(FLAG_H));
    assert!(!cpu.get_flag(FLAG_N));
}

#[test]
fn test_rra() {
    let mut cpu = Cpu::new();
    cpu.a = 0b10000001;
    cpu.set_flag(FLAG_C, true);
    cpu.rra();
    assert_eq!(cpu.a, 0b11000000);
    assert!(cpu.get_flag(FLAG_C));
    assert!(!cpu.get_flag(FLAG_H));
    assert!(!cpu.get_flag(FLAG_N));
}

#[test]
fn test_sla() {
    let mut cpu = Cpu::new();
    let result = cpu.sla(0b10000001);
    assert_eq!(result, 0b00000010);
    assert!(cpu.get_flag(FLAG_C));
    assert!(!cpu.get_flag(FLAG_H));
    assert!(!cpu.get_flag(FLAG_N));
}

#[test]
fn test_sra() {
    let mut cpu = Cpu::new();
    let result = cpu.sra(0b10000001);
    assert_eq!(result, 0b11000000);
    assert!(cpu.get_flag(FLAG_C));
    assert!(!cpu.get_flag(FLAG_H));
    assert!(!cpu.get_flag(FLAG_N));
}

#[test]
fn test_srl() {
    let mut cpu = Cpu::new();
    let result = cpu.srl(0b10000001);
    assert_eq!(result, 0b01000000);
    assert!(cpu.get_flag(FLAG_C));
    assert!(!cpu.get_flag(FLAG_H));
    assert!(!cpu.get_flag(FLAG_N));
}

#[test]
fn test_ldi() {
    let mut cpu = Cpu::new();
    cpu.set_hl(0x1000);
    cpu.set_de(0x2000);
    cpu.set_bc(0x0003);
    cpu.a = 0x10;
    cpu.write_byte(0x1000, 0x42);
    cpu.ldi();
    assert_eq!(cpu.read_byte(0x2000), 0x42);
    assert_eq!(cpu.get_hl(), 0x1001);
    assert_eq!(cpu.get_de(), 0x2001);
    assert_eq!(cpu.get_bc(), 0x0002);
    assert!(cpu.get_flag(FLAG_PV));
}

#[test]
fn test_ldir() {
    let mut cpu = Cpu::new();
    cpu.set_hl(0x1000);
    cpu.set_de(0x2000);
    cpu.set_bc(0x0003);
    cpu.a = 0x10;
    cpu.write_byte(0x1000, 0x42);
    cpu.write_byte(0x1001, 0x43);
    cpu.write_byte(0x1002, 0x44);
    cpu.ldir();
    assert_eq!(cpu.read_byte(0x2000), 0x42);
    assert_eq!(cpu.read_byte(0x2001), 0x43);
    assert_eq!(cpu.read_byte(0x2002), 0x44);
    assert_eq!(cpu.get_hl(), 0x1003);
    assert_eq!(cpu.get_de(), 0x2003);
    assert_eq!(cpu.get_bc(), 0x0000);
    assert!(!cpu.get_flag(FLAG_PV));
}

#[test]
fn test_ldd() {
    let mut cpu = Cpu::new();
    cpu.set_hl(0x1002);
    cpu.set_de(0x2002);
    cpu.set_bc(0x0003);
    cpu.a = 0x10;
    cpu.write_byte(0x1002, 0x42);
    cpu.ldd();
    assert_eq!(cpu.read_byte(0x2002), 0x42);
    assert_eq!(cpu.get_hl(), 0x1001);
    assert_eq!(cpu.get_de(), 0x2001);
    assert_eq!(cpu.get_bc(), 0x0002);
    assert!(cpu.get_flag(FLAG_PV));
}

#[test]
fn test_lddr() {
    let mut cpu = Cpu::new();
    cpu.set_hl(0x1002);
    cpu.set_de(0x2002);
    cpu.set_bc(0x0003);
    cpu.a = 0x10;
    cpu.write_byte(0x1000, 0x42);
    cpu.write_byte(0x1001, 0x43);
    cpu.write_byte(0x1002, 0x44);
    cpu.lddr();
    assert_eq!(cpu.read_byte(0x2000), 0x42);
    assert_eq!(cpu.read_byte(0x2001), 0x43);
    assert_eq!(cpu.read_byte(0x2002), 0x44);
    assert_eq!(cpu.get_hl(), 0x0FFF);
    assert_eq!(cpu.get_de(), 0x1FFF);
    assert_eq!(cpu.get_bc(), 0x0000);
    assert!(!cpu.get_flag(FLAG_PV));
}

#[test]
fn test_cpi() {
    let mut cpu = Cpu::new();
    cpu.a = 0x42;
    cpu.set_hl(0x1000);
    cpu.set_bc(0x0003);
    cpu.write_byte(0x1000, 0x42);
    cpu.cpi();
    assert_eq!(cpu.get_hl(), 0x1001);
    assert_eq!(cpu.get_bc(), 0x0002);
    assert!(cpu.get_flag(FLAG_Z));
    assert!(cpu.get_flag(FLAG_PV));
}

#[test]
fn test_cpir() {
    let mut cpu = Cpu::new();
    cpu.a = 0x42;
    cpu.set_hl(0x1000);
    cpu.set_bc(0x0003);
    cpu.write_byte(0x1000, 0x41);
    cpu.write_byte(0x1001, 0x42);
    cpu.cpir();
    assert_eq!(cpu.get_hl(), 0x1002);
    assert_eq!(cpu.get_bc(), 0x0001);
    assert!(cpu.get_flag(FLAG_Z));
    assert!(cpu.get_flag(FLAG_PV));
}

#[test]
fn test_cpd() {
    let mut cpu = Cpu::new();
    cpu.a = 0x42;
    cpu.set_hl(0x1002);
    cpu.set_bc(0x0003);
    cpu.write_byte(0x1002, 0x42);
    cpu.cpd();
    assert_eq!(cpu.get_hl(), 0x1001);
    assert_eq!(cpu.get_bc(), 0x0002);
    assert!(cpu.get_flag(FLAG_Z));
    assert!(cpu.get_flag(FLAG_PV));
}

#[test]
fn test_cpdr() {
    let mut cpu = Cpu::new();
    cpu.a = 0x42;
    cpu.set_hl(0x1002);
    cpu.set_bc(0x0003);
    cpu.write_byte(0x1000, 0x42);
    cpu.write_byte(0x1001, 0x41);
    cpu.write_byte(0x1002, 0x40);
    cpu.cpdr();
    assert_eq!(cpu.get_hl(), 0x0FFF);
    assert_eq!(cpu.get_bc(), 0x0000);
    assert!(cpu.get_flag(FLAG_Z));
    assert!(!cpu.get_flag(FLAG_PV));
}

#[test]
fn test_jp() {
    let mut cpu = Cpu::new();
    cpu.pc = 0x1000;
    cpu.jp(true, 0x2000);
    assert_eq!(cpu.pc, 0x2000);
    cpu.pc = 0x1000;
    cpu.jp(false, 0x2000);
    assert_eq!(cpu.pc, 0x1000);
}

#[test]
fn test_jr() {
    let mut cpu = Cpu::new();
    cpu.pc = 0x1000;
    cpu.jr(true, 10);
    assert_eq!(cpu.pc, 0x100A);
    cpu.pc = 0x1000;
    cpu.jr(true, -10);
    assert_eq!(cpu.pc, 0x0FF6);
    cpu.pc = 0x1000;
    cpu.jr(false, 10);
    assert_eq!(cpu.pc, 0x1000);
}

#[test]
fn test_call_and_ret() {
    let mut cpu = Cpu::new();
    cpu.pc = 0x1000;
    cpu.sp = 0xFFFF;
    cpu.call(true, 0x2000);
    assert_eq!(cpu.pc, 0x2000);
    assert_eq!(cpu.sp, 0xFFFD);
    assert_eq!(cpu.read_word(cpu.sp), 0x1000);
    cpu.ret(true);
    assert_eq!(cpu.pc, 0x1000);
    assert_eq!(cpu.sp, 0xFFFF);
}

#[test]
fn test_rst() {
    let mut cpu = Cpu::new();
    cpu.pc = 0x1000;
    cpu.sp = 0xFFFF;
    cpu.rst(0x08);
    assert_eq!(cpu.pc, 0x0008);
    assert_eq!(cpu.sp, 0xFFFD);
    assert_eq!(cpu.read_word(cpu.sp), 0x1000);
}

#[test]
fn test_djnz() {
    let mut cpu = Cpu::new();
    cpu.pc = 0x1000;
    cpu.b = 2;
    cpu.djnz(10);
    assert_eq!(cpu.pc, 0x100A);
    assert_eq!(cpu.b, 1);
    cpu.djnz(10);
    assert_eq!(cpu.pc, 0x100A);
    assert_eq!(cpu.b, 0);
}

#[test]
fn control_flow_test_halt() {
    let mut cpu = Cpu::new();
    cpu.halt();
    assert!(cpu.halted);
}

#[test]
fn misc_test_halt() {
    let mut cpu = Cpu::new();
    cpu.halt();
    assert!(cpu.halted);
}

#[test]
fn test_cpl() {
    let mut cpu = Cpu::new();
    cpu.a = 0b10101010;
    cpu.cpl();
    assert_eq!(cpu.a, 0b01010101);
    assert!(cpu.get_flag(FLAG_H));
    assert!(cpu.get_flag(FLAG_N));
}

#[test]
fn test_ccf() {
    let mut cpu = Cpu::new();
    cpu.set_flag(FLAG_C, true);
    cpu.ccf();
    assert!(!cpu.get_flag(FLAG_C));
    assert!(cpu.get_flag(FLAG_H));
    assert!(!cpu.get_flag(FLAG_N));
    cpu.ccf();
    assert!(cpu.get_flag(FLAG_C));
    assert!(!cpu.get_flag(FLAG_H));
}

#[test]
fn test_scf() {
    let mut cpu = Cpu::new();
    cpu.set_flag(FLAG_C, false);
    cpu.scf();
    assert!(cpu.get_flag(FLAG_C));
    assert!(!cpu.get_flag(FLAG_H));
    assert!(!cpu.get_flag(FLAG_N));
}

#[test]
fn test_im_0() {
    let mut cpu = Cpu::new();
    cpu.im_0();
    assert_eq!(cpu.interrupt_mode, 0);
}

#[test]
fn test_im_1() {
    let mut cpu = Cpu::new();
    cpu.im_1();
    assert_eq!(cpu.interrupt_mode, 1);
}

#[test]
fn test_im_2() {
    let mut cpu = Cpu::new();
    cpu.im_2();
    assert_eq!(cpu.interrupt_mode, 2);
}

#[test]
fn test_rld() {
    let mut cpu = Cpu::new();
    cpu.a = 0x12;
    cpu.set_hl(0x2000);
    cpu.write_byte(0x2000, 0x34);
    cpu.rld();
    assert_eq!(cpu.a, 0x13, "Accumulator should be 0x13");
    assert_eq!(cpu.read_byte(0x2000), 0x42, "Memory at HL should be 0x42");
    assert!(!cpu.get_flag(FLAG_S), "S flag should be reset");
    assert!(!cpu.get_flag(FLAG_Z), "Z flag should be reset");
    assert!(!cpu.get_flag(FLAG_H), "H flag should be reset");
    assert!(!cpu.get_flag(FLAG_PV), "PV flag should be reset");
    assert!(!cpu.get_flag(FLAG_N), "N flag should be reset");
    cpu.a = 0x00;
    cpu.write_byte(0x2000, 0x00);
    cpu.rld();
    assert_eq!(cpu.a, 0x00, "Accumulator should be 0x00");
    assert_eq!(cpu.read_byte(0x2000), 0x00, "Memory at HL should be 0x00");
    assert!(cpu.get_flag(FLAG_Z), "Z flag should be set");
    assert!(cpu.get_flag(FLAG_PV), "PV flag should be set for A = 0x00");
}

#[test]
fn test_rrd() {
    let mut cpu = Cpu::new();
    cpu.a = 0x12;
    cpu.set_hl(0x2000);
    cpu.write_byte(0x2000, 0x34);
    cpu.rrd();
    assert_eq!(cpu.a, 0x14);
    assert_eq!(cpu.read_byte(0x2000), 0x23);
}

#[test]
fn test_ex_de_hl() {
    let mut cpu = Cpu::new();
    cpu.set_de(0x1234);
    cpu.set_hl(0x5678);
    cpu.ex_de_hl();
    assert_eq!(cpu.get_de(), 0x5678);
    assert_eq!(cpu.get_hl(), 0x1234);
}

#[test]
fn test_ex_af_af_prime() {
    let mut cpu = Cpu::new();
    cpu.a = 0x12;
    cpu.f = 0x34;
    cpu.a_alt = 0x56;
    cpu.f_alt = 0x78;
    cpu.ex_af_af_prime();
    assert_eq!(cpu.a, 0x56);
    assert_eq!(cpu.f, 0x78);
    assert_eq!(cpu.a_alt, 0x12);
    assert_eq!(cpu.f_alt, 0x34);
}

#[test]
fn test_exx() {
    let mut cpu = Cpu::new();
    cpu.b = 0x11;
    cpu.c = 0x22;
    cpu.d = 0x33;
    cpu.e = 0x44;
    cpu.h = 0x55;
    cpu.l = 0x66;
    cpu.b_alt = 0xAA;
    cpu.c_alt = 0xBB;
    cpu.d_alt = 0xCC;
    cpu.e_alt = 0xDD;
    cpu.h_alt = 0xEE;
    cpu.l_alt = 0xFF;
    cpu.exx();
    assert_eq!(cpu.b, 0xAA);
    assert_eq!(cpu.c, 0xBB);
    assert_eq!(cpu.d, 0xCC);
    assert_eq!(cpu.e, 0xDD);
    assert_eq!(cpu.h, 0xEE);
    assert_eq!(cpu.l, 0xFF);
    assert_eq!(cpu.b_alt, 0x11);
    assert_eq!(cpu.c_alt, 0x22);
    assert_eq!(cpu.d_alt, 0x33);
    assert_eq!(cpu.e_alt, 0x44);
    assert_eq!(cpu.h_alt, 0x55);
    assert_eq!(cpu.l_alt, 0x66);
}

#[test]
fn test_ld_r_r() {
    let mut cpu = Cpu::new();
    cpu.write_register(Register::B, 0x42);
    cpu.ld_r_r(Register::C, Register::B);
    assert_eq!(cpu.read_register(Register::C), 0x42);
}

#[test]
fn test_ld_r_n() {
    let mut cpu = Cpu::new();
    cpu.ld_r_n(Register::A, 0xFF);
    assert_eq!(cpu.read_register(Register::A), 0xFF);
}

#[test]
fn test_ld_hl_r() {
    let mut cpu = Cpu::new();
    cpu.write_register_pair(RegisterPair::HL, 0x1000);
    cpu.write_register(Register::B, 0x42);
    cpu.ld_hl_r(Register::B);
    assert_eq!(cpu.read_byte(0x1000), 0x42);
}

#[test]
fn test_ld_nn_sp() {
    let mut cpu = Cpu::new();
    cpu.sp = 0x1234;
    cpu.ld_nn_sp(0x2000);
    assert_eq!(cpu.read_word(0x2000), 0x1234);
}

#[test]
fn test_ld_nn_hl() {
    let mut cpu = Cpu::new();
    cpu.set_hl(0x5678);
    cpu.ld_nn_hl(0x2000);
    assert_eq!(cpu.read_word(0x2000), 0x5678);
}

#[test]
fn test_ld_nn_ix() {
    let mut cpu = Cpu::new();
    cpu.ix = 0x9ABC;
    cpu.ld_nn_ix(0x2000);
    assert_eq!(cpu.read_word(0x2000), 0x9ABC);
}

#[test]
fn test_ld_nn_iy() {
    let mut cpu = Cpu::new();
    cpu.iy = 0xDEF0;
    cpu.ld_nn_iy(0x2000);
    assert_eq!(cpu.read_word(0x2000), 0xDEF0);
}

#[test]
fn test_ex_sp_hl() {
    let mut cpu = Cpu::new();
    cpu.set_hl(0x1234);
    cpu.sp = 0x2000;
    cpu.write_word(cpu.sp, 0x5678);
    cpu.ex_sp_hl();
    assert_eq!(cpu.get_hl(), 0x5678);
    assert_eq!(cpu.read_word(cpu.sp), 0x1234);
}

#[test]
fn test_ex_sp_ix() {
    let mut cpu = Cpu::new();
    cpu.ix = 0x1234;
    cpu.sp = 0x2000;
    cpu.write_word(cpu.sp, 0x5678);
    cpu.ex_sp_ix();
    assert_eq!(cpu.ix, 0x5678);
    assert_eq!(cpu.read_word(cpu.sp), 0x1234);
}

#[test]
fn test_ex_sp_iy() {
    let mut cpu = Cpu::new();
    cpu.iy = 0x1234;
    cpu.sp = 0x2000;
    cpu.write_word(cpu.sp, 0x5678);
    cpu.ex_sp_iy();
    assert_eq!(cpu.iy, 0x5678);
    assert_eq!(cpu.read_word(cpu.sp), 0x1234);
}

#[test]
fn test_nmi() {
    let mut cpu = Cpu::new();
    cpu.pc = 0x1234;
    cpu.sp = 0x2000;
    cpu.iff1 = true;
    cpu.iff2 = true;
    cpu.handle_nmi();
    assert_eq!(cpu.pc, 0x0066);
    assert_eq!(cpu.read_word(0x1FFE), 0x1234);
    assert_eq!(cpu.sp, 0x1FFE);
    assert!(!cpu.iff1);
    assert!(cpu.iff2);
}

#[test]
fn test_interrupt_mode1() {
    let mut cpu = Cpu::new();
    cpu.pc = 0x1234;
    cpu.sp = 0x2000;
    cpu.iff1 = true;
    cpu.interrupt_mode = InterruptMode::Mode1 as u8;
    cpu.handle_interrupt();
    assert_eq!(cpu.pc, 0x0038);
    assert_eq!(cpu.read_word(0x1FFE), 0x1234);
    assert_eq!(cpu.sp, 0x1FFE);
    assert!(!cpu.iff1);
    assert!(!cpu.iff2);
}

#[test]
fn test_interrupt_mode2() {
    let mut cpu = Cpu::new();
    cpu.pc = 0x1234;
    cpu.sp = 0x2000;
    cpu.iff1 = true;
    cpu.i = 0x20;
    cpu.interrupt_mode = InterruptMode::Mode2 as u8;
    cpu.write_word(0x20FF, 0x4567);
    cpu.handle_interrupt();
    assert_eq!(cpu.pc, 0x4567);
    assert_eq!(cpu.read_word(0x1FFE), 0x1234);
    assert_eq!(cpu.sp, 0x1FFE);
    assert!(!cpu.iff1);
    assert!(!cpu.iff2);
}

#[test]
fn test_ei_di() {
    let mut cpu = Cpu::new();
    cpu.di();
    assert!(!cpu.iff1);
    assert!(!cpu.iff2);
    cpu.ei();
    assert!(cpu.iff1);
    assert!(cpu.iff2);
}

#[test]
fn test_retn() {
    let mut cpu = Cpu::new();
    cpu.sp = 0x1FFE;
    cpu.write_word(0x1FFE, 0x1234);
    cpu.iff2 = true;
    cpu.iff1 = false;
    cpu.retn();
    assert_eq!(cpu.pc, 0x1234);
    assert_eq!(cpu.sp, 0x2000);
    assert!(cpu.iff1);
}

#[test]
fn test_reti() {
    let mut cpu = Cpu::new();
    cpu.sp = 0x1FFE;
    cpu.write_word(0x1FFE, 0x1234);
    cpu.iff1 = false;
    cpu.iff2 = false;
    cpu.reti();
    assert_eq!(cpu.pc, 0x1234);
    assert_eq!(cpu.sp, 0x2000);
    assert!(cpu.iff1);
    assert!(cpu.iff2);
}

#[test]
fn test_interrupt_disabled() {
    let mut cpu = Cpu::new();
    cpu.pc = 0x1234;
    cpu.sp = 0x2000;
    cpu.iff1 = false;
    cpu.interrupt_mode = InterruptMode::Mode1 as u8;
    cpu.handle_interrupt();
    assert_eq!(cpu.pc, 0x1234);
    assert_eq!(cpu.sp, 0x2000);
}

#[test]
fn test_interrupt_from_halt() {
    let mut cpu = Cpu::new();
    cpu.pc = 0x1234;
    cpu.sp = 0x2000;
    cpu.iff1 = true;
    cpu.halted = true;
    cpu.interrupt_mode = InterruptMode::Mode1 as u8;
    cpu.handle_interrupt();
    assert_eq!(cpu.pc, 0x0038);
    assert!(!cpu.halted);
}

#[test]
fn test_sll() {
    let mut cpu = Cpu::new();
    let result = cpu.sll(0b10101010);
    assert_eq!(result, 0b01010101);
    assert!(cpu.get_flag(FLAG_C));
    assert!(!cpu.get_flag(FLAG_Z));
    assert!(!cpu.get_flag(FLAG_S));
    assert!(!cpu.get_flag(FLAG_H));
    assert!(!cpu.get_flag(FLAG_N));
}

#[test]
fn test_ix_high_low() {
    let mut cpu = Cpu::new();
    cpu.ix = 0x1234;
    cpu.ld_a_ixh();
    assert_eq!(cpu.a, 0x12);
    cpu.ld_a_ixl();
    assert_eq!(cpu.a, 0x34);
    cpu.ld_ixh_n(0x56);
    assert_eq!(cpu.ix, 0x5634);
    cpu.ld_ixl_n(0x78);
    assert_eq!(cpu.ix, 0x5678);
}

#[test]
fn test_iy_high_low() {
    let mut cpu = Cpu::new();
    cpu.iy = 0x1234;
    cpu.ld_a_iyh();
    assert_eq!(cpu.a, 0x12);
    cpu.ld_a_iyl();
    assert_eq!(cpu.a, 0x34);
    cpu.ld_iyh_n(0x56);
    assert_eq!(cpu.iy, 0x5634);
    cpu.ld_iyl_n(0x78);
    assert_eq!(cpu.iy, 0x5678);
}

#[test]
fn test_set_n_flag_bits() {
    let mut cpu = Cpu::new();
    cpu.write_register(Register::A, 0b00001000);
    cpu.set_n_flag_bit3(Register::A);
    assert!(cpu.get_flag(FLAG_N));
    cpu.write_register(Register::A, 0b00000000);
    cpu.set_n_flag_bit3(Register::A);
    assert!(!cpu.get_flag(FLAG_N));
    cpu.write_register(Register::A, 0b00100000);
    cpu.set_n_flag_bit5(Register::A);
    assert!(cpu.get_flag(FLAG_N));
    cpu.write_register(Register::A, 0b00000000);
    cpu.set_n_flag_bit5(Register::A);
    assert!(!cpu.get_flag(FLAG_N));
}

#[test]
fn test_in_f_c() {
    let mut cpu = Cpu::new();
    cpu.c = 0x10;
    cpu.write_byte(0xFF10, 0b10100101);
    cpu.in_f_c();
    assert!(cpu.get_flag(FLAG_S));
    assert!(!cpu.get_flag(FLAG_Z));
    assert!(!cpu.get_flag(FLAG_H));
    assert!(cpu.get_flag(FLAG_PV));
    assert!(!cpu.get_flag(FLAG_N));
    assert!(cpu.get_flag(FLAG_Y));
    assert!(!cpu.get_flag(FLAG_X));
}

#[test]
fn test_out_c_0() {
    let mut cpu = Cpu::new();
    cpu.c = 0x10;
    cpu.write_byte(0xFF10, 0xFF);
    cpu.out_c_0();
    assert_eq!(cpu.read_byte(0xFF10), 0);
}

#[test]
fn test_ld_hl_ix_iy() {
    let mut cpu = Cpu::new();
    cpu.ix = 0x1234;
    cpu.iy = 0x5678;
    cpu.ld_hl_ix();
    assert_eq!(cpu.h, 0x12);
    assert_eq!(cpu.l, 0x34);
    cpu.ld_hl_iy();
    assert_eq!(cpu.h, 0x56);
    assert_eq!(cpu.l, 0x78);
}

#[test]
fn test_ld_ix_iy_hl() {
    let mut cpu = Cpu::new();
    cpu.h = 0x12;
    cpu.l = 0x34;
    cpu.ld_ix_hl();
    assert_eq!(cpu.ix, 0x1234);
    cpu.h = 0x56;
    cpu.l = 0x78;
    cpu.ld_iy_hl();
    assert_eq!(cpu.iy, 0x5678);
}

#[test]
fn test_cp_ix_iy_parts() {
    let mut cpu = Cpu::new();
    cpu.ix = 0x1234;
    cpu.iy = 0x5678;
    cpu.a = 0x12;
    cpu.cp_ixh();
    assert!(cpu.get_flag(FLAG_Z));
    cpu.cp_ixl();
    assert!(!cpu.get_flag(FLAG_Z));
    cpu.a = 0x56;
    cpu.cp_iyh();
    assert!(cpu.get_flag(FLAG_Z));
    cpu.cp_iyl();
    assert!(!cpu.get_flag(FLAG_Z));
}

#[test]
fn test_inc_ix_iy_parts() {
    let mut cpu = Cpu::new();
    cpu.ix = 0x12FF;
    cpu.iy = 0x56FF;
    cpu.inc_ixh();
    assert_eq!(cpu.ix, 0x13FF);
    cpu.inc_ixl();
    assert_eq!(cpu.ix, 0x1300);
    cpu.inc_iyh();
    assert_eq!(cpu.iy, 0x57FF);
    cpu.inc_iyl();
    assert_eq!(cpu.iy, 0x5700);
}
