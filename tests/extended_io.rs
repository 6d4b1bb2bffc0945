use z80_undead::cpu::flags::{FLAG_C, FLAG_H, FLAG_N, FLAG_PV, FLAG_S, FLAG_Z};
use z80_undead::cpu::Cpu;

#[test]
fn test_ld_ix_nn() {
    let mut cpu = Cpu::new();
    cpu.ld_ix_nn(0x1234);
    assert_eq!(cpu.ix, 0x1234);
}

#[test]
fn test_ld_iy_nn() {
    let mut cpu = Cpu::new();
    cpu.ld_iy_nn(0x5678);
    assert_eq!(cpu.iy, 0x5678);
}

#[test]
fn test_ld_ix_d_n() {
    let mut cpu = Cpu::new();
    cpu.ix = 0x1000;
    cpu.ld_ix_d_n(10, 0x42);
    assert_eq!(cpu.read_byte(0x100A), 0x42);
}

#[test]
fn test_add_ix_with_carry() {
    let mut cpu = Cpu::new();
    cpu.ix = 0x1000;
    cpu.add_ix(0x0234);
    assert_eq!(cpu.ix, 0x1234);
    assert!(!cpu.get_flag(FLAG_S));
    assert!(!cpu.get_flag(FLAG_Z));
    assert!(!cpu.get_flag(FLAG_H));
    assert!(!cpu.get_flag(FLAG_PV));
    assert!(!cpu.get_flag(FLAG_N));
    assert!(!cpu.get_flag(FLAG_C));
}

#[test]
fn test_inc_ix_overflow() {
    let mut cpu = Cpu::new();
    cpu.ix = 0xFFFF;
    cpu.inc_ix();
    assert_eq!(cpu.ix, 0x0000);
}

#[test]
fn test_inc_iy_overflow() {
    let mut cpu = Cpu::new();
    cpu.iy = 0xFFFF;
    cpu.inc_iy();
    assert_eq!(cpu.iy, 0x0000);
}

#[test]
fn test_dec_ix_underflow() {
    let mut cpu = Cpu::new();
    cpu.ix = 0x0000;
    cpu.dec_ix();
    assert_eq!(cpu.ix, 0xFFFF);
}

#[test]
fn test_adc_ix() {
    let mut cpu = Cpu::new();
    cpu.ix = 0xFFFE;
    cpu.set_flag(FLAG_C, true);
    cpu.adc_ix(0x0001);
    assert_eq!(cpu.ix, 0x0000);
    assert!(!cpu.get_flag(FLAG_S));
    assert!(cpu.get_flag(FLAG_Z));
    assert!(cpu.get_flag(FLAG_H));
    assert!(!cpu.get_flag(FLAG_PV));
    assert!(!cpu.get_flag(FLAG_N));
    assert!(cpu.get_flag(FLAG_C));
}

#[test]
fn test_sbc_iy() {
    let mut cpu = Cpu::new();
    cpu.iy = 0x1000;
    cpu.set_flag(FLAG_C, true);
    cpu.sbc_iy(0x0FFF);
    assert_eq!(cpu.iy, 0x0000);
    assert!(!cpu.get_flag(FLAG_S));
    assert!(cpu.get_flag(FLAG_Z));
    assert!(cpu.get_flag(FLAG_H));
    assert!(!cpu.get_flag(FLAG_PV));
    assert!(cpu.get_flag(FLAG_N));
    assert!(!cpu.get_flag(FLAG_C));
}

#[test]
fn test_inc_ix() {
    let mut cpu = Cpu::new();
    cpu.ix = 0xFFFF;
    cpu.inc_ix();
    assert_eq!(cpu.ix, 0x0000);
}

#[test]
fn test_dec_iy() {
    let mut cpu = Cpu::new();
    cpu.iy = 0x0000;
    cpu.dec_iy();
    assert_eq!(cpu.iy, 0xFFFF);
}

#[test]
fn test_add_hl() {
    let mut cpu = Cpu::new();
    cpu.set_hl(0x1000);
    cpu.add_hl(0x0234);
    assert_eq!(cpu.get_hl(), 0x1234);
    assert!(!cpu.get_flag(FLAG_S));
    assert!(!cpu.get_flag(FLAG_Z));
    assert!(!cpu.get_flag(FLAG_H));
    assert!(!cpu.get_flag(FLAG_PV));
    assert!(!cpu.get_flag(FLAG_N));
    assert!(!cpu.get_flag(FLAG_C));
}

#[test]
fn test_adc_hl() {
    let mut cpu = Cpu::new();
    cpu.set_hl(0x1000);
    cpu.set_flag(FLAG_C, true);
    cpu.adc_hl(0x0001);
    assert_eq!(cpu.get_hl(), 0x1002);
    assert!(!cpu.get_flag(FLAG_S));
    assert!(!cpu.get_flag(FLAG_Z));
    assert!(!cpu.get_flag(FLAG_H));
    assert!(!cpu.get_flag(FLAG_PV));
    assert!(!cpu.get_flag(FLAG_N));
    assert!(!cpu.get_flag(FLAG_C));
}

#[test]
fn test_sbc_hl() {
    let mut cpu = Cpu::new();
    cpu.set_hl(0x1000);
    cpu.set_flag(FLAG_C, true);
    cpu.sbc_hl(0x0FFF);
    assert_eq!(cpu.get_hl(), 0x0000);
    assert!(!cpu.get_flag(FLAG_S));
    assert!(cpu.get_flag(FLAG_Z));
    assert!(cpu.get_flag(FLAG_H));
    assert!(!cpu.get_flag(FLAG_PV));
    assert!(cpu.get_flag(FLAG_N));
    assert!(!cpu.get_flag(FLAG_C));
}

#[test]
fn test_add_ix() {
    let mut cpu = Cpu::new();
    cpu.ix = 0x1000;
    cpu.add_ix(0x0234);
    assert_eq!(cpu.ix, 0x1234);
    assert!(!cpu.get_flag(FLAG_S));
    assert!(!cpu.get_flag(FLAG_Z));
    assert!(!cpu.get_flag(FLAG_H));
    assert!(!cpu.get_flag(FLAG_PV));
    assert!(!cpu.get_flag(FLAG_N));
    assert!(!cpu.get_flag(FLAG_C));
}

#[test]
fn test_add_iy() {
    let mut cpu = Cpu::new();
    cpu.iy = 0x0FFF;
    cpu.add_iy(0x0001);
    assert_eq!(cpu.iy, 0x1000);
    assert!(!cpu.get_flag(FLAG_S));
    assert!(!cpu.get_flag(FLAG_Z));
    assert!(cpu.get_flag(FLAG_H), "Half-carry flag should be set");
    assert!(!cpu.get_flag(FLAG_PV));
    assert!(!cpu.get_flag(FLAG_N));
    assert!(!cpu.get_flag(FLAG_C));
}

#[test]
fn test_add_iy_with_carry() {
    let mut cpu = Cpu::new();
    cpu.iy = 0x0FFF;
    cpu.add_iy(0x0001);
    println!("Test add_iy_with_carry: iy = {:04X}", cpu.iy);
    println!(
        "Flags: S={} Z={} H={} PV={} N={} C={}",
        cpu.get_flag(FLAG_S),
        cpu.get_flag(FLAG_Z),
        cpu.get_flag(FLAG_H),
        cpu.get_flag(FLAG_PV),
        cpu.get_flag(FLAG_N),
        cpu.get_flag(FLAG_C)
    );
    assert_eq!(cpu.iy, 0x1000);
    assert!(!cpu.get_flag(FLAG_S));
    assert!(!cpu.get_flag(FLAG_Z));
    assert!(cpu.get_flag(FLAG_H), "Half-carry flag should be set");
    assert!(!cpu.get_flag(FLAG_PV));
    assert!(!cpu.get_flag(FLAG_N));
    assert!(!cpu.get_flag(FLAG_C));
}

#[test]
fn test_inc_16() {
    let mut cpu = Cpu::new();
    assert_eq!(cpu.inc_16(0xFFFF), 0x0000);
}

#[test]
fn test_dec_16() {
    let mut cpu = Cpu::new();
    assert_eq!(cpu.dec_16(0x0000), 0xFFFF);
}

#[test]
fn test_inc_ix_no_overflow() {
    let mut cpu = Cpu::new();
    cpu.ix = 0x1234;
    cpu.inc_ix();
    assert_eq!(cpu.ix, 0x1235);
}

#[test]
fn test_inc_iy_no_overflow() {
    let mut cpu = Cpu::new();
    cpu.iy = 0x1234;
    cpu.inc_iy();
    assert_eq!(cpu.iy, 0x1235);
}

#[test]
fn test_dec_ix_no_underflow() {
    let mut cpu = Cpu::new();
    cpu.ix = 0x1234;
    cpu.dec_ix();
    assert_eq!(cpu.ix, 0x1233);
}

#[test]
fn test_dec_iy_no_underflow() {
    let mut cpu = Cpu::new();
    cpu.iy = 0x1234;
    cpu.dec_iy();
    assert_eq!(cpu.iy, 0x1233);
}

#[test]
fn test_bit_operations_ix() {
    let mut cpu = Cpu::new();
    cpu.ix = 0x2000;
    cpu.write_byte(0x2005, 0b10101010);

    cpu.bit_ix_d(3, 5);
    assert!(!cpu.get_flag(FLAG_Z));

    cpu.bit_ix_d(2, 5);
    assert!(cpu.get_flag(FLAG_Z));

    cpu.set_ix_d(2, 5);
    let result = cpu.read_byte(0x2005);
    assert_eq!(result & (1 << 2), 1 << 2);

    cpu.res_ix_d(7, 5);
    let result = cpu.read_byte(0x2005);
    assert_eq!(result & (1 << 7), 0);
}

#[test]
fn test_arithmetic_operations_ix() {
    let mut cpu = Cpu::new();
    cpu.ix = 0x2000;
    cpu.write_byte(0x2005, 0x42);
    cpu.a = 0x12;

    cpu.add_a_ix_d(5);
    assert_eq!(cpu.a, 0x54);

    cpu.sub_ix_d(5);
    assert_eq!(cpu.a, 0x12);

    cpu.set_flag(FLAG_C, true);
    cpu.adc_a_ix_d(5);
    assert_eq!(cpu.a, 0x55);
}

#[test]
fn test_inc_dec_operations_ix() {
    let mut cpu = Cpu::new();
    cpu.ix = 0x2000;
    cpu.write_byte(0x2005, 0x42);

    cpu.inc_ix_d(5);
    assert_eq!(cpu.read_byte(0x2005), 0x43);

    cpu.dec_ix_d(5);
    assert_eq!(cpu.read_byte(0x2005), 0x42);
}

#[test]
fn test_bit_operations_iy() {
    let mut cpu = Cpu::new();
    cpu.iy = 0x2000;
    cpu.write_byte(0x2005, 0b10101010);

    cpu.bit_iy_d(3, 5);
    assert!(!cpu.get_flag(FLAG_Z));

    cpu.bit_iy_d(2, 5);
    assert!(cpu.get_flag(FLAG_Z));

    cpu.set_iy_d(2, 5);
    let result = cpu.read_byte(0x2005);
    assert_eq!(result & (1 << 2), 1 << 2);

    cpu.res_iy_d(7, 5);
    let result = cpu.read_byte(0x2005);
    assert_eq!(result & (1 << 7), 0);
}

#[test]
fn test_arithmetic_operations_iy() {
    let mut cpu = Cpu::new();
    cpu.iy = 0x2000;
    cpu.write_byte(0x2005, 0x42);
    cpu.a = 0x12;

    cpu.add_a_iy_d(5);
    assert_eq!(cpu.a, 0x54);

    cpu.sub_iy_d(5);
    assert_eq!(cpu.a, 0x12);

    cpu.set_flag(FLAG_C, true);
    cpu.adc_a_iy_d(5);
    assert_eq!(cpu.a, 0x55);
}

#[test]
fn test_inc_dec_operations_iy() {
    let mut cpu = Cpu::new();
    cpu.iy = 0x2000;
    cpu.write_byte(0x2005, 0x42);

    cpu.inc_iy_d(5);
    assert_eq!(cpu.read_byte(0x2005), 0x43);

    cpu.dec_iy_d(5);
    assert_eq!(cpu.read_byte(0x2005), 0x42);
}

#[test]
fn test_in_a_n() {
    let mut cpu = Cpu::new();
    cpu.write_byte(0xFF00, 0x42); // Simulate I/O port 0 containing 0x42
    cpu.pc = 0x1000;
    cpu.write_byte(0x1000, 0x00); // Port number 0

    cpu.in_a_n();

    assert_eq!(cpu.a, 0x42);
    assert_eq!(cpu.pc, 0x1001);
    assert!(!cpu.get_flag(FLAG_S));
    assert!(!cpu.get_flag(FLAG_Z));
    assert!(!cpu.get_flag(FLAG_H));
    assert!(cpu.get_flag(FLAG_PV));
    assert!(!cpu.get_flag(FLAG_N));
}

#[test]
fn test_out_n_a() {
    let mut cpu = Cpu::new();
    cpu.a = 0x42;
    cpu.pc = 0x1000;
    cpu.write_byte(0x1000, 0x00); // Port number 0

    cpu.out_n_a();

    assert_eq!(cpu.read_byte(0xFF00), 0x42);
    assert_eq!(cpu.pc, 0x1001);
}

#[test]
fn test_ini() {
    let mut cpu = Cpu::new();
    cpu.b = 0x03;
    cpu.c = 0x10;
    cpu.set_hl(0x2000);
    cpu.write_byte(0xFF10, 0xAA); // Simulate I/O port 0x10 containing 0xAA

    cpu.ini();

    assert_eq!(cpu.read_byte(0x2000), 0xAA);
    assert_eq!(cpu.get_hl(), 0x2001);
    assert_eq!(cpu.b, 0x02);
    assert!(!cpu.get_flag(FLAG_Z));
    assert!(cpu.get_flag(FLAG_N));
    assert!(!cpu.get_flag(FLAG_H));
    assert!(!cpu.get_flag(FLAG_C));
    assert!(cpu.get_flag(FLAG_PV));
}

#[test]
fn test_inir() {
    let mut cpu = Cpu::new();
    cpu.b = 0x03;
    cpu.c = 0x10;
    cpu.set_hl(0x2000);
    cpu.write_byte(0xFF10, 0xAA);
    cpu.write_byte(0xFF11, 0xBB);
    cpu.write_byte(0xFF12, 0xCC);

    cpu.inir();

    assert_eq!(cpu.read_byte(0x2000), 0xAA);
    assert_eq!(cpu.read_byte(0x2001), 0xBB);
    assert_eq!(cpu.read_byte(0x2002), 0xCC);
    assert_eq!(cpu.get_hl(), 0x2003);
    assert_eq!(cpu.b, 0x00);
    assert_eq!(cpu.c, 0x13);
    assert!(cpu.get_flag(FLAG_Z));
    assert!(cpu.get_flag(FLAG_N));
    assert!(!cpu.get_flag(FLAG_PV));
}

#[test]
fn test_ind() {
    let mut cpu = Cpu::new();
    cpu.b = 0x03;
    cpu.c = 0x10;
    cpu.set_hl(0x2000);
    cpu.write_byte(0xFF10, 0xAA); // Simulate I/O port 0x10 containing 0xAA

    cpu.ind();

    assert_eq!(cpu.read_byte(0x2000), 0xAA);
    assert_eq!(cpu.get_hl(), 0x1FFF);
    assert_eq!(cpu.b, 0x02);
    assert!(!cpu.get_flag(FLAG_Z));
    assert!(cpu.get_flag(FLAG_N));
    assert!(cpu.get_flag(FLAG_PV));
}

#[test]
fn test_indr() {
    let mut cpu = Cpu::new();
    cpu.b = 0x03;
    cpu.c = 0x12;
    cpu.set_hl(0x2002);
    cpu.write_byte(0xFF12, 0xAA);
    cpu.write_byte(0xFF11, 0xBB);
    cpu.write_byte(0xFF10, 0xCC);

    cpu.indr();

    assert_eq!(cpu.read_byte(0x2002), 0xAA);
    assert_eq!(cpu.read_byte(0x2001), 0xBB);
    assert_eq!(cpu.read_byte(0x2000), 0xCC);
    assert_eq!(cpu.get_hl(), 0x1FFF);
    assert_eq!(cpu.b, 0x00);
    assert_eq!(cpu.c, 0x0F);
    assert!(cpu.get_flag(FLAG_Z));
    assert!(cpu.get_flag(FLAG_N));
    assert!(!cpu.get_flag(FLAG_PV));
}

#[test]
fn test_outd() {
    let mut cpu = Cpu::new();
    cpu.b = 0x03;
    cpu.c = 0x10;
    cpu.set_hl(0x2000);
    cpu.write_byte(0x2000, 0xAA);

    cpu.outd();

    assert_eq!(cpu.read_byte(0xFF10), 0xAA);
    assert_eq!(cpu.get_hl(), 0x1FFF);
    assert_eq!(cpu.b, 0x02);
    assert!(!cpu.get_flag(FLAG_Z));
    assert!(cpu.get_flag(FLAG_N));
    assert!(cpu.get_flag(FLAG_PV));
}

#[test]
fn test_otdr() {
    let mut cpu = Cpu::new();
    cpu.b = 0x03;
    cpu.c = 0x12;
    cpu.set_hl(0x2002);
    cpu.write_byte(0x2002, 0xAA);
    cpu.write_byte(0x2001, 0xBB);
    cpu.write_byte(0x2000, 0xCC);

    cpu.otdr();

    // Check that the last byte written to the port is 0xCC
    assert_eq!(cpu.read_byte(0xFF12), 0xCC);
    // Check that the HL register is decremented correctly
    assert_eq!(cpu.get_hl(), 0x1FFF);
    // Check that the B register is decremented to 0
    assert_eq!(cpu.b, 0x00);
    // Check that the C register remains unchanged
    assert_eq!(cpu.c, 0x12);
    // Check that the Z flag is set
    assert!(cpu.get_flag(FLAG_Z));
    // Check that the N flag is set
    assert!(cpu.get_flag(FLAG_N));
    // Check that the PV flag is reset
    assert!(!cpu.get_flag(FLAG_PV));
}
