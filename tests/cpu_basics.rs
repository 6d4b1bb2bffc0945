use z80_undead::cpu::flags::{Flags, FLAG_C, FLAG_H, FLAG_N, FLAG_PV, FLAG_S, FLAG_Z};
use z80_undead::cpu::registers::{Register, RegisterPair};
use z80_undead::cpu::Cpu;
use z80_undead::memory::Memory;
use z80_undead::EmulatorError;

#[test]
fn cpu_test_cpu_initialization() {
    let cpu = Cpu::new();
    assert_eq!(cpu.a, 0);
    assert_eq!(cpu.f, 0);
    assert_eq!(cpu.pc, 0);
    assert_eq!(cpu.memory.len(), 65536);
}

#[test]
fn cpu_test_memory_operations() {
    let mut cpu = Cpu::new();
    cpu.write_byte(0x1000, 0x42);
    assert_eq!(cpu.read_byte(0x1000), 0x42);
}

#[test]
fn cpu_test_pc_increment() {
    let mut cpu = Cpu::new();
    cpu.increment_pc(5);
    assert_eq!(cpu.pc, 5);
    cpu.increment_pc(65535);
    assert_eq!(cpu.pc, 4);
}

#[test]
fn cpu_test_flag_operations() {
    let mut cpu = Cpu::new();
    cpu.set_flag(FLAG_Z, true);
    assert!(cpu.get_flag(FLAG_Z));
    cpu.set_flag(FLAG_Z, false);
    assert!(!cpu.get_flag(FLAG_Z));
}

#[test]
fn core_test_cpu_initialization() {
    let cpu = Cpu::new();
    assert_eq!(cpu.a, 0);
    assert_eq!(cpu.f, 0);
    assert_eq!(cpu.pc, 0);
    assert_eq!(cpu.memory.len(), 65536);
}

#[test]
fn core_test_memory_operations() {
    let mut cpu = Cpu::new();
    cpu.write_byte(0x1000, 0x42);
    assert_eq!(cpu.read_byte(0x1000), 0x42);
}

#[test]
fn core_test_pc_increment() {
    let mut cpu = Cpu::new();
    cpu.increment_pc(5);
    assert_eq!(cpu.pc, 5);
    cpu.increment_pc(65535);
    assert_eq!(cpu.pc, 4);
}

#[test]
fn test_word_operations() {
    let mut cpu = Cpu::new();
    cpu.write_word(0x1000, 0x1234);
    assert_eq!(cpu.read_word(0x1000), 0x1234);
    assert_eq!(cpu.read_byte(0x1000), 0x34);
    assert_eq!(cpu.read_byte(0x1001), 0x12);
}

#[test]
fn cpu_tests_test_cpu_initialization() {
    let cpu = Cpu::new();
    assert_eq!(cpu.a, 0);
    assert_eq!(cpu.b, 0);
    assert_eq!(cpu.c, 0);
    assert_eq!(cpu.d, 0);
    assert_eq!(cpu.e, 0);
    assert_eq!(cpu.h, 0);
    assert_eq!(cpu.l, 0);
    assert_eq!(cpu.f, 0);
    assert_eq!(cpu.pc, 0);
    // The stack pointer resets to the top of memory.
    assert_eq!(cpu.sp, 0xFFFF);
    assert_eq!(cpu.ix, 0);
    assert_eq!(cpu.iy, 0);
    assert_eq!(cpu.a_alt, 0);
    assert_eq!(cpu.f_alt, 0);
    assert_eq!(cpu.iff1, false);
    assert_eq!(cpu.iff2, false);
    assert_eq!(cpu.interrupt_mode, 0);
    assert_eq!(cpu.memory.len(), 65536);
}

#[test]
fn cpu_tests_test_memory_operations() {
    let mut cpu = Cpu::new();
    cpu.write_byte(0x1000, 0x42);
    assert_eq!(cpu.read_byte(0x1000), 0x42);
    cpu.write_byte(0x0000, 0xFF);
    cpu.write_byte(0xFFFF, 0xAA);
    assert_eq!(cpu.read_byte(0x0000), 0xFF);
    assert_eq!(cpu.read_byte(0xFFFF), 0xAA);
    cpu.write_byte(0x1000, 0x24);
    assert_eq!(cpu.read_byte(0x1000), 0x24);
}

#[test]
fn test_pc_operations() {
    let mut cpu = Cpu::new();
    cpu.increment_pc(1);
    assert_eq!(cpu.pc, 1);
    cpu.increment_pc(10);
    assert_eq!(cpu.pc, 11);
    cpu.pc = 0xFFFE;
    cpu.increment_pc(3);
    assert_eq!(cpu.pc, 1);
}

#[test]
fn cpu_tests_test_flag_operations() {
    let mut cpu = Cpu::new();
    cpu.set_flag(FLAG_Z, true);
    assert!(cpu.get_flag(FLAG_Z));
    cpu.set_flag(FLAG_Z, false);
    assert!(!cpu.get_flag(FLAG_Z));
    cpu.set_flag(FLAG_C, true);
    cpu.set_flag(FLAG_PV, true);
    cpu.set_flag(FLAG_S, true);
    assert!(cpu.get_flag(FLAG_C));
    assert!(cpu.get_flag(FLAG_PV));
    assert!(cpu.get_flag(FLAG_S));
    assert!(!cpu.get_flag(FLAG_Z));
    assert!(!cpu.get_flag(FLAG_H));
    assert!(!cpu.get_flag(FLAG_N));
    cpu.set_flag(FLAG_C, false);
    cpu.set_flag(FLAG_PV, false);
    assert!(!cpu.get_flag(FLAG_C));
    assert!(!cpu.get_flag(FLAG_PV));
    assert!(cpu.get_flag(FLAG_S));
}

#[test]
fn flags_test_flag_operations() {
    let mut cpu = Cpu::new();
    cpu.set_flag(FLAG_Z, true);
    assert!(cpu.get_flag(FLAG_Z));
    cpu.set_flag(FLAG_Z, false);
    assert!(!cpu.get_flag(FLAG_Z));
}

#[test]
fn test_register_operations() {
    let mut cpu = Cpu::new();
    cpu.write_register(Register::A, 0xAA);
    assert_eq!(cpu.read_register(Register::A), 0xAA);
    cpu.write_register_pair(RegisterPair::BC, 0xBBCC);
    assert_eq!(cpu.read_register_pair(RegisterPair::BC), 0xBBCC);
}

#[test]
fn mod_test_cpu_initialization() {
    let cpu = Cpu::default();
    assert_eq!(cpu.pc, 0);
    assert_eq!(cpu.sp, 0xFFFF);
}

#[test]
fn mod_test_nop_execution() {
    let mut cpu = Cpu::default();
    let program = [0x00];
    cpu.load_program(0, &program).unwrap();
    let initial_pc = cpu.get_pc();
    cpu.step().unwrap();
    assert_eq!(cpu.get_pc(), initial_pc + 1);
}

#[test]
fn mod_test_invalid_opcode() {
    let mut cpu = Cpu::default();
    let program = [0xFF];
    cpu.load_program(0, &program).unwrap();
    let result = cpu.step();
    assert!(matches!(result, Err(EmulatorError::InvalidOpcode(0xFF))));
}

#[test]
fn test_program_loading() {
    let mut cpu = Cpu::default();
    let program = [0x00, 0x01, 0x02];
    let address = 0x100;
    cpu.load_program(address, &program).unwrap();
    assert_eq!(cpu.memory.read_byte(address).unwrap(), 0x00);
    assert_eq!(cpu.memory.read_byte(address + 1).unwrap(), 0x01);
    assert_eq!(cpu.memory.read_byte(address + 2).unwrap(), 0x02);
}

#[test]
fn test_flags_to_byte() {
    let mut flags = Flags::new();
    flags.sign = true;
    flags.zero = true;
    flags.carry = true;
    assert_eq!(flags.to_byte(), 0b1100_0001);
}

#[test]
fn test_flags_from_byte() {
    let mut flags = Flags::new();
    flags.from_byte(0b1100_0001);
    assert!(flags.sign);
    assert!(flags.zero);
    assert!(flags.carry);
    assert!(!flags.half_carry);
    assert!(!flags.parity);
    assert!(!flags.add_subtract);
}

#[test]
fn test_arithmetic_flags() {
    let mut cpu = Cpu::with_memory(Memory::default());
    cpu.update_arithmetic_flags(0x7F, 0x01, false, true);
    assert!(cpu.flags().sign);
    assert!(!cpu.flags().zero);
    assert!(!cpu.flags().carry);
    assert!(cpu.flags().parity);
    cpu.update_arithmetic_flags(0x00, 0x01, false, false);
    assert!(cpu.flags().sign);
    assert!(!cpu.flags().zero);
    assert!(cpu.flags().carry);
    assert!(!cpu.flags().parity);
}

#[test]
fn test_register_pairs() {
    let mut cpu = Cpu {
        b: 0x12,
        c: 0x34,
        ..Default::default()
    };
    assert_eq!(cpu.get_bc(), 0x1234);
    cpu.set_bc(0x5678);
    assert_eq!(cpu.b, 0x56);
    assert_eq!(cpu.c, 0x78);
    cpu.set_de(0x9ABC);
    assert_eq!(cpu.get_de(), 0x9ABC);
    assert_eq!(cpu.d, 0x9A);
    assert_eq!(cpu.e, 0xBC);
    cpu.set_hl(0xDEF0);
    assert_eq!(cpu.get_hl(), 0xDEF0);
    assert_eq!(cpu.h, 0xDE);
    assert_eq!(cpu.l, 0xF0);
}

#[test]
fn test_exchange_register_sets() {
    let mut cpu = Cpu {
        a: 0x12,
        a_alt: 0x34,
        f: Flags {
            zero: true,
            ..Default::default()
        }
        .to_byte(),
        f_alt: Flags {
            zero: false,
            ..Default::default()
        }
        .to_byte(),
        ..Default::default()
    };
    cpu.exchange_register_sets();
    assert_eq!(cpu.a, 0x34);
    assert_eq!(cpu.a_alt, 0x12);
    assert!(!cpu.flags().zero);
    let mut alternate = Flags::new();
    alternate.from_byte(cpu.f_alt);
    assert!(alternate.zero);
}

#[test]
fn test_r_register_increment() {
    let mut cpu = Cpu {
        r: 0x00,
        ..Default::default()
    };
    cpu.increment_r();
    assert_eq!(cpu.r, 0x01);
    cpu.r = 0x7F;
    cpu.increment_r();
    assert_eq!(cpu.r, 0x00);
    cpu.r = 0x80;
    cpu.increment_r();
    assert_eq!(cpu.r, 0x81);
}

#[test]
fn mod_test_instruction_timing() {
    let mut cpu = Cpu::default();
    cpu.load_program(0, &[0x00]).unwrap();
    let t_states = cpu.step().unwrap();
    assert_eq!(t_states, 4);
    assert_eq!(cpu.get_t_states(), 4);
}

#[test]
fn flags_keep_undocumented_bits() {
    for b in 0..=255u8 {
        let mut flags = Flags::new();
        flags.from_byte(b);
        assert_eq!(flags.to_byte(), b);
    }
    let mut flags = Flags::new();
    flags.from_byte(0x28);
    assert!(flags.y && flags.x);
    let cpu = Cpu {
        f: 0xFF,
        ..Default::default()
    };
    assert_eq!(cpu.flags().to_byte(), 0xFF);
}
