use z80_undead::cpu::arithmetic::FlagUtils;
use z80_undead::cpu::flags::{FLAG_C, FLAG_H, FLAG_N, FLAG_PV, FLAG_S, FLAG_Z};
use z80_undead::cpu::registers::RegisterPair;
use z80_undead::cpu::Cpu;
use z80_undead::event::{Event, EventQueue};
use z80_undead::memory::Memory;
use z80_undead::system::System;
use z80_undead::timing::TimingConverter;
use z80_undead::EmulatorError;

fn run(program: &[u8], steps: usize) -> Cpu {
    let mut cpu = Cpu::with_memory(Memory::new());
    cpu.load_program(0, program).unwrap();
    for _ in 0..steps {
        cpu.step().unwrap();
    }
    cpu
}

#[test]
fn test_event_processing() {
    let mut cpu = Cpu::default();
    cpu.event_queue.push(Event::Timer, 4);
    cpu.load_program(0, &[0x00]).unwrap();
    let t_states = cpu.step().unwrap();
    assert_eq!(t_states, 4);
    assert!(cpu.event_queue.is_empty());
}

#[test]
fn test_event_timing_sequence() {
    let mut cpu = Cpu::default();
    cpu.event_queue.push(Event::Timer, 2);
    cpu.event_queue.push(Event::Interrupt, 4);
    cpu.load_program(0, &[0x00]).unwrap();
    let t_states = cpu.step().unwrap();
    assert_eq!(t_states, 4);
    assert!(cpu.event_queue.is_empty());
}

#[test]
fn test_event_processing_order() {
    let mut cpu = Cpu::default();
    cpu.event_queue.push(Event::Interrupt, 4);
    cpu.event_queue.push(Event::Timer, 2);
    let first_event = cpu.event_queue.peek().unwrap();
    match first_event.0 {
        Event::Timer => (),
        _ => panic!("Events not properly ordered by T-state"),
    }
}

#[test]
fn test_interrupt_handling() {
    let mut cpu = Cpu::new();
    cpu.ei();
    cpu.im_1();
    cpu.event_queue.push(Event::Interrupt, 100);
    while cpu.get_t_states() < 100 {
        cpu.step().unwrap();
    }
    // The interrupt was accepted: the enable flip-flop is cleared and the
    // handler address is in PC.
    assert!(!cpu.iff1 && cpu.pc == 0x0038 && cpu.event_queue.is_empty());
}

#[test]
fn test_multiple_events() {
    let mut events = EventQueue::new();
    events.push(Event::Timer, 50);
    events.push(Event::Interrupt, 100);
    assert_eq!(events.peek().unwrap().1, 50);
    events.pop();
    assert_eq!(events.peek().unwrap().1, 100);
}

#[test]
fn test_event_timing_accuracy() {
    let mut cpu = Cpu::new();
    let mut events = EventQueue::new();
    events.push(Event::Timer, 16);
    while cpu.get_t_states() < 16 {
        cpu.step().unwrap();
    }
    assert_eq!(cpu.get_t_states(), 16);
    assert!(events.peek().is_some());
}

#[test]
fn equal_due_cycles_keep_insertion_order() {
    let mut events = EventQueue::new();
    events.push(Event::Interrupt, 10);
    events.push(Event::Timer, 10);
    events.push(Event::Timer, 5);
    assert_eq!(events.pop(), Some((Event::Timer, 5)));
    assert_eq!(events.pop(), Some((Event::Interrupt, 10)));
    assert_eq!(events.pop(), Some((Event::Timer, 10)));
    assert_eq!(events.pop(), None);
}

#[test]
fn test_instruction_flow() {
    let cpu = run(&[0x3E, 0x42, 0x06, 0x10, 0x80], 3);
    assert_eq!(cpu.a, 0x52);
    assert_eq!(cpu.b, 0x10);
    assert_eq!(cpu.get_pc(), 5);
    assert!(!cpu.get_flag(FLAG_Z));
}

#[test]
fn test_flag_updates() {
    let cpu = run(&[0x3E, 0xFF, 0x3C], 2);
    assert_eq!(cpu.a, 0x00);
    assert!(cpu.flags().zero);
    assert!(cpu.flags().half_carry);
}

#[test]
fn test_cb_prefix_handling() {
    let cpu = run(&[0xCB, 0x00], 1);
    assert_eq!(cpu.get_t_states(), 8);
}

#[test]
fn test_dd_prefix_handling() {
    let cpu = run(&[0xDD, 0x21, 0x34, 0x12], 1);
    assert_eq!(cpu.get_t_states(), 14);
}

#[test]
fn test_nested_prefix_handling() {
    let cpu = run(&[0xDD, 0xCB, 0x01, 0x06], 1);
    assert_eq!(cpu.get_t_states(), 23);
}

#[test]
fn timing_test_instruction_timing() {
    let cpu = run(&[0x00], 1);
    assert_eq!(cpu.get_t_states(), 4);
    let cpu = run(&[0x3E, 0x42], 1);
    assert_eq!(cpu.get_t_states(), 7);
}

#[test]
fn test_memory_timing() {
    let mut cpu = Cpu::new();
    cpu.set_hl(0x1000);
    cpu.load_program(0, &[0x36, 0x42]).unwrap();
    cpu.step().unwrap();
    assert_eq!(cpu.get_t_states(), 10);
    assert_eq!(cpu.read_byte(0x1000), 0x42);
}

#[test]
fn step_runs_indexed_bit_rotate() {
    let mut cpu = Cpu::new();
    cpu.ix = 0x2000;
    cpu.write_byte(0x2001, 0x81);
    cpu.load_program(0, &[0xDD, 0xCB, 0x01, 0x06]).unwrap();
    assert_eq!(cpu.step().unwrap(), 23);
    assert_eq!(cpu.read_byte(0x2001), 0x03);
    assert!(cpu.get_flag(FLAG_C));
    assert_eq!(cpu.pc, 4);
}

#[test]
fn step_call_pushes_return_address() {
    let mut cpu = Cpu::new();
    cpu.load_program(0, &[0xCD, 0x00, 0x20]).unwrap();
    cpu.step().unwrap();
    assert_eq!(cpu.pc, 0x2000);
    assert_eq!(cpu.sp, 0xFFFD);
    assert_eq!(cpu.read_word(0xFFFD), 0x0003);
}

#[test]
fn step_counts_refresh_per_opcode_byte() {
    let cpu = run(&[0xDD, 0x21, 0x34, 0x12], 1);
    assert_eq!(cpu.r, 2);
    assert_eq!(cpu.ix, 0x1234);
}

#[test]
fn halted_step_idles_until_interrupt() {
    let mut cpu = Cpu::new();
    cpu.ei();
    cpu.im_1();
    cpu.load_program(0, &[0x76]).unwrap();
    assert_eq!(cpu.step().unwrap(), 4);
    assert!(cpu.halted);
    assert_eq!(cpu.pc, 0);
    assert_eq!(cpu.step().unwrap(), 4);
    assert!(cpu.halted);
    assert_eq!(cpu.pc, 0);
    cpu.event_queue.push(Event::Interrupt, 8);
    assert_eq!(cpu.step().unwrap(), 4);
    assert_eq!(cpu.get_t_states(), 12);
    assert!(!cpu.halted);
    // The interrupt was taken at the start of the step and the NOP at the
    // handler address ran.
    assert_eq!(cpu.pc, 0x0039);
    assert_eq!(cpu.read_word(cpu.sp), 1);
}

#[test]
fn invalid_opcode_leaves_pc() {
    let mut cpu = Cpu::new();
    cpu.pc = 0x10;
    cpu.write_byte(0x10, 0xED);
    cpu.write_byte(0x11, 0x00);
    assert!(matches!(cpu.step(), Err(EmulatorError::InvalidOpcode(0x00))));
    assert_eq!(cpu.pc, 0x10);
    assert_eq!(cpu.get_t_states(), 0);
}

#[test]
fn test_memory_initialization() {
    let memory = Memory::new();
    assert_eq!(memory.len(), 0x10000);
    for address in 0..=0xFFFFu16 {
        assert_eq!(memory.read_byte(address).unwrap(), 0);
    }
}

#[test]
fn test_read_write_byte() {
    let mut memory = Memory::new();
    let address = 0x1234;
    let value = 0x42;
    memory.write_byte(address, value).unwrap();
    assert_eq!(memory.read_byte(address).unwrap(), value);
}

#[test]
fn test_load_program() {
    let mut memory = Memory::new();
    let program = [0x00, 0x01, 0x02, 0x03];
    let address = 0x1000;
    memory.load(address, &program).unwrap();
    for (i, &byte) in program.iter().enumerate() {
        assert_eq!(memory.read_byte(address + i as u16).unwrap(), byte);
    }
}

#[test]
fn test_load_program_overflow() {
    let mut memory = Memory::new();
    let program = vec![0x00; 0x10000 + 1];
    let result = memory.load(0, &program);
    assert!(matches!(result, Err(EmulatorError::MemoryError(_))));
}

#[test]
fn load_past_end_reports_start_address() {
    let mut memory = Memory::new();
    assert!(matches!(memory.load(0xFFFF, &[1, 2]), Err(EmulatorError::MemoryError(0xFFFF))));
    assert_eq!(memory.read_byte(0xFFFF).unwrap(), 0);
    assert!(memory.load(0xFFFE, &[1, 2]).is_ok());
}

#[test]
fn test_system_initialization() {
    let system = System::default();
    assert_eq!(system.cpu.get_pc(), 0);
}

#[test]
fn test_program_execution() {
    let mut system = System::default();
    system.load_program(&[0x00]).unwrap();
    system.tick().unwrap();
}

#[test]
fn test_invalid_program() {
    let mut system = System::default();
    system.load_program(&[0xFF]).unwrap();
    let result = system.tick();
    assert!(matches!(result, Err(EmulatorError::InvalidOpcode(0xFF))));
}

#[test]
fn test_timing_conversion() {
    let converter = TimingConverter::default();
    assert_eq!(converter.t_states_per_frame(), 66666);
    assert_eq!(converter.frames_to_t_states(1), 66666);
    assert_eq!(converter.frames_to_t_states(2), 133332);
    assert_eq!(converter.t_states_to_frames(66666), 1);
    assert_eq!(converter.t_states_to_frames(133332), 2);
}

#[test]
fn test_frame_boundary_detection() {
    let mut converter = TimingConverter::default();
    assert!(!converter.update_frame_t_states(66665));
    assert!(converter.update_frame_t_states(1));
    assert_eq!(converter.current_frame_t_states(), 0);
}

#[test]
fn test_clock_frequency_change() {
    let mut converter = TimingConverter::default();
    converter.set_clock_frequency(3_500_000);
    assert_eq!(converter.t_states_per_frame(), 58333);
}

#[test]
fn test_remaining_t_states() {
    let mut converter = TimingConverter::default();
    converter.update_frame_t_states(30000);
    assert_eq!(converter.remaining_t_states(), 36666);
}

#[test]
fn inc_then_dec_restores_every_byte() {
    let mut cpu = Cpu::new();
    for v in 0..=255u8 {
        let up = cpu.inc(v);
        assert_eq!(cpu.dec(up), v);
    }
}

#[test]
fn inc_7f_sets_sign_half_carry_overflow() {
    let mut cpu = Cpu::new();
    assert_eq!(cpu.inc(0x7F), 0x80);
    assert!(cpu.get_flag(FLAG_S));
    assert!(!cpu.get_flag(FLAG_Z));
    assert!(cpu.get_flag(FLAG_H));
    assert!(cpu.get_flag(FLAG_PV));
    assert!(!cpu.get_flag(FLAG_N));
}

#[test]
fn logic_and_rotate_parity() {
    let mut cpu = Cpu::new();
    for v in 0..=255u8 {
        cpu.a = 0xFF;
        cpu.and_a(v);
        assert_eq!(cpu.get_flag(FLAG_PV), v.count_ones() % 2 == 0);
        let r = cpu.rlc(v);
        assert_eq!(cpu.get_flag(FLAG_PV), r.count_ones() % 2 == 0);
    }
}

#[test]
fn push_then_pop_restores_pair_and_sp() {
    let mut cpu = Cpu::new();
    cpu.sp = 0x8000;
    cpu.set_de(0xBEEF);
    cpu.push_rr(RegisterPair::DE);
    assert_eq!(cpu.sp, 0x7FFE);
    cpu.set_de(0);
    cpu.pop_rr(RegisterPair::DE);
    assert_eq!(cpu.get_de(), 0xBEEF);
    assert_eq!(cpu.sp, 0x8000);
}

#[test]
fn ldir_copies_three_bytes() {
    let mut cpu = Cpu::new();
    cpu.set_hl(0x3000);
    cpu.set_de(0x4000);
    cpu.set_bc(3);
    for i in 0..3u16 {
        cpu.write_byte(0x3000 + i, 0x10 + i as u8);
    }
    cpu.write_byte(0x4003, 0x99);
    cpu.ldir();
    for i in 0..3u16 {
        assert_eq!(cpu.read_byte(0x4000 + i), 0x10 + i as u8);
    }
    assert_eq!(cpu.read_byte(0x4003), 0x99);
    assert_eq!(cpu.get_bc(), 0);
    assert!(!cpu.get_flag(FLAG_PV));
    assert_eq!(cpu.get_hl(), 0x3003);
    assert_eq!(cpu.get_de(), 0x4003);
}

#[test]
fn interrupt_during_halt_resumes_after_halt() {
    let mut cpu = Cpu::new();
    cpu.pc = 0x0100;
    cpu.sp = 0x9000;
    cpu.halted = true;
    cpu.iff1 = true;
    cpu.interrupt_mode = 1;
    cpu.handle_interrupt();
    assert!(!cpu.halted);
    assert_eq!(cpu.pc, 0x0038);
    assert_eq!(cpu.sp, 0x8FFE);
    assert_eq!(cpu.read_word(0x8FFE), 0x0101);
}

#[test]
fn daa_after_bcd_overflow() {
    let mut cpu = Cpu::new();
    cpu.a = 0x9A;
    cpu.f = 0;
    cpu.daa();
    assert_eq!(cpu.a, 0x00);
    assert!(cpu.get_flag(FLAG_C));
    assert!(cpu.get_flag(FLAG_Z));
    assert!(!cpu.get_flag(FLAG_H));
}

#[test]
fn daa_after_subtraction() {
    let mut cpu = Cpu::new();
    cpu.a = 0x15;
    cpu.sub_a(0x06);
    cpu.daa();
    assert_eq!(cpu.a, 0x09);
    assert!(cpu.get_flag(FLAG_N));
}

#[test]
fn add_and_sub_flags() {
    let mut cpu = Cpu::new();
    cpu.a = 0x0F;
    cpu.add_a(0x01);
    assert_eq!(cpu.a, 0x10);
    assert!(cpu.get_flag(FLAG_H));
    assert!(!cpu.get_flag(FLAG_PV));
    cpu.a = 0x80;
    cpu.sub_a(0x01);
    assert_eq!(cpu.a, 0x7F);
    assert!(cpu.get_flag(FLAG_PV));
    assert!(cpu.get_flag(FLAG_N));
    assert!(!cpu.get_flag(FLAG_C));
    cpu.a = 0xFF;
    cpu.set_flag(FLAG_C, true);
    cpu.adc_a(0x00);
    assert_eq!(cpu.a, 0x00);
    assert!(cpu.get_flag(FLAG_C));
    assert!(cpu.get_flag(FLAG_Z));
    cpu.a = 0x00;
    cpu.set_flag(FLAG_C, true);
    cpu.sbc_a(0x00);
    assert_eq!(cpu.a, 0xFF);
    assert!(cpu.get_flag(FLAG_C));
}

#[test]
fn neg_of_one() {
    let mut cpu = Cpu::new();
    cpu.a = 0x01;
    cpu.neg();
    assert_eq!(cpu.a, 0xFF);
    assert!(cpu.get_flag(FLAG_C));
    assert!(cpu.get_flag(FLAG_N));
}

#[test]
fn rlca_keeps_sign_and_zero() {
    let mut cpu = Cpu::new();
    cpu.f = FLAG_Z | FLAG_S;
    cpu.a = 0x01;
    cpu.rlca();
    assert_eq!(cpu.a, 0x02);
    assert!(cpu.get_flag(FLAG_Z));
    assert!(cpu.get_flag(FLAG_S));
    assert!(!cpu.get_flag(FLAG_C));
    assert!(!cpu.get_flag(FLAG_H) && !cpu.get_flag(FLAG_N));
}

#[test]
fn flag_utils_update_single_flags() {
    let mut cpu = Cpu::new();
    cpu.f = FLAG_C;
    cpu.update_sign_flag(0x80);
    cpu.update_zero_flag(0x01);
    cpu.update_parity_flag(0x03);
    cpu.update_half_carry_flag(0x0F, 0x01, false);
    assert!(cpu.get_flag(FLAG_S));
    assert!(!cpu.get_flag(FLAG_Z));
    assert!(cpu.get_flag(FLAG_PV));
    assert!(cpu.get_flag(FLAG_H));
    assert!(cpu.get_flag(FLAG_C));
    cpu.update_carry_flag(0x0FF);
    assert!(!cpu.get_flag(FLAG_C));
    cpu.update_overflow_flag(0x7F, 0x01, 0x80);
    assert!(cpu.get_flag(FLAG_PV));
    cpu.update_overflow_flag(0x7F, 0x80, 0xFF);
    assert!(!cpu.get_flag(FLAG_PV));
}

#[test]
fn step_reaches_index_half_registers() {
    let mut cpu = Cpu::new();
    cpu.iy = 0x12FF;
    cpu.load_program(0, &[0xDD, 0x26, 0x56, 0xDD, 0x7C, 0xFD, 0x2C, 0xFD, 0xBC]).unwrap();
    assert_eq!(cpu.step().unwrap(), 11);
    assert_eq!(cpu.ix, 0x5600);
    cpu.step().unwrap();
    assert_eq!(cpu.a, 0x56);
    cpu.step().unwrap();
    assert_eq!(cpu.iy, 0x1200);
    assert!(cpu.get_flag(FLAG_Z));
    cpu.step().unwrap();
    assert!(!cpu.get_flag(FLAG_Z));
    assert!(cpu.get_flag(FLAG_N));
    assert_eq!(cpu.pc, 9);
}
