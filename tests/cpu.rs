use rens::addressing::{AddressingMode, AddressingType};
use rens::bus::CpuBus;
use rens::clock::Clock;
use rens::cpu::Cpu;
use rens::error::CpuError;
use rens::instruction::{Instruction, InstructionInfo, InstructionProcessor, InstructionType};
use rens::mapper::{make_mapper, Mapper000};
use rens::memory::MemoryError;
use rens::register::{
    CpuRegisters, Flags, P_FLAGS_B, P_FLAGS_C, P_FLAGS_I, P_FLAGS_N, P_FLAGS_U, P_FLAGS_V,
    P_FLAGS_Z,
};

fn blank_bus() -> CpuBus {
    CpuBus::new(Mapper000::new(vec![0; 0x8000], vec![0; 0x2000]))
}

/// A bus with `program` at `at` in RAM, PC on it and SP at `$FD`.
fn bus_with(at: u16, program: &[u8]) -> CpuBus {
    let mut bus = blank_bus();
    for (i, b) in program.iter().enumerate() {
        bus.cpu_write(at + i as u16, *b).unwrap();
    }
    bus.registers_mut().pc = at;
    bus.registers_mut().sp = 0xFD;
    bus
}

/// Runs the instruction at PC; returns its total cycle count.
fn run_one(bus: &mut CpuBus) -> Result<u32, CpuError> {
    let pc = bus.registers().pc;
    let op = bus.cpu_read(pc).unwrap();
    bus.registers_mut().pc = pc.wrapping_add(1);
    InstructionProcessor.process(op, bus)
}

#[test]
fn reset_seeds_registers_and_defers_seven_cycles() {
    let mut prg = vec![0u8; 0x8000];
    prg[0x7FFC] = 0x00;
    prg[0x7FFD] = 0x80;
    let mut cpu = Cpu::new(CpuBus::new(Mapper000::new(prg, vec![0; 0x2000])));
    cpu.reset().unwrap();
    let r = *cpu.bus().registers();
    assert_eq!(r.pc, 0x8000);
    assert_eq!(r.sp, 0xFD);
    assert_eq!((r.a, r.x, r.y), (0, 0, 0));
    assert_eq!(r.p, P_FLAGS_U | P_FLAGS_I);
    assert_eq!(cpu.defer_cycles(), 7);
    for _ in 0..7 {
        cpu.clock().unwrap();
    }
    assert_eq!(cpu.cycles(), 7);
    assert_eq!(cpu.defer_cycles(), 0);
    assert_eq!(cpu.clock(), Err(CpuError::UnknownInstruction(0x00)));
}

#[test]
fn branch_taken_across_page_costs_four() {
    let mut bus = bus_with(0x0080, &[0xF0, 0x7F]);
    bus.registers_mut().set_z_flag(true);
    assert_eq!(run_one(&mut bus), Ok(4));
    assert_eq!(bus.registers().pc, 0x0101);
}

#[test]
fn branch_not_taken_costs_two() {
    let mut bus = bus_with(0x0080, &[0xF0, 0x7F]);
    bus.registers_mut().set_z_flag(false);
    assert_eq!(run_one(&mut bus), Ok(2));
    assert_eq!(bus.registers().pc, 0x0082);
}

#[test]
fn branch_taken_on_same_page_costs_three() {
    let mut bus = bus_with(0x0080, &[0xD0, 0x04]);
    assert_eq!(run_one(&mut bus), Ok(3));
    assert_eq!(bus.registers().pc, 0x0086);
    let mut back = bus_with(0x0090, &[0xD0, 0xFC]);
    assert_eq!(run_one(&mut back), Ok(3));
    assert_eq!(back.registers().pc, 0x008E);
}

#[test]
fn indirect_jump_keeps_high_byte_fetch_on_page() {
    let mut bus = bus_with(0x1000, &[0x6C, 0xFF, 0x02]);
    bus.cpu_write(0x02FF, 0x34).unwrap();
    bus.cpu_write(0x0200, 0x12).unwrap();
    bus.cpu_write(0x0300, 0x56).unwrap();
    assert_eq!(run_one(&mut bus), Ok(5));
    assert_eq!(bus.registers().pc, 0x1234);
}

#[test]
fn adc_sets_overflow_and_negative() {
    let mut bus = bus_with(0x0000, &[0x69, 0x50]);
    bus.registers_mut().a = 0x50;
    bus.registers_mut().set_c_flag(false);
    run_one(&mut bus).unwrap();
    let r = *bus.registers();
    assert_eq!(r.a, 0xA0);
    assert!(r.has_v_flag());
    assert!(r.has_n_flag());
    assert!(!r.has_z_flag());
    assert!(!r.has_c_flag());
}

#[test]
fn sbc_borrows() {
    let mut bus = bus_with(0x0000, &[0xE9, 0xF0]);
    bus.registers_mut().a = 0x50;
    bus.registers_mut().set_c_flag(true);
    run_one(&mut bus).unwrap();
    let r = *bus.registers();
    assert_eq!(r.a, 0x60);
    assert!(!r.has_v_flag());
    assert!(!r.has_n_flag());
    assert!(!r.has_z_flag());
    assert!(!r.has_c_flag());
}

#[test]
fn adc_carries_out() {
    let mut bus = bus_with(0x0000, &[0x69, 0x01]);
    bus.registers_mut().a = 0xFF;
    run_one(&mut bus).unwrap();
    let r = *bus.registers();
    assert_eq!(r.a, 0x00);
    assert!(r.has_c_flag());
    assert!(r.has_z_flag());
    assert!(!r.has_v_flag());
}

#[test]
fn dcp_decrements_then_compares() {
    let mut bus = bus_with(0x0000, &[0xC7, 0x40]);
    bus.cpu_write(0x0040, 0x10).unwrap();
    bus.registers_mut().a = 0x0F;
    assert_eq!(run_one(&mut bus), Ok(5));
    assert_eq!(bus.cpu_read(0x0040), Ok(0x0F));
    let r = *bus.registers();
    assert!(r.has_c_flag());
    assert!(r.has_z_flag());
    assert!(!r.has_n_flag());
    assert_eq!(r.a, 0x0F);
}

#[test]
fn pha_pla_round_trip() {
    let mut bus = bus_with(0x0000, &[0x48, 0xA9, 0x00, 0x68]);
    bus.registers_mut().a = 0x85;
    run_one(&mut bus).unwrap();
    run_one(&mut bus).unwrap();
    assert_eq!(bus.registers().a, 0x00);
    assert!(bus.registers().has_z_flag());
    assert_eq!(run_one(&mut bus), Ok(4));
    let r = *bus.registers();
    assert_eq!(r.a, 0x85);
    assert!(r.has_n_flag());
    assert!(!r.has_z_flag());
    assert_eq!(r.sp, 0xFD);
}

#[test]
fn php_plp_forces_u_and_clears_b() {
    let mut bus = bus_with(0x0000, &[0x08, 0x28]);
    bus.registers_mut().p = P_FLAGS_C | P_FLAGS_N;
    run_one(&mut bus).unwrap();
    assert_eq!(bus.cpu_read(0x01FD), Ok(P_FLAGS_C | P_FLAGS_N | P_FLAGS_U | P_FLAGS_B));
    bus.registers_mut().p = 0;
    run_one(&mut bus).unwrap();
    assert_eq!(bus.registers().p, P_FLAGS_C | P_FLAGS_N | P_FLAGS_U);
}

#[test]
fn jsr_rts_returns_after_the_call() {
    let mut bus = bus_with(0x0300, &[0x20, 0x00, 0x04]);
    bus.cpu_write(0x0400, 0x60).unwrap();
    assert_eq!(run_one(&mut bus), Ok(6));
    assert_eq!(bus.registers().pc, 0x0400);
    assert_eq!(bus.cpu_read_word(0x01FC), Ok(0x0302));
    assert_eq!(run_one(&mut bus), Ok(6));
    assert_eq!(bus.registers().pc, 0x0303);
    assert_eq!(bus.registers().sp, 0xFD);
}

#[test]
fn nmi_then_rti_restores_pc_and_flags() {
    let mut prg = vec![0u8; 0x8000];
    prg[0x7FFA] = 0x00;
    prg[0x7FFB] = 0x05;
    let mut bus = CpuBus::new(Mapper000::new(prg, vec![0; 0x2000]));
    bus.cpu_write(0x0500, 0x40).unwrap();
    bus.registers_mut().pc = 0x1234;
    bus.registers_mut().sp = 0xFD;
    bus.registers_mut().p = P_FLAGS_C | P_FLAGS_B | P_FLAGS_V;
    let mut cpu = Cpu::new(bus);
    cpu.nmi().unwrap();
    assert_eq!(cpu.defer_cycles(), 7);
    assert_eq!(cpu.bus().registers().pc, 0x0500);
    assert!(cpu.bus().registers().has_i_flag());
    assert_eq!(cpu.bus().cpu_read(0x01FB), Ok(P_FLAGS_C | P_FLAGS_V | P_FLAGS_U));
    for _ in 0..7 {
        cpu.clock().unwrap();
    }
    cpu.clock().unwrap();
    let r = *cpu.bus().registers();
    assert_eq!(r.pc, 0x1234);
    assert_eq!(r.sp, 0xFD);
    assert_eq!(r.p, P_FLAGS_C | P_FLAGS_V | P_FLAGS_U);
    assert_eq!(cpu.defer_cycles(), 5);
}

#[test]
fn irq_is_masked_by_i() {
    let mut bus = blank_bus();
    bus.registers_mut().p = P_FLAGS_I;
    bus.registers_mut().pc = 0x4321;
    let mut cpu = Cpu::new(bus);
    cpu.irq().unwrap();
    assert_eq!(cpu.defer_cycles(), 0);
    assert_eq!(cpu.bus().registers().pc, 0x4321);
    cpu.bus_mut().registers_mut().p = 0;
    cpu.irq().unwrap();
    assert_eq!(cpu.defer_cycles(), 7);
    assert_eq!(cpu.bus().registers().pc, 0x0000);
    assert_eq!(cpu.bus().registers().sp, 0xFD);
}

#[test]
fn stack_push_pop_round_trip() {
    let mut bus = blank_bus();
    bus.registers_mut().sp = 0x00;
    bus.stack_push(0xAB).unwrap();
    assert_eq!(bus.registers().sp, 0xFF);
    assert_eq!(bus.cpu_read(0x0100), Ok(0xAB));
    assert_eq!(bus.stack_pop(), Ok(0xAB));
    assert_eq!(bus.registers().sp, 0x00);
    bus.stack_push_word(0xBEEF).unwrap();
    assert_eq!(bus.stack_pop_word(), Ok(0xBEEF));
    assert_eq!(bus.registers().sp, 0x00);
}

#[test]
fn zero_page_indexed_wraps() {
    let mut bus = bus_with(0x0000, &[0xB5, 0xF0]);
    bus.registers_mut().x = 0x20;
    bus.cpu_write(0x0010, 0x77).unwrap();
    bus.cpu_write(0x0110, 0x99).unwrap();
    run_one(&mut bus).unwrap();
    assert_eq!(bus.registers().a, 0x77);
    let mut ldx = bus_with(0x0000, &[0xB6, 0xFF]);
    ldx.registers_mut().y = 0x03;
    ldx.cpu_write(0x0002, 0x42).unwrap();
    ldx.cpu_write(0x0102, 0x24).unwrap();
    run_one(&mut ldx).unwrap();
    assert_eq!(ldx.registers().x, 0x42);
}

#[test]
fn addressing_reports_page_cross() {
    let mut bus = bus_with(0x0000, &[0xFF, 0x12]);
    bus.registers_mut().x = 0x01;
    assert_eq!(AddressingMode::AbsoluteX.addressing(&mut bus), Ok((0x1300, true)));
    assert_eq!(bus.registers().pc, 0x0002);
    assert_eq!(AddressingMode::Implicit.addressing_type(), AddressingType::Data);
    assert_eq!(AddressingMode::IndirectY.addressing_type(), AddressingType::Address);
}

#[test]
fn lda_absolute_x_page_cross_costs_one_more() {
    let mut bus = bus_with(0x0000, &[0xBD, 0xFF, 0x02]);
    bus.registers_mut().x = 1;
    bus.cpu_write(0x0300, 0x80).unwrap();
    assert_eq!(run_one(&mut bus), Ok(5));
    assert_eq!(bus.registers().a, 0x80);
    assert!(bus.registers().has_n_flag());
}

#[test]
fn clock_adds_one_cycle_and_fetches_when_idle() {
    let mut bus = bus_with(0x0000, &[0xEA, 0xE8]);
    bus.registers_mut().p = 0;
    let mut cpu = Cpu::new(bus);
    cpu.clock().unwrap();
    assert_eq!(cpu.cycles(), 1);
    assert_eq!(cpu.defer_cycles(), 1);
    assert_eq!(cpu.bus().registers().pc, 0x0001);
    cpu.clock().unwrap();
    assert_eq!(cpu.cycles(), 2);
    assert_eq!(cpu.bus().registers().pc, 0x0001);
    cpu.clock().unwrap();
    assert_eq!(cpu.cycles(), 3);
    assert_eq!(cpu.bus().registers().x, 1);
    assert_eq!(cpu.bus().registers().pc, 0x0002);
}

#[test]
fn unknown_opcode_is_refused() {
    let mut bus = bus_with(0x0000, &[0x02]);
    assert_eq!(run_one(&mut bus), Err(CpuError::UnknownInstruction(0x02)));
    assert!(InstructionInfo::from_code(0x02).is_none());
}

#[test]
fn decode_table_entries() {
    let jmp = InstructionInfo::from_code(0x6C).unwrap();
    assert_eq!(jmp.ins, Instruction::Jmp);
    assert_eq!(jmp.mode, AddressingMode::Indirect);
    assert_eq!(jmp.cycles, 5);
    assert_eq!(jmp.ins_type, InstructionType::Common);
    let lda = InstructionInfo::from_code(0xB1).unwrap();
    assert_eq!((lda.ins, lda.cycles, lda.ins_type), (Instruction::Lda, 5, InstructionType::CrossingPage));
    let count = (0..=255u8).filter(|op| InstructionInfo::from_code(*op).is_some()).count();
    assert_eq!(count, 229);
}

#[test]
fn bus_errors() {
    let mut bus = CpuBus::new(Mapper000::new(vec![0; 0x4000], vec![0; 0x100]));
    assert_eq!(bus.cpu_read(0x5000), Err(MemoryError::AddressOutOfRange(0x5000)));
    assert_eq!(bus.cpu_write(0x5000, 1), Err(MemoryError::AddressOutOfRange(0x5000)));
    assert_eq!(bus.cpu_read(0x2005), Ok(0));
    assert_eq!(bus.cpu_write(0x2005, 9), Ok(()));
    let mut run = bus_with(0x0000, &[0xAD, 0x00, 0x50]);
    assert_eq!(run_one(&mut run), Err(CpuError::Memory(MemoryError::AddressOutOfRange(0x5000))));
    assert_eq!(CpuError::from(MemoryError::ReadMemory(1)), CpuError::Memory(MemoryError::ReadMemory(1)));
}

#[test]
fn ram_is_mirrored() {
    let mut bus = blank_bus();
    bus.cpu_write(0x0801, 0x5A).unwrap();
    assert_eq!(bus.cpu_read(0x0001), Ok(0x5A));
    assert_eq!(bus.cpu_read(0x1801), Ok(0x5A));
    bus.cpu_write_word(0x07FF, 0x1234).unwrap();
    assert_eq!(bus.cpu_read(0x07FF), Ok(0x34));
    assert_eq!(bus.cpu_read(0x0000), Ok(0x12));
}

#[test]
fn make_mapper_knows_only_nrom() {
    assert!(make_mapper(0, vec![0; 0x4000], vec![]).is_some());
    assert!(make_mapper(1, vec![0; 0x4000], vec![]).is_none());
}

#[test]
fn flags_helpers() {
    let mut p: u8 = 0;
    p.add_flag(P_FLAGS_Z);
    assert!(p.has_flag(P_FLAGS_Z));
    p.set_flag(P_FLAGS_Z, false);
    assert_eq!(p, 0);
    let mut r = CpuRegisters::new();
    r.set_z_n_flags(0x80);
    assert!(r.has_n_flag() && !r.has_z_flag());
    r.set_z_n_flags(0);
    assert!(!r.has_n_flag() && r.has_z_flag());
    r.set_b_flag(true);
    assert!(r.has_b_flag());
    r.clear_flags();
    assert_eq!(r.p, 0);
}

#[test]
fn shifts_and_rotates() {
    let mut bus = bus_with(0x0000, &[0x0A, 0x6A, 0x2A, 0x4A]);
    bus.registers_mut().a = 0x81;
    run_one(&mut bus).unwrap();
    assert_eq!(bus.registers().a, 0x02);
    assert!(bus.registers().has_c_flag());
    run_one(&mut bus).unwrap();
    assert_eq!(bus.registers().a, 0x81);
    assert!(!bus.registers().has_c_flag());
    run_one(&mut bus).unwrap();
    assert_eq!(bus.registers().a, 0x02);
    assert!(bus.registers().has_c_flag());
    run_one(&mut bus).unwrap();
    assert_eq!(bus.registers().a, 0x01);
    assert!(!bus.registers().has_c_flag());
}

#[test]
fn illegal_read_modify_write_opcodes() {
    // ISC $40: [$40] = $0F -> $10, then A = $20 - $10 with C set.
    let mut bus = bus_with(0x0000, &[0xE7, 0x40, 0x07, 0x41, 0x87, 0x42]);
    bus.cpu_write(0x0040, 0x0F).unwrap();
    bus.cpu_write(0x0041, 0x81).unwrap();
    bus.registers_mut().a = 0x20;
    bus.registers_mut().x = 0x0C;
    bus.registers_mut().set_c_flag(true);
    run_one(&mut bus).unwrap();
    assert_eq!(bus.cpu_read(0x0040), Ok(0x10));
    assert_eq!(bus.registers().a, 0x10);
    assert!(bus.registers().has_c_flag());
    // SLO $41: [$41] = $81 -> $02, C = 1, A = $10 | $02.
    run_one(&mut bus).unwrap();
    assert_eq!(bus.cpu_read(0x0041), Ok(0x02));
    assert_eq!(bus.registers().a, 0x12);
    assert!(bus.registers().has_c_flag());
    // SAX $42: [$42] = A & X.
    run_one(&mut bus).unwrap();
    assert_eq!(bus.cpu_read(0x0042), Ok(0x12 & 0x0C));
}
