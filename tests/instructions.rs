use rens::bus::CpuBus;
use rens::error::CpuError;
use rens::instruction::InstructionProcessor;
use rens::mapper::Mapper000;
use rens::register::{P_FLAGS_C, P_FLAGS_D, P_FLAGS_I, P_FLAGS_N, P_FLAGS_U, P_FLAGS_V, P_FLAGS_Z};

fn machine(program: &[u8]) -> CpuBus {
    let mut bus = CpuBus::new(Mapper000::new(vec![0; 0x8000], vec![0; 0x2000]));
    for (i, b) in program.iter().enumerate() {
        bus.cpu_write(0x0600 + i as u16, *b).unwrap();
    }
    bus.registers_mut().pc = 0x0600;
    bus.registers_mut().sp = 0xFD;
    bus
}

fn step(bus: &mut CpuBus) -> Result<u32, CpuError> {
    let pc = bus.registers().pc;
    let op = bus.cpu_read(pc).unwrap();
    bus.registers_mut().pc = pc.wrapping_add(1);
    InstructionProcessor.process(op, bus)
}

#[test]
fn bit_copies_bits_six_and_seven() {
    let mut bus = machine(&[0x24, 0x10]);
    bus.cpu_write(0x0010, 0xC0).unwrap();
    bus.registers_mut().a = 0x01;
    assert_eq!(step(&mut bus), Ok(3));
    let p = bus.registers().p;
    assert_eq!(p & (P_FLAGS_N | P_FLAGS_V | P_FLAGS_Z), P_FLAGS_N | P_FLAGS_V | P_FLAGS_Z);
}

#[test]
fn compares_set_carry_zero_negative() {
    let mut bus = machine(&[0xC9, 0x10, 0xE0, 0x20, 0xC0, 0x05]);
    bus.registers_mut().a = 0x10;
    bus.registers_mut().x = 0x10;
    bus.registers_mut().y = 0x06;
    step(&mut bus).unwrap();
    assert_eq!(bus.registers().p & (P_FLAGS_C | P_FLAGS_Z | P_FLAGS_N), P_FLAGS_C | P_FLAGS_Z);
    step(&mut bus).unwrap();
    assert_eq!(bus.registers().p & (P_FLAGS_C | P_FLAGS_Z | P_FLAGS_N), P_FLAGS_N);
    step(&mut bus).unwrap();
    assert_eq!(bus.registers().p & (P_FLAGS_C | P_FLAGS_Z | P_FLAGS_N), P_FLAGS_C);
}

#[test]
fn memory_increment_and_decrement_wrap() {
    let mut bus = machine(&[0xE6, 0x20, 0xC6, 0x21]);
    bus.cpu_write(0x0020, 0xFF).unwrap();
    bus.cpu_write(0x0021, 0x00).unwrap();
    assert_eq!(step(&mut bus), Ok(5));
    assert_eq!(bus.cpu_read(0x0020), Ok(0x00));
    assert!(bus.registers().has_z_flag());
    step(&mut bus).unwrap();
    assert_eq!(bus.cpu_read(0x0021), Ok(0xFF));
    assert!(bus.registers().has_n_flag());
}

#[test]
fn register_increments_and_transfers() {
    let mut bus = machine(&[0xE8, 0xC8, 0xCA, 0x88, 0xAA, 0x8A, 0xA8, 0x98, 0xBA, 0x9A]);
    bus.registers_mut().x = 0xFF;
    bus.registers_mut().a = 0x80;
    step(&mut bus).unwrap();
    assert_eq!(bus.registers().x, 0x00);
    assert!(bus.registers().has_z_flag());
    step(&mut bus).unwrap();
    assert_eq!(bus.registers().y, 0x01);
    step(&mut bus).unwrap();
    assert_eq!(bus.registers().x, 0xFF);
    step(&mut bus).unwrap();
    assert_eq!(bus.registers().y, 0x00);
    step(&mut bus).unwrap();
    assert_eq!(bus.registers().x, 0x80);
    assert!(bus.registers().has_n_flag());
    bus.registers_mut().x = 0x07;
    step(&mut bus).unwrap();
    assert_eq!(bus.registers().a, 0x07);
    step(&mut bus).unwrap();
    assert_eq!(bus.registers().y, 0x07);
    bus.registers_mut().y = 0x09;
    step(&mut bus).unwrap();
    assert_eq!(bus.registers().a, 0x09);
    step(&mut bus).unwrap();
    assert_eq!(bus.registers().x, 0xFD);
    bus.registers_mut().x = 0x00;
    let p = bus.registers().p;
    step(&mut bus).unwrap();
    assert_eq!(bus.registers().sp, 0x00);
    assert_eq!(bus.registers().p, p);
}

#[test]
fn flag_instructions() {
    let mut bus = machine(&[0x38, 0xF8, 0x78, 0x18, 0xD8, 0xB8]);
    bus.registers_mut().p = P_FLAGS_V;
    step(&mut bus).unwrap();
    step(&mut bus).unwrap();
    step(&mut bus).unwrap();
    assert_eq!(bus.registers().p, P_FLAGS_V | P_FLAGS_C | P_FLAGS_D | P_FLAGS_I);
    step(&mut bus).unwrap();
    step(&mut bus).unwrap();
    step(&mut bus).unwrap();
    assert_eq!(bus.registers().p, P_FLAGS_I);
}

#[test]
fn every_branch_condition() {
    // (opcode, flags that make it branch)
    let cases = [
        (0xB0u8, P_FLAGS_C),
        (0x90, 0),
        (0xF0, P_FLAGS_Z),
        (0xD0, 0),
        (0x70, P_FLAGS_V),
        (0x50, 0),
        (0x30, P_FLAGS_N),
        (0x10, 0),
    ];
    for (op, taken_with) in cases {
        let flag = match op {
            0xB0 | 0x90 => P_FLAGS_C,
            0xF0 | 0xD0 => P_FLAGS_Z,
            0x70 | 0x50 => P_FLAGS_V,
            _ => P_FLAGS_N,
        };
        let mut bus = machine(&[op, 0x10]);
        bus.registers_mut().p = taken_with;
        assert_eq!(step(&mut bus), Ok(3));
        assert_eq!(bus.registers().pc, 0x0612);
        let mut bus = machine(&[op, 0x10]);
        bus.registers_mut().p = taken_with ^ flag;
        assert_eq!(step(&mut bus), Ok(2));
        assert_eq!(bus.registers().pc, 0x0602);
    }
}

#[test]
fn lax_loads_a_and_x() {
    let mut bus = machine(&[0xA7, 0x30]);
    bus.cpu_write(0x0030, 0x9C).unwrap();
    step(&mut bus).unwrap();
    assert_eq!((bus.registers().a, bus.registers().x), (0x9C, 0x9C));
    assert!(bus.registers().has_n_flag());
}

#[test]
fn rla_sre_rra() {
    let mut bus = machine(&[0x27, 0x40, 0x47, 0x41, 0x67, 0x42]);
    bus.cpu_write(0x0040, 0x80).unwrap();
    bus.cpu_write(0x0041, 0x03).unwrap();
    bus.cpu_write(0x0042, 0x02).unwrap();
    bus.registers_mut().a = 0xFF;
    bus.registers_mut().p = P_FLAGS_C;
    // RLA: [$40] = $80 -> $01 (old carry in), C = 1, A = $FF & $01.
    step(&mut bus).unwrap();
    assert_eq!(bus.cpu_read(0x0040), Ok(0x01));
    assert_eq!(bus.registers().a, 0x01);
    assert!(bus.registers().has_c_flag());
    // SRE: [$41] = $03 -> $01, C = 1, A = $01 ^ $01.
    step(&mut bus).unwrap();
    assert_eq!(bus.cpu_read(0x0041), Ok(0x01));
    assert_eq!(bus.registers().a, 0x00);
    assert!(bus.registers().has_z_flag());
    // RRA: [$42] = $02 -> $81 (carry in), C = 0, A = $00 + $81 + 0.
    step(&mut bus).unwrap();
    assert_eq!(bus.cpu_read(0x0042), Ok(0x81));
    assert_eq!(bus.registers().a, 0x81);
    assert!(!bus.registers().has_c_flag());
}

#[test]
fn stores_and_illegal_nops() {
    let mut bus = machine(&[0x8D, 0x00, 0x03, 0x8E, 0x01, 0x03, 0x8C, 0x02, 0x03, 0x04, 0x10, 0x0C, 0x00, 0x03, 0x1A]);
    bus.registers_mut().a = 1;
    bus.registers_mut().x = 2;
    bus.registers_mut().y = 3;
    step(&mut bus).unwrap();
    step(&mut bus).unwrap();
    step(&mut bus).unwrap();
    assert_eq!(bus.cpu_read(0x0300), Ok(1));
    assert_eq!(bus.cpu_read(0x0301), Ok(2));
    assert_eq!(bus.cpu_read(0x0302), Ok(3));
    let p = bus.registers().p;
    assert_eq!(step(&mut bus), Ok(3));
    assert_eq!(bus.registers().pc, 0x060B);
    assert_eq!(step(&mut bus), Ok(4));
    assert_eq!(bus.registers().pc, 0x060E);
    assert_eq!(step(&mut bus), Ok(2));
    assert_eq!(bus.registers().pc, 0x060F);
    assert_eq!(bus.registers().p, p);
}

#[test]
fn rti_pops_flags_then_pc() {
    let mut bus = machine(&[0x40]);
    bus.stack_push_word(0x1234).unwrap();
    bus.stack_push(P_FLAGS_C | 0x10).unwrap();
    assert_eq!(step(&mut bus), Ok(6));
    assert_eq!(bus.registers().pc, 0x1234);
    assert_eq!(bus.registers().p, P_FLAGS_C | 0x10 | P_FLAGS_U);
    assert_eq!(bus.registers().sp, 0xFD);
}

#[test]
fn indexed_indirect_and_indirect_indexed() {
    let mut bus = machine(&[0xA1, 0xFE, 0xB1, 0xFF]);
    bus.registers_mut().x = 0x01;
    bus.registers_mut().y = 0x10;
    bus.cpu_write(0x00FF, 0x00).unwrap();
    bus.cpu_write(0x0000, 0x03).unwrap();
    bus.cpu_write(0x0300, 0x5A).unwrap();
    bus.cpu_write(0x0310, 0xA5).unwrap();
    assert_eq!(step(&mut bus), Ok(6));
    assert_eq!(bus.registers().a, 0x5A);
    assert_eq!(step(&mut bus), Ok(5));
    assert_eq!(bus.registers().a, 0xA5);
}
