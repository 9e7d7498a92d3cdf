use vstd::prelude::*;

use crate::addressing::AddressingMode;
use crate::bus::{
    pop_value, pop_word_value, popped, pushed, pushed_word, BusView, CpuBus,
};
use crate::error::CpuError;
use crate::memory::MemoryError;
use crate::register::{
    flag_of, with_flag, with_zn, CpuRegisters, P_FLAGS_B, P_FLAGS_C, P_FLAGS_D, P_FLAGS_I,
    P_FLAGS_N, P_FLAGS_U, P_FLAGS_V, P_FLAGS_Z,
};

verus! {

/// How an instruction's cycle count grows beyond its base count.
#[derive(Debug, Clone, Copy, PartialEq, Eq, Structural)]
pub enum InstructionType {
    /// Never.
    Common,
    /// One more cycle when the operand crosses a page.
    CrossingPage,
    /// One more when the branch is taken, two when it also crosses a page.
    Branch,
}

/// The mnemonics that the decoder knows, official and undocumented.
#[derive(Debug, Clone, Copy, PartialEq, Eq, Structural)]
pub enum Instruction {
    Jmp,
    Ldx,
    Stx,
    Jsr,
    Nop,
    Sec,
    Bcs,
    Clc,
    Bcc,
    Lda,
    Beq,
    Bne,
    Sta,
    Bit,
    Bvs,
    Bvc,
    Bpl,
    Rts,
    Sei,
    Asl,
    Sed,
    Php,
    Pla,
    And,
    Cmp,
    Cld,
    Pha,
    Plp,
    Bmi,
    Ora,
    Clv,
    Eor,
    Adc,
    Ldy,
    Cpy,
    Cpx,
    Sbc,
    Iny,
    Inx,
    Dey,
    Dex,
    Tay,
    Tax,
    Txa,
    Tya,
    Tsx,
    Txs,
    Rti,
    Lsr,
    Ror,
    Rol,
    Sty,
    Inc,
    Dec,
    Dop,
    Top,
    Lax,
    Aax,
    Dcp,
    Isc,
    Slo,
    Rla,
    Sre,
    Rra,
}

/// One entry of the decode table.
#[derive(Debug, Clone, Copy, PartialEq, Eq, Structural)]
pub struct InstructionInfo {
    pub code: u8,
    pub ins: Instruction,
    pub mode: AddressingMode,
    pub cycles: u32,
    pub ins_type: InstructionType,
}

pub open spec fn record(
    code: u8,
    ins: Instruction,
    mode: AddressingMode,
    cycles: u32,
    ins_type: InstructionType,
) -> InstructionInfo {
    InstructionInfo { code, ins, mode, cycles, ins_type }
}

/// The decode table: opcode byte to mnemonic, addressing mode, base cycles and timing class.
pub open spec fn decode(op: u8) -> Option<InstructionInfo> {
    match op {
        0x01 => Some(record(0x01, Instruction::Ora, AddressingMode::IndirectX, 6, InstructionType::Common)),
        0x03 => Some(record(0x03, Instruction::Slo, AddressingMode::IndirectX, 8, InstructionType::Common)),
        0x04 => Some(record(0x04, Instruction::Dop, AddressingMode::ZeroPage, 3, InstructionType::Common)),
        0x05 => Some(record(0x05, Instruction::Ora, AddressingMode::ZeroPage, 3, InstructionType::Common)),
        0x06 => Some(record(0x06, Instruction::Asl, AddressingMode::ZeroPage, 5, InstructionType::Common)),
        0x07 => Some(record(0x07, Instruction::Slo, AddressingMode::ZeroPage, 5, InstructionType::Common)),
        0x08 => Some(record(0x08, Instruction::Php, AddressingMode::Implicit, 3, InstructionType::Common)),
        0x09 => Some(record(0x09, Instruction::Ora, AddressingMode::Immediate, 2, InstructionType::Common)),
        0x0A => Some(record(0x0A, Instruction::Asl, AddressingMode::Accumulator, 2, InstructionType::Common)),
        0x0C => Some(record(0x0C, Instruction::Top, AddressingMode::Absolute, 4, InstructionType::Common)),
        0x0D => Some(record(0x0D, Instruction::Ora, AddressingMode::Absolute, 4, InstructionType::Common)),
        0x0E => Some(record(0x0E, Instruction::Asl, AddressingMode::Absolute, 6, InstructionType::Common)),
        0x0F => Some(record(0x0F, Instruction::Slo, AddressingMode::Absolute, 6, InstructionType::Common)),
        0x10 => Some(record(0x10, Instruction::Bpl, AddressingMode::Relative, 2, InstructionType::Branch)),
        0x11 => Some(record(0x11, Instruction::Ora, AddressingMode::IndirectY, 5, InstructionType::CrossingPage)),
        0x13 => Some(record(0x13, Instruction::Slo, AddressingMode::IndirectY, 8, InstructionType::Common)),
        0x14 => Some(record(0x14, Instruction::Dop, AddressingMode::ZeroPageX, 4, InstructionType::Common)),
        0x15 => Some(record(0x15, Instruction::Ora, AddressingMode::ZeroPageX, 4, InstructionType::Common)),
        0x16 => Some(record(0x16, Instruction::Asl, AddressingMode::ZeroPageX, 6, InstructionType::Common)),
        0x17 => Some(record(0x17, Instruction::Slo, AddressingMode::ZeroPageX, 6, InstructionType::Common)),
        0x18 => Some(record(0x18, Instruction::Clc, AddressingMode::Implicit, 2, InstructionType::Common)),
        0x19 => Some(record(0x19, Instruction::Ora, AddressingMode::AbsoluteY, 4, InstructionType::CrossingPage)),
        0x1A => Some(record(0x1A, Instruction::Nop, AddressingMode::Implicit, 2, InstructionType::Common)),
        0x1B => Some(record(0x1B, Instruction::Slo, AddressingMode::AbsoluteY, 7, InstructionType::Common)),
        0x1C => Some(record(0x1C, Instruction::Top, AddressingMode::AbsoluteX, 4, InstructionType::CrossingPage)),
        0x1D => Some(record(0x1D, Instruction::Ora, AddressingMode::AbsoluteX, 4, InstructionType::CrossingPage)),
        0x1E => Some(record(0x1E, Instruction::Asl, AddressingMode::AbsoluteX, 7, InstructionType::Common)),
        0x1F => Some(record(0x1F, Instruction::Slo, AddressingMode::AbsoluteX, 7, InstructionType::Common)),
        0x20 => Some(record(0x20, Instruction::Jsr, AddressingMode::Absolute, 6, InstructionType::Common)),
        0x21 => Some(record(0x21, Instruction::And, AddressingMode::IndirectX, 6, InstructionType::Common)),
        0x23 => Some(record(0x23, Instruction::Rla, AddressingMode::IndirectX, 8, InstructionType::Common)),
        0x24 => Some(record(0x24, Instruction::Bit, AddressingMode::ZeroPage, 3, InstructionType::Common)),
        0x25 => Some(record(0x25, Instruction::And, AddressingMode::ZeroPage, 3, InstructionType::Common)),
        0x26 => Some(record(0x26, Instruction::Rol, AddressingMode::ZeroPage, 5, InstructionType::Common)),
        0x27 => Some(record(0x27, Instruction::Rla, AddressingMode::ZeroPage, 5, InstructionType::Common)),
        0x28 => Some(record(0x28, Instruction::Plp, AddressingMode::Implicit, 4, InstructionType::Common)),
        0x29 => Some(record(0x29, Instruction::And, AddressingMode::Immediate, 2, InstructionType::Common)),
        0x2A => Some(record(0x2A, Instruction::Rol, AddressingMode::Accumulator, 2, InstructionType::Common)),
        0x2C => Some(record(0x2C, Instruction::Bit, AddressingMode::Absolute, 4, InstructionType::Common)),
        0x2D => Some(record(0x2D, Instruction::And, AddressingMode::Absolute, 4, InstructionType::Common)),
        0x2E => Some(record(0x2E, Instruction::Rol, AddressingMode::Absolute, 6, InstructionType::Common)),
        0x2F => Some(record(0x2F, Instruction::Rla, AddressingMode::Absolute, 6, InstructionType::Common)),
        0x30 => Some(record(0x30, Instruction::Bmi, AddressingMode::Relative, 2, InstructionType::Branch)),
        0x31 => Some(record(0x31, Instruction::And, AddressingMode::IndirectY, 5, InstructionType::CrossingPage)),
        0x33 => Some(record(0x33, Instruction::Rla, AddressingMode::IndirectY, 8, InstructionType::Common)),
        0x34 => Some(record(0x34, Instruction::Dop, AddressingMode::ZeroPageX, 4, InstructionType::Common)),
        0x35 => Some(record(0x35, Instruction::And, AddressingMode::ZeroPageX, 4, InstructionType::Common)),
        0x36 => Some(record(0x36, Instruction::Rol, AddressingMode::ZeroPageX, 6, InstructionType::Common)),
        0x37 => Some(record(0x37, Instruction::Rla, AddressingMode::ZeroPageX, 6, InstructionType::Common)),
        0x38 => Some(record(0x38, Instruction::Sec, AddressingMode::Implicit, 2, InstructionType::Common)),
        0x39 => Some(record(0x39, Instruction::And, AddressingMode::AbsoluteY, 4, InstructionType::CrossingPage)),
        0x3A => Some(record(0x3A, Instruction::Nop, AddressingMode::Implicit, 2, InstructionType::Common)),
        0x3B => Some(record(0x3B, Instruction::Rla, AddressingMode::AbsoluteY, 7, InstructionType::Common)),
        0x3C => Some(record(0x3C, Instruction::Top, AddressingMode::AbsoluteX, 4, InstructionType::CrossingPage)),
        0x3D => Some(record(0x3D, Instruction::And, AddressingMode::AbsoluteX, 4, InstructionType::CrossingPage)),
        0x3E => Some(record(0x3E, Instruction::Rol, AddressingMode::AbsoluteX, 7, InstructionType::Common)),
        0x3F => Some(record(0x3F, Instruction::Rla, AddressingMode::AbsoluteX, 7, InstructionType::Common)),
        0x40 => Some(record(0x40, Instruction::Rti, AddressingMode::Implicit, 6, InstructionType::Common)),
        0x41 => Some(record(0x41, Instruction::Eor, AddressingMode::IndirectX, 6, InstructionType::Common)),
        0x43 => Some(record(0x43, Instruction::Sre, AddressingMode::IndirectX, 8, InstructionType::Common)),
        0x44 => Some(record(0x44, Instruction::Dop, AddressingMode::ZeroPage, 3, InstructionType::Common)),
        0x45 => Some(record(0x45, Instruction::Eor, AddressingMode::ZeroPage, 3, InstructionType::Common)),
        0x46 => Some(record(0x46, Instruction::Lsr, AddressingMode::ZeroPage, 5, InstructionType::Common)),
        0x47 => Some(record(0x47, Instruction::Sre, AddressingMode::ZeroPage, 5, InstructionType::Common)),
        0x48 => Some(record(0x48, Instruction::Pha, AddressingMode::Implicit, 3, InstructionType::Common)),
        0x49 => Some(record(0x49, Instruction::Eor, AddressingMode::Immediate, 2, InstructionType::Common)),
        0x4A => Some(record(0x4A, Instruction::Lsr, AddressingMode::Accumulator, 2, InstructionType::Common)),
        0x4C => Some(record(0x4C, Instruction::Jmp, AddressingMode::Absolute, 3, InstructionType::Common)),
        0x4D => Some(record(0x4D, Instruction::Eor, AddressingMode::Absolute, 4, InstructionType::Common)),
        0x4E => Some(record(0x4E, Instruction::Lsr, AddressingMode::Absolute, 6, InstructionType::Common)),
        0x4F => Some(record(0x4F, Instruction::Sre, AddressingMode::Absolute, 6, InstructionType::Common)),
        0x50 => Some(record(0x50, Instruction::Bvc, AddressingMode::Relative, 2, InstructionType::Branch)),
        0x51 => Some(record(0x51, Instruction::Eor, AddressingMode::IndirectY, 5, InstructionType::CrossingPage)),
        0x53 => Some(record(0x53, Instruction::Sre, AddressingMode::IndirectY, 8, InstructionType::Common)),
        0x54 => Some(record(0x54, Instruction::Dop, AddressingMode::ZeroPageX, 4, InstructionType::Common)),
        0x55 => Some(record(0x55, Instruction::Eor, AddressingMode::ZeroPageX, 4, InstructionType::Common)),
        0x56 => Some(record(0x56, Instruction::Lsr, AddressingMode::ZeroPageX, 6, InstructionType::Common)),
        0x57 => Some(record(0x57, Instruction::Sre, AddressingMode::ZeroPageX, 6, InstructionType::Common)),
        0x59 => Some(record(0x59, Instruction::Eor, AddressingMode::AbsoluteY, 4, InstructionType::CrossingPage)),
        0x5A => Some(record(0x5A, Instruction::Nop, AddressingMode::Implicit, 2, InstructionType::Common)),
        0x5B => Some(record(0x5B, Instruction::Sre, AddressingMode::AbsoluteY, 7, InstructionType::Common)),
        0x5C => Some(record(0x5C, Instruction::Top, AddressingMode::AbsoluteX, 4, InstructionType::CrossingPage)),
        0x5D => Some(record(0x5D, Instruction::Eor, AddressingMode::AbsoluteX, 4, InstructionType::CrossingPage)),
        0x5E => Some(record(0x5E, Instruction::Lsr, AddressingMode::AbsoluteX, 7, InstructionType::Common)),
        0x5F => Some(record(0x5F, Instruction::Sre, AddressingMode::AbsoluteX, 7, InstructionType::Common)),
        0x60 => Some(record(0x60, Instruction::Rts, AddressingMode::Implicit, 6, InstructionType::Common)),
        0x61 => Some(record(0x61, Instruction::Adc, AddressingMode::IndirectX, 6, InstructionType::Common)),
        0x63 => Some(record(0x63, Instruction::Rra, AddressingMode::IndirectX, 8, InstructionType::Common)),
        0x64 => Some(record(0x64, Instruction::Dop, AddressingMode::ZeroPage, 3, InstructionType::Common)),
        0x65 => Some(record(0x65, Instruction::Adc, AddressingMode::ZeroPage, 3, InstructionType::Common)),
        0x66 => Some(record(0x66, Instruction::Ror, AddressingMode::ZeroPage, 5, InstructionType::Common)),
        0x67 => Some(record(0x67, Instruction::Rra, AddressingMode::ZeroPage, 5, InstructionType::Common)),
        0x68 => Some(record(0x68, Instruction::Pla, AddressingMode::Implicit, 4, InstructionType::Common)),
        0x69 => Some(record(0x69, Instruction::Adc, AddressingMode::Immediate, 2, InstructionType::Common)),
        0x6A => Some(record(0x6A, Instruction::Ror, AddressingMode::Accumulator, 2, InstructionType::Common)),
        0x6C => Some(record(0x6C, Instruction::Jmp, AddressingMode::Indirect, 5, InstructionType::Common)),
        0x6D => Some(record(0x6D, Instruction::Adc, AddressingMode::Absolute, 4, InstructionType::Common)),
        0x6E => Some(record(0x6E, Instruction::Ror, AddressingMode::Absolute, 6, InstructionType::Common)),
        0x6F => Some(record(0x6F, Instruction::Rra, AddressingMode::Absolute, 6, InstructionType::Common)),
        0x70 => Some(record(0x70, Instruction::Bvs, AddressingMode::Relative, 2, InstructionType::Branch)),
        0x71 => Some(record(0x71, Instruction::Adc, AddressingMode::IndirectY, 5, InstructionType::CrossingPage)),
        0x73 => Some(record(0x73, Instruction::Rra, AddressingMode::IndirectY, 8, InstructionType::Common)),
        0x74 => Some(record(0x74, Instruction::Dop, AddressingMode::ZeroPageX, 4, InstructionType::Common)),
        0x75 => Some(record(0x75, Instruction::Adc, AddressingMode::ZeroPageX, 4, InstructionType::Common)),
        0x76 => Some(record(0x76, Instruction::Ror, AddressingMode::ZeroPageX, 6, InstructionType::Common)),
        0x77 => Some(record(0x77, Instruction::Rra, AddressingMode::ZeroPageX, 6, InstructionType::Common)),
        0x78 => Some(record(0x78, Instruction::Sei, AddressingMode::Implicit, 2, InstructionType::Common)),
        0x79 => Some(record(0x79, Instruction::Adc, AddressingMode::AbsoluteY, 4, InstructionType::CrossingPage)),
        0x7A => Some(record(0x7A, Instruction::Nop, AddressingMode::Implicit, 2, InstructionType::Common)),
        0x7B => Some(record(0x7B, Instruction::Rra, AddressingMode::AbsoluteY, 7, InstructionType::Common)),
        0x7C => Some(record(0x7C, Instruction::Top, AddressingMode::AbsoluteX, 4, InstructionType::CrossingPage)),
        0x7D => Some(record(0x7D, Instruction::Adc, AddressingMode::AbsoluteX, 4, InstructionType::CrossingPage)),
        0x7E => Some(record(0x7E, Instruction::Ror, AddressingMode::AbsoluteX, 7, InstructionType::Common)),
        0x7F => Some(record(0x7F, Instruction::Rra, AddressingMode::AbsoluteX, 7, InstructionType::Common)),
        0x80 => Some(record(0x80, Instruction::Dop, AddressingMode::Immediate, 2, InstructionType::Common)),
        0x81 => Some(record(0x81, Instruction::Sta, AddressingMode::IndirectX, 6, InstructionType::Common)),
        0x82 => Some(record(0x82, Instruction::Dop, AddressingMode::Immediate, 2, InstructionType::Common)),
        0x83 => Some(record(0x83, Instruction::Aax, AddressingMode::IndirectX, 6, InstructionType::Common)),
        0x84 => Some(record(0x84, Instruction::Sty, AddressingMode::ZeroPage, 3, InstructionType::Common)),
        0x85 => Some(record(0x85, Instruction::Sta, AddressingMode::ZeroPage, 3, InstructionType::Common)),
        0x86 => Some(record(0x86, Instruction::Stx, AddressingMode::ZeroPage, 3, InstructionType::Common)),
        0x87 => Some(record(0x87, Instruction::Aax, AddressingMode::ZeroPage, 3, InstructionType::Common)),
        0x88 => Some(record(0x88, Instruction::Dey, AddressingMode::Implicit, 2, InstructionType::Common)),
        0x89 => Some(record(0x89, Instruction::Dop, AddressingMode::Immediate, 2, InstructionType::Common)),
        0x8A => Some(record(0x8A, Instruction::Txa, AddressingMode::Implicit, 2, InstructionType::Common)),
        0x8C => Some(record(0x8C, Instruction::Sty, AddressingMode::Absolute, 4, InstructionType::Common)),
        0x8D => Some(record(0x8D, Instruction::Sta, AddressingMode::Absolute, 4, InstructionType::Common)),
        0x8E => Some(record(0x8E, Instruction::Stx, AddressingMode::Absolute, 4, InstructionType::Common)),
        0x8F => Some(record(0x8F, Instruction::Aax, AddressingMode::Absolute, 4, InstructionType::Common)),
        0x90 => Some(record(0x90, Instruction::Bcc, AddressingMode::Relative, 2, InstructionType::Branch)),
        0x91 => Some(record(0x91, Instruction::Sta, AddressingMode::IndirectY, 6, InstructionType::Common)),
        0x94 => Some(record(0x94, Instruction::Sty, AddressingMode::ZeroPageX, 4, InstructionType::Common)),
        0x95 => Some(record(0x95, Instruction::Sta, AddressingMode::ZeroPageX, 4, InstructionType::Common)),
        0x96 => Some(record(0x96, Instruction::Stx, AddressingMode::ZeroPageY, 4, InstructionType::Common)),
        0x97 => Some(record(0x97, Instruction::Aax, AddressingMode::ZeroPageY, 4, InstructionType::Common)),
        0x98 => Some(record(0x98, Instruction::Tya, AddressingMode::Implicit, 2, InstructionType::Common)),
        0x99 => Some(record(0x99, Instruction::Sta, AddressingMode::AbsoluteY, 5, InstructionType::Common)),
        0x9A => Some(record(0x9A, Instruction::Txs, AddressingMode::Implicit, 2, InstructionType::Common)),
        0x9D => Some(record(0x9D, Instruction::Sta, AddressingMode::AbsoluteX, 5, InstructionType::Common)),
        0xA0 => Some(record(0xA0, Instruction::Ldy, AddressingMode::Immediate, 2, InstructionType::Common)),
        0xA1 => Some(record(0xA1, Instruction::Lda, AddressingMode::IndirectX, 6, InstructionType::Common)),
        0xA2 => Some(record(0xA2, Instruction::Ldx, AddressingMode::Immediate, 2, InstructionType::Common)),
        0xA3 => Some(record(0xA3, Instruction::Lax, AddressingMode::IndirectX, 6, InstructionType::Common)),
        0xA4 => Some(record(0xA4, Instruction::Ldy, AddressingMode::ZeroPage, 3, InstructionType::Common)),
        0xA5 => Some(record(0xA5, Instruction::Lda, AddressingMode::ZeroPage, 3, InstructionType::Common)),
        0xA6 => Some(record(0xA6, Instruction::Ldx, AddressingMode::ZeroPage, 3, InstructionType::Common)),
        0xA7 => Some(record(0xA7, Instruction::Lax, AddressingMode::ZeroPage, 3, InstructionType::Common)),
        0xA8 => Some(record(0xA8, Instruction::Tay, AddressingMode::Implicit, 2, InstructionType::Common)),
        0xA9 => Some(record(0xA9, Instruction::Lda, AddressingMode::Immediate, 2, InstructionType::Common)),
        0xAA => Some(record(0xAA, Instruction::Tax, AddressingMode::Implicit, 2, InstructionType::Common)),
        0xAC => Some(record(0xAC, Instruction::Ldy, AddressingMode::Absolute, 4, InstructionType::Common)),
        0xAD => Some(record(0xAD, Instruction::Lda, AddressingMode::Absolute, 4, InstructionType::Common)),
        0xAE => Some(record(0xAE, Instruction::Ldx, AddressingMode::Absolute, 4, InstructionType::Common)),
        0xAF => Some(record(0xAF, Instruction::Lax, AddressingMode::Absolute, 4, InstructionType::Common)),
        0xB0 => Some(record(0xB0, Instruction::Bcs, AddressingMode::Relative, 2, InstructionType::Branch)),
        0xB1 => Some(record(0xB1, Instruction::Lda, AddressingMode::IndirectY, 5, InstructionType::CrossingPage)),
        0xB3 => Some(record(0xB3, Instruction::Lax, AddressingMode::IndirectY, 5, InstructionType::CrossingPage)),
        0xB4 => Some(record(0xB4, Instruction::Ldy, AddressingMode::ZeroPageX, 4, InstructionType::Common)),
        0xB5 => Some(record(0xB5, Instruction::Lda, AddressingMode::ZeroPageX, 4, InstructionType::Common)),
        0xB6 => Some(record(0xB6, Instruction::Ldx, AddressingMode::ZeroPageY, 4, InstructionType::Common)),
        0xB7 => Some(record(0xB7, Instruction::Lax, AddressingMode::ZeroPageY, 4, InstructionType::Common)),
        0xB8 => Some(record(0xB8, Instruction::Clv, AddressingMode::Implicit, 2, InstructionType::Common)),
        0xB9 => Some(record(0xB9, Instruction::Lda, AddressingMode::AbsoluteY, 4, InstructionType::CrossingPage)),
        0xBA => Some(record(0xBA, Instruction::Tsx, AddressingMode::Implicit, 2, InstructionType::Common)),
        0xBC => Some(record(0xBC, Instruction::Ldy, AddressingMode::AbsoluteX, 4, InstructionType::CrossingPage)),
        0xBD => Some(record(0xBD, Instruction::Lda, AddressingMode::AbsoluteX, 4, InstructionType::CrossingPage)),
        0xBE => Some(record(0xBE, Instruction::Ldx, AddressingMode::AbsoluteY, 4, InstructionType::CrossingPage)),
        0xBF => Some(record(0xBF, Instruction::Lax, AddressingMode::AbsoluteY, 4, InstructionType::CrossingPage)),
        0xC0 => Some(record(0xC0, Instruction::Cpy, AddressingMode::Immediate, 2, InstructionType::Common)),
        0xC1 => Some(record(0xC1, Instruction::Cmp, AddressingMode::IndirectX, 6, InstructionType::Common)),
        0xC2 => Some(record(0xC2, Instruction::Dop, AddressingMode::Immediate, 2, InstructionType::Common)),
        0xC3 => Some(record(0xC3, Instruction::Dcp, AddressingMode::IndirectX, 8, InstructionType::Common)),
        0xC4 => Some(record(0xC4, Instruction::Cpy, AddressingMode::ZeroPage, 3, InstructionType::Common)),
        0xC5 => Some(record(0xC5, Instruction::Cmp, AddressingMode::ZeroPage, 3, InstructionType::Common)),
        0xC6 => Some(record(0xC6, Instruction::Dec, AddressingMode::ZeroPage, 5, InstructionType::Common)),
        0xC7 => Some(record(0xC7, Instruction::Dcp, AddressingMode::ZeroPage, 5, InstructionType::Common)),
        0xC8 => Some(record(0xC8, Instruction::Iny, AddressingMode::Implicit, 2, InstructionType::Common)),
        0xC9 => Some(record(0xC9, Instruction::Cmp, AddressingMode::Immediate, 2, InstructionType::Common)),
        0xCA => Some(record(0xCA, Instruction::Dex, AddressingMode::Implicit, 2, InstructionType::Common)),
        0xCC => Some(record(0xCC, Instruction::Cpy, AddressingMode::Absolute, 4, InstructionType::Common)),
        0xCD => Some(record(0xCD, Instruction::Cmp, AddressingMode::Absolute, 4, InstructionType::Common)),
        0xCE => Some(record(0xCE, Instruction::Dec, AddressingMode::Absolute, 6, InstructionType::Common)),
        0xCF => Some(record(0xCF, Instruction::Dcp, AddressingMode::Absolute, 6, InstructionType::Common)),
        0xD0 => Some(record(0xD0, Instruction::Bne, AddressingMode::Relative, 2, InstructionType::Branch)),
        0xD1 => Some(record(0xD1, Instruction::Cmp, AddressingMode::IndirectY, 5, InstructionType::CrossingPage)),
        0xD3 => Some(record(0xD3, Instruction::Dcp, AddressingMode::IndirectY, 8, InstructionType::Common)),
        0xD4 => Some(record(0xD4, Instruction::Dop, AddressingMode::ZeroPageX, 4, InstructionType::Common)),
        0xD5 => Some(record(0xD5, Instruction::Cmp, AddressingMode::ZeroPageX, 4, InstructionType::Common)),
        0xD6 => Some(record(0xD6, Instruction::Dec, AddressingMode::ZeroPageX, 6, InstructionType::Common)),
        0xD7 => Some(record(0xD7, Instruction::Dcp, AddressingMode::ZeroPageX, 6, InstructionType::Common)),
        0xD8 => Some(record(0xD8, Instruction::Cld, AddressingMode::Implicit, 2, InstructionType::Common)),
        0xD9 => Some(record(0xD9, Instruction::Cmp, AddressingMode::AbsoluteY, 4, InstructionType::CrossingPage)),
        0xDA => Some(record(0xDA, Instruction::Nop, AddressingMode::Implicit, 2, InstructionType::Common)),
        0xDB => Some(record(0xDB, Instruction::Dcp, AddressingMode::AbsoluteY, 7, InstructionType::Common)),
        0xDC => Some(record(0xDC, Instruction::Top, AddressingMode::AbsoluteX, 4, InstructionType::CrossingPage)),
        0xDD => Some(record(0xDD, Instruction::Cmp, AddressingMode::AbsoluteX, 4, InstructionType::CrossingPage)),
        0xDE => Some(record(0xDE, Instruction::Dec, AddressingMode::AbsoluteX, 7, InstructionType::Common)),
        0xDF => Some(record(0xDF, Instruction::Dcp, AddressingMode::AbsoluteX, 7, InstructionType::Common)),
        0xE0 => Some(record(0xE0, Instruction::Cpx, AddressingMode::Immediate, 2, InstructionType::Common)),
        0xE1 => Some(record(0xE1, Instruction::Sbc, AddressingMode::IndirectX, 6, InstructionType::Common)),
        0xE2 => Some(record(0xE2, Instruction::Dop, AddressingMode::Immediate, 2, InstructionType::Common)),
        0xE3 => Some(record(0xE3, Instruction::Isc, AddressingMode::IndirectX, 8, InstructionType::Common)),
        0xE4 => Some(record(0xE4, Instruction::Cpx, AddressingMode::ZeroPage, 3, InstructionType::Common)),
        0xE5 => Some(record(0xE5, Instruction::Sbc, AddressingMode::ZeroPage, 3, InstructionType::Common)),
        0xE6 => Some(record(0xE6, Instruction::Inc, AddressingMode::ZeroPage, 5, InstructionType::Common)),
        0xE7 => Some(record(0xE7, Instruction::Isc, AddressingMode::ZeroPage, 5, InstructionType::Common)),
        0xE8 => Some(record(0xE8, Instruction::Inx, AddressingMode::Implicit, 2, InstructionType::Common)),
        0xE9 => Some(record(0xE9, Instruction::Sbc, AddressingMode::Immediate, 2, InstructionType::Common)),
        0xEA => Some(record(0xEA, Instruction::Nop, AddressingMode::Implicit, 2, InstructionType::Common)),
        0xEB => Some(record(0xEB, Instruction::Sbc, AddressingMode::Immediate, 2, InstructionType::Common)),
        0xEC => Some(record(0xEC, Instruction::Cpx, AddressingMode::Absolute, 4, InstructionType::Common)),
        0xED => Some(record(0xED, Instruction::Sbc, AddressingMode::Absolute, 4, InstructionType::Common)),
        0xEE => Some(record(0xEE, Instruction::Inc, AddressingMode::Absolute, 6, InstructionType::Common)),
        0xEF => Some(record(0xEF, Instruction::Isc, AddressingMode::Absolute, 6, InstructionType::Common)),
        0xF0 => Some(record(0xF0, Instruction::Beq, AddressingMode::Relative, 2, InstructionType::Branch)),
        0xF1 => Some(record(0xF1, Instruction::Sbc, AddressingMode::IndirectY, 5, InstructionType::CrossingPage)),
        0xF3 => Some(record(0xF3, Instruction::Isc, AddressingMode::IndirectY, 8, InstructionType::Common)),
        0xF4 => Some(record(0xF4, Instruction::Dop, AddressingMode::ZeroPageX, 4, InstructionType::Common)),
        0xF5 => Some(record(0xF5, Instruction::Sbc, AddressingMode::ZeroPageX, 4, InstructionType::Common)),
        0xF6 => Some(record(0xF6, Instruction::Inc, AddressingMode::ZeroPageX, 6, InstructionType::Common)),
        0xF7 => Some(record(0xF7, Instruction::Isc, AddressingMode::ZeroPageX, 6, InstructionType::Common)),
        0xF8 => Some(record(0xF8, Instruction::Sed, AddressingMode::Implicit, 2, InstructionType::Common)),
        0xF9 => Some(record(0xF9, Instruction::Sbc, AddressingMode::AbsoluteY, 4, InstructionType::CrossingPage)),
        0xFA => Some(record(0xFA, Instruction::Nop, AddressingMode::Implicit, 2, InstructionType::Common)),
        0xFB => Some(record(0xFB, Instruction::Isc, AddressingMode::AbsoluteY, 7, InstructionType::Common)),
        0xFC => Some(record(0xFC, Instruction::Top, AddressingMode::AbsoluteX, 4, InstructionType::CrossingPage)),
        0xFD => Some(record(0xFD, Instruction::Sbc, AddressingMode::AbsoluteX, 4, InstructionType::CrossingPage)),
        0xFE => Some(record(0xFE, Instruction::Inc, AddressingMode::AbsoluteX, 7, InstructionType::Common)),
        0xFF => Some(record(0xFF, Instruction::Isc, AddressingMode::AbsoluteX, 7, InstructionType::Common)),
        _ => None,
    }
}

/// Total cycles of an instruction from its base count, its timing class, whether its
/// operand crossed a page and whether it branched.
pub open spec fn total_cycles(base: u32, ins_type: InstructionType, crossed: bool, taken: bool) -> u32 {
    match ins_type {
        InstructionType::Common => base,
        InstructionType::CrossingPage => if crossed {
            (base + 1) as u32
        } else {
            base
        },
        InstructionType::Branch => if !taken {
            base
        } else if crossed {
            (base + 2) as u32
        } else {
            (base + 1) as u32
        },
    }
}

/// How a semantic routine ended: `expected` is what the instruction's semantics give,
/// `after` the machine it left and `r` what it returned.
#[verifier::opaque]
pub open spec fn outcome(
    expected: Result<(BusView, bool), MemoryError>,
    after: BusView,
    r: Result<bool, MemoryError>,
) -> bool {
    match expected {
        Ok((s, taken)) => r == Ok::<bool, MemoryError>(taken) && after == s,
        Err(e) => r == Err::<bool, MemoryError>(e),
    }
}

/// The machine `s`, no branch taken.
pub open spec fn done(s: BusView) -> Result<(BusView, bool), MemoryError> {
    Ok((s, false))
}

/// A store's result as an instruction's result.
pub open spec fn stored(res: Result<BusView, MemoryError>) -> Result<(BusView, bool), MemoryError> {
    match res {
        Ok(s) => Ok((s, false)),
        Err(e) => Err(e),
    }
}

/// Z and N set from `v`.
pub open spec fn zn(r: CpuRegisters, v: u8) -> CpuRegisters {
    CpuRegisters { p: with_zn(r.p, v), ..r }
}

/// One flag set or cleared.
pub open spec fn flagged(r: CpuRegisters, flag: u8, when: bool) -> CpuRegisters {
    CpuRegisters { p: with_flag(r.p, flag, when), ..r }
}

/// The registers with PC replaced.
pub open spec fn jumped(r: CpuRegisters, pc: u16) -> CpuRegisters {
    CpuRegisters { pc, ..r }
}

/// A conditional branch: PC takes the target when `cond` holds, and the branch reports it.
pub open spec fn branch(s: BusView, cond: bool, target: u16) -> Result<(BusView, bool), MemoryError> {
    if cond {
        Ok((s.with_regs(jumped(s.regs, target)), true))
    } else {
        Ok((s, false))
    }
}

/// The carry flag as a number.
pub open spec fn carry_in(p: u8) -> int {
    if flag_of(p, P_FLAGS_C) {
        1
    } else {
        0
    }
}

/// ADC on the registers: `r = A + M + C`; V from the signs, C from `r > $FF`, A the low byte.
pub open spec fn adc_regs(r: CpuRegisters, m: u8) -> CpuRegisters {
    let sum = r.a + m + carry_in(r.p);
    let res = (sum % 256) as u8;
    let v = (r.a >= 0x80) == (m >= 0x80) && (r.a >= 0x80) != (res >= 0x80);
    CpuRegisters { a: res, p: with_zn(with_flag(with_flag(r.p, P_FLAGS_V, v), P_FLAGS_C, sum > 0xFF), res), ..r }
}

/// SBC on the registers: `r = A - M - (1 - C)`; C from `r >= 0`, A the low byte.
pub open spec fn sbc_regs(r: CpuRegisters, m: u8) -> CpuRegisters {
    let diff = r.a - m - (1 - carry_in(r.p));
    let res = (diff % 256) as u8;
    let v = (r.a >= 0x80 && res < 0x80) || (r.a < 0x80 && m >= 0x80 && res >= 0x80);
    CpuRegisters { a: res, p: with_zn(with_flag(with_flag(r.p, P_FLAGS_V, v), P_FLAGS_C, diff >= 0), res), ..r }
}

/// The flags of a comparison of `reg` with `m`: C from `reg >= m`, Z and N from `reg - m`.
pub open spec fn compared(r: CpuRegisters, reg: u8, m: u8) -> CpuRegisters {
    zn(flagged(r, P_FLAGS_C, reg >= m), reg.wrapping_sub(m))
}

/// A read-modify-write: the registers become `regs`, then `v` is stored back.
pub open spec fn rmw(mode: AddressingMode, s: BusView, operand: u16, regs: CpuRegisters, v: u8) -> Result<
    (BusView, bool),
    MemoryError,
> {
    stored(mode.store(s.with_regs(regs), operand, v))
}

/// ROR: bit 0 goes to C, C comes in at bit 7.
pub open spec fn ror_spec(mode: AddressingMode, s: BusView, operand: u16) -> Result<
    (BusView, bool),
    MemoryError,
> {
    match mode.load(s, operand) {
        Err(e) => Err(e),
        Ok(m) => {
            let v = (m / 2 + if flag_of(s.regs.p, P_FLAGS_C) { 0x80int } else { 0 }) as u8;
            rmw(mode, s, operand, zn(flagged(s.regs, P_FLAGS_C, m % 2 == 1), v), v)
        },
    }
}

/// ADC with the operand.
pub open spec fn adc_spec(mode: AddressingMode, s: BusView, operand: u16) -> Result<
    (BusView, bool),
    MemoryError,
> {
    match mode.load(s, operand) {
        Err(e) => Err(e),
        Ok(m) => done(s.with_regs(adc_regs(s.regs, m))),
    }
}

impl Instruction {
    /// What the instruction does to machine `s` with the resolved operand, and whether it branched.
    #[verifier::opaque]
    pub open spec fn semantics(self, mode: AddressingMode, s: BusView, operand: u16) -> Result<
        (BusView, bool),
        MemoryError,
    > {
        let r = s.regs;
        match self {
            Instruction::Jmp => done(s.with_regs(jumped(r, operand))),
            Instruction::Jsr => {
                let s1 = pushed_word(s, r.pc.wrapping_sub(1));
                done(s1.with_regs(jumped(s1.regs, operand)))
            },
            Instruction::Rts => {
                let s1 = popped(popped(s));
                done(s1.with_regs(jumped(s1.regs, pop_word_value(s).wrapping_add(1))))
            },
            Instruction::Rti => {
                let p = pop_value(s) | P_FLAGS_U;
                let s1 = popped(s);
                let s2 = popped(popped(s1));
                done(s2.with_regs(CpuRegisters { p, pc: pop_word_value(s1), ..s2.regs }))
            },
            Instruction::Nop | Instruction::Dop | Instruction::Top => done(s),
            Instruction::Sec => done(s.with_regs(flagged(r, P_FLAGS_C, true))),
            Instruction::Clc => done(s.with_regs(flagged(r, P_FLAGS_C, false))),
            Instruction::Sei => done(s.with_regs(flagged(r, P_FLAGS_I, true))),
            Instruction::Sed => done(s.with_regs(flagged(r, P_FLAGS_D, true))),
            Instruction::Cld => done(s.with_regs(flagged(r, P_FLAGS_D, false))),
            Instruction::Clv => done(s.with_regs(flagged(r, P_FLAGS_V, false))),
            Instruction::Bcs => branch(s, flag_of(r.p, P_FLAGS_C), operand),
            Instruction::Bcc => branch(s, !flag_of(r.p, P_FLAGS_C), operand),
            Instruction::Beq => branch(s, flag_of(r.p, P_FLAGS_Z), operand),
            Instruction::Bne => branch(s, !flag_of(r.p, P_FLAGS_Z), operand),
            Instruction::Bvs => branch(s, flag_of(r.p, P_FLAGS_V), operand),
            Instruction::Bvc => branch(s, !flag_of(r.p, P_FLAGS_V), operand),
            Instruction::Bmi => branch(s, flag_of(r.p, P_FLAGS_N), operand),
            Instruction::Bpl => branch(s, !flag_of(r.p, P_FLAGS_N), operand),
            Instruction::Sta => stored(mode.store(s, operand, r.a)),
            Instruction::Stx => stored(mode.store(s, operand, r.x)),
            Instruction::Sty => stored(mode.store(s, operand, r.y)),
            Instruction::Aax => stored(mode.store(s, operand, r.a & r.x)),
            Instruction::Php => done(pushed(s, r.p | P_FLAGS_U | P_FLAGS_B)),
            Instruction::Pha => done(pushed(s, r.a)),
            Instruction::Pla => {
                let v = pop_value(s);
                let s1 = popped(s);
                done(s1.with_regs(zn(CpuRegisters { a: v, ..s1.regs }, v)))
            },
            Instruction::Plp => {
                let v = pop_value(s);
                let s1 = popped(s);
                done(s1.with_regs(CpuRegisters { p: with_flag(with_flag(v, P_FLAGS_U, true), P_FLAGS_B, false), ..s1.regs }))
            },
            Instruction::Iny => done(s.with_regs(zn(CpuRegisters { y: r.y.wrapping_add(1), ..r }, r.y.wrapping_add(1)))),
            Instruction::Inx => done(s.with_regs(zn(CpuRegisters { x: r.x.wrapping_add(1), ..r }, r.x.wrapping_add(1)))),
            Instruction::Dey => done(s.with_regs(zn(CpuRegisters { y: r.y.wrapping_sub(1), ..r }, r.y.wrapping_sub(1)))),
            Instruction::Dex => done(s.with_regs(zn(CpuRegisters { x: r.x.wrapping_sub(1), ..r }, r.x.wrapping_sub(1)))),
            Instruction::Tax => done(s.with_regs(zn(CpuRegisters { x: r.a, ..r }, r.a))),
            Instruction::Tay => done(s.with_regs(zn(CpuRegisters { y: r.a, ..r }, r.a))),
            Instruction::Txa => done(s.with_regs(zn(CpuRegisters { a: r.x, ..r }, r.x))),
            Instruction::Tya => done(s.with_regs(zn(CpuRegisters { a: r.y, ..r }, r.y))),
            Instruction::Tsx => done(s.with_regs(zn(CpuRegisters { x: r.sp, ..r }, r.sp))),
            Instruction::Txs => done(s.with_regs(CpuRegisters { sp: r.x, ..r })),
            Instruction::Ror => ror_spec(mode, s, operand),
            Instruction::Adc => adc_spec(mode, s, operand),
            Instruction::Rra => match ror_spec(mode, s, operand) {
                Err(e) => Err(e),
                Ok((s1, _)) => adc_spec(mode, s1, operand),
            },
            _ => match mode.load(s, operand) {
                Err(e) => Err(e),
                Ok(m) => match self {
                    Instruction::Lda => done(s.with_regs(zn(CpuRegisters { a: m, ..r }, m))),
                    Instruction::Ldx => done(s.with_regs(zn(CpuRegisters { x: m, ..r }, m))),
                    Instruction::Ldy => done(s.with_regs(zn(CpuRegisters { y: m, ..r }, m))),
                    Instruction::Lax => done(s.with_regs(zn(CpuRegisters { a: m, x: m, ..r }, m))),
                    Instruction::And => done(s.with_regs(zn(CpuRegisters { a: r.a & m, ..r }, r.a & m))),
                    Instruction::Ora => done(s.with_regs(zn(CpuRegisters { a: r.a | m, ..r }, r.a | m))),
                    Instruction::Eor => done(s.with_regs(zn(CpuRegisters { a: r.a ^ m, ..r }, r.a ^ m))),
                    Instruction::Bit => done(s.with_regs(flagged(
                        flagged(flagged(r, P_FLAGS_Z, r.a & m == 0), P_FLAGS_V, m & 0x40 == 0x40),
                        P_FLAGS_N,
                        m >= 0x80,
                    ))),
                    Instruction::Cmp => done(s.with_regs(compared(r, r.a, m))),
                    Instruction::Cpx => done(s.with_regs(compared(r, r.x, m))),
                    Instruction::Cpy => done(s.with_regs(compared(r, r.y, m))),
                    Instruction::Sbc => done(s.with_regs(sbc_regs(r, m))),
                    Instruction::Asl => {
                        let v = (m as int * 2 % 256) as u8;
                        rmw(mode, s, operand, zn(flagged(r, P_FLAGS_C, m >= 0x80), v), v)
                    },
                    Instruction::Lsr => {
                        let v = m / 2;
                        rmw(mode, s, operand, zn(flagged(r, P_FLAGS_C, m % 2 == 1), v), v)
                    },
                    Instruction::Rol => {
                        let v = (m as int * 2 % 256 + carry_in(r.p)) as u8;
                        rmw(mode, s, operand, zn(flagged(r, P_FLAGS_C, m >= 0x80), v), v)
                    },
                    Instruction::Inc => rmw(mode, s, operand, zn(r, m.wrapping_add(1)), m.wrapping_add(1)),
                    Instruction::Dec => rmw(mode, s, operand, zn(r, m.wrapping_sub(1)), m.wrapping_sub(1)),
                    Instruction::Dcp => {
                        let t = m.wrapping_sub(1);
                        rmw(mode, s, operand, compared(r, r.a, t), t)
                    },
                    Instruction::Isc => {
                        let t = m.wrapping_add(1);
                        rmw(mode, s, operand, sbc_regs(r, t), t)
                    },
                    Instruction::Slo => {
                        let v = (m as int * 2 % 256) as u8;
                        rmw(mode, s, operand, zn(CpuRegisters { a: r.a | v, ..flagged(r, P_FLAGS_C, m >= 0x80) }, r.a | v), v)
                    },
                    Instruction::Rla => {
                        let v = (m as int * 2 % 256 + carry_in(r.p)) as u8;
                        rmw(mode, s, operand, zn(CpuRegisters { a: r.a & v, ..flagged(r, P_FLAGS_C, m >= 0x80) }, r.a & v), v)
                    },
                    Instruction::Sre => {
                        let v = m / 2;
                        rmw(mode, s, operand, zn(CpuRegisters { a: r.a ^ v, ..flagged(r, P_FLAGS_C, m % 2 == 1) }, r.a ^ v), v)
                    },
                    _ => done(s),
                },
            },
        }
    }
}

impl InstructionInfo {
    /// What executing this entry does to machine `s`: the machine after it and its total cycles.
    pub open spec fn run(self, s: BusView) -> Result<(BusView, u32), MemoryError> {
        match self.mode.resolve(s) {
            Err(e) => Err(e),
            Ok((s1, operand, crossed)) => match self.ins.semantics(self.mode, s1, operand) {
                Err(e) => Err(e),
                Ok((s2, taken)) => Ok((s2, total_cycles(self.cycles, self.ins_type, crossed, taken))),
            },
        }
    }

    fn record(
        code: u8,
        ins: Instruction,
        mode: AddressingMode,
        cycles: u32,
        ins_type: InstructionType,
    ) -> (r: Option<Self>)
        ensures
            r == Some(record(code, ins, mode, cycles, ins_type)),
    {
        Some(InstructionInfo { code, ins, mode, cycles, ins_type })
    }

    /// ADC on the registers.
    fn apply_adc(regs: &mut CpuRegisters, data: u8)
        ensures
            *final(regs) == adc_regs(*old(regs), data),
    {
        let a = regs.a;
        let carry: u16 = if regs.has_c_flag() {
            1
        } else {
            0
        };
        let sum: u16 = a as u16 + data as u16 + carry;
        let result = (sum % 256) as u8;
        regs.set_v_flag((a >= 0x80) == (data >= 0x80) && (a >= 0x80) != (result >= 0x80));
        regs.set_c_flag(sum > 0xFF);
        regs.a = result;
        regs.set_z_n_flags(result);
    }

    /// SBC on the registers.
    fn apply_sbc(regs: &mut CpuRegisters, data: u8)
        ensures
            *final(regs) == sbc_regs(*old(regs), data),
    {
        let a = regs.a;
        let borrow: i16 = if regs.has_c_flag() {
            0
        } else {
            1
        };
        let diff: i16 = a as i16 - data as i16 - borrow;
        let result = ((diff + 256) % 256) as u8;
        assert((diff + 256) % 256 == diff as int % 256);
        regs.set_v_flag((a >= 0x80 && result < 0x80) || (a < 0x80 && data >= 0x80 && result >= 0x80));
        regs.set_c_flag(diff >= 0);
        regs.a = result;
        regs.set_z_n_flags(result);
    }

    fn jmp(bus: &mut CpuBus, _mode: AddressingMode, address: u16) -> (r: Result<bool, MemoryError>)
        requires
            old(bus).wf(),
        ensures
            final(bus).wf(),
            outcome(Instruction::Jmp.semantics(_mode, old(bus)@, address), final(bus)@, r),
    {
        proof {
            reveal(Instruction::semantics);
            reveal(outcome);
        }
        bus.registers_mut().pc = address;
        Ok(false)
    }

    fn ldx(bus: &mut CpuBus, mode: AddressingMode, address: u16) -> (r: Result<bool, MemoryError>)
        requires
            old(bus).wf(),
        ensures
            final(bus).wf(),
            outcome(Instruction::Ldx.semantics(mode, old(bus)@, address), final(bus)@, r),
    {
        proof {
            reveal(Instruction::semantics);
            reveal(outcome);
        }
        let data = mode.read(bus, address)?;
        bus.registers_mut().x = data;
        bus.registers_mut().set_z_n_flags(data);
        Ok(false)
    }

    fn stx(bus: &mut CpuBus, mode: AddressingMode, address: u16) -> (r: Result<bool, MemoryError>)
        requires
            old(bus).wf(),
        ensures
            final(bus).wf(),
            outcome(Instruction::Stx.semantics(mode, old(bus)@, address), final(bus)@, r),
    {
        proof {
            reveal(Instruction::semantics);
            reveal(outcome);
        }
        let x = bus.registers().x;
        mode.write(bus, address, x)?;
        Ok(false)
    }

    fn jsr(bus: &mut CpuBus, _mode: AddressingMode, address: u16) -> (r: Result<bool, MemoryError>)
        requires
            old(bus).wf(),
        ensures
            final(bus).wf(),
            outcome(Instruction::Jsr.semantics(_mode, old(bus)@, address), final(bus)@, r),
    {
        proof {
            reveal(Instruction::semantics);
            reveal(outcome);
        }
        let pc = bus.registers().pc;
        bus.stack_push_word(pc.wrapping_sub(1))?;
        bus.registers_mut().pc = address;
        Ok(false)
    }

    fn nop(bus: &mut CpuBus, _mode: AddressingMode, _address: u16) -> (r: Result<bool, MemoryError>)
        requires
            old(bus).wf(),
        ensures
            final(bus).wf(),
            outcome(Instruction::Nop.semantics(_mode, old(bus)@, _address), final(bus)@, r),
    {
        proof {
            reveal(Instruction::semantics);
            reveal(outcome);
        }
        Ok(false)
    }

    fn sec(bus: &mut CpuBus, _mode: AddressingMode, _address: u16) -> (r: Result<bool, MemoryError>)
        requires
            old(bus).wf(),
        ensures
            final(bus).wf(),
            outcome(Instruction::Sec.semantics(_mode, old(bus)@, _address), final(bus)@, r),
    {
        proof {
            reveal(Instruction::semantics);
            reveal(outcome);
        }
        bus.registers_mut().set_c_flag(true);
        Ok(false)
    }

    fn bcs(bus: &mut CpuBus, _mode: AddressingMode, address: u16) -> (r: Result<bool, MemoryError>)
        requires
            old(bus).wf(),
        ensures
            final(bus).wf(),
            outcome(Instruction::Bcs.semantics(_mode, old(bus)@, address), final(bus)@, r),
    {
        proof {
            reveal(Instruction::semantics);
            reveal(outcome);
        }
        let jmp_success = bus.registers().has_c_flag();
        if jmp_success {
            bus.registers_mut().pc = address;
        }
        Ok(jmp_success)
    }

    fn lda(bus: &mut CpuBus, mode: AddressingMode, address: u16) -> (r: Result<bool, MemoryError>)
        requires
            old(bus).wf(),
        ensures
            final(bus).wf(),
            outcome(Instruction::Lda.semantics(mode, old(bus)@, address), final(bus)@, r),
    {
        proof {
            reveal(Instruction::semantics);
            reveal(outcome);
        }
        let data = mode.read(bus, address)?;
        bus.registers_mut().a = data;
        bus.registers_mut().set_z_n_flags(data);
        Ok(false)
    }

    fn bit(bus: &mut CpuBus, mode: AddressingMode, address: u16) -> (r: Result<bool, MemoryError>)
        requires
            old(bus).wf(),
        ensures
            final(bus).wf(),
            outcome(Instruction::Bit.semantics(mode, old(bus)@, address), final(bus)@, r),
    {
        proof {
            reveal(Instruction::semantics);
            reveal(outcome);
        }
        let data = mode.read(bus, address)?;
        let a = bus.registers().a;
        bus.registers_mut().set_z_flag(a & data == 0);
        bus.registers_mut().set_v_flag(data & 0x40 == 0x40);
        bus.registers_mut().set_n_flag(data >= 0x80);
        Ok(false)
    }

    fn rts(bus: &mut CpuBus, _mode: AddressingMode, _address: u16) -> (r: Result<bool, MemoryError>)
        requires
            old(bus).wf(),
        ensures
            final(bus).wf(),
            outcome(Instruction::Rts.semantics(_mode, old(bus)@, _address), final(bus)@, r),
    {
        proof {
            reveal(Instruction::semantics);
            reveal(outcome);
        }
        let target = bus.stack_pop_word()?;
        bus.registers_mut().pc = target.wrapping_add(1);
        Ok(false)
    }

    fn rti(bus: &mut CpuBus, _mode: AddressingMode, _address: u16) -> (r: Result<bool, MemoryError>)
        requires
            old(bus).wf(),
        ensures
            final(bus).wf(),
            outcome(Instruction::Rti.semantics(_mode, old(bus)@, _address), final(bus)@, r),
    {
        proof {
            reveal(Instruction::semantics);
            reveal(outcome);
        }
        let p = bus.stack_pop()? | P_FLAGS_U;
        bus.registers_mut().p = p;
        let pc = bus.stack_pop_word()?;
        bus.registers_mut().pc = pc;
        Ok(false)
    }

    fn asl(bus: &mut CpuBus, mode: AddressingMode, address: u16) -> (r: Result<bool, MemoryError>)
        requires
            old(bus).wf(),
        ensures
            final(bus).wf(),
            outcome(Instruction::Asl.semantics(mode, old(bus)@, address), final(bus)@, r),
    {
        proof {
            reveal(Instruction::semantics);
            reveal(outcome);
        }
        let data = mode.read(bus, address)?;
        let result = ((data as u16 * 2) % 256) as u8;
        bus.registers_mut().set_c_flag(data >= 0x80);
        bus.registers_mut().set_z_n_flags(result);
        mode.write(bus, address, result)?;
        Ok(false)
    }

    fn php(bus: &mut CpuBus, _mode: AddressingMode, _address: u16) -> (r: Result<bool, MemoryError>)
        requires
            old(bus).wf(),
        ensures
            final(bus).wf(),
            outcome(Instruction::Php.semantics(_mode, old(bus)@, _address), final(bus)@, r),
    {
        proof {
            reveal(Instruction::semantics);
            reveal(outcome);
        }
        let p = bus.registers().p;
        bus.stack_push(p | P_FLAGS_U | P_FLAGS_B)?;
        Ok(false)
    }

    fn pla(bus: &mut CpuBus, _mode: AddressingMode, _address: u16) -> (r: Result<bool, MemoryError>)
        requires
            old(bus).wf(),
        ensures
            final(bus).wf(),
            outcome(Instruction::Pla.semantics(_mode, old(bus)@, _address), final(bus)@, r),
    {
        proof {
            reveal(Instruction::semantics);
            reveal(outcome);
        }
        let data = bus.stack_pop()?;
        bus.registers_mut().a = data;
        bus.registers_mut().set_z_n_flags(data);
        Ok(false)
    }

    fn plp(bus: &mut CpuBus, _mode: AddressingMode, _address: u16) -> (r: Result<bool, MemoryError>)
        requires
            old(bus).wf(),
        ensures
            final(bus).wf(),
            outcome(Instruction::Plp.semantics(_mode, old(bus)@, _address), final(bus)@, r),
    {
        proof {
            reveal(Instruction::semantics);
            reveal(outcome);
        }
        let p = bus.stack_pop()?;
        bus.registers_mut().p = p;
        bus.registers_mut().set_u_flag(true);
        bus.registers_mut().set_b_flag(false);
        Ok(false)
    }

    fn cmp(bus: &mut CpuBus, mode: AddressingMode, address: u16) -> (r: Result<bool, MemoryError>)
        requires
            old(bus).wf(),
        ensures
            final(bus).wf(),
            outcome(Instruction::Cmp.semantics(mode, old(bus)@, address), final(bus)@, r),
    {
        proof {
            reveal(Instruction::semantics);
            reveal(outcome);
        }
        let data = mode.read(bus, address)?;
        let reg = bus.registers().a;
        bus.registers_mut().set_c_flag(reg >= data);
        bus.registers_mut().set_z_n_flags(reg.wrapping_sub(data));
        Ok(false)
    }

    fn adc(bus: &mut CpuBus, mode: AddressingMode, address: u16) -> (r: Result<bool, MemoryError>)
        requires
            old(bus).wf(),
        ensures
            final(bus).wf(),
            outcome(Instruction::Adc.semantics(mode, old(bus)@, address), final(bus)@, r),
    {
        proof {
            reveal(Instruction::semantics);
            reveal(outcome);
        }
        let data = mode.read(bus, address)?;
        Self::apply_adc(bus.registers_mut(), data);
        Ok(false)
    }

    fn sbc(bus: &mut CpuBus, mode: AddressingMode, address: u16) -> (r: Result<bool, MemoryError>)
        requires
            old(bus).wf(),
        ensures
            final(bus).wf(),
            outcome(Instruction::Sbc.semantics(mode, old(bus)@, address), final(bus)@, r),
    {
        proof {
            reveal(Instruction::semantics);
            reveal(outcome);
        }
        let data = mode.read(bus, address)?;
        Self::apply_sbc(bus.registers_mut(), data);
        Ok(false)
    }

    fn ror(bus: &mut CpuBus, mode: AddressingMode, address: u16) -> (r: Result<bool, MemoryError>)
        requires
            old(bus).wf(),
        ensures
            final(bus).wf(),
            outcome(Instruction::Ror.semantics(mode, old(bus)@, address), final(bus)@, r),
    {
        proof {
            reveal(Instruction::semantics);
            reveal(outcome);
        }
        let data = mode.read(bus, address)?;
        let carry: u8 = if bus.registers().has_c_flag() {
            0x80
        } else {
            0
        };
        let result = data / 2 + carry;
        bus.registers_mut().set_c_flag(data % 2 == 1);
        bus.registers_mut().set_z_n_flags(result);
        mode.write(bus, address, result)?;
        Ok(false)
    }

    fn rra(bus: &mut CpuBus, mode: AddressingMode, address: u16) -> (r: Result<bool, MemoryError>)
        requires
            old(bus).wf(),
        ensures
            final(bus).wf(),
            outcome(Instruction::Rra.semantics(mode, old(bus)@, address), final(bus)@, r),
    {
        proof {
            reveal(Instruction::semantics);
            reveal(outcome);
        }
        Self::ror(bus, mode, address)?;
        Self::adc(bus, mode, address)
    }

    fn isc(bus: &mut CpuBus, mode: AddressingMode, address: u16) -> (r: Result<bool, MemoryError>)
        requires
            old(bus).wf(),
        ensures
            final(bus).wf(),
            outcome(Instruction::Isc.semantics(mode, old(bus)@, address), final(bus)@, r),
    {
        proof {
            reveal(Instruction::semantics);
            reveal(outcome);
        }
        let data = mode.read(bus, address)?;
        let result = data.wrapping_add(1);
        Self::apply_sbc(bus.registers_mut(), result);
        mode.write(bus, address, result)?;
        Ok(false)
    }


    fn clc(bus: &mut CpuBus, _mode: AddressingMode, _address: u16) -> (r: Result<bool, MemoryError>)
        requires
            old(bus).wf(),
        ensures
            final(bus).wf(),
            outcome(Instruction::Clc.semantics(_mode, old(bus)@, _address), final(bus)@, r),
    {
        proof {
            reveal(Instruction::semantics);
            reveal(outcome);
        }
        bus.registers_mut().set_c_flag(false);
        Ok(false)
    }

    fn sei(bus: &mut CpuBus, _mode: AddressingMode, _address: u16) -> (r: Result<bool, MemoryError>)
        requires
            old(bus).wf(),
        ensures
            final(bus).wf(),
            outcome(Instruction::Sei.semantics(_mode, old(bus)@, _address), final(bus)@, r),
    {
        proof {
            reveal(Instruction::semantics);
            reveal(outcome);
        }
        bus.registers_mut().set_i_flag(true);
        Ok(false)
    }

    fn sed(bus: &mut CpuBus, _mode: AddressingMode, _address: u16) -> (r: Result<bool, MemoryError>)
        requires
            old(bus).wf(),
        ensures
            final(bus).wf(),
            outcome(Instruction::Sed.semantics(_mode, old(bus)@, _address), final(bus)@, r),
    {
        proof {
            reveal(Instruction::semantics);
            reveal(outcome);
        }
        bus.registers_mut().set_d_flag(true);
        Ok(false)
    }

    fn cld(bus: &mut CpuBus, _mode: AddressingMode, _address: u16) -> (r: Result<bool, MemoryError>)
        requires
            old(bus).wf(),
        ensures
            final(bus).wf(),
            outcome(Instruction::Cld.semantics(_mode, old(bus)@, _address), final(bus)@, r),
    {
        proof {
            reveal(Instruction::semantics);
            reveal(outcome);
        }
        bus.registers_mut().set_d_flag(false);
        Ok(false)
    }

    fn clv(bus: &mut CpuBus, _mode: AddressingMode, _address: u16) -> (r: Result<bool, MemoryError>)
        requires
            old(bus).wf(),
        ensures
            final(bus).wf(),
            outcome(Instruction::Clv.semantics(_mode, old(bus)@, _address), final(bus)@, r),
    {
        proof {
            reveal(Instruction::semantics);
            reveal(outcome);
        }
        bus.registers_mut().set_v_flag(false);
        Ok(false)
    }

    fn bcc(bus: &mut CpuBus, _mode: AddressingMode, address: u16) -> (r: Result<bool, MemoryError>)
        requires
            old(bus).wf(),
        ensures
            final(bus).wf(),
            outcome(Instruction::Bcc.semantics(_mode, old(bus)@, address), final(bus)@, r),
    {
        proof {
            reveal(Instruction::semantics);
            reveal(outcome);
        }
        let jmp_success = !bus.registers().has_c_flag();
        if jmp_success {
            bus.registers_mut().pc = address;
        }
        Ok(jmp_success)
    }

    fn beq(bus: &mut CpuBus, _mode: AddressingMode, address: u16) -> (r: Result<bool, MemoryError>)
        requires
            old(bus).wf(),
        ensures
            final(bus).wf(),
            outcome(Instruction::Beq.semantics(_mode, old(bus)@, address), final(bus)@, r),
    {
        proof {
            reveal(Instruction::semantics);
            reveal(outcome);
        }
        let jmp_success = bus.registers().has_z_flag();
        if jmp_success {
            bus.registers_mut().pc = address;
        }
        Ok(jmp_success)
    }

    fn bne(bus: &mut CpuBus, _mode: AddressingMode, address: u16) -> (r: Result<bool, MemoryError>)
        requires
            old(bus).wf(),
        ensures
            final(bus).wf(),
            outcome(Instruction::Bne.semantics(_mode, old(bus)@, address), final(bus)@, r),
    {
        proof {
            reveal(Instruction::semantics);
            reveal(outcome);
        }
        let jmp_success = !bus.registers().has_z_flag();
        if jmp_success {
            bus.registers_mut().pc = address;
        }
        Ok(jmp_success)
    }

    fn bvs(bus: &mut CpuBus, _mode: AddressingMode, address: u16) -> (r: Result<bool, MemoryError>)
        requires
            old(bus).wf(),
        ensures
            final(bus).wf(),
            outcome(Instruction::Bvs.semantics(_mode, old(bus)@, address), final(bus)@, r),
    {
        proof {
            reveal(Instruction::semantics);
            reveal(outcome);
        }
        let jmp_success = bus.registers().has_v_flag();
        if jmp_success {
            bus.registers_mut().pc = address;
        }
        Ok(jmp_success)
    }

    fn bvc(bus: &mut CpuBus, _mode: AddressingMode, address: u16) -> (r: Result<bool, MemoryError>)
        requires
            old(bus).wf(),
        ensures
            final(bus).wf(),
            outcome(Instruction::Bvc.semantics(_mode, old(bus)@, address), final(bus)@, r),
    {
        proof {
            reveal(Instruction::semantics);
            reveal(outcome);
        }
        let jmp_success = !bus.registers().has_v_flag();
        if jmp_success {
            bus.registers_mut().pc = address;
        }
        Ok(jmp_success)
    }

    fn bmi(bus: &mut CpuBus, _mode: AddressingMode, address: u16) -> (r: Result<bool, MemoryError>)
        requires
            old(bus).wf(),
        ensures
            final(bus).wf(),
            outcome(Instruction::Bmi.semantics(_mode, old(bus)@, address), final(bus)@, r),
    {
        proof {
            reveal(Instruction::semantics);
            reveal(outcome);
        }
        let jmp_success = bus.registers().has_n_flag();
        if jmp_success {
            bus.registers_mut().pc = address;
        }
        Ok(jmp_success)
    }

    fn bpl(bus: &mut CpuBus, _mode: AddressingMode, address: u16) -> (r: Result<bool, MemoryError>)
        requires
            old(bus).wf(),
        ensures
            final(bus).wf(),
            outcome(Instruction::Bpl.semantics(_mode, old(bus)@, address), final(bus)@, r),
    {
        proof {
            reveal(Instruction::semantics);
            reveal(outcome);
        }
        let jmp_success = !bus.registers().has_n_flag();
        if jmp_success {
            bus.registers_mut().pc = address;
        }
        Ok(jmp_success)
    }

    fn ldy(bus: &mut CpuBus, mode: AddressingMode, address: u16) -> (r: Result<bool, MemoryError>)
        requires
            old(bus).wf(),
        ensures
            final(bus).wf(),
            outcome(Instruction::Ldy.semantics(mode, old(bus)@, address), final(bus)@, r),
    {
        proof {
            reveal(Instruction::semantics);
            reveal(outcome);
        }
        let data = mode.read(bus, address)?;
        bus.registers_mut().y = data;
        bus.registers_mut().set_z_n_flags(data);
        Ok(false)
    }

    fn lax(bus: &mut CpuBus, mode: AddressingMode, address: u16) -> (r: Result<bool, MemoryError>)
        requires
            old(bus).wf(),
        ensures
            final(bus).wf(),
            outcome(Instruction::Lax.semantics(mode, old(bus)@, address), final(bus)@, r),
    {
        proof {
            reveal(Instruction::semantics);
            reveal(outcome);
        }
        let data = mode.read(bus, address)?;
        bus.registers_mut().a = data;
        bus.registers_mut().x = data;
        bus.registers_mut().set_z_n_flags(data);
        Ok(false)
    }

    fn sta(bus: &mut CpuBus, mode: AddressingMode, address: u16) -> (r: Result<bool, MemoryError>)
        requires
            old(bus).wf(),
        ensures
            final(bus).wf(),
            outcome(Instruction::Sta.semantics(mode, old(bus)@, address), final(bus)@, r),
    {
        proof {
            reveal(Instruction::semantics);
            reveal(outcome);
        }
        let a = bus.registers().a;
        mode.write(bus, address, a)?;
        Ok(false)
    }

    fn sty(bus: &mut CpuBus, mode: AddressingMode, address: u16) -> (r: Result<bool, MemoryError>)
        requires
            old(bus).wf(),
        ensures
            final(bus).wf(),
            outcome(Instruction::Sty.semantics(mode, old(bus)@, address), final(bus)@, r),
    {
        proof {
            reveal(Instruction::semantics);
            reveal(outcome);
        }
        let y = bus.registers().y;
        mode.write(bus, address, y)?;
        Ok(false)
    }

    fn aax(bus: &mut CpuBus, mode: AddressingMode, address: u16) -> (r: Result<bool, MemoryError>)
        requires
            old(bus).wf(),
        ensures
            final(bus).wf(),
            outcome(Instruction::Aax.semantics(mode, old(bus)@, address), final(bus)@, r),
    {
        proof {
            reveal(Instruction::semantics);
            reveal(outcome);
        }
        let data = bus.registers().a & bus.registers().x;
        mode.write(bus, address, data)?;
        Ok(false)
    }

    fn pha(bus: &mut CpuBus, _mode: AddressingMode, _address: u16) -> (r: Result<bool, MemoryError>)
        requires
            old(bus).wf(),
        ensures
            final(bus).wf(),
            outcome(Instruction::Pha.semantics(_mode, old(bus)@, _address), final(bus)@, r),
    {
        proof {
            reveal(Instruction::semantics);
            reveal(outcome);
        }
        let a = bus.registers().a;
        bus.stack_push(a)?;
        Ok(false)
    }

    fn and(bus: &mut CpuBus, mode: AddressingMode, address: u16) -> (r: Result<bool, MemoryError>)
        requires
            old(bus).wf(),
        ensures
            final(bus).wf(),
            outcome(Instruction::And.semantics(mode, old(bus)@, address), final(bus)@, r),
    {
        proof {
            reveal(Instruction::semantics);
            reveal(outcome);
        }
        let data = mode.read(bus, address)?;
        let result = bus.registers().a & data;
        bus.registers_mut().a = result;
        bus.registers_mut().set_z_n_flags(result);
        Ok(false)
    }

    fn ora(bus: &mut CpuBus, mode: AddressingMode, address: u16) -> (r: Result<bool, MemoryError>)
        requires
            old(bus).wf(),
        ensures
            final(bus).wf(),
            outcome(Instruction::Ora.semantics(mode, old(bus)@, address), final(bus)@, r),
    {
        proof {
            reveal(Instruction::semantics);
            reveal(outcome);
        }
        let data = mode.read(bus, address)?;
        let result = bus.registers().a | data;
        bus.registers_mut().a = result;
        bus.registers_mut().set_z_n_flags(result);
        Ok(false)
    }

    fn eor(bus: &mut CpuBus, mode: AddressingMode, address: u16) -> (r: Result<bool, MemoryError>)
        requires
            old(bus).wf(),
        ensures
            final(bus).wf(),
            outcome(Instruction::Eor.semantics(mode, old(bus)@, address), final(bus)@, r),
    {
        proof {
            reveal(Instruction::semantics);
            reveal(outcome);
        }
        let data = mode.read(bus, address)?;
        let result = bus.registers().a ^ data;
        bus.registers_mut().a = result;
        bus.registers_mut().set_z_n_flags(result);
        Ok(false)
    }

    fn cpx(bus: &mut CpuBus, mode: AddressingMode, address: u16) -> (r: Result<bool, MemoryError>)
        requires
            old(bus).wf(),
        ensures
            final(bus).wf(),
            outcome(Instruction::Cpx.semantics(mode, old(bus)@, address), final(bus)@, r),
    {
        proof {
            reveal(Instruction::semantics);
            reveal(outcome);
        }
        let data = mode.read(bus, address)?;
        let reg = bus.registers().x;
        bus.registers_mut().set_c_flag(reg >= data);
        bus.registers_mut().set_z_n_flags(reg.wrapping_sub(data));
        Ok(false)
    }

    fn cpy(bus: &mut CpuBus, mode: AddressingMode, address: u16) -> (r: Result<bool, MemoryError>)
        requires
            old(bus).wf(),
        ensures
            final(bus).wf(),
            outcome(Instruction::Cpy.semantics(mode, old(bus)@, address), final(bus)@, r),
    {
        proof {
            reveal(Instruction::semantics);
            reveal(outcome);
        }
        let data = mode.read(bus, address)?;
        let reg = bus.registers().y;
        bus.registers_mut().set_c_flag(reg >= data);
        bus.registers_mut().set_z_n_flags(reg.wrapping_sub(data));
        Ok(false)
    }

    fn iny(bus: &mut CpuBus, _mode: AddressingMode, _address: u16) -> (r: Result<bool, MemoryError>)
        requires
            old(bus).wf(),
        ensures
            final(bus).wf(),
            outcome(Instruction::Iny.semantics(_mode, old(bus)@, _address), final(bus)@, r),
    {
        proof {
            reveal(Instruction::semantics);
            reveal(outcome);
        }
        let result = bus.registers().y.wrapping_add(1);
        bus.registers_mut().y = result;
        bus.registers_mut().set_z_n_flags(result);
        Ok(false)
    }

    fn inx(bus: &mut CpuBus, _mode: AddressingMode, _address: u16) -> (r: Result<bool, MemoryError>)
        requires
            old(bus).wf(),
        ensures
            final(bus).wf(),
            outcome(Instruction::Inx.semantics(_mode, old(bus)@, _address), final(bus)@, r),
    {
        proof {
            reveal(Instruction::semantics);
            reveal(outcome);
        }
        let result = bus.registers().x.wrapping_add(1);
        bus.registers_mut().x = result;
        bus.registers_mut().set_z_n_flags(result);
        Ok(false)
    }

    fn dey(bus: &mut CpuBus, _mode: AddressingMode, _address: u16) -> (r: Result<bool, MemoryError>)
        requires
            old(bus).wf(),
        ensures
            final(bus).wf(),
            outcome(Instruction::Dey.semantics(_mode, old(bus)@, _address), final(bus)@, r),
    {
        proof {
            reveal(Instruction::semantics);
            reveal(outcome);
        }
        let result = bus.registers().y.wrapping_sub(1);
        bus.registers_mut().y = result;
        bus.registers_mut().set_z_n_flags(result);
        Ok(false)
    }

    fn dex(bus: &mut CpuBus, _mode: AddressingMode, _address: u16) -> (r: Result<bool, MemoryError>)
        requires
            old(bus).wf(),
        ensures
            final(bus).wf(),
            outcome(Instruction::Dex.semantics(_mode, old(bus)@, _address), final(bus)@, r),
    {
        proof {
            reveal(Instruction::semantics);
            reveal(outcome);
        }
        let result = bus.registers().x.wrapping_sub(1);
        bus.registers_mut().x = result;
        bus.registers_mut().set_z_n_flags(result);
        Ok(false)
    }

    fn tax(bus: &mut CpuBus, _mode: AddressingMode, _address: u16) -> (r: Result<bool, MemoryError>)
        requires
            old(bus).wf(),
        ensures
            final(bus).wf(),
            outcome(Instruction::Tax.semantics(_mode, old(bus)@, _address), final(bus)@, r),
    {
        proof {
            reveal(Instruction::semantics);
            reveal(outcome);
        }
        let result = bus.registers().a;
        bus.registers_mut().x = result;
        bus.registers_mut().set_z_n_flags(result);
        Ok(false)
    }

    fn tay(bus: &mut CpuBus, _mode: AddressingMode, _address: u16) -> (r: Result<bool, MemoryError>)
        requires
            old(bus).wf(),
        ensures
            final(bus).wf(),
            outcome(Instruction::Tay.semantics(_mode, old(bus)@, _address), final(bus)@, r),
    {
        proof {
            reveal(Instruction::semantics);
            reveal(outcome);
        }
        let result = bus.registers().a;
        bus.registers_mut().y = result;
        bus.registers_mut().set_z_n_flags(result);
        Ok(false)
    }

    fn txa(bus: &mut CpuBus, _mode: AddressingMode, _address: u16) -> (r: Result<bool, MemoryError>)
        requires
            old(bus).wf(),
        ensures
            final(bus).wf(),
            outcome(Instruction::Txa.semantics(_mode, old(bus)@, _address), final(bus)@, r),
    {
        proof {
            reveal(Instruction::semantics);
            reveal(outcome);
        }
        let result = bus.registers().x;
        bus.registers_mut().a = result;
        bus.registers_mut().set_z_n_flags(result);
        Ok(false)
    }

    fn tya(bus: &mut CpuBus, _mode: AddressingMode, _address: u16) -> (r: Result<bool, MemoryError>)
        requires
            old(bus).wf(),
        ensures
            final(bus).wf(),
            outcome(Instruction::Tya.semantics(_mode, old(bus)@, _address), final(bus)@, r),
    {
        proof {
            reveal(Instruction::semantics);
            reveal(outcome);
        }
        let result = bus.registers().y;
        bus.registers_mut().a = result;
        bus.registers_mut().set_z_n_flags(result);
        Ok(false)
    }

    fn tsx(bus: &mut CpuBus, _mode: AddressingMode, _address: u16) -> (r: Result<bool, MemoryError>)
        requires
            old(bus).wf(),
        ensures
            final(bus).wf(),
            outcome(Instruction::Tsx.semantics(_mode, old(bus)@, _address), final(bus)@, r),
    {
        proof {
            reveal(Instruction::semantics);
            reveal(outcome);
        }
        let result = bus.registers().sp;
        bus.registers_mut().x = result;
        bus.registers_mut().set_z_n_flags(result);
        Ok(false)
    }

    fn txs(bus: &mut CpuBus, _mode: AddressingMode, _address: u16) -> (r: Result<bool, MemoryError>)
        requires
            old(bus).wf(),
        ensures
            final(bus).wf(),
            outcome(Instruction::Txs.semantics(_mode, old(bus)@, _address), final(bus)@, r),
    {
        proof {
            reveal(Instruction::semantics);
            reveal(outcome);
        }
        let result = bus.registers().x;
        bus.registers_mut().sp = result;
        Ok(false)
    }

    fn lsr(bus: &mut CpuBus, mode: AddressingMode, address: u16) -> (r: Result<bool, MemoryError>)
        requires
            old(bus).wf(),
        ensures
            final(bus).wf(),
            outcome(Instruction::Lsr.semantics(mode, old(bus)@, address), final(bus)@, r),
    {
        proof {
            reveal(Instruction::semantics);
            reveal(outcome);
        }
        let data = mode.read(bus, address)?;
        let result = data / 2;
        bus.registers_mut().set_c_flag(data % 2 == 1);
        bus.registers_mut().set_z_n_flags(result);
        mode.write(bus, address, result)?;
        Ok(false)
    }

    fn rol(bus: &mut CpuBus, mode: AddressingMode, address: u16) -> (r: Result<bool, MemoryError>)
        requires
            old(bus).wf(),
        ensures
            final(bus).wf(),
            outcome(Instruction::Rol.semantics(mode, old(bus)@, address), final(bus)@, r),
    {
        proof {
            reveal(Instruction::semantics);
            reveal(outcome);
        }
        let data = mode.read(bus, address)?;
        let carry: u16 = if bus.registers().has_c_flag() {
            1
        } else {
            0
        };
        let result = ((data as u16 * 2) % 256 + carry) as u8;
        bus.registers_mut().set_c_flag(data >= 0x80);
        bus.registers_mut().set_z_n_flags(result);
        mode.write(bus, address, result)?;
        Ok(false)
    }

    fn inc(bus: &mut CpuBus, mode: AddressingMode, address: u16) -> (r: Result<bool, MemoryError>)
        requires
            old(bus).wf(),
        ensures
            final(bus).wf(),
            outcome(Instruction::Inc.semantics(mode, old(bus)@, address), final(bus)@, r),
    {
        proof {
            reveal(Instruction::semantics);
            reveal(outcome);
        }
        let data = mode.read(bus, address)?;
        let result = data.wrapping_add(1);
        bus.registers_mut().set_z_n_flags(result);
        mode.write(bus, address, result)?;
        Ok(false)
    }

    fn dec(bus: &mut CpuBus, mode: AddressingMode, address: u16) -> (r: Result<bool, MemoryError>)
        requires
            old(bus).wf(),
        ensures
            final(bus).wf(),
            outcome(Instruction::Dec.semantics(mode, old(bus)@, address), final(bus)@, r),
    {
        proof {
            reveal(Instruction::semantics);
            reveal(outcome);
        }
        let data = mode.read(bus, address)?;
        let result = data.wrapping_sub(1);
        bus.registers_mut().set_z_n_flags(result);
        mode.write(bus, address, result)?;
        Ok(false)
    }

    fn dop(bus: &mut CpuBus, _mode: AddressingMode, _address: u16) -> (r: Result<bool, MemoryError>)
        requires
            old(bus).wf(),
        ensures
            final(bus).wf(),
            outcome(Instruction::Dop.semantics(_mode, old(bus)@, _address), final(bus)@, r),
    {
        proof {
            reveal(Instruction::semantics);
            reveal(outcome);
        }
        Ok(false)
    }

    fn top(bus: &mut CpuBus, _mode: AddressingMode, _address: u16) -> (r: Result<bool, MemoryError>)
        requires
            old(bus).wf(),
        ensures
            final(bus).wf(),
            outcome(Instruction::Top.semantics(_mode, old(bus)@, _address), final(bus)@, r),
    {
        proof {
            reveal(Instruction::semantics);
            reveal(outcome);
        }
        Ok(false)
    }

    fn dcp(bus: &mut CpuBus, mode: AddressingMode, address: u16) -> (r: Result<bool, MemoryError>)
        requires
            old(bus).wf(),
        ensures
            final(bus).wf(),
            outcome(Instruction::Dcp.semantics(mode, old(bus)@, address), final(bus)@, r),
    {
        proof {
            reveal(Instruction::semantics);
            reveal(outcome);
        }
        let data = mode.read(bus, address)?;
        let result = data.wrapping_sub(1);
        let a = bus.registers().a;
        bus.registers_mut().set_c_flag(a >= result);
        bus.registers_mut().set_z_n_flags(a.wrapping_sub(result));
        mode.write(bus, address, result)?;
        Ok(false)
    }

    fn slo(bus: &mut CpuBus, mode: AddressingMode, address: u16) -> (r: Result<bool, MemoryError>)
        requires
            old(bus).wf(),
        ensures
            final(bus).wf(),
            outcome(Instruction::Slo.semantics(mode, old(bus)@, address), final(bus)@, r),
    {
        proof {
            reveal(Instruction::semantics);
            reveal(outcome);
        }
        let data = mode.read(bus, address)?;
        let result = ((data as u16 * 2) % 256) as u8;
        bus.registers_mut().set_c_flag(data >= 0x80);
        let a = bus.registers().a | result;
        bus.registers_mut().a = a;
        bus.registers_mut().set_z_n_flags(a);
        mode.write(bus, address, result)?;
        Ok(false)
    }

    fn rla(bus: &mut CpuBus, mode: AddressingMode, address: u16) -> (r: Result<bool, MemoryError>)
        requires
            old(bus).wf(),
        ensures
            final(bus).wf(),
            outcome(Instruction::Rla.semantics(mode, old(bus)@, address), final(bus)@, r),
    {
        proof {
            reveal(Instruction::semantics);
            reveal(outcome);
        }
        let data = mode.read(bus, address)?;
        let carry: u16 = if bus.registers().has_c_flag() {
            1
        } else {
            0
        };
        let result = ((data as u16 * 2) % 256 + carry) as u8;
        bus.registers_mut().set_c_flag(data >= 0x80);
        let a = bus.registers().a & result;
        bus.registers_mut().a = a;
        bus.registers_mut().set_z_n_flags(a);
        mode.write(bus, address, result)?;
        Ok(false)
    }

    fn sre(bus: &mut CpuBus, mode: AddressingMode, address: u16) -> (r: Result<bool, MemoryError>)
        requires
            old(bus).wf(),
        ensures
            final(bus).wf(),
            outcome(Instruction::Sre.semantics(mode, old(bus)@, address), final(bus)@, r),
    {
        proof {
            reveal(Instruction::semantics);
            reveal(outcome);
        }
        let data = mode.read(bus, address)?;
        let result = data / 2;
        bus.registers_mut().set_c_flag(data % 2 == 1);
        let a = bus.registers().a ^ result;
        bus.registers_mut().a = a;
        bus.registers_mut().set_z_n_flags(a);
        mode.write(bus, address, result)?;
        Ok(false)
    }


    /// Runs the semantic routine of `ins` on the resolved operand.
    fn execute(ins: Instruction, bus: &mut CpuBus, mode: AddressingMode, address: u16) -> (r: Result<
        bool,
        MemoryError,
    >)
        requires
            old(bus).wf(),
        ensures
            final(bus).wf(),
            outcome(ins.semantics(mode, old(bus)@, address), final(bus)@, r),
    {
        match ins {
            Instruction::Jmp | Instruction::Ldx | Instruction::Stx | Instruction::Jsr | Instruction::Nop | Instruction::Sec | Instruction::Bcs | Instruction::Clc | Instruction::Bcc | Instruction::Lda | Instruction::Beq | Instruction::Bne | Instruction::Sta | Instruction::Bit | Instruction::Bvs | Instruction::Bvc => Self::execute_group_0(ins, bus, mode, address),
            Instruction::Bpl | Instruction::Rts | Instruction::Sei | Instruction::Asl | Instruction::Sed | Instruction::Php | Instruction::Pla | Instruction::And | Instruction::Cmp | Instruction::Cld | Instruction::Pha | Instruction::Plp | Instruction::Bmi | Instruction::Ora | Instruction::Clv | Instruction::Eor => Self::execute_group_1(ins, bus, mode, address),
            Instruction::Adc | Instruction::Ldy | Instruction::Cpy | Instruction::Cpx | Instruction::Sbc | Instruction::Iny | Instruction::Inx | Instruction::Dey | Instruction::Dex | Instruction::Tay | Instruction::Tax | Instruction::Txa | Instruction::Tya | Instruction::Tsx | Instruction::Txs | Instruction::Rti => Self::execute_group_2(ins, bus, mode, address),
            Instruction::Lsr | Instruction::Ror | Instruction::Rol | Instruction::Sty | Instruction::Inc | Instruction::Dec | Instruction::Dop | Instruction::Top | Instruction::Lax | Instruction::Aax | Instruction::Dcp | Instruction::Isc | Instruction::Slo | Instruction::Rla | Instruction::Sre | Instruction::Rra => Self::execute_group_3(ins, bus, mode, address),
        }
    }

    /// Runs the semantic routines of one group of mnemonics.
    fn execute_group_0(ins: Instruction, bus: &mut CpuBus, mode: AddressingMode, address: u16) -> (r: Result<
        bool,
        MemoryError,
    >)
        requires
            old(bus).wf(),
            ins is Jmp || ins is Ldx || ins is Stx || ins is Jsr || ins is Nop || ins is Sec || ins is Bcs || ins is Clc || ins is Bcc || ins is Lda || ins is Beq || ins is Bne || ins is Sta || ins is Bit || ins is Bvs || ins is Bvc,
        ensures
            final(bus).wf(),
            outcome(ins.semantics(mode, old(bus)@, address), final(bus)@, r),
    {
        match ins {
            Instruction::Jmp => Self::jmp(bus, mode, address),
            Instruction::Ldx => Self::ldx(bus, mode, address),
            Instruction::Stx => Self::stx(bus, mode, address),
            Instruction::Jsr => Self::jsr(bus, mode, address),
            Instruction::Nop => Self::nop(bus, mode, address),
            Instruction::Sec => Self::sec(bus, mode, address),
            Instruction::Bcs => Self::bcs(bus, mode, address),
            Instruction::Clc => Self::clc(bus, mode, address),
            Instruction::Bcc => Self::bcc(bus, mode, address),
            Instruction::Lda => Self::lda(bus, mode, address),
            Instruction::Beq => Self::beq(bus, mode, address),
            Instruction::Bne => Self::bne(bus, mode, address),
            Instruction::Sta => Self::sta(bus, mode, address),
            Instruction::Bit => Self::bit(bus, mode, address),
            Instruction::Bvs => Self::bvs(bus, mode, address),
            Instruction::Bvc => Self::bvc(bus, mode, address),
            // Other mnemonics are excluded by the precondition.
            _ => Err(MemoryError::AddressOutOfRange(address)),
        }
    }

    /// Runs the semantic routines of one group of mnemonics.
    fn execute_group_1(ins: Instruction, bus: &mut CpuBus, mode: AddressingMode, address: u16) -> (r: Result<
        bool,
        MemoryError,
    >)
        requires
            old(bus).wf(),
            ins is Bpl || ins is Rts || ins is Sei || ins is Asl || ins is Sed || ins is Php || ins is Pla || ins is And || ins is Cmp || ins is Cld || ins is Pha || ins is Plp || ins is Bmi || ins is Ora || ins is Clv || ins is Eor,
        ensures
            final(bus).wf(),
            outcome(ins.semantics(mode, old(bus)@, address), final(bus)@, r),
    {
        match ins {
            Instruction::Bpl => Self::bpl(bus, mode, address),
            Instruction::Rts => Self::rts(bus, mode, address),
            Instruction::Sei => Self::sei(bus, mode, address),
            Instruction::Asl => Self::asl(bus, mode, address),
            Instruction::Sed => Self::sed(bus, mode, address),
            Instruction::Php => Self::php(bus, mode, address),
            Instruction::Pla => Self::pla(bus, mode, address),
            Instruction::And => Self::and(bus, mode, address),
            Instruction::Cmp => Self::cmp(bus, mode, address),
            Instruction::Cld => Self::cld(bus, mode, address),
            Instruction::Pha => Self::pha(bus, mode, address),
            Instruction::Plp => Self::plp(bus, mode, address),
            Instruction::Bmi => Self::bmi(bus, mode, address),
            Instruction::Ora => Self::ora(bus, mode, address),
            Instruction::Clv => Self::clv(bus, mode, address),
            Instruction::Eor => Self::eor(bus, mode, address),
            // Other mnemonics are excluded by the precondition.
            _ => Err(MemoryError::AddressOutOfRange(address)),
        }
    }

    /// Runs the semantic routines of one group of mnemonics.
    fn execute_group_2(ins: Instruction, bus: &mut CpuBus, mode: AddressingMode, address: u16) -> (r: Result<
        bool,
        MemoryError,
    >)
        requires
            old(bus).wf(),
            ins is Adc || ins is Ldy || ins is Cpy || ins is Cpx || ins is Sbc || ins is Iny || ins is Inx || ins is Dey || ins is Dex || ins is Tay || ins is Tax || ins is Txa || ins is Tya || ins is Tsx || ins is Txs || ins is Rti,
        ensures
            final(bus).wf(),
            outcome(ins.semantics(mode, old(bus)@, address), final(bus)@, r),
    {
        match ins {
            Instruction::Adc => Self::adc(bus, mode, address),
            Instruction::Ldy => Self::ldy(bus, mode, address),
            Instruction::Cpy => Self::cpy(bus, mode, address),
            Instruction::Cpx => Self::cpx(bus, mode, address),
            Instruction::Sbc => Self::sbc(bus, mode, address),
            Instruction::Iny => Self::iny(bus, mode, address),
            Instruction::Inx => Self::inx(bus, mode, address),
            Instruction::Dey => Self::dey(bus, mode, address),
            Instruction::Dex => Self::dex(bus, mode, address),
            Instruction::Tay => Self::tay(bus, mode, address),
            Instruction::Tax => Self::tax(bus, mode, address),
            Instruction::Txa => Self::txa(bus, mode, address),
            Instruction::Tya => Self::tya(bus, mode, address),
            Instruction::Tsx => Self::tsx(bus, mode, address),
            Instruction::Txs => Self::txs(bus, mode, address),
            Instruction::Rti => Self::rti(bus, mode, address),
            // Other mnemonics are excluded by the precondition.
            _ => Err(MemoryError::AddressOutOfRange(address)),
        }
    }

    /// Runs the semantic routines of one group of mnemonics.
    fn execute_group_3(ins: Instruction, bus: &mut CpuBus, mode: AddressingMode, address: u16) -> (r: Result<
        bool,
        MemoryError,
    >)
        requires
            old(bus).wf(),
            ins is Lsr || ins is Ror || ins is Rol || ins is Sty || ins is Inc || ins is Dec || ins is Dop || ins is Top || ins is Lax || ins is Aax || ins is Dcp || ins is Isc || ins is Slo || ins is Rla || ins is Sre || ins is Rra,
        ensures
            final(bus).wf(),
            outcome(ins.semantics(mode, old(bus)@, address), final(bus)@, r),
    {
        match ins {
            Instruction::Lsr => Self::lsr(bus, mode, address),
            Instruction::Ror => Self::ror(bus, mode, address),
            Instruction::Rol => Self::rol(bus, mode, address),
            Instruction::Sty => Self::sty(bus, mode, address),
            Instruction::Inc => Self::inc(bus, mode, address),
            Instruction::Dec => Self::dec(bus, mode, address),
            Instruction::Dop => Self::dop(bus, mode, address),
            Instruction::Top => Self::top(bus, mode, address),
            Instruction::Lax => Self::lax(bus, mode, address),
            Instruction::Aax => Self::aax(bus, mode, address),
            Instruction::Dcp => Self::dcp(bus, mode, address),
            Instruction::Isc => Self::isc(bus, mode, address),
            Instruction::Slo => Self::slo(bus, mode, address),
            Instruction::Rla => Self::rla(bus, mode, address),
            Instruction::Sre => Self::sre(bus, mode, address),
            Instruction::Rra => Self::rra(bus, mode, address),
            // Other mnemonics are excluded by the precondition.
            _ => Err(MemoryError::AddressOutOfRange(address)),
        }
    }

    /// Resolves the operand, runs the instruction and returns its total cycle count.
    pub fn invoke(self, bus: &mut CpuBus) -> (r: Result<u32, MemoryError>)
        requires
            old(bus).wf(),
            self.cycles <= u32::MAX - 2,
        ensures
            final(bus).wf(),
            match self.run(old(bus)@) {
                Ok((s, cycles)) => r == Ok::<u32, MemoryError>(cycles) && final(bus)@ == s,
                Err(e) => r == Err::<u32, MemoryError>(e),
            },
    {
        proof {
            reveal(outcome);
        }
        let (address, cross_page) = self.mode.addressing(bus)?;
        let taken = Self::execute(self.ins, bus, self.mode, address)?;
        Ok(
            match self.ins_type {
                InstructionType::Common => get_cross_page_cycles(self.cycles, false),
                InstructionType::CrossingPage => get_cross_page_cycles(self.cycles, cross_page),
                InstructionType::Branch => get_branch_cycles(self.cycles, cross_page, taken),
            },
        )
    }

    /// Looks the opcode up in the decode table.
    pub fn from_code(ins: u8) -> (r: Option<Self>)
        ensures
            r == decode(ins),
    {
        match ins {
            0x01 => Self::record(0x01, Instruction::Ora, AddressingMode::IndirectX, 6, InstructionType::Common),
            0x03 => Self::record(0x03, Instruction::Slo, AddressingMode::IndirectX, 8, InstructionType::Common),
            0x04 => Self::record(0x04, Instruction::Dop, AddressingMode::ZeroPage, 3, InstructionType::Common),
            0x05 => Self::record(0x05, Instruction::Ora, AddressingMode::ZeroPage, 3, InstructionType::Common),
            0x06 => Self::record(0x06, Instruction::Asl, AddressingMode::ZeroPage, 5, InstructionType::Common),
            0x07 => Self::record(0x07, Instruction::Slo, AddressingMode::ZeroPage, 5, InstructionType::Common),
            0x08 => Self::record(0x08, Instruction::Php, AddressingMode::Implicit, 3, InstructionType::Common),
            0x09 => Self::record(0x09, Instruction::Ora, AddressingMode::Immediate, 2, InstructionType::Common),
            0x0A => Self::record(0x0A, Instruction::Asl, AddressingMode::Accumulator, 2, InstructionType::Common),
            0x0C => Self::record(0x0C, Instruction::Top, AddressingMode::Absolute, 4, InstructionType::Common),
            0x0D => Self::record(0x0D, Instruction::Ora, AddressingMode::Absolute, 4, InstructionType::Common),
            0x0E => Self::record(0x0E, Instruction::Asl, AddressingMode::Absolute, 6, InstructionType::Common),
            0x0F => Self::record(0x0F, Instruction::Slo, AddressingMode::Absolute, 6, InstructionType::Common),
            0x10 => Self::record(0x10, Instruction::Bpl, AddressingMode::Relative, 2, InstructionType::Branch),
            0x11 => Self::record(0x11, Instruction::Ora, AddressingMode::IndirectY, 5, InstructionType::CrossingPage),
            0x13 => Self::record(0x13, Instruction::Slo, AddressingMode::IndirectY, 8, InstructionType::Common),
            0x14 => Self::record(0x14, Instruction::Dop, AddressingMode::ZeroPageX, 4, InstructionType::Common),
            0x15 => Self::record(0x15, Instruction::Ora, AddressingMode::ZeroPageX, 4, InstructionType::Common),
            0x16 => Self::record(0x16, Instruction::Asl, AddressingMode::ZeroPageX, 6, InstructionType::Common),
            0x17 => Self::record(0x17, Instruction::Slo, AddressingMode::ZeroPageX, 6, InstructionType::Common),
            0x18 => Self::record(0x18, Instruction::Clc, AddressingMode::Implicit, 2, InstructionType::Common),
            0x19 => Self::record(0x19, Instruction::Ora, AddressingMode::AbsoluteY, 4, InstructionType::CrossingPage),
            0x1A => Self::record(0x1A, Instruction::Nop, AddressingMode::Implicit, 2, InstructionType::Common),
            0x1B => Self::record(0x1B, Instruction::Slo, AddressingMode::AbsoluteY, 7, InstructionType::Common),
            0x1C => Self::record(0x1C, Instruction::Top, AddressingMode::AbsoluteX, 4, InstructionType::CrossingPage),
            0x1D => Self::record(0x1D, Instruction::Ora, AddressingMode::AbsoluteX, 4, InstructionType::CrossingPage),
            0x1E => Self::record(0x1E, Instruction::Asl, AddressingMode::AbsoluteX, 7, InstructionType::Common),
            0x1F => Self::record(0x1F, Instruction::Slo, AddressingMode::AbsoluteX, 7, InstructionType::Common),
            0x20 => Self::record(0x20, Instruction::Jsr, AddressingMode::Absolute, 6, InstructionType::Common),
            0x21 => Self::record(0x21, Instruction::And, AddressingMode::IndirectX, 6, InstructionType::Common),
            0x23 => Self::record(0x23, Instruction::Rla, AddressingMode::IndirectX, 8, InstructionType::Common),
            0x24 => Self::record(0x24, Instruction::Bit, AddressingMode::ZeroPage, 3, InstructionType::Common),
            0x25 => Self::record(0x25, Instruction::And, AddressingMode::ZeroPage, 3, InstructionType::Common),
            0x26 => Self::record(0x26, Instruction::Rol, AddressingMode::ZeroPage, 5, InstructionType::Common),
            0x27 => Self::record(0x27, Instruction::Rla, AddressingMode::ZeroPage, 5, InstructionType::Common),
            0x28 => Self::record(0x28, Instruction::Plp, AddressingMode::Implicit, 4, InstructionType::Common),
            0x29 => Self::record(0x29, Instruction::And, AddressingMode::Immediate, 2, InstructionType::Common),
            0x2A => Self::record(0x2A, Instruction::Rol, AddressingMode::Accumulator, 2, InstructionType::Common),
            0x2C => Self::record(0x2C, Instruction::Bit, AddressingMode::Absolute, 4, InstructionType::Common),
            0x2D => Self::record(0x2D, Instruction::And, AddressingMode::Absolute, 4, InstructionType::Common),
            0x2E => Self::record(0x2E, Instruction::Rol, AddressingMode::Absolute, 6, InstructionType::Common),
            0x2F => Self::record(0x2F, Instruction::Rla, AddressingMode::Absolute, 6, InstructionType::Common),
            0x30 => Self::record(0x30, Instruction::Bmi, AddressingMode::Relative, 2, InstructionType::Branch),
            0x31 => Self::record(0x31, Instruction::And, AddressingMode::IndirectY, 5, InstructionType::CrossingPage),
            0x33 => Self::record(0x33, Instruction::Rla, AddressingMode::IndirectY, 8, InstructionType::Common),
            0x34 => Self::record(0x34, Instruction::Dop, AddressingMode::ZeroPageX, 4, InstructionType::Common),
            0x35 => Self::record(0x35, Instruction::And, AddressingMode::ZeroPageX, 4, InstructionType::Common),
            0x36 => Self::record(0x36, Instruction::Rol, AddressingMode::ZeroPageX, 6, InstructionType::Common),
            0x37 => Self::record(0x37, Instruction::Rla, AddressingMode::ZeroPageX, 6, InstructionType::Common),
            0x38 => Self::record(0x38, Instruction::Sec, AddressingMode::Implicit, 2, InstructionType::Common),
            0x39 => Self::record(0x39, Instruction::And, AddressingMode::AbsoluteY, 4, InstructionType::CrossingPage),
            0x3A => Self::record(0x3A, Instruction::Nop, AddressingMode::Implicit, 2, InstructionType::Common),
            0x3B => Self::record(0x3B, Instruction::Rla, AddressingMode::AbsoluteY, 7, InstructionType::Common),
            0x3C => Self::record(0x3C, Instruction::Top, AddressingMode::AbsoluteX, 4, InstructionType::CrossingPage),
            0x3D => Self::record(0x3D, Instruction::And, AddressingMode::AbsoluteX, 4, InstructionType::CrossingPage),
            0x3E => Self::record(0x3E, Instruction::Rol, AddressingMode::AbsoluteX, 7, InstructionType::Common),
            0x3F => Self::record(0x3F, Instruction::Rla, AddressingMode::AbsoluteX, 7, InstructionType::Common),
            0x40 => Self::record(0x40, Instruction::Rti, AddressingMode::Implicit, 6, InstructionType::Common),
            0x41 => Self::record(0x41, Instruction::Eor, AddressingMode::IndirectX, 6, InstructionType::Common),
            0x43 => Self::record(0x43, Instruction::Sre, AddressingMode::IndirectX, 8, InstructionType::Common),
            0x44 => Self::record(0x44, Instruction::Dop, AddressingMode::ZeroPage, 3, InstructionType::Common),
            0x45 => Self::record(0x45, Instruction::Eor, AddressingMode::ZeroPage, 3, InstructionType::Common),
            0x46 => Self::record(0x46, Instruction::Lsr, AddressingMode::ZeroPage, 5, InstructionType::Common),
            0x47 => Self::record(0x47, Instruction::Sre, AddressingMode::ZeroPage, 5, InstructionType::Common),
            0x48 => Self::record(0x48, Instruction::Pha, AddressingMode::Implicit, 3, InstructionType::Common),
            0x49 => Self::record(0x49, Instruction::Eor, AddressingMode::Immediate, 2, InstructionType::Common),
            0x4A => Self::record(0x4A, Instruction::Lsr, AddressingMode::Accumulator, 2, InstructionType::Common),
            0x4C => Self::record(0x4C, Instruction::Jmp, AddressingMode::Absolute, 3, InstructionType::Common),
            0x4D => Self::record(0x4D, Instruction::Eor, AddressingMode::Absolute, 4, InstructionType::Common),
            0x4E => Self::record(0x4E, Instruction::Lsr, AddressingMode::Absolute, 6, InstructionType::Common),
            0x4F => Self::record(0x4F, Instruction::Sre, AddressingMode::Absolute, 6, InstructionType::Common),
            0x50 => Self::record(0x50, Instruction::Bvc, AddressingMode::Relative, 2, InstructionType::Branch),
            0x51 => Self::record(0x51, Instruction::Eor, AddressingMode::IndirectY, 5, InstructionType::CrossingPage),
            0x53 => Self::record(0x53, Instruction::Sre, AddressingMode::IndirectY, 8, InstructionType::Common),
            0x54 => Self::record(0x54, Instruction::Dop, AddressingMode::ZeroPageX, 4, InstructionType::Common),
            0x55 => Self::record(0x55, Instruction::Eor, AddressingMode::ZeroPageX, 4, InstructionType::Common),
            0x56 => Self::record(0x56, Instruction::Lsr, AddressingMode::ZeroPageX, 6, InstructionType::Common),
            0x57 => Self::record(0x57, Instruction::Sre, AddressingMode::ZeroPageX, 6, InstructionType::Common),
            0x59 => Self::record(0x59, Instruction::Eor, AddressingMode::AbsoluteY, 4, InstructionType::CrossingPage),
            0x5A => Self::record(0x5A, Instruction::Nop, AddressingMode::Implicit, 2, InstructionType::Common),
            0x5B => Self::record(0x5B, Instruction::Sre, AddressingMode::AbsoluteY, 7, InstructionType::Common),
            0x5C => Self::record(0x5C, Instruction::Top, AddressingMode::AbsoluteX, 4, InstructionType::CrossingPage),
            0x5D => Self::record(0x5D, Instruction::Eor, AddressingMode::AbsoluteX, 4, InstructionType::CrossingPage),
            0x5E => Self::record(0x5E, Instruction::Lsr, AddressingMode::AbsoluteX, 7, InstructionType::Common),
            0x5F => Self::record(0x5F, Instruction::Sre, AddressingMode::AbsoluteX, 7, InstructionType::Common),
            0x60 => Self::record(0x60, Instruction::Rts, AddressingMode::Implicit, 6, InstructionType::Common),
            0x61 => Self::record(0x61, Instruction::Adc, AddressingMode::IndirectX, 6, InstructionType::Common),
            0x63 => Self::record(0x63, Instruction::Rra, AddressingMode::IndirectX, 8, InstructionType::Common),
            0x64 => Self::record(0x64, Instruction::Dop, AddressingMode::ZeroPage, 3, InstructionType::Common),
            0x65 => Self::record(0x65, Instruction::Adc, AddressingMode::ZeroPage, 3, InstructionType::Common),
            0x66 => Self::record(0x66, Instruction::Ror, AddressingMode::ZeroPage, 5, InstructionType::Common),
            0x67 => Self::record(0x67, Instruction::Rra, AddressingMode::ZeroPage, 5, InstructionType::Common),
            0x68 => Self::record(0x68, Instruction::Pla, AddressingMode::Implicit, 4, InstructionType::Common),
            0x69 => Self::record(0x69, Instruction::Adc, AddressingMode::Immediate, 2, InstructionType::Common),
            0x6A => Self::record(0x6A, Instruction::Ror, AddressingMode::Accumulator, 2, InstructionType::Common),
            0x6C => Self::record(0x6C, Instruction::Jmp, AddressingMode::Indirect, 5, InstructionType::Common),
            0x6D => Self::record(0x6D, Instruction::Adc, AddressingMode::Absolute, 4, InstructionType::Common),
            0x6E => Self::record(0x6E, Instruction::Ror, AddressingMode::Absolute, 6, InstructionType::Common),
            0x6F => Self::record(0x6F, Instruction::Rra, AddressingMode::Absolute, 6, InstructionType::Common),
            0x70 => Self::record(0x70, Instruction::Bvs, AddressingMode::Relative, 2, InstructionType::Branch),
            0x71 => Self::record(0x71, Instruction::Adc, AddressingMode::IndirectY, 5, InstructionType::CrossingPage),
            0x73 => Self::record(0x73, Instruction::Rra, AddressingMode::IndirectY, 8, InstructionType::Common),
            0x74 => Self::record(0x74, Instruction::Dop, AddressingMode::ZeroPageX, 4, InstructionType::Common),
            0x75 => Self::record(0x75, Instruction::Adc, AddressingMode::ZeroPageX, 4, InstructionType::Common),
            0x76 => Self::record(0x76, Instruction::Ror, AddressingMode::ZeroPageX, 6, InstructionType::Common),
            0x77 => Self::record(0x77, Instruction::Rra, AddressingMode::ZeroPageX, 6, InstructionType::Common),
            0x78 => Self::record(0x78, Instruction::Sei, AddressingMode::Implicit, 2, InstructionType::Common),
            0x79 => Self::record(0x79, Instruction::Adc, AddressingMode::AbsoluteY, 4, InstructionType::CrossingPage),
            0x7A => Self::record(0x7A, Instruction::Nop, AddressingMode::Implicit, 2, InstructionType::Common),
            0x7B => Self::record(0x7B, Instruction::Rra, AddressingMode::AbsoluteY, 7, InstructionType::Common),
            0x7C => Self::record(0x7C, Instruction::Top, AddressingMode::AbsoluteX, 4, InstructionType::CrossingPage),
            0x7D => Self::record(0x7D, Instruction::Adc, AddressingMode::AbsoluteX, 4, InstructionType::CrossingPage),
            0x7E => Self::record(0x7E, Instruction::Ror, AddressingMode::AbsoluteX, 7, InstructionType::Common),
            0x7F => Self::record(0x7F, Instruction::Rra, AddressingMode::AbsoluteX, 7, InstructionType::Common),
            0x80 => Self::record(0x80, Instruction::Dop, AddressingMode::Immediate, 2, InstructionType::Common),
            0x81 => Self::record(0x81, Instruction::Sta, AddressingMode::IndirectX, 6, InstructionType::Common),
            0x82 => Self::record(0x82, Instruction::Dop, AddressingMode::Immediate, 2, InstructionType::Common),
            0x83 => Self::record(0x83, Instruction::Aax, AddressingMode::IndirectX, 6, InstructionType::Common),
            0x84 => Self::record(0x84, Instruction::Sty, AddressingMode::ZeroPage, 3, InstructionType::Common),
            0x85 => Self::record(0x85, Instruction::Sta, AddressingMode::ZeroPage, 3, InstructionType::Common),
            0x86 => Self::record(0x86, Instruction::Stx, AddressingMode::ZeroPage, 3, InstructionType::Common),
            0x87 => Self::record(0x87, Instruction::Aax, AddressingMode::ZeroPage, 3, InstructionType::Common),
            0x88 => Self::record(0x88, Instruction::Dey, AddressingMode::Implicit, 2, InstructionType::Common),
            0x89 => Self::record(0x89, Instruction::Dop, AddressingMode::Immediate, 2, InstructionType::Common),
            0x8A => Self::record(0x8A, Instruction::Txa, AddressingMode::Implicit, 2, InstructionType::Common),
            0x8C => Self::record(0x8C, Instruction::Sty, AddressingMode::Absolute, 4, InstructionType::Common),
            0x8D => Self::record(0x8D, Instruction::Sta, AddressingMode::Absolute, 4, InstructionType::Common),
            0x8E => Self::record(0x8E, Instruction::Stx, AddressingMode::Absolute, 4, InstructionType::Common),
            0x8F => Self::record(0x8F, Instruction::Aax, AddressingMode::Absolute, 4, InstructionType::Common),
            0x90 => Self::record(0x90, Instruction::Bcc, AddressingMode::Relative, 2, InstructionType::Branch),
            0x91 => Self::record(0x91, Instruction::Sta, AddressingMode::IndirectY, 6, InstructionType::Common),
            0x94 => Self::record(0x94, Instruction::Sty, AddressingMode::ZeroPageX, 4, InstructionType::Common),
            0x95 => Self::record(0x95, Instruction::Sta, AddressingMode::ZeroPageX, 4, InstructionType::Common),
            0x96 => Self::record(0x96, Instruction::Stx, AddressingMode::ZeroPageY, 4, InstructionType::Common),
            0x97 => Self::record(0x97, Instruction::Aax, AddressingMode::ZeroPageY, 4, InstructionType::Common),
            0x98 => Self::record(0x98, Instruction::Tya, AddressingMode::Implicit, 2, InstructionType::Common),
            0x99 => Self::record(0x99, Instruction::Sta, AddressingMode::AbsoluteY, 5, InstructionType::Common),
            0x9A => Self::record(0x9A, Instruction::Txs, AddressingMode::Implicit, 2, InstructionType::Common),
            0x9D => Self::record(0x9D, Instruction::Sta, AddressingMode::AbsoluteX, 5, InstructionType::Common),
            0xA0 => Self::record(0xA0, Instruction::Ldy, AddressingMode::Immediate, 2, InstructionType::Common),
            0xA1 => Self::record(0xA1, Instruction::Lda, AddressingMode::IndirectX, 6, InstructionType::Common),
            0xA2 => Self::record(0xA2, Instruction::Ldx, AddressingMode::Immediate, 2, InstructionType::Common),
            0xA3 => Self::record(0xA3, Instruction::Lax, AddressingMode::IndirectX, 6, InstructionType::Common),
            0xA4 => Self::record(0xA4, Instruction::Ldy, AddressingMode::ZeroPage, 3, InstructionType::Common),
            0xA5 => Self::record(0xA5, Instruction::Lda, AddressingMode::ZeroPage, 3, InstructionType::Common),
            0xA6 => Self::record(0xA6, Instruction::Ldx, AddressingMode::ZeroPage, 3, InstructionType::Common),
            0xA7 => Self::record(0xA7, Instruction::Lax, AddressingMode::ZeroPage, 3, InstructionType::Common),
            0xA8 => Self::record(0xA8, Instruction::Tay, AddressingMode::Implicit, 2, InstructionType::Common),
            0xA9 => Self::record(0xA9, Instruction::Lda, AddressingMode::Immediate, 2, InstructionType::Common),
            0xAA => Self::record(0xAA, Instruction::Tax, AddressingMode::Implicit, 2, InstructionType::Common),
            0xAC => Self::record(0xAC, Instruction::Ldy, AddressingMode::Absolute, 4, InstructionType::Common),
            0xAD => Self::record(0xAD, Instruction::Lda, AddressingMode::Absolute, 4, InstructionType::Common),
            0xAE => Self::record(0xAE, Instruction::Ldx, AddressingMode::Absolute, 4, InstructionType::Common),
            0xAF => Self::record(0xAF, Instruction::Lax, AddressingMode::Absolute, 4, InstructionType::Common),
            0xB0 => Self::record(0xB0, Instruction::Bcs, AddressingMode::Relative, 2, InstructionType::Branch),
            0xB1 => Self::record(0xB1, Instruction::Lda, AddressingMode::IndirectY, 5, InstructionType::CrossingPage),
            0xB3 => Self::record(0xB3, Instruction::Lax, AddressingMode::IndirectY, 5, InstructionType::CrossingPage),
            0xB4 => Self::record(0xB4, Instruction::Ldy, AddressingMode::ZeroPageX, 4, InstructionType::Common),
            0xB5 => Self::record(0xB5, Instruction::Lda, AddressingMode::ZeroPageX, 4, InstructionType::Common),
            0xB6 => Self::record(0xB6, Instruction::Ldx, AddressingMode::ZeroPageY, 4, InstructionType::Common),
            0xB7 => Self::record(0xB7, Instruction::Lax, AddressingMode::ZeroPageY, 4, InstructionType::Common),
            0xB8 => Self::record(0xB8, Instruction::Clv, AddressingMode::Implicit, 2, InstructionType::Common),
            0xB9 => Self::record(0xB9, Instruction::Lda, AddressingMode::AbsoluteY, 4, InstructionType::CrossingPage),
            0xBA => Self::record(0xBA, Instruction::Tsx, AddressingMode::Implicit, 2, InstructionType::Common),
            0xBC => Self::record(0xBC, Instruction::Ldy, AddressingMode::AbsoluteX, 4, InstructionType::CrossingPage),
            0xBD => Self::record(0xBD, Instruction::Lda, AddressingMode::AbsoluteX, 4, InstructionType::CrossingPage),
            0xBE => Self::record(0xBE, Instruction::Ldx, AddressingMode::AbsoluteY, 4, InstructionType::CrossingPage),
            0xBF => Self::record(0xBF, Instruction::Lax, AddressingMode::AbsoluteY, 4, InstructionType::CrossingPage),
            0xC0 => Self::record(0xC0, Instruction::Cpy, AddressingMode::Immediate, 2, InstructionType::Common),
            0xC1 => Self::record(0xC1, Instruction::Cmp, AddressingMode::IndirectX, 6, InstructionType::Common),
            0xC2 => Self::record(0xC2, Instruction::Dop, AddressingMode::Immediate, 2, InstructionType::Common),
            0xC3 => Self::record(0xC3, Instruction::Dcp, AddressingMode::IndirectX, 8, InstructionType::Common),
            0xC4 => Self::record(0xC4, Instruction::Cpy, AddressingMode::ZeroPage, 3, InstructionType::Common),
            0xC5 => Self::record(0xC5, Instruction::Cmp, AddressingMode::ZeroPage, 3, InstructionType::Common),
            0xC6 => Self::record(0xC6, Instruction::Dec, AddressingMode::ZeroPage, 5, InstructionType::Common),
            0xC7 => Self::record(0xC7, Instruction::Dcp, AddressingMode::ZeroPage, 5, InstructionType::Common),
            0xC8 => Self::record(0xC8, Instruction::Iny, AddressingMode::Implicit, 2, InstructionType::Common),
            0xC9 => Self::record(0xC9, Instruction::Cmp, AddressingMode::Immediate, 2, InstructionType::Common),
            0xCA => Self::record(0xCA, Instruction::Dex, AddressingMode::Implicit, 2, InstructionType::Common),
            0xCC => Self::record(0xCC, Instruction::Cpy, AddressingMode::Absolute, 4, InstructionType::Common),
            0xCD => Self::record(0xCD, Instruction::Cmp, AddressingMode::Absolute, 4, InstructionType::Common),
            0xCE => Self::record(0xCE, Instruction::Dec, AddressingMode::Absolute, 6, InstructionType::Common),
            0xCF => Self::record(0xCF, Instruction::Dcp, AddressingMode::Absolute, 6, InstructionType::Common),
            0xD0 => Self::record(0xD0, Instruction::Bne, AddressingMode::Relative, 2, InstructionType::Branch),
            0xD1 => Self::record(0xD1, Instruction::Cmp, AddressingMode::IndirectY, 5, InstructionType::CrossingPage),
            0xD3 => Self::record(0xD3, Instruction::Dcp, AddressingMode::IndirectY, 8, InstructionType::Common),
            0xD4 => Self::record(0xD4, Instruction::Dop, AddressingMode::ZeroPageX, 4, InstructionType::Common),
            0xD5 => Self::record(0xD5, Instruction::Cmp, AddressingMode::ZeroPageX, 4, InstructionType::Common),
            0xD6 => Self::record(0xD6, Instruction::Dec, AddressingMode::ZeroPageX, 6, InstructionType::Common),
            0xD7 => Self::record(0xD7, Instruction::Dcp, AddressingMode::ZeroPageX, 6, InstructionType::Common),
            0xD8 => Self::record(0xD8, Instruction::Cld, AddressingMode::Implicit, 2, InstructionType::Common),
            0xD9 => Self::record(0xD9, Instruction::Cmp, AddressingMode::AbsoluteY, 4, InstructionType::CrossingPage),
            0xDA => Self::record(0xDA, Instruction::Nop, AddressingMode::Implicit, 2, InstructionType::Common),
            0xDB => Self::record(0xDB, Instruction::Dcp, AddressingMode::AbsoluteY, 7, InstructionType::Common),
            0xDC => Self::record(0xDC, Instruction::Top, AddressingMode::AbsoluteX, 4, InstructionType::CrossingPage),
            0xDD => Self::record(0xDD, Instruction::Cmp, AddressingMode::AbsoluteX, 4, InstructionType::CrossingPage),
            0xDE => Self::record(0xDE, Instruction::Dec, AddressingMode::AbsoluteX, 7, InstructionType::Common),
            0xDF => Self::record(0xDF, Instruction::Dcp, AddressingMode::AbsoluteX, 7, InstructionType::Common),
            0xE0 => Self::record(0xE0, Instruction::Cpx, AddressingMode::Immediate, 2, InstructionType::Common),
            0xE1 => Self::record(0xE1, Instruction::Sbc, AddressingMode::IndirectX, 6, InstructionType::Common),
            0xE2 => Self::record(0xE2, Instruction::Dop, AddressingMode::Immediate, 2, InstructionType::Common),
            0xE3 => Self::record(0xE3, Instruction::Isc, AddressingMode::IndirectX, 8, InstructionType::Common),
            0xE4 => Self::record(0xE4, Instruction::Cpx, AddressingMode::ZeroPage, 3, InstructionType::Common),
            0xE5 => Self::record(0xE5, Instruction::Sbc, AddressingMode::ZeroPage, 3, InstructionType::Common),
            0xE6 => Self::record(0xE6, Instruction::Inc, AddressingMode::ZeroPage, 5, InstructionType::Common),
            0xE7 => Self::record(0xE7, Instruction::Isc, AddressingMode::ZeroPage, 5, InstructionType::Common),
            0xE8 => Self::record(0xE8, Instruction::Inx, AddressingMode::Implicit, 2, InstructionType::Common),
            0xE9 => Self::record(0xE9, Instruction::Sbc, AddressingMode::Immediate, 2, InstructionType::Common),
            0xEA => Self::record(0xEA, Instruction::Nop, AddressingMode::Implicit, 2, InstructionType::Common),
            0xEB => Self::record(0xEB, Instruction::Sbc, AddressingMode::Immediate, 2, InstructionType::Common),
            0xEC => Self::record(0xEC, Instruction::Cpx, AddressingMode::Absolute, 4, InstructionType::Common),
            0xED => Self::record(0xED, Instruction::Sbc, AddressingMode::Absolute, 4, InstructionType::Common),
            0xEE => Self::record(0xEE, Instruction::Inc, AddressingMode::Absolute, 6, InstructionType::Common),
            0xEF => Self::record(0xEF, Instruction::Isc, AddressingMode::Absolute, 6, InstructionType::Common),
            0xF0 => Self::record(0xF0, Instruction::Beq, AddressingMode::Relative, 2, InstructionType::Branch),
            0xF1 => Self::record(0xF1, Instruction::Sbc, AddressingMode::IndirectY, 5, InstructionType::CrossingPage),
            0xF3 => Self::record(0xF3, Instruction::Isc, AddressingMode::IndirectY, 8, InstructionType::Common),
            0xF4 => Self::record(0xF4, Instruction::Dop, AddressingMode::ZeroPageX, 4, InstructionType::Common),
            0xF5 => Self::record(0xF5, Instruction::Sbc, AddressingMode::ZeroPageX, 4, InstructionType::Common),
            0xF6 => Self::record(0xF6, Instruction::Inc, AddressingMode::ZeroPageX, 6, InstructionType::Common),
            0xF7 => Self::record(0xF7, Instruction::Isc, AddressingMode::ZeroPageX, 6, InstructionType::Common),
            0xF8 => Self::record(0xF8, Instruction::Sed, AddressingMode::Implicit, 2, InstructionType::Common),
            0xF9 => Self::record(0xF9, Instruction::Sbc, AddressingMode::AbsoluteY, 4, InstructionType::CrossingPage),
            0xFA => Self::record(0xFA, Instruction::Nop, AddressingMode::Implicit, 2, InstructionType::Common),
            0xFB => Self::record(0xFB, Instruction::Isc, AddressingMode::AbsoluteY, 7, InstructionType::Common),
            0xFC => Self::record(0xFC, Instruction::Top, AddressingMode::AbsoluteX, 4, InstructionType::CrossingPage),
            0xFD => Self::record(0xFD, Instruction::Sbc, AddressingMode::AbsoluteX, 4, InstructionType::CrossingPage),
            0xFE => Self::record(0xFE, Instruction::Inc, AddressingMode::AbsoluteX, 7, InstructionType::Common),
            0xFF => Self::record(0xFF, Instruction::Isc, AddressingMode::AbsoluteX, 7, InstructionType::Common),
            _ => None,
        }
    }
}

/// The base count plus one when a page was crossed.
fn get_cross_page_cycles(cycles: u32, page_crossed: bool) -> (r: u32)
    requires
        cycles < u32::MAX,
    ensures
        r == if page_crossed {
            cycles + 1
        } else {
            cycles as int
        },
{
    cycles + if page_crossed {
        1
    } else {
        0
    }
}

/// The base count, plus one for a taken branch and one more when it crosses a page.
fn get_branch_cycles(cycles: u32, page_crossed: bool, success: bool) -> (r: u32)
    requires
        cycles <= u32::MAX - 2,
    ensures
        r == total_cycles(cycles, InstructionType::Branch, page_crossed, success),
{
    cycles + if success {
        if page_crossed {
            2
        } else {
            1
        }
    } else {
        0
    }
}

/// Decodes and runs one opcode.
#[derive(Debug, Clone, Copy)]
pub struct InstructionProcessor;

impl InstructionProcessor {
    /// Decodes `ins` and runs it on `bus`; returns the instruction's total cycle count.
    pub fn process(&self, ins: u8, bus: &mut CpuBus) -> (r: Result<u32, CpuError>)
        requires
            old(bus).wf(),
        ensures
            final(bus).wf(),
            match decode(ins) {
                None => r == Err::<u32, CpuError>(CpuError::UnknownInstruction(ins)) && final(bus)@
                    == old(bus)@,
                Some(info) => match info.run(old(bus)@) {
                    Ok((s, cycles)) => r == Ok::<u32, CpuError>(cycles) && final(bus)@ == s,
                    Err(e) => r == Err::<u32, CpuError>(CpuError::Memory(e)),
                },
            },
    {
        let instruction = match InstructionInfo::from_code(ins) {
            Some(i) => i,
            None => return Err(CpuError::UnknownInstruction(ins)),
        };
        proof {
            lemma_decoded_cycles(ins);
        }
        match instruction.invoke(bus) {
            Ok(cycles) => Ok(cycles),
            Err(e) => Err(CpuError::Memory(e)),
        }
    }
}

/// Every entry of the decode table has a base count between 2 and 8.
pub proof fn lemma_decoded_cycles(op: u8)
    ensures
        decode(op) matches Some(info) ==> 2 <= info.cycles <= 8 && info.code == op,
{
}

} // verus!
