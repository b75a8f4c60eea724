//! The opcode table: what each opcode byte names and how it addresses its operand.

use vstd::prelude::*;

verus! {

/// The documented instructions.
#[derive(Clone, Copy, Debug, PartialEq, Eq, Structural)]
pub enum Mnemonic {
    Adc,
    And,
    Asl,
    Bcc,
    Bcs,
    Beq,
    Bit,
    Bmi,
    Bne,
    Bpl,
    Brk,
    Bvc,
    Bvs,
    Clc,
    Cld,
    Cli,
    Clv,
    Cmp,
    Cpx,
    Cpy,
    Dec,
    Dex,
    Dey,
    Eor,
    Inc,
    Inx,
    Iny,
    Jmp,
    Jsr,
    Lda,
    Ldx,
    Ldy,
    Lsr,
    Nop,
    Ora,
    Pha,
    Php,
    Pla,
    Plp,
    Rol,
    Ror,
    Rti,
    Rts,
    Sbc,
    Sec,
    Sed,
    Sei,
    Sta,
    Stx,
    Sty,
    Tax,
    Tay,
    Tsx,
    Txa,
    Txs,
    Tya,
}

/// How an instruction finds its operand.
#[derive(Clone, Copy, Debug, PartialEq, Eq, Structural)]
pub enum AddressingMode {
    Accumulator,
    Implied,
    Immediate,
    Absolute,
    AbsoluteX,
    AbsoluteY,
    ZeroPage,
    ZeroPageX,
    ZeroPageY,
    Relative,
    Indirect,
    IndirectX,
    IndirectY,
}

/// What the table holds for one opcode byte.
#[derive(Clone, Copy, Debug, PartialEq, Eq, Structural)]
pub struct OpcodeInfo {
    pub name: Mnemonic,
    pub mode: AddressingMode,
}

/// The entry of the opcode table for `opcode`, if it has one.
pub open spec fn opcode_entry(opcode: u8) -> Option<OpcodeInfo> {
    match opcode {
        0x00 => Some(OpcodeInfo { name: Mnemonic::Brk, mode: AddressingMode::Implied }),
        0x01 => Some(OpcodeInfo { name: Mnemonic::Ora, mode: AddressingMode::IndirectX }),
        0x05 => Some(OpcodeInfo { name: Mnemonic::Ora, mode: AddressingMode::ZeroPage }),
        0x06 => Some(OpcodeInfo { name: Mnemonic::Asl, mode: AddressingMode::ZeroPage }),
        0x08 => Some(OpcodeInfo { name: Mnemonic::Php, mode: AddressingMode::Implied }),
        0x09 => Some(OpcodeInfo { name: Mnemonic::Ora, mode: AddressingMode::Immediate }),
        0x0A => Some(OpcodeInfo { name: Mnemonic::Asl, mode: AddressingMode::Accumulator }),
        0x0D => Some(OpcodeInfo { name: Mnemonic::Ora, mode: AddressingMode::Absolute }),
        0x0E => Some(OpcodeInfo { name: Mnemonic::Asl, mode: AddressingMode::Absolute }),
        0x10 => Some(OpcodeInfo { name: Mnemonic::Bpl, mode: AddressingMode::Relative }),
        0x11 => Some(OpcodeInfo { name: Mnemonic::Ora, mode: AddressingMode::IndirectY }),
        0x15 => Some(OpcodeInfo { name: Mnemonic::Ora, mode: AddressingMode::ZeroPageX }),
        0x16 => Some(OpcodeInfo { name: Mnemonic::Asl, mode: AddressingMode::ZeroPageX }),
        0x18 => Some(OpcodeInfo { name: Mnemonic::Clc, mode: AddressingMode::Implied }),
        0x19 => Some(OpcodeInfo { name: Mnemonic::Ora, mode: AddressingMode::AbsoluteY }),
        0x1D => Some(OpcodeInfo { name: Mnemonic::Ora, mode: AddressingMode::AbsoluteX }),
        0x1E => Some(OpcodeInfo { name: Mnemonic::Asl, mode: AddressingMode::AbsoluteX }),
        0x20 => Some(OpcodeInfo { name: Mnemonic::Jsr, mode: AddressingMode::Absolute }),
        0x21 => Some(OpcodeInfo { name: Mnemonic::And, mode: AddressingMode::IndirectX }),
        0x24 => Some(OpcodeInfo { name: Mnemonic::Bit, mode: AddressingMode::ZeroPage }),
        0x25 => Some(OpcodeInfo { name: Mnemonic::And, mode: AddressingMode::ZeroPage }),
        0x26 => Some(OpcodeInfo { name: Mnemonic::Rol, mode: AddressingMode::ZeroPage }),
        0x28 => Some(OpcodeInfo { name: Mnemonic::Plp, mode: AddressingMode::Implied }),
        0x29 => Some(OpcodeInfo { name: Mnemonic::And, mode: AddressingMode::Immediate }),
        0x2A => Some(OpcodeInfo { name: Mnemonic::Rol, mode: AddressingMode::Accumulator }),
        0x2C => Some(OpcodeInfo { name: Mnemonic::Bit, mode: AddressingMode::Absolute }),
        0x2D => Some(OpcodeInfo { name: Mnemonic::And, mode: AddressingMode::Absolute }),
        0x2E => Some(OpcodeInfo { name: Mnemonic::Rol, mode: AddressingMode::Absolute }),
        0x30 => Some(OpcodeInfo { name: Mnemonic::Bmi, mode: AddressingMode::Relative }),
        0x31 => Some(OpcodeInfo { name: Mnemonic::And, mode: AddressingMode::IndirectY }),
        0x35 => Some(OpcodeInfo { name: Mnemonic::And, mode: AddressingMode::ZeroPageX }),
        0x36 => Some(OpcodeInfo { name: Mnemonic::Rol, mode: AddressingMode::ZeroPageX }),
        0x38 => Some(OpcodeInfo { name: Mnemonic::Sec, mode: AddressingMode::Implied }),
        0x39 => Some(OpcodeInfo { name: Mnemonic::And, mode: AddressingMode::AbsoluteY }),
        0x3D => Some(OpcodeInfo { name: Mnemonic::And, mode: AddressingMode::AbsoluteX }),
        0x3E => Some(OpcodeInfo { name: Mnemonic::Rol, mode: AddressingMode::AbsoluteX }),
        0x40 => Some(OpcodeInfo { name: Mnemonic::Rti, mode: AddressingMode::Implied }),
        0x41 => Some(OpcodeInfo { name: Mnemonic::Eor, mode: AddressingMode::IndirectX }),
        0x45 => Some(OpcodeInfo { name: Mnemonic::Eor, mode: AddressingMode::ZeroPage }),
        0x46 => Some(OpcodeInfo { name: Mnemonic::Lsr, mode: AddressingMode::ZeroPage }),
        0x48 => Some(OpcodeInfo { name: Mnemonic::Pha, mode: AddressingMode::Implied }),
        0x49 => Some(OpcodeInfo { name: Mnemonic::Eor, mode: AddressingMode::Immediate }),
        0x4A => Some(OpcodeInfo { name: Mnemonic::Lsr, mode: AddressingMode::Accumulator }),
        0x4C => Some(OpcodeInfo { name: Mnemonic::Jmp, mode: AddressingMode::Absolute }),
        0x4D => Some(OpcodeInfo { name: Mnemonic::Eor, mode: AddressingMode::Absolute }),
        0x4E => Some(OpcodeInfo { name: Mnemonic::Lsr, mode: AddressingMode::Absolute }),
        0x50 => Some(OpcodeInfo { name: Mnemonic::Bvc, mode: AddressingMode::Relative }),
        0x51 => Some(OpcodeInfo { name: Mnemonic::Eor, mode: AddressingMode::IndirectY }),
        0x55 => Some(OpcodeInfo { name: Mnemonic::Eor, mode: AddressingMode::ZeroPageX }),
        0x56 => Some(OpcodeInfo { name: Mnemonic::Lsr, mode: AddressingMode::ZeroPageX }),
        0x58 => Some(OpcodeInfo { name: Mnemonic::Cli, mode: AddressingMode::Implied }),
        0x59 => Some(OpcodeInfo { name: Mnemonic::Eor, mode: AddressingMode::AbsoluteY }),
        0x5D => Some(OpcodeInfo { name: Mnemonic::Eor, mode: AddressingMode::AbsoluteX }),
        0x5E => Some(OpcodeInfo { name: Mnemonic::Lsr, mode: AddressingMode::AbsoluteX }),
        0x60 => Some(OpcodeInfo { name: Mnemonic::Rts, mode: AddressingMode::Implied }),
        0x61 => Some(OpcodeInfo { name: Mnemonic::Adc, mode: AddressingMode::IndirectX }),
        0x65 => Some(OpcodeInfo { name: Mnemonic::Adc, mode: AddressingMode::ZeroPage }),
        0x66 => Some(OpcodeInfo { name: Mnemonic::Ror, mode: AddressingMode::ZeroPage }),
        0x68 => Some(OpcodeInfo { name: Mnemonic::Pla, mode: AddressingMode::Implied }),
        0x69 => Some(OpcodeInfo { name: Mnemonic::Adc, mode: AddressingMode::Immediate }),
        0x6A => Some(OpcodeInfo { name: Mnemonic::Ror, mode: AddressingMode::Accumulator }),
        0x6C => Some(OpcodeInfo { name: Mnemonic::Jmp, mode: AddressingMode::Indirect }),
        0x6D => Some(OpcodeInfo { name: Mnemonic::Adc, mode: AddressingMode::Absolute }),
        0x6E => Some(OpcodeInfo { name: Mnemonic::Ror, mode: AddressingMode::Absolute }),
        0x70 => Some(OpcodeInfo { name: Mnemonic::Bvs, mode: AddressingMode::Relative }),
        0x71 => Some(OpcodeInfo { name: Mnemonic::Adc, mode: AddressingMode::IndirectY }),
        0x75 => Some(OpcodeInfo { name: Mnemonic::Adc, mode: AddressingMode::ZeroPageX }),
        0x76 => Some(OpcodeInfo { name: Mnemonic::Ror, mode: AddressingMode::ZeroPageX }),
        0x78 => Some(OpcodeInfo { name: Mnemonic::Sei, mode: AddressingMode::Implied }),
        0x79 => Some(OpcodeInfo { name: Mnemonic::Adc, mode: AddressingMode::AbsoluteY }),
        0x7D => Some(OpcodeInfo { name: Mnemonic::Adc, mode: AddressingMode::AbsoluteX }),
        0x7E => Some(OpcodeInfo { name: Mnemonic::Ror, mode: AddressingMode::AbsoluteX }),
        0x81 => Some(OpcodeInfo { name: Mnemonic::Sta, mode: AddressingMode::IndirectX }),
        0x84 => Some(OpcodeInfo { name: Mnemonic::Sty, mode: AddressingMode::ZeroPage }),
        0x85 => Some(OpcodeInfo { name: Mnemonic::Sta, mode: AddressingMode::ZeroPage }),
        0x86 => Some(OpcodeInfo { name: Mnemonic::Stx, mode: AddressingMode::ZeroPage }),
        0x88 => Some(OpcodeInfo { name: Mnemonic::Dey, mode: AddressingMode::Implied }),
        0x8A => Some(OpcodeInfo { name: Mnemonic::Txa, mode: AddressingMode::Implied }),
        0x8C => Some(OpcodeInfo { name: Mnemonic::Sty, mode: AddressingMode::Absolute }),
        0x8D => Some(OpcodeInfo { name: Mnemonic::Sta, mode: AddressingMode::Absolute }),
        0x8E => Some(OpcodeInfo { name: Mnemonic::Stx, mode: AddressingMode::Absolute }),
        0x90 => Some(OpcodeInfo { name: Mnemonic::Bcc, mode: AddressingMode::Relative }),
        0x91 => Some(OpcodeInfo { name: Mnemonic::Sta, mode: AddressingMode::IndirectY }),
        0x94 => Some(OpcodeInfo { name: Mnemonic::Sty, mode: AddressingMode::ZeroPageX }),
        0x95 => Some(OpcodeInfo { name: Mnemonic::Sta, mode: AddressingMode::ZeroPageX }),
        0x96 => Some(OpcodeInfo { name: Mnemonic::Stx, mode: AddressingMode::ZeroPageY }),
        0x98 => Some(OpcodeInfo { name: Mnemonic::Tya, mode: AddressingMode::Implied }),
        0x99 => Some(OpcodeInfo { name: Mnemonic::Sta, mode: AddressingMode::AbsoluteY }),
        0x9A => Some(OpcodeInfo { name: Mnemonic::Txs, mode: AddressingMode::Implied }),
        0x9D => Some(OpcodeInfo { name: Mnemonic::Sta, mode: AddressingMode::AbsoluteX }),
        0xA0 => Some(OpcodeInfo { name: Mnemonic::Ldy, mode: AddressingMode::Immediate }),
        0xA1 => Some(OpcodeInfo { name: Mnemonic::Lda, mode: AddressingMode::IndirectX }),
        0xA2 => Some(OpcodeInfo { name: Mnemonic::Ldx, mode: AddressingMode::Immediate }),
        0xA4 => Some(OpcodeInfo { name: Mnemonic::Ldy, mode: AddressingMode::ZeroPage }),
        0xA5 => Some(OpcodeInfo { name: Mnemonic::Lda, mode: AddressingMode::ZeroPage }),
        0xA6 => Some(OpcodeInfo { name: Mnemonic::Ldx, mode: AddressingMode::ZeroPage }),
        0xA8 => Some(OpcodeInfo { name: Mnemonic::Tay, mode: AddressingMode::Implied }),
        0xA9 => Some(OpcodeInfo { name: Mnemonic::Lda, mode: AddressingMode::Immediate }),
        0xAA => Some(OpcodeInfo { name: Mnemonic::Tax, mode: AddressingMode::Implied }),
        0xAC => Some(OpcodeInfo { name: Mnemonic::Ldy, mode: AddressingMode::Absolute }),
        0xAD => Some(OpcodeInfo { name: Mnemonic::Lda, mode: AddressingMode::Absolute }),
        0xAE => Some(OpcodeInfo { name: Mnemonic::Ldx, mode: AddressingMode::Absolute }),
        0xB0 => Some(OpcodeInfo { name: Mnemonic::Bcs, mode: AddressingMode::Relative }),
        0xB1 => Some(OpcodeInfo { name: Mnemonic::Lda, mode: AddressingMode::IndirectY }),
        0xB4 => Some(OpcodeInfo { name: Mnemonic::Ldy, mode: AddressingMode::ZeroPageX }),
        0xB5 => Some(OpcodeInfo { name: Mnemonic::Lda, mode: AddressingMode::ZeroPageX }),
        0xB6 => Some(OpcodeInfo { name: Mnemonic::Ldx, mode: AddressingMode::ZeroPageY }),
        0xB8 => Some(OpcodeInfo { name: Mnemonic::Clv, mode: AddressingMode::Implied }),
        0xB9 => Some(OpcodeInfo { name: Mnemonic::Lda, mode: AddressingMode::AbsoluteY }),
        0xBA => Some(OpcodeInfo { name: Mnemonic::Tsx, mode: AddressingMode::Implied }),
        0xBC => Some(OpcodeInfo { name: Mnemonic::Ldy, mode: AddressingMode::AbsoluteX }),
        0xBD => Some(OpcodeInfo { name: Mnemonic::Lda, mode: AddressingMode::AbsoluteX }),
        0xBE => Some(OpcodeInfo { name: Mnemonic::Ldx, mode: AddressingMode::AbsoluteY }),
        0xC0 => Some(OpcodeInfo { name: Mnemonic::Cpy, mode: AddressingMode::Immediate }),
        0xC1 => Some(OpcodeInfo { name: Mnemonic::Cmp, mode: AddressingMode::IndirectX }),
        0xC4 => Some(OpcodeInfo { name: Mnemonic::Cpy, mode: AddressingMode::ZeroPage }),
        0xC5 => Some(OpcodeInfo { name: Mnemonic::Cmp, mode: AddressingMode::ZeroPage }),
        0xC6 => Some(OpcodeInfo { name: Mnemonic::Dec, mode: AddressingMode::ZeroPage }),
        0xC8 => Some(OpcodeInfo { name: Mnemonic::Iny, mode: AddressingMode::Implied }),
        0xC9 => Some(OpcodeInfo { name: Mnemonic::Cmp, mode: AddressingMode::Immediate }),
        0xCA => Some(OpcodeInfo { name: Mnemonic::Dex, mode: AddressingMode::Implied }),
        0xCC => Some(OpcodeInfo { name: Mnemonic::Cpy, mode: AddressingMode::Absolute }),
        0xCD => Some(OpcodeInfo { name: Mnemonic::Cmp, mode: AddressingMode::Absolute }),
        0xCE => Some(OpcodeInfo { name: Mnemonic::Dec, mode: AddressingMode::Absolute }),
        0xD0 => Some(OpcodeInfo { name: Mnemonic::Bne, mode: AddressingMode::Relative }),
        0xD1 => Some(OpcodeInfo { name: Mnemonic::Cmp, mode: AddressingMode::IndirectY }),
        0xD5 => Some(OpcodeInfo { name: Mnemonic::Cmp, mode: AddressingMode::ZeroPageX }),
        0xD6 => Some(OpcodeInfo { name: Mnemonic::Dec, mode: AddressingMode::ZeroPageX }),
        0xD8 => Some(OpcodeInfo { name: Mnemonic::Cld, mode: AddressingMode::Implied }),
        0xD9 => Some(OpcodeInfo { name: Mnemonic::Cmp, mode: AddressingMode::AbsoluteY }),
        0xDD => Some(OpcodeInfo { name: Mnemonic::Cmp, mode: AddressingMode::AbsoluteX }),
        0xDE => Some(OpcodeInfo { name: Mnemonic::Dec, mode: AddressingMode::AbsoluteX }),
        0xE0 => Some(OpcodeInfo { name: Mnemonic::Cpx, mode: AddressingMode::Immediate }),
        0xE1 => Some(OpcodeInfo { name: Mnemonic::Sbc, mode: AddressingMode::IndirectX }),
        0xE4 => Some(OpcodeInfo { name: Mnemonic::Cpx, mode: AddressingMode::ZeroPage }),
        0xE5 => Some(OpcodeInfo { name: Mnemonic::Sbc, mode: AddressingMode::ZeroPage }),
        0xE6 => Some(OpcodeInfo { name: Mnemonic::Inc, mode: AddressingMode::ZeroPage }),
        0xE8 => Some(OpcodeInfo { name: Mnemonic::Inx, mode: AddressingMode::Implied }),
        0xE9 => Some(OpcodeInfo { name: Mnemonic::Sbc, mode: AddressingMode::Immediate }),
        0xEA => Some(OpcodeInfo { name: Mnemonic::Nop, mode: AddressingMode::Implied }),
        0xEC => Some(OpcodeInfo { name: Mnemonic::Cpx, mode: AddressingMode::Absolute }),
        0xED => Some(OpcodeInfo { name: Mnemonic::Sbc, mode: AddressingMode::Absolute }),
        0xEE => Some(OpcodeInfo { name: Mnemonic::Inc, mode: AddressingMode::Absolute }),
        0xF0 => Some(OpcodeInfo { name: Mnemonic::Beq, mode: AddressingMode::Relative }),
        0xF1 => Some(OpcodeInfo { name: Mnemonic::Sbc, mode: AddressingMode::IndirectY }),
        0xF5 => Some(OpcodeInfo { name: Mnemonic::Sbc, mode: AddressingMode::ZeroPageX }),
        0xF6 => Some(OpcodeInfo { name: Mnemonic::Inc, mode: AddressingMode::ZeroPageX }),
        0xF8 => Some(OpcodeInfo { name: Mnemonic::Sed, mode: AddressingMode::Implied }),
        0xF9 => Some(OpcodeInfo { name: Mnemonic::Sbc, mode: AddressingMode::AbsoluteY }),
        0xFD => Some(OpcodeInfo { name: Mnemonic::Sbc, mode: AddressingMode::AbsoluteX }),
        0xFE => Some(OpcodeInfo { name: Mnemonic::Inc, mode: AddressingMode::AbsoluteX }),
        _ => None,
    }
}

/// Looks `opcode` up in the opcode table.
pub fn lookup(opcode: u8) -> (r: Option<OpcodeInfo>)
    ensures
        r == opcode_entry(opcode),
{
    match opcode {
        0x00 => Some(OpcodeInfo { name: Mnemonic::Brk, mode: AddressingMode::Implied }),
        0x01 => Some(OpcodeInfo { name: Mnemonic::Ora, mode: AddressingMode::IndirectX }),
        0x05 => Some(OpcodeInfo { name: Mnemonic::Ora, mode: AddressingMode::ZeroPage }),
        0x06 => Some(OpcodeInfo { name: Mnemonic::Asl, mode: AddressingMode::ZeroPage }),
        0x08 => Some(OpcodeInfo { name: Mnemonic::Php, mode: AddressingMode::Implied }),
        0x09 => Some(OpcodeInfo { name: Mnemonic::Ora, mode: AddressingMode::Immediate }),
        0x0A => Some(OpcodeInfo { name: Mnemonic::Asl, mode: AddressingMode::Accumulator }),
        0x0D => Some(OpcodeInfo { name: Mnemonic::Ora, mode: AddressingMode::Absolute }),
        0x0E => Some(OpcodeInfo { name: Mnemonic::Asl, mode: AddressingMode::Absolute }),
        0x10 => Some(OpcodeInfo { name: Mnemonic::Bpl, mode: AddressingMode::Relative }),
        0x11 => Some(OpcodeInfo { name: Mnemonic::Ora, mode: AddressingMode::IndirectY }),
        0x15 => Some(OpcodeInfo { name: Mnemonic::Ora, mode: AddressingMode::ZeroPageX }),
        0x16 => Some(OpcodeInfo { name: Mnemonic::Asl, mode: AddressingMode::ZeroPageX }),
        0x18 => Some(OpcodeInfo { name: Mnemonic::Clc, mode: AddressingMode::Implied }),
        0x19 => Some(OpcodeInfo { name: Mnemonic::Ora, mode: AddressingMode::AbsoluteY }),
        0x1D => Some(OpcodeInfo { name: Mnemonic::Ora, mode: AddressingMode::AbsoluteX }),
        0x1E => Some(OpcodeInfo { name: Mnemonic::Asl, mode: AddressingMode::AbsoluteX }),
        0x20 => Some(OpcodeInfo { name: Mnemonic::Jsr, mode: AddressingMode::Absolute }),
        0x21 => Some(OpcodeInfo { name: Mnemonic::And, mode: AddressingMode::IndirectX }),
        0x24 => Some(OpcodeInfo { name: Mnemonic::Bit, mode: AddressingMode::ZeroPage }),
        0x25 => Some(OpcodeInfo { name: Mnemonic::And, mode: AddressingMode::ZeroPage }),
        0x26 => Some(OpcodeInfo { name: Mnemonic::Rol, mode: AddressingMode::ZeroPage }),
        0x28 => Some(OpcodeInfo { name: Mnemonic::Plp, mode: AddressingMode::Implied }),
        0x29 => Some(OpcodeInfo { name: Mnemonic::And, mode: AddressingMode::Immediate }),
        0x2A => Some(OpcodeInfo { name: Mnemonic::Rol, mode: AddressingMode::Accumulator }),
        0x2C => Some(OpcodeInfo { name: Mnemonic::Bit, mode: AddressingMode::Absolute }),
        0x2D => Some(OpcodeInfo { name: Mnemonic::And, mode: AddressingMode::Absolute }),
        0x2E => Some(OpcodeInfo { name: Mnemonic::Rol, mode: AddressingMode::Absolute }),
        0x30 => Some(OpcodeInfo { name: Mnemonic::Bmi, mode: AddressingMode::Relative }),
        0x31 => Some(OpcodeInfo { name: Mnemonic::And, mode: AddressingMode::IndirectY }),
        0x35 => Some(OpcodeInfo { name: Mnemonic::And, mode: AddressingMode::ZeroPageX }),
        0x36 => Some(OpcodeInfo { name: Mnemonic::Rol, mode: AddressingMode::ZeroPageX }),
        0x38 => Some(OpcodeInfo { name: Mnemonic::Sec, mode: AddressingMode::Implied }),
        0x39 => Some(OpcodeInfo { name: Mnemonic::And, mode: AddressingMode::AbsoluteY }),
        0x3D => Some(OpcodeInfo { name: Mnemonic::And, mode: AddressingMode::AbsoluteX }),
        0x3E => Some(OpcodeInfo { name: Mnemonic::Rol, mode: AddressingMode::AbsoluteX }),
        0x40 => Some(OpcodeInfo { name: Mnemonic::Rti, mode: AddressingMode::Implied }),
        0x41 => Some(OpcodeInfo { name: Mnemonic::Eor, mode: AddressingMode::IndirectX }),
        0x45 => Some(OpcodeInfo { name: Mnemonic::Eor, mode: AddressingMode::ZeroPage }),
        0x46 => Some(OpcodeInfo { name: Mnemonic::Lsr, mode: AddressingMode::ZeroPage }),
        0x48 => Some(OpcodeInfo { name: Mnemonic::Pha, mode: AddressingMode::Implied }),
        0x49 => Some(OpcodeInfo { name: Mnemonic::Eor, mode: AddressingMode::Immediate }),
        0x4A => Some(OpcodeInfo { name: Mnemonic::Lsr, mode: AddressingMode::Accumulator }),
        0x4C => Some(OpcodeInfo { name: Mnemonic::Jmp, mode: AddressingMode::Absolute }),
        0x4D => Some(OpcodeInfo { name: Mnemonic::Eor, mode: AddressingMode::Absolute }),
        0x4E => Some(OpcodeInfo { name: Mnemonic::Lsr, mode: AddressingMode::Absolute }),
        0x50 => Some(OpcodeInfo { name: Mnemonic::Bvc, mode: AddressingMode::Relative }),
        0x51 => Some(OpcodeInfo { name: Mnemonic::Eor, mode: AddressingMode::IndirectY }),
        0x55 => Some(OpcodeInfo { name: Mnemonic::Eor, mode: AddressingMode::ZeroPageX }),
        0x56 => Some(OpcodeInfo { name: Mnemonic::Lsr, mode: AddressingMode::ZeroPageX }),
        0x58 => Some(OpcodeInfo { name: Mnemonic::Cli, mode: AddressingMode::Implied }),
        0x59 => Some(OpcodeInfo { name: Mnemonic::Eor, mode: AddressingMode::AbsoluteY }),
        0x5D => Some(OpcodeInfo { name: Mnemonic::Eor, mode: AddressingMode::AbsoluteX }),
        0x5E => Some(OpcodeInfo { name: Mnemonic::Lsr, mode: AddressingMode::AbsoluteX }),
        0x60 => Some(OpcodeInfo { name: Mnemonic::Rts, mode: AddressingMode::Implied }),
        0x61 => Some(OpcodeInfo { name: Mnemonic::Adc, mode: AddressingMode::IndirectX }),
        0x65 => Some(OpcodeInfo { name: Mnemonic::Adc, mode: AddressingMode::ZeroPage }),
        0x66 => Some(OpcodeInfo { name: Mnemonic::Ror, mode: AddressingMode::ZeroPage }),
        0x68 => Some(OpcodeInfo { name: Mnemonic::Pla, mode: AddressingMode::Implied }),
        0x69 => Some(OpcodeInfo { name: Mnemonic::Adc, mode: AddressingMode::Immediate }),
        0x6A => Some(OpcodeInfo { name: Mnemonic::Ror, mode: AddressingMode::Accumulator }),
        0x6C => Some(OpcodeInfo { name: Mnemonic::Jmp, mode: AddressingMode::Indirect }),
        0x6D => Some(OpcodeInfo { name: Mnemonic::Adc, mode: AddressingMode::Absolute }),
        0x6E => Some(OpcodeInfo { name: Mnemonic::Ror, mode: AddressingMode::Absolute }),
        0x70 => Some(OpcodeInfo { name: Mnemonic::Bvs, mode: AddressingMode::Relative }),
        0x71 => Some(OpcodeInfo { name: Mnemonic::Adc, mode: AddressingMode::IndirectY }),
        0x75 => Some(OpcodeInfo { name: Mnemonic::Adc, mode: AddressingMode::ZeroPageX }),
        0x76 => Some(OpcodeInfo { name: Mnemonic::Ror, mode: AddressingMode::ZeroPageX }),
        0x78 => Some(OpcodeInfo { name: Mnemonic::Sei, mode: AddressingMode::Implied }),
        0x79 => Some(OpcodeInfo { name: Mnemonic::Adc, mode: AddressingMode::AbsoluteY }),
        0x7D => Some(OpcodeInfo { name: Mnemonic::Adc, mode: AddressingMode::AbsoluteX }),
        0x7E => Some(OpcodeInfo { name: Mnemonic::Ror, mode: AddressingMode::AbsoluteX }),
        0x81 => Some(OpcodeInfo { name: Mnemonic::Sta, mode: AddressingMode::IndirectX }),
        0x84 => Some(OpcodeInfo { name: Mnemonic::Sty, mode: AddressingMode::ZeroPage }),
        0x85 => Some(OpcodeInfo { name: Mnemonic::Sta, mode: AddressingMode::ZeroPage }),
        0x86 => Some(OpcodeInfo { name: Mnemonic::Stx, mode: AddressingMode::ZeroPage }),
        0x88 => Some(OpcodeInfo { name: Mnemonic::Dey, mode: AddressingMode::Implied }),
        0x8A => Some(OpcodeInfo { name: Mnemonic::Txa, mode: AddressingMode::Implied }),
        0x8C => Some(OpcodeInfo { name: Mnemonic::Sty, mode: AddressingMode::Absolute }),
        0x8D => Some(OpcodeInfo { name: Mnemonic::Sta, mode: AddressingMode::Absolute }),
        0x8E => Some(OpcodeInfo { name: Mnemonic::Stx, mode: AddressingMode::Absolute }),
        0x90 => Some(OpcodeInfo { name: Mnemonic::Bcc, mode: AddressingMode::Relative }),
        0x91 => Some(OpcodeInfo { name: Mnemonic::Sta, mode: AddressingMode::IndirectY }),
        0x94 => Some(OpcodeInfo { name: Mnemonic::Sty, mode: AddressingMode::ZeroPageX }),
        0x95 => Some(OpcodeInfo { name: Mnemonic::Sta, mode: AddressingMode::ZeroPageX }),
        0x96 => Some(OpcodeInfo { name: Mnemonic::Stx, mode: AddressingMode::ZeroPageY }),
        0x98 => Some(OpcodeInfo { name: Mnemonic::Tya, mode: AddressingMode::Implied }),
        0x99 => Some(OpcodeInfo { name: Mnemonic::Sta, mode: AddressingMode::AbsoluteY }),
        0x9A => Some(OpcodeInfo { name: Mnemonic::Txs, mode: AddressingMode::Implied }),
        0x9D => Some(OpcodeInfo { name: Mnemonic::Sta, mode: AddressingMode::AbsoluteX }),
        0xA0 => Some(OpcodeInfo { name: Mnemonic::Ldy, mode: AddressingMode::Immediate }),
        0xA1 => Some(OpcodeInfo { name: Mnemonic::Lda, mode: AddressingMode::IndirectX }),
        0xA2 => Some(OpcodeInfo { name: Mnemonic::Ldx, mode: AddressingMode::Immediate }),
        0xA4 => Some(OpcodeInfo { name: Mnemonic::Ldy, mode: AddressingMode::ZeroPage }),
        0xA5 => Some(OpcodeInfo { name: Mnemonic::Lda, mode: AddressingMode::ZeroPage }),
        0xA6 => Some(OpcodeInfo { name: Mnemonic::Ldx, mode: AddressingMode::ZeroPage }),
        0xA8 => Some(OpcodeInfo { name: Mnemonic::Tay, mode: AddressingMode::Implied }),
        0xA9 => Some(OpcodeInfo { name: Mnemonic::Lda, mode: AddressingMode::Immediate }),
        0xAA => Some(OpcodeInfo { name: Mnemonic::Tax, mode: AddressingMode::Implied }),
        0xAC => Some(OpcodeInfo { name: Mnemonic::Ldy, mode: AddressingMode::Absolute }),
        0xAD => Some(OpcodeInfo { name: Mnemonic::Lda, mode: AddressingMode::Absolute }),
        0xAE => Some(OpcodeInfo { name: Mnemonic::Ldx, mode: AddressingMode::Absolute }),
        0xB0 => Some(OpcodeInfo { name: Mnemonic::Bcs, mode: AddressingMode::Relative }),
        0xB1 => Some(OpcodeInfo { name: Mnemonic::Lda, mode: AddressingMode::IndirectY }),
        0xB4 => Some(OpcodeInfo { name: Mnemonic::Ldy, mode: AddressingMode::ZeroPageX }),
        0xB5 => Some(OpcodeInfo { name: Mnemonic::Lda, mode: AddressingMode::ZeroPageX }),
        0xB6 => Some(OpcodeInfo { name: Mnemonic::Ldx, mode: AddressingMode::ZeroPageY }),
        0xB8 => Some(OpcodeInfo { name: Mnemonic::Clv, mode: AddressingMode::Implied }),
        0xB9 => Some(OpcodeInfo { name: Mnemonic::Lda, mode: AddressingMode::AbsoluteY }),
        0xBA => Some(OpcodeInfo { name: Mnemonic::Tsx, mode: AddressingMode::Implied }),
        0xBC => Some(OpcodeInfo { name: Mnemonic::Ldy, mode: AddressingMode::AbsoluteX }),
        0xBD => Some(OpcodeInfo { name: Mnemonic::Lda, mode: AddressingMode::AbsoluteX }),
        0xBE => Some(OpcodeInfo { name: Mnemonic::Ldx, mode: AddressingMode::AbsoluteY }),
        0xC0 => Some(OpcodeInfo { name: Mnemonic::Cpy, mode: AddressingMode::Immediate }),
        0xC1 => Some(OpcodeInfo { name: Mnemonic::Cmp, mode: AddressingMode::IndirectX }),
        0xC4 => Some(OpcodeInfo { name: Mnemonic::Cpy, mode: AddressingMode::ZeroPage }),
        0xC5 => Some(OpcodeInfo { name: Mnemonic::Cmp, mode: AddressingMode::ZeroPage }),
        0xC6 => Some(OpcodeInfo { name: Mnemonic::Dec, mode: AddressingMode::ZeroPage }),
        0xC8 => Some(OpcodeInfo { name: Mnemonic::Iny, mode: AddressingMode::Implied }),
        0xC9 => Some(OpcodeInfo { name: Mnemonic::Cmp, mode: AddressingMode::Immediate }),
        0xCA => Some(OpcodeInfo { name: Mnemonic::Dex, mode: AddressingMode::Implied }),
        0xCC => Some(OpcodeInfo { name: Mnemonic::Cpy, mode: AddressingMode::Absolute }),
        0xCD => Some(OpcodeInfo { name: Mnemonic::Cmp, mode: AddressingMode::Absolute }),
        0xCE => Some(OpcodeInfo { name: Mnemonic::Dec, mode: AddressingMode::Absolute }),
        0xD0 => Some(OpcodeInfo { name: Mnemonic::Bne, mode: AddressingMode::Relative }),
        0xD1 => Some(OpcodeInfo { name: Mnemonic::Cmp, mode: AddressingMode::IndirectY }),
        0xD5 => Some(OpcodeInfo { name: Mnemonic::Cmp, mode: AddressingMode::ZeroPageX }),
        0xD6 => Some(OpcodeInfo { name: Mnemonic::Dec, mode: AddressingMode::ZeroPageX }),
        0xD8 => Some(OpcodeInfo { name: Mnemonic::Cld, mode: AddressingMode::Implied }),
        0xD9 => Some(OpcodeInfo { name: Mnemonic::Cmp, mode: AddressingMode::AbsoluteY }),
        0xDD => Some(OpcodeInfo { name: Mnemonic::Cmp, mode: AddressingMode::AbsoluteX }),
        0xDE => Some(OpcodeInfo { name: Mnemonic::Dec, mode: AddressingMode::AbsoluteX }),
        0xE0 => Some(OpcodeInfo { name: Mnemonic::Cpx, mode: AddressingMode::Immediate }),
        0xE1 => Some(OpcodeInfo { name: Mnemonic::Sbc, mode: AddressingMode::IndirectX }),
        0xE4 => Some(OpcodeInfo { name: Mnemonic::Cpx, mode: AddressingMode::ZeroPage }),
        0xE5 => Some(OpcodeInfo { name: Mnemonic::Sbc, mode: AddressingMode::ZeroPage }),
        0xE6 => Some(OpcodeInfo { name: Mnemonic::Inc, mode: AddressingMode::ZeroPage }),
        0xE8 => Some(OpcodeInfo { name: Mnemonic::Inx, mode: AddressingMode::Implied }),
        0xE9 => Some(OpcodeInfo { name: Mnemonic::Sbc, mode: AddressingMode::Immediate }),
        0xEA => Some(OpcodeInfo { name: Mnemonic::Nop, mode: AddressingMode::Implied }),
        0xEC => Some(OpcodeInfo { name: Mnemonic::Cpx, mode: AddressingMode::Absolute }),
        0xED => Some(OpcodeInfo { name: Mnemonic::Sbc, mode: AddressingMode::Absolute }),
        0xEE => Some(OpcodeInfo { name: Mnemonic::Inc, mode: AddressingMode::Absolute }),
        0xF0 => Some(OpcodeInfo { name: Mnemonic::Beq, mode: AddressingMode::Relative }),
        0xF1 => Some(OpcodeInfo { name: Mnemonic::Sbc, mode: AddressingMode::IndirectY }),
        0xF5 => Some(OpcodeInfo { name: Mnemonic::Sbc, mode: AddressingMode::ZeroPageX }),
        0xF6 => Some(OpcodeInfo { name: Mnemonic::Inc, mode: AddressingMode::ZeroPageX }),
        0xF8 => Some(OpcodeInfo { name: Mnemonic::Sed, mode: AddressingMode::Implied }),
        0xF9 => Some(OpcodeInfo { name: Mnemonic::Sbc, mode: AddressingMode::AbsoluteY }),
        0xFD => Some(OpcodeInfo { name: Mnemonic::Sbc, mode: AddressingMode::AbsoluteX }),
        0xFE => Some(OpcodeInfo { name: Mnemonic::Inc, mode: AddressingMode::AbsoluteX }),
        _ => None,
    }
}

} // verus!
