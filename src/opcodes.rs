//! The opcode table: for each of the 256 opcode bytes, its operation,
//! addressing mode and base cycle count, as documented for the NMOS 6502.
use vstd::prelude::*;

verus! {

#[derive(Clone, Copy, PartialEq, Eq, Structural, Debug)]
pub enum Op {
    Adc,
    And,
    Asl,
    Bcc,
    Bcs,
    Beq,
    Bit,
    Bmi,
    Bne,
    Bpl,
    Brk,
    Bvc,
    Bvs,
    Clc,
    Cld,
    Cli,
    Clv,
    Cmp,
    Cpx,
    Cpy,
    /// DEC, then CMP with the result.
    Dcp,
    Dec,
    Dex,
    Dey,
    Eor,
    Inc,
    Inx,
    Iny,
    /// INC, then SBC of the result.
    Isb,
    Jmp,
    Jsr,
    /// LDA and LDX at once.
    Lax,
    Lda,
    Ldx,
    Ldy,
    Lsr,
    Nop,
    Ora,
    Pha,
    Php,
    Pla,
    Plp,
    /// ROL, then AND with the result.
    Rla,
    Rol,
    Ror,
    /// ROR, then ADC of the result.
    Rra,
    Rti,
    Rts,
    /// Stores `A & X`.
    Sax,
    Sbc,
    Sec,
    Sed,
    Sei,
    /// ASL, then ORA with the result.
    Slo,
    /// LSR, then EOR with the result.
    Sre,
    Sta,
    Stx,
    Sty,
    Tax,
    Tay,
    Tsx,
    Txa,
    Txs,
    Tya,
    /// An opcode without defined behaviour: counted, and run as a no-op of its length and cycle count.
    Invalid,
    /// Like `Invalid`, for an opcode that reads its operand: it also pays
    /// the page-crossing cycle.
    InvalidRead,
}

#[derive(Clone, Copy, PartialEq, Eq, Structural, Debug)]
pub enum Mode {
    Implied,
    Accumulator,
    Immediate,
    ZeroPage,
    ZeroPageX,
    ZeroPageY,
    Absolute,
    AbsoluteX,
    AbsoluteY,
    /// `JMP (ind)` only, with the page-wrap of the pointer's high byte.
    Indirect,
    IndirectX,
    IndirectY,
    /// The signed offset of a branch.
    Relative,
}

#[derive(Clone, Copy, PartialEq, Eq, Structural, Debug)]
pub struct Instruction {
    pub op: Op,
    pub mode: Mode,
    /// Cycles before any page-crossing or branch penalty.
    pub cycles: u8,
}

/// Operand bytes that follow the opcode.
pub open spec fn operand_len(mode: Mode) -> int {
    match mode {
        Mode::Implied | Mode::Accumulator => 0,
        Mode::Absolute | Mode::AbsoluteX | Mode::AbsoluteY | Mode::Indirect => 2,
        _ => 1,
    }
}

/// Operations that only read their operand, and so pay one cycle when an
/// indexed address crosses a page.
pub open spec fn reads_operand(op: Op) -> bool {
    match op {
        Op::Adc | Op::And | Op::Cmp | Op::Eor | Op::Lda | Op::Ldx | Op::Ldy | Op::Ora | Op::Sbc
        | Op::Lax | Op::Nop | Op::InvalidRead => true,
        _ => false,
    }
}

pub open spec fn instruction_of(opcode: u8) -> Instruction {
    match opcode {
        0x00 => Instruction { op: Op::Brk, mode: Mode::Implied, cycles: 7 },
        0x01 => Instruction { op: Op::Ora, mode: Mode::IndirectX, cycles: 6 },
        0x02 => Instruction { op: Op::Invalid, mode: Mode::Implied, cycles: 2 },
        0x03 => Instruction { op: Op::Slo, mode: Mode::IndirectX, cycles: 8 },
        0x04 => Instruction { op: Op::Nop, mode: Mode::ZeroPage, cycles: 3 },
        0x05 => Instruction { op: Op::Ora, mode: Mode::ZeroPage, cycles: 3 },
        0x06 => Instruction { op: Op::Asl, mode: Mode::ZeroPage, cycles: 5 },
        0x07 => Instruction { op: Op::Slo, mode: Mode::ZeroPage, cycles: 5 },
        0x08 => Instruction { op: Op::Php, mode: Mode::Implied, cycles: 3 },
        0x09 => Instruction { op: Op::Ora, mode: Mode::Immediate, cycles: 2 },
        0x0A => Instruction { op: Op::Asl, mode: Mode::Accumulator, cycles: 2 },
        0x0B => Instruction { op: Op::Invalid, mode: Mode::Immediate, cycles: 2 },
        0x0C => Instruction { op: Op::Nop, mode: Mode::Absolute, cycles: 4 },
        0x0D => Instruction { op: Op::Ora, mode: Mode::Absolute, cycles: 4 },
        0x0E => Instruction { op: Op::Asl, mode: Mode::Absolute, cycles: 6 },
        0x0F => Instruction { op: Op::Slo, mode: Mode::Absolute, cycles: 6 },
        0x10 => Instruction { op: Op::Bpl, mode: Mode::Relative, cycles: 2 },
        0x11 => Instruction { op: Op::Ora, mode: Mode::IndirectY, cycles: 5 },
        0x12 => Instruction { op: Op::Invalid, mode: Mode::Implied, cycles: 2 },
        0x13 => Instruction { op: Op::Slo, mode: Mode::IndirectY, cycles: 8 },
        0x14 => Instruction { op: Op::Nop, mode: Mode::ZeroPageX, cycles: 4 },
        0x15 => Instruction { op: Op::Ora, mode: Mode::ZeroPageX, cycles: 4 },
        0x16 => Instruction { op: Op::Asl, mode: Mode::ZeroPageX, cycles: 6 },
        0x17 => Instruction { op: Op::Slo, mode: Mode::ZeroPageX, cycles: 6 },
        0x18 => Instruction { op: Op::Clc, mode: Mode::Implied, cycles: 2 },
        0x19 => Instruction { op: Op::Ora, mode: Mode::AbsoluteY, cycles: 4 },
        0x1A => Instruction { op: Op::Nop, mode: Mode::Implied, cycles: 2 },
        0x1B => Instruction { op: Op::Slo, mode: Mode::AbsoluteY, cycles: 7 },
        0x1C => Instruction { op: Op::Nop, mode: Mode::AbsoluteX, cycles: 4 },
        0x1D => Instruction { op: Op::Ora, mode: Mode::AbsoluteX, cycles: 4 },
        0x1E => Instruction { op: Op::Asl, mode: Mode::AbsoluteX, cycles: 7 },
        0x1F => Instruction { op: Op::Slo, mode: Mode::AbsoluteX, cycles: 7 },
        0x20 => Instruction { op: Op::Jsr, mode: Mode::Absolute, cycles: 6 },
        0x21 => Instruction { op: Op::And, mode: Mode::IndirectX, cycles: 6 },
        0x22 => Instruction { op: Op::Invalid, mode: Mode::Implied, cycles: 2 },
        0x23 => Instruction { op: Op::Rla, mode: Mode::IndirectX, cycles: 8 },
        0x24 => Instruction { op: Op::Bit, mode: Mode::ZeroPage, cycles: 3 },
        0x25 => Instruction { op: Op::And, mode: Mode::ZeroPage, cycles: 3 },
        0x26 => Instruction { op: Op::Rol, mode: Mode::ZeroPage, cycles: 5 },
        0x27 => Instruction { op: Op::Rla, mode: Mode::ZeroPage, cycles: 5 },
        0x28 => Instruction { op: Op::Plp, mode: Mode::Implied, cycles: 4 },
        0x29 => Instruction { op: Op::And, mode: Mode::Immediate, cycles: 2 },
        0x2A => Instruction { op: Op::Rol, mode: Mode::Accumulator, cycles: 2 },
        0x2B => Instruction { op: Op::Invalid, mode: Mode::Immediate, cycles: 2 },
        0x2C => Instruction { op: Op::Bit, mode: Mode::Absolute, cycles: 4 },
        0x2D => Instruction { op: Op::And, mode: Mode::Absolute, cycles: 4 },
        0x2E => Instruction { op: Op::Rol, mode: Mode::Absolute, cycles: 6 },
        0x2F => Instruction { op: Op::Rla, mode: Mode::Absolute, cycles: 6 },
        0x30 => Instruction { op: Op::Bmi, mode: Mode::Relative, cycles: 2 },
        0x31 => Instruction { op: Op::And, mode: Mode::IndirectY, cycles: 5 },
        0x32 => Instruction { op: Op::Invalid, mode: Mode::Implied, cycles: 2 },
        0x33 => Instruction { op: Op::Rla, mode: Mode::IndirectY, cycles: 8 },
        0x34 => Instruction { op: Op::Nop, mode: Mode::ZeroPageX, cycles: 4 },
        0x35 => Instruction { op: Op::And, mode: Mode::ZeroPageX, cycles: 4 },
        0x36 => Instruction { op: Op::Rol, mode: Mode::ZeroPageX, cycles: 6 },
        0x37 => Instruction { op: Op::Rla, mode: Mode::ZeroPageX, cycles: 6 },
        0x38 => Instruction { op: Op::Sec, mode: Mode::Implied, cycles: 2 },
        0x39 => Instruction { op: Op::And, mode: Mode::AbsoluteY, cycles: 4 },
        0x3A => Instruction { op: Op::Nop, mode: Mode::Implied, cycles: 2 },
        0x3B => Instruction { op: Op::Rla, mode: Mode::AbsoluteY, cycles: 7 },
        0x3C => Instruction { op: Op::Nop, mode: Mode::AbsoluteX, cycles: 4 },
        0x3D => Instruction { op: Op::And, mode: Mode::AbsoluteX, cycles: 4 },
        0x3E => Instruction { op: Op::Rol, mode: Mode::AbsoluteX, cycles: 7 },
        0x3F => Instruction { op: Op::Rla, mode: Mode::AbsoluteX, cycles: 7 },
        0x40 => Instruction { op: Op::Rti, mode: Mode::Implied, cycles: 6 },
        0x41 => Instruction { op: Op::Eor, mode: Mode::IndirectX, cycles: 6 },
        0x42 => Instruction { op: Op::Invalid, mode: Mode::Implied, cycles: 2 },
        0x43 => Instruction { op: Op::Sre, mode: Mode::IndirectX, cycles: 8 },
        0x44 => Instruction { op: Op::Nop, mode: Mode::ZeroPage, cycles: 3 },
        0x45 => Instruction { op: Op::Eor, mode: Mode::ZeroPage, cycles: 3 },
        0x46 => Instruction { op: Op::Lsr, mode: Mode::ZeroPage, cycles: 5 },
        0x47 => Instruction { op: Op::Sre, mode: Mode::ZeroPage, cycles: 5 },
        0x48 => Instruction { op: Op::Pha, mode: Mode::Implied, cycles: 3 },
        0x49 => Instruction { op: Op::Eor, mode: Mode::Immediate, cycles: 2 },
        0x4A => Instruction { op: Op::Lsr, mode: Mode::Accumulator, cycles: 2 },
        0x4B => Instruction { op: Op::Invalid, mode: Mode::Immediate, cycles: 2 },
        0x4C => Instruction { op: Op::Jmp, mode: Mode::Absolute, cycles: 3 },
        0x4D => Instruction { op: Op::Eor, mode: Mode::Absolute, cycles: 4 },
        0x4E => Instruction { op: Op::Lsr, mode: Mode::Absolute, cycles: 6 },
        0x4F => Instruction { op: Op::Sre, mode: Mode::Absolute, cycles: 6 },
        0x50 => Instruction { op: Op::Bvc, mode: Mode::Relative, cycles: 2 },
        0x51 => Instruction { op: Op::Eor, mode: Mode::IndirectY, cycles: 5 },
        0x52 => Instruction { op: Op::Invalid, mode: Mode::Implied, cycles: 2 },
        0x53 => Instruction { op: Op::Sre, mode: Mode::IndirectY, cycles: 8 },
        0x54 => Instruction { op: Op::Nop, mode: Mode::ZeroPageX, cycles: 4 },
        0x55 => Instruction { op: Op::Eor, mode: Mode::ZeroPageX, cycles: 4 },
        0x56 => Instruction { op: Op::Lsr, mode: Mode::ZeroPageX, cycles: 6 },
        0x57 => Instruction { op: Op::Sre, mode: Mode::ZeroPageX, cycles: 6 },
        0x58 => Instruction { op: Op::Cli, mode: Mode::Implied, cycles: 2 },
        0x59 => Instruction { op: Op::Eor, mode: Mode::AbsoluteY, cycles: 4 },
        0x5A => Instruction { op: Op::Nop, mode: Mode::Implied, cycles: 2 },
        0x5B => Instruction { op: Op::Sre, mode: Mode::AbsoluteY, cycles: 7 },
        0x5C => Instruction { op: Op::Nop, mode: Mode::AbsoluteX, cycles: 4 },
        0x5D => Instruction { op: Op::Eor, mode: Mode::AbsoluteX, cycles: 4 },
        0x5E => Instruction { op: Op::Lsr, mode: Mode::AbsoluteX, cycles: 7 },
        0x5F => Instruction { op: Op::Sre, mode: Mode::AbsoluteX, cycles: 7 },
        0x60 => Instruction { op: Op::Rts, mode: Mode::Implied, cycles: 6 },
        0x61 => Instruction { op: Op::Adc, mode: Mode::IndirectX, cycles: 6 },
        0x62 => Instruction { op: Op::Invalid, mode: Mode::Implied, cycles: 2 },
        0x63 => Instruction { op: Op::Rra, mode: Mode::IndirectX, cycles: 8 },
        0x64 => Instruction { op: Op::Nop, mode: Mode::ZeroPage, cycles: 3 },
        0x65 => Instruction { op: Op::Adc, mode: Mode::ZeroPage, cycles: 3 },
        0x66 => Instruction { op: Op::Ror, mode: Mode::ZeroPage, cycles: 5 },
        0x67 => Instruction { op: Op::Rra, mode: Mode::ZeroPage, cycles: 5 },
        0x68 => Instruction { op: Op::Pla, mode: Mode::Implied, cycles: 4 },
        0x69 => Instruction { op: Op::Adc, mode: Mode::Immediate, cycles: 2 },
        0x6A => Instruction { op: Op::Ror, mode: Mode::Accumulator, cycles: 2 },
        0x6B => Instruction { op: Op::Invalid, mode: Mode::Immediate, cycles: 2 },
        0x6C => Instruction { op: Op::Jmp, mode: Mode::Indirect, cycles: 5 },
        0x6D => Instruction { op: Op::Adc, mode: Mode::Absolute, cycles: 4 },
        0x6E => Instruction { op: Op::Ror, mode: Mode::Absolute, cycles: 6 },
        0x6F => Instruction { op: Op::Rra, mode: Mode::Absolute, cycles: 6 },
        0x70 => Instruction { op: Op::Bvs, mode: Mode::Relative, cycles: 2 },
        0x71 => Instruction { op: Op::Adc, mode: Mode::IndirectY, cycles: 5 },
        0x72 => Instruction { op: Op::Invalid, mode: Mode::Implied, cycles: 2 },
        0x73 => Instruction { op: Op::Rra, mode: Mode::IndirectY, cycles: 8 },
        0x74 => Instruction { op: Op::Nop, mode: Mode::ZeroPageX, cycles: 4 },
        0x75 => Instruction { op: Op::Adc, mode: Mode::ZeroPageX, cycles: 4 },
        0x76 => Instruction { op: Op::Ror, mode: Mode::ZeroPageX, cycles: 6 },
        0x77 => Instruction { op: Op::Rra, mode: Mode::ZeroPageX, cycles: 6 },
        0x78 => Instruction { op: Op::Sei, mode: Mode::Implied, cycles: 2 },
        0x79 => Instruction { op: Op::Adc, mode: Mode::AbsoluteY, cycles: 4 },
        0x7A => Instruction { op: Op::Nop, mode: Mode::Implied, cycles: 2 },
        0x7B => Instruction { op: Op::Rra, mode: Mode::AbsoluteY, cycles: 7 },
        0x7C => Instruction { op: Op::Nop, mode: Mode::AbsoluteX, cycles: 4 },
        0x7D => Instruction { op: Op::Adc, mode: Mode::AbsoluteX, cycles: 4 },
        0x7E => Instruction { op: Op::Ror, mode: Mode::AbsoluteX, cycles: 7 },
        0x7F => Instruction { op: Op::Rra, mode: Mode::AbsoluteX, cycles: 7 },
        0x80 => Instruction { op: Op::Nop, mode: Mode::Immediate, cycles: 2 },
        0x81 => Instruction { op: Op::Sta, mode: Mode::IndirectX, cycles: 6 },
        0x82 => Instruction { op: Op::Nop, mode: Mode::Immediate, cycles: 2 },
        0x83 => Instruction { op: Op::Sax, mode: Mode::IndirectX, cycles: 6 },
        0x84 => Instruction { op: Op::Sty, mode: Mode::ZeroPage, cycles: 3 },
        0x85 => Instruction { op: Op::Sta, mode: Mode::ZeroPage, cycles: 3 },
        0x86 => Instruction { op: Op::Stx, mode: Mode::ZeroPage, cycles: 3 },
        0x87 => Instruction { op: Op::Sax, mode: Mode::ZeroPage, cycles: 3 },
        0x88 => Instruction { op: Op::Dey, mode: Mode::Implied, cycles: 2 },
        0x89 => Instruction { op: Op::Nop, mode: Mode::Immediate, cycles: 2 },
        0x8A => Instruction { op: Op::Txa, mode: Mode::Implied, cycles: 2 },
        0x8B => Instruction { op: Op::Invalid, mode: Mode::Immediate, cycles: 2 },
        0x8C => Instruction { op: Op::Sty, mode: Mode::Absolute, cycles: 4 },
        0x8D => Instruction { op: Op::Sta, mode: Mode::Absolute, cycles: 4 },
        0x8E => Instruction { op: Op::Stx, mode: Mode::Absolute, cycles: 4 },
        0x8F => Instruction { op: Op::Sax, mode: Mode::Absolute, cycles: 4 },
        0x90 => Instruction { op: Op::Bcc, mode: Mode::Relative, cycles: 2 },
        0x91 => Instruction { op: Op::Sta, mode: Mode::IndirectY, cycles: 6 },
        0x92 => Instruction { op: Op::Invalid, mode: Mode::Implied, cycles: 2 },
        0x93 => Instruction { op: Op::Invalid, mode: Mode::IndirectY, cycles: 6 },
        0x94 => Instruction { op: Op::Sty, mode: Mode::ZeroPageX, cycles: 4 },
        0x95 => Instruction { op: Op::Sta, mode: Mode::ZeroPageX, cycles: 4 },
        0x96 => Instruction { op: Op::Stx, mode: Mode::ZeroPageY, cycles: 4 },
        0x97 => Instruction { op: Op::Sax, mode: Mode::ZeroPageY, cycles: 4 },
        0x98 => Instruction { op: Op::Tya, mode: Mode::Implied, cycles: 2 },
        0x99 => Instruction { op: Op::Sta, mode: Mode::AbsoluteY, cycles: 5 },
        0x9A => Instruction { op: Op::Txs, mode: Mode::Implied, cycles: 2 },
        0x9B => Instruction { op: Op::Invalid, mode: Mode::AbsoluteY, cycles: 5 },
        0x9C => Instruction { op: Op::Invalid, mode: Mode::AbsoluteX, cycles: 5 },
        0x9D => Instruction { op: Op::Sta, mode: Mode::AbsoluteX, cycles: 5 },
        0x9E => Instruction { op: Op::Invalid, mode: Mode::AbsoluteY, cycles: 5 },
        0x9F => Instruction { op: Op::Invalid, mode: Mode::AbsoluteY, cycles: 5 },
        0xA0 => Instruction { op: Op::Ldy, mode: Mode::Immediate, cycles: 2 },
        0xA1 => Instruction { op: Op::Lda, mode: Mode::IndirectX, cycles: 6 },
        0xA2 => Instruction { op: Op::Ldx, mode: Mode::Immediate, cycles: 2 },
        0xA3 => Instruction { op: Op::Lax, mode: Mode::IndirectX, cycles: 6 },
        0xA4 => Instruction { op: Op::Ldy, mode: Mode::ZeroPage, cycles: 3 },
        0xA5 => Instruction { op: Op::Lda, mode: Mode::ZeroPage, cycles: 3 },
        0xA6 => Instruction { op: Op::Ldx, mode: Mode::ZeroPage, cycles: 3 },
        0xA7 => Instruction { op: Op::Lax, mode: Mode::ZeroPage, cycles: 3 },
        0xA8 => Instruction { op: Op::Tay, mode: Mode::Implied, cycles: 2 },
        0xA9 => Instruction { op: Op::Lda, mode: Mode::Immediate, cycles: 2 },
        0xAA => Instruction { op: Op::Tax, mode: Mode::Implied, cycles: 2 },
        0xAB => Instruction { op: Op::Invalid, mode: Mode::Immediate, cycles: 2 },
        0xAC => Instruction { op: Op::Ldy, mode: Mode::Absolute, cycles: 4 },
        0xAD => Instruction { op: Op::Lda, mode: Mode::Absolute, cycles: 4 },
        0xAE => Instruction { op: Op::Ldx, mode: Mode::Absolute, cycles: 4 },
        0xAF => Instruction { op: Op::Lax, mode: Mode::Absolute, cycles: 4 },
        0xB0 => Instruction { op: Op::Bcs, mode: Mode::Relative, cycles: 2 },
        0xB1 => Instruction { op: Op::Lda, mode: Mode::IndirectY, cycles: 5 },
        0xB2 => Instruction { op: Op::Invalid, mode: Mode::Implied, cycles: 2 },
        0xB3 => Instruction { op: Op::Lax, mode: Mode::IndirectY, cycles: 5 },
        0xB4 => Instruction { op: Op::Ldy, mode: Mode::ZeroPageX, cycles: 4 },
        0xB5 => Instruction { op: Op::Lda, mode: Mode::ZeroPageX, cycles: 4 },
        0xB6 => Instruction { op: Op::Ldx, mode: Mode::ZeroPageY, cycles: 4 },
        0xB7 => Instruction { op: Op::Lax, mode: Mode::ZeroPageY, cycles: 4 },
        0xB8 => Instruction { op: Op::Clv, mode: Mode::Implied, cycles: 2 },
        0xB9 => Instruction { op: Op::Lda, mode: Mode::AbsoluteY, cycles: 4 },
        0xBA => Instruction { op: Op::Tsx, mode: Mode::Implied, cycles: 2 },
        0xBB => Instruction { op: Op::InvalidRead, mode: Mode::AbsoluteY, cycles: 4 },
        0xBC => Instruction { op: Op::Ldy, mode: Mode::AbsoluteX, cycles: 4 },
        0xBD => Instruction { op: Op::Lda, mode: Mode::AbsoluteX, cycles: 4 },
        0xBE => Instruction { op: Op::Ldx, mode: Mode::AbsoluteY, cycles: 4 },
        0xBF => Instruction { op: Op::Lax, mode: Mode::AbsoluteY, cycles: 4 },
        0xC0 => Instruction { op: Op::Cpy, mode: Mode::Immediate, cycles: 2 },
        0xC1 => Instruction { op: Op::Cmp, mode: Mode::IndirectX, cycles: 6 },
        0xC2 => Instruction { op: Op::Nop, mode: Mode::Immediate, cycles: 2 },
        0xC3 => Instruction { op: Op::Dcp, mode: Mode::IndirectX, cycles: 8 },
        0xC4 => Instruction { op: Op::Cpy, mode: Mode::ZeroPage, cycles: 3 },
        0xC5 => Instruction { op: Op::Cmp, mode: Mode::ZeroPage, cycles: 3 },
        0xC6 => Instruction { op: Op::Dec, mode: Mode::ZeroPage, cycles: 5 },
        0xC7 => Instruction { op: Op::Dcp, mode: Mode::ZeroPage, cycles: 5 },
        0xC8 => Instruction { op: Op::Iny, mode: Mode::Implied, cycles: 2 },
        0xC9 => Instruction { op: Op::Cmp, mode: Mode::Immediate, cycles: 2 },
        0xCA => Instruction { op: Op::Dex, mode: Mode::Implied, cycles: 2 },
        0xCB => Instruction { op: Op::Invalid, mode: Mode::Immediate, cycles: 2 },
        0xCC => Instruction { op: Op::Cpy, mode: Mode::Absolute, cycles: 4 },
        0xCD => Instruction { op: Op::Cmp, mode: Mode::Absolute, cycles: 4 },
        0xCE => Instruction { op: Op::Dec, mode: Mode::Absolute, cycles: 6 },
        0xCF => Instruction { op: Op::Dcp, mode: Mode::Absolute, cycles: 6 },
        0xD0 => Instruction { op: Op::Bne, mode: Mode::Relative, cycles: 2 },
        0xD1 => Instruction { op: Op::Cmp, mode: Mode::IndirectY, cycles: 5 },
        0xD2 => Instruction { op: Op::Invalid, mode: Mode::Implied, cycles: 2 },
        0xD3 => Instruction { op: Op::Dcp, mode: Mode::IndirectY, cycles: 8 },
        0xD4 => Instruction { op: Op::Nop, mode: Mode::ZeroPageX, cycles: 4 },
        0xD5 => Instruction { op: Op::Cmp, mode: Mode::ZeroPageX, cycles: 4 },
        0xD6 => Instruction { op: Op::Dec, mode: Mode::ZeroPageX, cycles: 6 },
        0xD7 => Instruction { op: Op::Dcp, mode: Mode::ZeroPageX, cycles: 6 },
        0xD8 => Instruction { op: Op::Cld, mode: Mode::Implied, cycles: 2 },
        0xD9 => Instruction { op: Op::Cmp, mode: Mode::AbsoluteY, cycles: 4 },
        0xDA => Instruction { op: Op::Nop, mode: Mode::Implied, cycles: 2 },
        0xDB => Instruction { op: Op::Dcp, mode: Mode::AbsoluteY, cycles: 7 },
        0xDC => Instruction { op: Op::Nop, mode: Mode::AbsoluteX, cycles: 4 },
        0xDD => Instruction { op: Op::Cmp, mode: Mode::AbsoluteX, cycles: 4 },
        0xDE => Instruction { op: Op::Dec, mode: Mode::AbsoluteX, cycles: 7 },
        0xDF => Instruction { op: Op::Dcp, mode: Mode::AbsoluteX, cycles: 7 },
        0xE0 => Instruction { op: Op::Cpx, mode: Mode::Immediate, cycles: 2 },
        0xE1 => Instruction { op: Op::Sbc, mode: Mode::IndirectX, cycles: 6 },
        0xE2 => Instruction { op: Op::Nop, mode: Mode::Immediate, cycles: 2 },
        0xE3 => Instruction { op: Op::Isb, mode: Mode::IndirectX, cycles: 8 },
        0xE4 => Instruction { op: Op::Cpx, mode: Mode::ZeroPage, cycles: 3 },
        0xE5 => Instruction { op: Op::Sbc, mode: Mode::ZeroPage, cycles: 3 },
        0xE6 => Instruction { op: Op::Inc, mode: Mode::ZeroPage, cycles: 5 },
        0xE7 => Instruction { op: Op::Isb, mode: Mode::ZeroPage, cycles: 5 },
        0xE8 => Instruction { op: Op::Inx, mode: Mode::Implied, cycles: 2 },
        0xE9 => Instruction { op: Op::Sbc, mode: Mode::Immediate, cycles: 2 },
        0xEA => Instruction { op: Op::Nop, mode: Mode::Implied, cycles: 2 },
        0xEB => Instruction { op: Op::Sbc, mode: Mode::Immediate, cycles: 2 },
        0xEC => Instruction { op: Op::Cpx, mode: Mode::Absolute, cycles: 4 },
        0xED => Instruction { op: Op::Sbc, mode: Mode::Absolute, cycles: 4 },
        0xEE => Instruction { op: Op::Inc, mode: Mode::Absolute, cycles: 6 },
        0xEF => Instruction { op: Op::Isb, mode: Mode::Absolute, cycles: 6 },
        0xF0 => Instruction { op: Op::Beq, mode: Mode::Relative, cycles: 2 },
        0xF1 => Instruction { op: Op::Sbc, mode: Mode::IndirectY, cycles: 5 },
        0xF2 => Instruction { op: Op::Invalid, mode: Mode::Implied, cycles: 2 },
        0xF3 => Instruction { op: Op::Isb, mode: Mode::IndirectY, cycles: 8 },
        0xF4 => Instruction { op: Op::Nop, mode: Mode::ZeroPageX, cycles: 4 },
        0xF5 => Instruction { op: Op::Sbc, mode: Mode::ZeroPageX, cycles: 4 },
        0xF6 => Instruction { op: Op::Inc, mode: Mode::ZeroPageX, cycles: 6 },
        0xF7 => Instruction { op: Op::Isb, mode: Mode::ZeroPageX, cycles: 6 },
        0xF8 => Instruction { op: Op::Sed, mode: Mode::Implied, cycles: 2 },
        0xF9 => Instruction { op: Op::Sbc, mode: Mode::AbsoluteY, cycles: 4 },
        0xFA => Instruction { op: Op::Nop, mode: Mode::Implied, cycles: 2 },
        0xFB => Instruction { op: Op::Isb, mode: Mode::AbsoluteY, cycles: 7 },
        0xFC => Instruction { op: Op::Nop, mode: Mode::AbsoluteX, cycles: 4 },
        0xFD => Instruction { op: Op::Sbc, mode: Mode::AbsoluteX, cycles: 4 },
        0xFE => Instruction { op: Op::Inc, mode: Mode::AbsoluteX, cycles: 7 },
        _ => Instruction { op: Op::Isb, mode: Mode::AbsoluteX, cycles: 7 },
    }
}

/// Looks an opcode up in the table.
pub fn decode(opcode: u8) -> (r: Instruction)
    ensures
        r == instruction_of(opcode),
{
    match opcode {
        0x00 => Instruction { op: Op::Brk, mode: Mode::Implied, cycles: 7 },
        0x01 => Instruction { op: Op::Ora, mode: Mode::IndirectX, cycles: 6 },
        0x02 => Instruction { op: Op::Invalid, mode: Mode::Implied, cycles: 2 },
        0x03 => Instruction { op: Op::Slo, mode: Mode::IndirectX, cycles: 8 },
        0x04 => Instruction { op: Op::Nop, mode: Mode::ZeroPage, cycles: 3 },
        0x05 => Instruction { op: Op::Ora, mode: Mode::ZeroPage, cycles: 3 },
        0x06 => Instruction { op: Op::Asl, mode: Mode::ZeroPage, cycles: 5 },
        0x07 => Instruction { op: Op::Slo, mode: Mode::ZeroPage, cycles: 5 },
        0x08 => Instruction { op: Op::Php, mode: Mode::Implied, cycles: 3 },
        0x09 => Instruction { op: Op::Ora, mode: Mode::Immediate, cycles: 2 },
        0x0A => Instruction { op: Op::Asl, mode: Mode::Accumulator, cycles: 2 },
        0x0B => Instruction { op: Op::Invalid, mode: Mode::Immediate, cycles: 2 },
        0x0C => Instruction { op: Op::Nop, mode: Mode::Absolute, cycles: 4 },
        0x0D => Instruction { op: Op::Ora, mode: Mode::Absolute, cycles: 4 },
        0x0E => Instruction { op: Op::Asl, mode: Mode::Absolute, cycles: 6 },
        0x0F => Instruction { op: Op::Slo, mode: Mode::Absolute, cycles: 6 },
        0x10 => Instruction { op: Op::Bpl, mode: Mode::Relative, cycles: 2 },
        0x11 => Instruction { op: Op::Ora, mode: Mode::IndirectY, cycles: 5 },
        0x12 => Instruction { op: Op::Invalid, mode: Mode::Implied, cycles: 2 },
        0x13 => Instruction { op: Op::Slo, mode: Mode::IndirectY, cycles: 8 },
        0x14 => Instruction { op: Op::Nop, mode: Mode::ZeroPageX, cycles: 4 },
        0x15 => Instruction { op: Op::Ora, mode: Mode::ZeroPageX, cycles: 4 },
        0x16 => Instruction { op: Op::Asl, mode: Mode::ZeroPageX, cycles: 6 },
        0x17 => Instruction { op: Op::Slo, mode: Mode::ZeroPageX, cycles: 6 },
        0x18 => Instruction { op: Op::Clc, mode: Mode::Implied, cycles: 2 },
        0x19 => Instruction { op: Op::Ora, mode: Mode::AbsoluteY, cycles: 4 },
        0x1A => Instruction { op: Op::Nop, mode: Mode::Implied, cycles: 2 },
        0x1B => Instruction { op: Op::Slo, mode: Mode::AbsoluteY, cycles: 7 },
        0x1C => Instruction { op: Op::Nop, mode: Mode::AbsoluteX, cycles: 4 },
        0x1D => Instruction { op: Op::Ora, mode: Mode::AbsoluteX, cycles: 4 },
        0x1E => Instruction { op: Op::Asl, mode: Mode::AbsoluteX, cycles: 7 },
        0x1F => Instruction { op: Op::Slo, mode: Mode::AbsoluteX, cycles: 7 },
        0x20 => Instruction { op: Op::Jsr, mode: Mode::Absolute, cycles: 6 },
        0x21 => Instruction { op: Op::And, mode: Mode::IndirectX, cycles: 6 },
        0x22 => Instruction { op: Op::Invalid, mode: Mode::Implied, cycles: 2 },
        0x23 => Instruction { op: Op::Rla, mode: Mode::IndirectX, cycles: 8 },
        0x24 => Instruction { op: Op::Bit, mode: Mode::ZeroPage, cycles: 3 },
        0x25 => Instruction { op: Op::And, mode: Mode::ZeroPage, cycles: 3 },
        0x26 => Instruction { op: Op::Rol, mode: Mode::ZeroPage, cycles: 5 },
        0x27 => Instruction { op: Op::Rla, mode: Mode::ZeroPage, cycles: 5 },
        0x28 => Instruction { op: Op::Plp, mode: Mode::Implied, cycles: 4 },
        0x29 => Instruction { op: Op::And, mode: Mode::Immediate, cycles: 2 },
        0x2A => Instruction { op: Op::Rol, mode: Mode::Accumulator, cycles: 2 },
        0x2B => Instruction { op: Op::Invalid, mode: Mode::Immediate, cycles: 2 },
        0x2C => Instruction { op: Op::Bit, mode: Mode::Absolute, cycles: 4 },
        0x2D => Instruction { op: Op::And, mode: Mode::Absolute, cycles: 4 },
        0x2E => Instruction { op: Op::Rol, mode: Mode::Absolute, cycles: 6 },
        0x2F => Instruction { op: Op::Rla, mode: Mode::Absolute, cycles: 6 },
        0x30 => Instruction { op: Op::Bmi, mode: Mode::Relative, cycles: 2 },
        0x31 => Instruction { op: Op::And, mode: Mode::IndirectY, cycles: 5 },
        0x32 => Instruction { op: Op::Invalid, mode: Mode::Implied, cycles: 2 },
        0x33 => Instruction { op: Op::Rla, mode: Mode::IndirectY, cycles: 8 },
        0x34 => Instruction { op: Op::Nop, mode: Mode::ZeroPageX, cycles: 4 },
        0x35 => Instruction { op: Op::And, mode: Mode::ZeroPageX, cycles: 4 },
        0x36 => Instruction { op: Op::Rol, mode: Mode::ZeroPageX, cycles: 6 },
        0x37 => Instruction { op: Op::Rla, mode: Mode::ZeroPageX, cycles: 6 },
        0x38 => Instruction { op: Op::Sec, mode: Mode::Implied, cycles: 2 },
        0x39 => Instruction { op: Op::And, mode: Mode::AbsoluteY, cycles: 4 },
        0x3A => Instruction { op: Op::Nop, mode: Mode::Implied, cycles: 2 },
        0x3B => Instruction { op: Op::Rla, mode: Mode::AbsoluteY, cycles: 7 },
        0x3C => Instruction { op: Op::Nop, mode: Mode::AbsoluteX, cycles: 4 },
        0x3D => Instruction { op: Op::And, mode: Mode::AbsoluteX, cycles: 4 },
        0x3E => Instruction { op: Op::Rol, mode: Mode::AbsoluteX, cycles: 7 },
        0x3F => Instruction { op: Op::Rla, mode: Mode::AbsoluteX, cycles: 7 },
        0x40 => Instruction { op: Op::Rti, mode: Mode::Implied, cycles: 6 },
        0x41 => Instruction { op: Op::Eor, mode: Mode::IndirectX, cycles: 6 },
        0x42 => Instruction { op: Op::Invalid, mode: Mode::Implied, cycles: 2 },
        0x43 => Instruction { op: Op::Sre, mode: Mode::IndirectX, cycles: 8 },
        0x44 => Instruction { op: Op::Nop, mode: Mode::ZeroPage, cycles: 3 },
        0x45 => Instruction { op: Op::Eor, mode: Mode::ZeroPage, cycles: 3 },
        0x46 => Instruction { op: Op::Lsr, mode: Mode::ZeroPage, cycles: 5 },
        0x47 => Instruction { op: Op::Sre, mode: Mode::ZeroPage, cycles: 5 },
        0x48 => Instruction { op: Op::Pha, mode: Mode::Implied, cycles: 3 },
        0x49 => Instruction { op: Op::Eor, mode: Mode::Immediate, cycles: 2 },
        0x4A => Instruction { op: Op::Lsr, mode: Mode::Accumulator, cycles: 2 },
        0x4B => Instruction { op: Op::Invalid, mode: Mode::Immediate, cycles: 2 },
        0x4C => Instruction { op: Op::Jmp, mode: Mode::Absolute, cycles: 3 },
        0x4D => Instruction { op: Op::Eor, mode: Mode::Absolute, cycles: 4 },
        0x4E => Instruction { op: Op::Lsr, mode: Mode::Absolute, cycles: 6 },
        0x4F => Instruction { op: Op::Sre, mode: Mode::Absolute, cycles: 6 },
        0x50 => Instruction { op: Op::Bvc, mode: Mode::Relative, cycles: 2 },
        0x51 => Instruction { op: Op::Eor, mode: Mode::IndirectY, cycles: 5 },
        0x52 => Instruction { op: Op::Invalid, mode: Mode::Implied, cycles: 2 },
        0x53 => Instruction { op: Op::Sre, mode: Mode::IndirectY, cycles: 8 },
        0x54 => Instruction { op: Op::Nop, mode: Mode::ZeroPageX, cycles: 4 },
        0x55 => Instruction { op: Op::Eor, mode: Mode::ZeroPageX, cycles: 4 },
        0x56 => Instruction { op: Op::Lsr, mode: Mode::ZeroPageX, cycles: 6 },
        0x57 => Instruction { op: Op::Sre, mode: Mode::ZeroPageX, cycles: 6 },
        0x58 => Instruction { op: Op::Cli, mode: Mode::Implied, cycles: 2 },
        0x59 => Instruction { op: Op::Eor, mode: Mode::AbsoluteY, cycles: 4 },
        0x5A => Instruction { op: Op::Nop, mode: Mode::Implied, cycles: 2 },
        0x5B => Instruction { op: Op::Sre, mode: Mode::AbsoluteY, cycles: 7 },
        0x5C => Instruction { op: Op::Nop, mode: Mode::AbsoluteX, cycles: 4 },
        0x5D => Instruction { op: Op::Eor, mode: Mode::AbsoluteX, cycles: 4 },
        0x5E => Instruction { op: Op::Lsr, mode: Mode::AbsoluteX, cycles: 7 },
        0x5F => Instruction { op: Op::Sre, mode: Mode::AbsoluteX, cycles: 7 },
        0x60 => Instruction { op: Op::Rts, mode: Mode::Implied, cycles: 6 },
        0x61 => Instruction { op: Op::Adc, mode: Mode::IndirectX, cycles: 6 },
        0x62 => Instruction { op: Op::Invalid, mode: Mode::Implied, cycles: 2 },
        0x63 => Instruction { op: Op::Rra, mode: Mode::IndirectX, cycles: 8 },
        0x64 => Instruction { op: Op::Nop, mode: Mode::ZeroPage, cycles: 3 },
        0x65 => Instruction { op: Op::Adc, mode: Mode::ZeroPage, cycles: 3 },
        0x66 => Instruction { op: Op::Ror, mode: Mode::ZeroPage, cycles: 5 },
        0x67 => Instruction { op: Op::Rra, mode: Mode::ZeroPage, cycles: 5 },
        0x68 => Instruction { op: Op::Pla, mode: Mode::Implied, cycles: 4 },
        0x69 => Instruction { op: Op::Adc, mode: Mode::Immediate, cycles: 2 },
        0x6A => Instruction { op: Op::Ror, mode: Mode::Accumulator, cycles: 2 },
        0x6B => Instruction { op: Op::Invalid, mode: Mode::Immediate, cycles: 2 },
        0x6C => Instruction { op: Op::Jmp, mode: Mode::Indirect, cycles: 5 },
        0x6D => Instruction { op: Op::Adc, mode: Mode::Absolute, cycles: 4 },
        0x6E => Instruction { op: Op::Ror, mode: Mode::Absolute, cycles: 6 },
        0x6F => Instruction { op: Op::Rra, mode: Mode::Absolute, cycles: 6 },
        0x70 => Instruction { op: Op::Bvs, mode: Mode::Relative, cycles: 2 },
        0x71 => Instruction { op: Op::Adc, mode: Mode::IndirectY, cycles: 5 },
        0x72 => Instruction { op: Op::Invalid, mode: Mode::Implied, cycles: 2 },
        0x73 => Instruction { op: Op::Rra, mode: Mode::IndirectY, cycles: 8 },
        0x74 => Instruction { op: Op::Nop, mode: Mode::ZeroPageX, cycles: 4 },
        0x75 => Instruction { op: Op::Adc, mode: Mode::ZeroPageX, cycles: 4 },
        0x76 => Instruction { op: Op::Ror, mode: Mode::ZeroPageX, cycles: 6 },
        0x77 => Instruction { op: Op::Rra, mode: Mode::ZeroPageX, cycles: 6 },
        0x78 => Instruction { op: Op::Sei, mode: Mode::Implied, cycles: 2 },
        0x79 => Instruction { op: Op::Adc, mode: Mode::AbsoluteY, cycles: 4 },
        0x7A => Instruction { op: Op::Nop, mode: Mode::Implied, cycles: 2 },
        0x7B => Instruction { op: Op::Rra, mode: Mode::AbsoluteY, cycles: 7 },
        0x7C => Instruction { op: Op::Nop, mode: Mode::AbsoluteX, cycles: 4 },
        0x7D => Instruction { op: Op::Adc, mode: Mode::AbsoluteX, cycles: 4 },
        0x7E => Instruction { op: Op::Ror, mode: Mode::AbsoluteX, cycles: 7 },
        0x7F => Instruction { op: Op::Rra, mode: Mode::AbsoluteX, cycles: 7 },
        0x80 => Instruction { op: Op::Nop, mode: Mode::Immediate, cycles: 2 },
        0x81 => Instruction { op: Op::Sta, mode: Mode::IndirectX, cycles: 6 },
        0x82 => Instruction { op: Op::Nop, mode: Mode::Immediate, cycles: 2 },
        0x83 => Instruction { op: Op::Sax, mode: Mode::IndirectX, cycles: 6 },
        0x84 => Instruction { op: Op::Sty, mode: Mode::ZeroPage, cycles: 3 },
        0x85 => Instruction { op: Op::Sta, mode: Mode::ZeroPage, cycles: 3 },
        0x86 => Instruction { op: Op::Stx, mode: Mode::ZeroPage, cycles: 3 },
        0x87 => Instruction { op: Op::Sax, mode: Mode::ZeroPage, cycles: 3 },
        0x88 => Instruction { op: Op::Dey, mode: Mode::Implied, cycles: 2 },
        0x89 => Instruction { op: Op::Nop, mode: Mode::Immediate, cycles: 2 },
        0x8A => Instruction { op: Op::Txa, mode: Mode::Implied, cycles: 2 },
        0x8B => Instruction { op: Op::Invalid, mode: Mode::Immediate, cycles: 2 },
        0x8C => Instruction { op: Op::Sty, mode: Mode::Absolute, cycles: 4 },
        0x8D => Instruction { op: Op::Sta, mode: Mode::Absolute, cycles: 4 },
        0x8E => Instruction { op: Op::Stx, mode: Mode::Absolute, cycles: 4 },
        0x8F => Instruction { op: Op::Sax, mode: Mode::Absolute, cycles: 4 },
        0x90 => Instruction { op: Op::Bcc, mode: Mode::Relative, cycles: 2 },
        0x91 => Instruction { op: Op::Sta, mode: Mode::IndirectY, cycles: 6 },
        0x92 => Instruction { op: Op::Invalid, mode: Mode::Implied, cycles: 2 },
        0x93 => Instruction { op: Op::Invalid, mode: Mode::IndirectY, cycles: 6 },
        0x94 => Instruction { op: Op::Sty, mode: Mode::ZeroPageX, cycles: 4 },
        0x95 => Instruction { op: Op::Sta, mode: Mode::ZeroPageX, cycles: 4 },
        0x96 => Instruction { op: Op::Stx, mode: Mode::ZeroPageY, cycles: 4 },
        0x97 => Instruction { op: Op::Sax, mode: Mode::ZeroPageY, cycles: 4 },
        0x98 => Instruction { op: Op::Tya, mode: Mode::Implied, cycles: 2 },
        0x99 => Instruction { op: Op::Sta, mode: Mode::AbsoluteY, cycles: 5 },
        0x9A => Instruction { op: Op::Txs, mode: Mode::Implied, cycles: 2 },
        0x9B => Instruction { op: Op::Invalid, mode: Mode::AbsoluteY, cycles: 5 },
        0x9C => Instruction { op: Op::Invalid, mode: Mode::AbsoluteX, cycles: 5 },
        0x9D => Instruction { op: Op::Sta, mode: Mode::AbsoluteX, cycles: 5 },
        0x9E => Instruction { op: Op::Invalid, mode: Mode::AbsoluteY, cycles: 5 },
        0x9F => Instruction { op: Op::Invalid, mode: Mode::AbsoluteY, cycles: 5 },
        0xA0 => Instruction { op: Op::Ldy, mode: Mode::Immediate, cycles: 2 },
        0xA1 => Instruction { op: Op::Lda, mode: Mode::IndirectX, cycles: 6 },
        0xA2 => Instruction { op: Op::Ldx, mode: Mode::Immediate, cycles: 2 },
        0xA3 => Instruction { op: Op::Lax, mode: Mode::IndirectX, cycles: 6 },
        0xA4 => Instruction { op: Op::Ldy, mode: Mode::ZeroPage, cycles: 3 },
        0xA5 => Instruction { op: Op::Lda, mode: Mode::ZeroPage, cycles: 3 },
        0xA6 => Instruction { op: Op::Ldx, mode: Mode::ZeroPage, cycles: 3 },
        0xA7 => Instruction { op: Op::Lax, mode: Mode::ZeroPage, cycles: 3 },
        0xA8 => Instruction { op: Op::Tay, mode: Mode::Implied, cycles: 2 },
        0xA9 => Instruction { op: Op::Lda, mode: Mode::Immediate, cycles: 2 },
        0xAA => Instruction { op: Op::Tax, mode: Mode::Implied, cycles: 2 },
        0xAB => Instruction { op: Op::Invalid, mode: Mode::Immediate, cycles: 2 },
        0xAC => Instruction { op: Op::Ldy, mode: Mode::Absolute, cycles: 4 },
        0xAD => Instruction { op: Op::Lda, mode: Mode::Absolute, cycles: 4 },
        0xAE => Instruction { op: Op::Ldx, mode: Mode::Absolute, cycles: 4 },
        0xAF => Instruction { op: Op::Lax, mode: Mode::Absolute, cycles: 4 },
        0xB0 => Instruction { op: Op::Bcs, mode: Mode::Relative, cycles: 2 },
        0xB1 => Instruction { op: Op::Lda, mode: Mode::IndirectY, cycles: 5 },
        0xB2 => Instruction { op: Op::Invalid, mode: Mode::Implied, cycles: 2 },
        0xB3 => Instruction { op: Op::Lax, mode: Mode::IndirectY, cycles: 5 },
        0xB4 => Instruction { op: Op::Ldy, mode: Mode::ZeroPageX, cycles: 4 },
        0xB5 => Instruction { op: Op::Lda, mode: Mode::ZeroPageX, cycles: 4 },
        0xB6 => Instruction { op: Op::Ldx, mode: Mode::ZeroPageY, cycles: 4 },
        0xB7 => Instruction { op: Op::Lax, mode: Mode::ZeroPageY, cycles: 4 },
        0xB8 => Instruction { op: Op::Clv, mode: Mode::Implied, cycles: 2 },
        0xB9 => Instruction { op: Op::Lda, mode: Mode::AbsoluteY, cycles: 4 },
        0xBA => Instruction { op: Op::Tsx, mode: Mode::Implied, cycles: 2 },
        0xBB => Instruction { op: Op::InvalidRead, mode: Mode::AbsoluteY, cycles: 4 },
        0xBC => Instruction { op: Op::Ldy, mode: Mode::AbsoluteX, cycles: 4 },
        0xBD => Instruction { op: Op::Lda, mode: Mode::AbsoluteX, cycles: 4 },
        0xBE => Instruction { op: Op::Ldx, mode: Mode::AbsoluteY, cycles: 4 },
        0xBF => Instruction { op: Op::Lax, mode: Mode::AbsoluteY, cycles: 4 },
        0xC0 => Instruction { op: Op::Cpy, mode: Mode::Immediate, cycles: 2 },
        0xC1 => Instruction { op: Op::Cmp, mode: Mode::IndirectX, cycles: 6 },
        0xC2 => Instruction { op: Op::Nop, mode: Mode::Immediate, cycles: 2 },
        0xC3 => Instruction { op: Op::Dcp, mode: Mode::IndirectX, cycles: 8 },
        0xC4 => Instruction { op: Op::Cpy, mode: Mode::ZeroPage, cycles: 3 },
        0xC5 => Instruction { op: Op::Cmp, mode: Mode::ZeroPage, cycles: 3 },
        0xC6 => Instruction { op: Op::Dec, mode: Mode::ZeroPage, cycles: 5 },
        0xC7 => Instruction { op: Op::Dcp, mode: Mode::ZeroPage, cycles: 5 },
        0xC8 => Instruction { op: Op::Iny, mode: Mode::Implied, cycles: 2 },
        0xC9 => Instruction { op: Op::Cmp, mode: Mode::Immediate, cycles: 2 },
        0xCA => Instruction { op: Op::Dex, mode: Mode::Implied, cycles: 2 },
        0xCB => Instruction { op: Op::Invalid, mode: Mode::Immediate, cycles: 2 },
        0xCC => Instruction { op: Op::Cpy, mode: Mode::Absolute, cycles: 4 },
        0xCD => Instruction { op: Op::Cmp, mode: Mode::Absolute, cycles: 4 },
        0xCE => Instruction { op: Op::Dec, mode: Mode::Absolute, cycles: 6 },
        0xCF => Instruction { op: Op::Dcp, mode: Mode::Absolute, cycles: 6 },
        0xD0 => Instruction { op: Op::Bne, mode: Mode::Relative, cycles: 2 },
        0xD1 => Instruction { op: Op::Cmp, mode: Mode::IndirectY, cycles: 5 },
        0xD2 => Instruction { op: Op::Invalid, mode: Mode::Implied, cycles: 2 },
        0xD3 => Instruction { op: Op::Dcp, mode: Mode::IndirectY, cycles: 8 },
        0xD4 => Instruction { op: Op::Nop, mode: Mode::ZeroPageX, cycles: 4 },
        0xD5 => Instruction { op: Op::Cmp, mode: Mode::ZeroPageX, cycles: 4 },
        0xD6 => Instruction { op: Op::Dec, mode: Mode::ZeroPageX, cycles: 6 },
        0xD7 => Instruction { op: Op::Dcp, mode: Mode::ZeroPageX, cycles: 6 },
        0xD8 => Instruction { op: Op::Cld, mode: Mode::Implied, cycles: 2 },
        0xD9 => Instruction { op: Op::Cmp, mode: Mode::AbsoluteY, cycles: 4 },
        0xDA => Instruction { op: Op::Nop, mode: Mode::Implied, cycles: 2 },
        0xDB => Instruction { op: Op::Dcp, mode: Mode::AbsoluteY, cycles: 7 },
        0xDC => Instruction { op: Op::Nop, mode: Mode::AbsoluteX, cycles: 4 },
        0xDD => Instruction { op: Op::Cmp, mode: Mode::AbsoluteX, cycles: 4 },
        0xDE => Instruction { op: Op::Dec, mode: Mode::AbsoluteX, cycles: 7 },
        0xDF => Instruction { op: Op::Dcp, mode: Mode::AbsoluteX, cycles: 7 },
        0xE0 => Instruction { op: Op::Cpx, mode: Mode::Immediate, cycles: 2 },
        0xE1 => Instruction { op: Op::Sbc, mode: Mode::IndirectX, cycles: 6 },
        0xE2 => Instruction { op: Op::Nop, mode: Mode::Immediate, cycles: 2 },
        0xE3 => Instruction { op: Op::Isb, mode: Mode::IndirectX, cycles: 8 },
        0xE4 => Instruction { op: Op::Cpx, mode: Mode::ZeroPage, cycles: 3 },
        0xE5 => Instruction { op: Op::Sbc, mode: Mode::ZeroPage, cycles: 3 },
        0xE6 => Instruction { op: Op::Inc, mode: Mode::ZeroPage, cycles: 5 },
        0xE7 => Instruction { op: Op::Isb, mode: Mode::ZeroPage, cycles: 5 },
        0xE8 => Instruction { op: Op::Inx, mode: Mode::Implied, cycles: 2 },
        0xE9 => Instruction { op: Op::Sbc, mode: Mode::Immediate, cycles: 2 },
        0xEA => Instruction { op: Op::Nop, mode: Mode::Implied, cycles: 2 },
        0xEB => Instruction { op: Op::Sbc, mode: Mode::Immediate, cycles: 2 },
        0xEC => Instruction { op: Op::Cpx, mode: Mode::Absolute, cycles: 4 },
        0xED => Instruction { op: Op::Sbc, mode: Mode::Absolute, cycles: 4 },
        0xEE => Instruction { op: Op::Inc, mode: Mode::Absolute, cycles: 6 },
        0xEF => Instruction { op: Op::Isb, mode: Mode::Absolute, cycles: 6 },
        0xF0 => Instruction { op: Op::Beq, mode: Mode::Relative, cycles: 2 },
        0xF1 => Instruction { op: Op::Sbc, mode: Mode::IndirectY, cycles: 5 },
        0xF2 => Instruction { op: Op::Invalid, mode: Mode::Implied, cycles: 2 },
        0xF3 => Instruction { op: Op::Isb, mode: Mode::IndirectY, cycles: 8 },
        0xF4 => Instruction { op: Op::Nop, mode: Mode::ZeroPageX, cycles: 4 },
        0xF5 => Instruction { op: Op::Sbc, mode: Mode::ZeroPageX, cycles: 4 },
        0xF6 => Instruction { op: Op::Inc, mode: Mode::ZeroPageX, cycles: 6 },
        0xF7 => Instruction { op: Op::Isb, mode: Mode::ZeroPageX, cycles: 6 },
        0xF8 => Instruction { op: Op::Sed, mode: Mode::Implied, cycles: 2 },
        0xF9 => Instruction { op: Op::Sbc, mode: Mode::AbsoluteY, cycles: 4 },
        0xFA => Instruction { op: Op::Nop, mode: Mode::Implied, cycles: 2 },
        0xFB => Instruction { op: Op::Isb, mode: Mode::AbsoluteY, cycles: 7 },
        0xFC => Instruction { op: Op::Nop, mode: Mode::AbsoluteX, cycles: 4 },
        0xFD => Instruction { op: Op::Sbc, mode: Mode::AbsoluteX, cycles: 4 },
        0xFE => Instruction { op: Op::Inc, mode: Mode::AbsoluteX, cycles: 7 },
        _ => Instruction { op: Op::Isb, mode: Mode::AbsoluteX, cycles: 7 },
    }
}

/// Operand bytes that follow the opcode.
pub fn operand_length(mode: Mode) -> (r: u16)
    ensures
        r == operand_len(mode),
{
    match mode {
        Mode::Implied | Mode::Accumulator => 0,
        Mode::Absolute | Mode::AbsoluteX | Mode::AbsoluteY | Mode::Indirect => 2,
        _ => 1,
    }
}

/// Whether `op` pays the page-crossing cycle.
pub fn has_page_penalty(op: Op) -> (r: bool)
    ensures
        r == reads_operand(op),
{
    match op {
        Op::Adc | Op::And | Op::Cmp | Op::Eor | Op::Lda | Op::Ldx | Op::Ldy | Op::Ora | Op::Sbc
        | Op::Lax | Op::Nop | Op::InvalidRead => true,
        _ => false,
    }
}

} // verus!
