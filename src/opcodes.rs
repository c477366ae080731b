use vstd::prelude::*;

verus! {

/// The instruction kinds the decoder knows: the official 6502 set plus the
/// unofficial LAX, SAX, DCP and ISC.
#[derive(Clone, Copy, Debug, PartialEq, Eq, Structural)]
pub enum Mnemonic {
    Adc,
    And,
    Asl,
    Bcc,
    Bcs,
    Beq,
    Bit,
    Bmi,
    Bne,
    Bpl,
    Brk,
    Bvc,
    Bvs,
    Clc,
    Cld,
    Cli,
    Clv,
    Cmp,
    Cpx,
    Cpy,
    Dcp,
    Dec,
    Dex,
    Dey,
    Eor,
    Inc,
    Inx,
    Iny,
    Isc,
    Jmp,
    Jsr,
    Lax,
    Lda,
    Ldx,
    Ldy,
    Lsr,
    Nop,
    Ora,
    Pha,
    Php,
    Pla,
    Plp,
    Rol,
    Ror,
    Rti,
    Rts,
    Sax,
    Sbc,
    Sec,
    Sed,
    Sei,
    Sta,
    Stx,
    Sty,
    Tax,
    Tay,
    Tsx,
    Txa,
    Txs,
    Tya,
}

#[derive(Clone, Copy, Debug, PartialEq, Eq, Structural)]
pub enum AddressingMode {
    Immediate,
    ZeroPage,
    ZeroPageX,
    ZeroPageY,
    Absolute,
    AbsoluteX,
    AbsoluteY,
    Indirect,
    IndexedIndirect,
    IndirectIndexed,
    Accumulator,
    Relative,
    Implied,
}

/// One decode-table entry. `cycles` is the base cycle count, kept as metadata.
#[derive(Clone, Copy, Debug, PartialEq, Eq, Structural)]
pub struct Opcode {
    pub name: Mnemonic,
    pub cycles: u8,
    pub addressing_mode: AddressingMode,
}

/// Number of operand bytes that follow the opcode byte in a given mode.
pub open spec fn operand_len(mode: AddressingMode) -> u16 {
    match mode {
        AddressingMode::Accumulator | AddressingMode::Implied => 0,
        AddressingMode::Absolute | AddressingMode::AbsoluteX | AddressingMode::AbsoluteY
        | AddressingMode::Indirect => 2,
        _ => 1,
    }
}

impl AddressingMode {
    pub fn operand_len(self) -> (r: u16)
        ensures
            r == operand_len(self),
            r <= 2,
    {
        match self {
            AddressingMode::Accumulator | AddressingMode::Implied => 0,
            AddressingMode::Absolute | AddressingMode::AbsoluteX | AddressingMode::AbsoluteY
            | AddressingMode::Indirect => 2,
            _ => 1,
        }
    }
}

pub open spec fn opcode(name: Mnemonic, addressing_mode: AddressingMode, cycles: u8) -> Opcode {
    Opcode { name, cycles, addressing_mode }
}

impl Opcode {
    pub fn new(name: Mnemonic, addressing_mode: AddressingMode, cycles: u8) -> (r: Opcode)
        ensures
            r == opcode(name, addressing_mode, cycles),
    {
        Opcode { name, cycles, addressing_mode }
    }
}

/// Modes with a memory operand whose address the handler reads or writes.
pub open spec fn is_data_mode(mode: AddressingMode) -> bool {
    match mode {
        AddressingMode::Accumulator | AddressingMode::Implied | AddressingMode::Relative
        | AddressingMode::Indirect => false,
        _ => true,
    }
}

/// Whether the handler of `name` has a meaning for operands resolved in `mode`:
/// branches take a relative target, register-only instructions no operand,
/// instructions that write memory a real address (not the immediate byte).
pub open spec fn mode_fits(name: Mnemonic, mode: AddressingMode) -> bool {
    match name {
        Mnemonic::Bcc | Mnemonic::Bcs | Mnemonic::Beq | Mnemonic::Bne | Mnemonic::Bmi
        | Mnemonic::Bpl | Mnemonic::Bvs | Mnemonic::Bvc => mode == AddressingMode::Relative,
        Mnemonic::Jmp => mode == AddressingMode::Absolute || mode == AddressingMode::Indirect,
        Mnemonic::Jsr => mode == AddressingMode::Absolute,
        Mnemonic::Brk | Mnemonic::Rti | Mnemonic::Rts | Mnemonic::Pha | Mnemonic::Php
        | Mnemonic::Pla | Mnemonic::Plp | Mnemonic::Clc | Mnemonic::Sec | Mnemonic::Cli
        | Mnemonic::Sei | Mnemonic::Clv | Mnemonic::Cld | Mnemonic::Sed | Mnemonic::Nop
        | Mnemonic::Inx | Mnemonic::Iny | Mnemonic::Dex | Mnemonic::Dey | Mnemonic::Tax
        | Mnemonic::Tay | Mnemonic::Txa | Mnemonic::Tya | Mnemonic::Tsx | Mnemonic::Txs => mode
            == AddressingMode::Implied,
        Mnemonic::Asl | Mnemonic::Lsr | Mnemonic::Rol | Mnemonic::Ror => mode
            == AddressingMode::Accumulator || (is_data_mode(mode) && mode
            != AddressingMode::Immediate),
        Mnemonic::Sta | Mnemonic::Stx | Mnemonic::Sty | Mnemonic::Sax | Mnemonic::Inc
        | Mnemonic::Dec | Mnemonic::Dcp | Mnemonic::Isc => is_data_mode(mode) && mode
            != AddressingMode::Immediate,
        _ => is_data_mode(mode),
    }
}

/// The decode table. A byte without an entry is an illegal opcode. The unofficial
/// SHX (0x9E) has no entry: the value it stores is unstable on real hardware, so
/// it is classified as illegal rather than given an invented meaning.
#[verifier::opaque]
pub open spec fn opcode_entry(b: u8) -> Option<Opcode> {
    match b {
        0x00 => Some(opcode(Mnemonic::Brk, AddressingMode::Implied, 7)),
        0x01 => Some(opcode(Mnemonic::Ora, AddressingMode::IndexedIndirect, 6)),
        0x05 => Some(opcode(Mnemonic::Ora, AddressingMode::ZeroPage, 3)),
        0x06 => Some(opcode(Mnemonic::Asl, AddressingMode::ZeroPage, 5)),
        0x08 => Some(opcode(Mnemonic::Php, AddressingMode::Implied, 3)),
        0x09 => Some(opcode(Mnemonic::Ora, AddressingMode::Immediate, 2)),
        0x0A => Some(opcode(Mnemonic::Asl, AddressingMode::Accumulator, 2)),
        0x0D => Some(opcode(Mnemonic::Ora, AddressingMode::Absolute, 4)),
        0x0E => Some(opcode(Mnemonic::Asl, AddressingMode::Absolute, 6)),
        0x10 => Some(opcode(Mnemonic::Bpl, AddressingMode::Relative, 2)),
        0x11 => Some(opcode(Mnemonic::Ora, AddressingMode::IndirectIndexed, 5)),
        0x15 => Some(opcode(Mnemonic::Ora, AddressingMode::ZeroPageX, 4)),
        0x16 => Some(opcode(Mnemonic::Asl, AddressingMode::ZeroPageX, 6)),
        0x18 => Some(opcode(Mnemonic::Clc, AddressingMode::Implied, 2)),
        0x19 => Some(opcode(Mnemonic::Ora, AddressingMode::AbsoluteY, 4)),
        0x1D => Some(opcode(Mnemonic::Ora, AddressingMode::AbsoluteX, 4)),
        0x1E => Some(opcode(Mnemonic::Asl, AddressingMode::AbsoluteX, 7)),
        0x20 => Some(opcode(Mnemonic::Jsr, AddressingMode::Absolute, 6)),
        0x21 => Some(opcode(Mnemonic::And, AddressingMode::IndexedIndirect, 6)),
        0x24 => Some(opcode(Mnemonic::Bit, AddressingMode::ZeroPage, 3)),
        0x25 => Some(opcode(Mnemonic::And, AddressingMode::ZeroPage, 3)),
        0x26 => Some(opcode(Mnemonic::Rol, AddressingMode::ZeroPage, 5)),
        0x28 => Some(opcode(Mnemonic::Plp, AddressingMode::Implied, 4)),
        0x29 => Some(opcode(Mnemonic::And, AddressingMode::Immediate, 2)),
        0x2A => Some(opcode(Mnemonic::Rol, AddressingMode::Accumulator, 2)),
        0x2C => Some(opcode(Mnemonic::Bit, AddressingMode::Absolute, 4)),
        0x2D => Some(opcode(Mnemonic::And, AddressingMode::Absolute, 4)),
        0x2E => Some(opcode(Mnemonic::Rol, AddressingMode::Absolute, 6)),
        0x30 => Some(opcode(Mnemonic::Bmi, AddressingMode::Relative, 2)),
        0x31 => Some(opcode(Mnemonic::And, AddressingMode::IndirectIndexed, 5)),
        0x35 => Some(opcode(Mnemonic::And, AddressingMode::ZeroPageX, 4)),
        0x36 => Some(opcode(Mnemonic::Rol, AddressingMode::ZeroPageX, 6)),
        0x38 => Some(opcode(Mnemonic::Sec, AddressingMode::Implied, 2)),
        0x39 => Some(opcode(Mnemonic::And, AddressingMode::AbsoluteY, 4)),
        0x3D => Some(opcode(Mnemonic::And, AddressingMode::AbsoluteX, 4)),
        0x3E => Some(opcode(Mnemonic::Rol, AddressingMode::AbsoluteX, 7)),
        0x40 => Some(opcode(Mnemonic::Rti, AddressingMode::Implied, 6)),
        0x41 => Some(opcode(Mnemonic::Eor, AddressingMode::IndexedIndirect, 6)),
        0x45 => Some(opcode(Mnemonic::Eor, AddressingMode::ZeroPage, 3)),
        0x46 => Some(opcode(Mnemonic::Lsr, AddressingMode::ZeroPage, 5)),
        0x48 => Some(opcode(Mnemonic::Pha, AddressingMode::Implied, 3)),
        0x49 => Some(opcode(Mnemonic::Eor, AddressingMode::Immediate, 2)),
        0x4A => Some(opcode(Mnemonic::Lsr, AddressingMode::Accumulator, 2)),
        0x4C => Some(opcode(Mnemonic::Jmp, AddressingMode::Absolute, 3)),
        0x4D => Some(opcode(Mnemonic::Eor, AddressingMode::Absolute, 4)),
        0x4E => Some(opcode(Mnemonic::Lsr, AddressingMode::Absolute, 6)),
        0x50 => Some(opcode(Mnemonic::Bvc, AddressingMode::Relative, 2)),
        0x51 => Some(opcode(Mnemonic::Eor, AddressingMode::IndirectIndexed, 5)),
        0x55 => Some(opcode(Mnemonic::Eor, AddressingMode::ZeroPageX, 4)),
        0x56 => Some(opcode(Mnemonic::Lsr, AddressingMode::ZeroPageX, 6)),
        0x58 => Some(opcode(Mnemonic::Cli, AddressingMode::Implied, 2)),
        0x59 => Some(opcode(Mnemonic::Eor, AddressingMode::AbsoluteY, 4)),
        0x5D => Some(opcode(Mnemonic::Eor, AddressingMode::AbsoluteX, 4)),
        0x5E => Some(opcode(Mnemonic::Lsr, AddressingMode::AbsoluteX, 7)),
        0x60 => Some(opcode(Mnemonic::Rts, AddressingMode::Implied, 6)),
        0x61 => Some(opcode(Mnemonic::Adc, AddressingMode::IndexedIndirect, 6)),
        0x65 => Some(opcode(Mnemonic::Adc, AddressingMode::ZeroPage, 3)),
        0x66 => Some(opcode(Mnemonic::Ror, AddressingMode::ZeroPage, 5)),
        0x68 => Some(opcode(Mnemonic::Pla, AddressingMode::Implied, 4)),
        0x69 => Some(opcode(Mnemonic::Adc, AddressingMode::Immediate, 2)),
        0x6A => Some(opcode(Mnemonic::Ror, AddressingMode::Accumulator, 2)),
        0x6C => Some(opcode(Mnemonic::Jmp, AddressingMode::Indirect, 5)),
        0x6D => Some(opcode(Mnemonic::Adc, AddressingMode::Absolute, 4)),
        0x6E => Some(opcode(Mnemonic::Ror, AddressingMode::Absolute, 6)),
        0x70 => Some(opcode(Mnemonic::Bvs, AddressingMode::Relative, 2)),
        0x71 => Some(opcode(Mnemonic::Adc, AddressingMode::IndirectIndexed, 5)),
        0x75 => Some(opcode(Mnemonic::Adc, AddressingMode::ZeroPageX, 4)),
        0x76 => Some(opcode(Mnemonic::Ror, AddressingMode::ZeroPageX, 6)),
        0x78 => Some(opcode(Mnemonic::Sei, AddressingMode::Implied, 2)),
        0x79 => Some(opcode(Mnemonic::Adc, AddressingMode::AbsoluteY, 4)),
        0x7D => Some(opcode(Mnemonic::Adc, AddressingMode::AbsoluteX, 4)),
        0x7E => Some(opcode(Mnemonic::Ror, AddressingMode::AbsoluteX, 7)),
        0x81 => Some(opcode(Mnemonic::Sta, AddressingMode::IndexedIndirect, 6)),
        0x83 => Some(opcode(Mnemonic::Sax, AddressingMode::IndexedIndirect, 6)),
        0x84 => Some(opcode(Mnemonic::Sty, AddressingMode::ZeroPage, 3)),
        0x85 => Some(opcode(Mnemonic::Sta, AddressingMode::ZeroPage, 3)),
        0x86 => Some(opcode(Mnemonic::Stx, AddressingMode::ZeroPage, 3)),
        0x87 => Some(opcode(Mnemonic::Sax, AddressingMode::ZeroPage, 3)),
        0x88 => Some(opcode(Mnemonic::Dey, AddressingMode::Implied, 2)),
        0x8A => Some(opcode(Mnemonic::Txa, AddressingMode::Implied, 2)),
        0x8C => Some(opcode(Mnemonic::Sty, AddressingMode::Absolute, 4)),
        0x8D => Some(opcode(Mnemonic::Sta, AddressingMode::Absolute, 4)),
        0x8E => Some(opcode(Mnemonic::Stx, AddressingMode::Absolute, 4)),
        0x8F => Some(opcode(Mnemonic::Sax, AddressingMode::Absolute, 4)),
        0x90 => Some(opcode(Mnemonic::Bcc, AddressingMode::Relative, 2)),
        0x91 => Some(opcode(Mnemonic::Sta, AddressingMode::IndirectIndexed, 6)),
        0x94 => Some(opcode(Mnemonic::Sty, AddressingMode::ZeroPageX, 4)),
        0x95 => Some(opcode(Mnemonic::Sta, AddressingMode::ZeroPageX, 4)),
        0x96 => Some(opcode(Mnemonic::Stx, AddressingMode::ZeroPageY, 4)),
        0x97 => Some(opcode(Mnemonic::Sax, AddressingMode::ZeroPageY, 4)),
        0x98 => Some(opcode(Mnemonic::Tya, AddressingMode::Implied, 2)),
        0x99 => Some(opcode(Mnemonic::Sta, AddressingMode::AbsoluteY, 5)),
        0x9A => Some(opcode(Mnemonic::Txs, AddressingMode::Implied, 2)),
        0x9D => Some(opcode(Mnemonic::Sta, AddressingMode::AbsoluteX, 5)),
        0xA0 => Some(opcode(Mnemonic::Ldy, AddressingMode::Immediate, 2)),
        0xA1 => Some(opcode(Mnemonic::Lda, AddressingMode::IndexedIndirect, 6)),
        0xA2 => Some(opcode(Mnemonic::Ldx, AddressingMode::Immediate, 2)),
        0xA3 => Some(opcode(Mnemonic::Lax, AddressingMode::IndexedIndirect, 6)),
        0xA4 => Some(opcode(Mnemonic::Ldy, AddressingMode::ZeroPage, 3)),
        0xA5 => Some(opcode(Mnemonic::Lda, AddressingMode::ZeroPage, 3)),
        0xA6 => Some(opcode(Mnemonic::Ldx, AddressingMode::ZeroPage, 3)),
        0xA7 => Some(opcode(Mnemonic::Lax, AddressingMode::ZeroPage, 3)),
        0xA8 => Some(opcode(Mnemonic::Tay, AddressingMode::Implied, 2)),
        0xA9 => Some(opcode(Mnemonic::Lda, AddressingMode::Immediate, 2)),
        0xAA => Some(opcode(Mnemonic::Tax, AddressingMode::Implied, 2)),
        0xAC => Some(opcode(Mnemonic::Ldy, AddressingMode::Absolute, 4)),
        0xAD => Some(opcode(Mnemonic::Lda, AddressingMode::Absolute, 4)),
        0xAE => Some(opcode(Mnemonic::Ldx, AddressingMode::Absolute, 4)),
        0xAF => Some(opcode(Mnemonic::Lax, AddressingMode::Absolute, 4)),
        0xB0 => Some(opcode(Mnemonic::Bcs, AddressingMode::Relative, 2)),
        0xB1 => Some(opcode(Mnemonic::Lda, AddressingMode::IndirectIndexed, 5)),
        0xB3 => Some(opcode(Mnemonic::Lax, AddressingMode::IndirectIndexed, 5)),
        0xB4 => Some(opcode(Mnemonic::Ldy, AddressingMode::ZeroPageX, 4)),
        0xB5 => Some(opcode(Mnemonic::Lda, AddressingMode::ZeroPageX, 4)),
        0xB6 => Some(opcode(Mnemonic::Ldx, AddressingMode::ZeroPageY, 4)),
        0xB7 => Some(opcode(Mnemonic::Lax, AddressingMode::ZeroPageY, 4)),
        0xB8 => Some(opcode(Mnemonic::Clv, AddressingMode::Implied, 2)),
        0xB9 => Some(opcode(Mnemonic::Lda, AddressingMode::AbsoluteY, 4)),
        0xBA => Some(opcode(Mnemonic::Tsx, AddressingMode::Implied, 2)),
        0xBC => Some(opcode(Mnemonic::Ldy, AddressingMode::AbsoluteX, 4)),
        0xBD => Some(opcode(Mnemonic::Lda, AddressingMode::AbsoluteX, 4)),
        0xBE => Some(opcode(Mnemonic::Ldx, AddressingMode::AbsoluteY, 4)),
        0xBF => Some(opcode(Mnemonic::Lax, AddressingMode::AbsoluteY, 4)),
        0xC0 => Some(opcode(Mnemonic::Cpy, AddressingMode::Immediate, 2)),
        0xC1 => Some(opcode(Mnemonic::Cmp, AddressingMode::IndexedIndirect, 6)),
        0xC3 => Some(opcode(Mnemonic::Dcp, AddressingMode::IndexedIndirect, 8)),
        0xC4 => Some(opcode(Mnemonic::Cpy, AddressingMode::ZeroPage, 3)),
        0xC5 => Some(opcode(Mnemonic::Cmp, AddressingMode::ZeroPage, 3)),
        0xC6 => Some(opcode(Mnemonic::Dec, AddressingMode::ZeroPage, 5)),
        0xC7 => Some(opcode(Mnemonic::Dcp, AddressingMode::ZeroPage, 5)),
        0xC8 => Some(opcode(Mnemonic::Iny, AddressingMode::Implied, 2)),
        0xC9 => Some(opcode(Mnemonic::Cmp, AddressingMode::Immediate, 2)),
        0xCA => Some(opcode(Mnemonic::Dex, AddressingMode::Implied, 2)),
        0xCC => Some(opcode(Mnemonic::Cpy, AddressingMode::Absolute, 4)),
        0xCD => Some(opcode(Mnemonic::Cmp, AddressingMode::Absolute, 4)),
        0xCE => Some(opcode(Mnemonic::Dec, AddressingMode::Absolute, 6)),
        0xCF => Some(opcode(Mnemonic::Dcp, AddressingMode::Absolute, 6)),
        0xD0 => Some(opcode(Mnemonic::Bne, AddressingMode::Relative, 2)),
        0xD1 => Some(opcode(Mnemonic::Cmp, AddressingMode::IndirectIndexed, 5)),
        0xD3 => Some(opcode(Mnemonic::Dcp, AddressingMode::IndirectIndexed, 8)),
        0xD5 => Some(opcode(Mnemonic::Cmp, AddressingMode::ZeroPageX, 4)),
        0xD6 => Some(opcode(Mnemonic::Dec, AddressingMode::ZeroPageX, 6)),
        0xD7 => Some(opcode(Mnemonic::Dcp, AddressingMode::ZeroPageX, 6)),
        0xD8 => Some(opcode(Mnemonic::Cld, AddressingMode::Implied, 2)),
        0xD9 => Some(opcode(Mnemonic::Cmp, AddressingMode::AbsoluteY, 4)),
        0xDB => Some(opcode(Mnemonic::Dcp, AddressingMode::AbsoluteY, 7)),
        0xDD => Some(opcode(Mnemonic::Cmp, AddressingMode::AbsoluteX, 4)),
        0xDE => Some(opcode(Mnemonic::Dec, AddressingMode::AbsoluteX, 7)),
        0xDF => Some(opcode(Mnemonic::Dcp, AddressingMode::AbsoluteX, 7)),
        0xE0 => Some(opcode(Mnemonic::Cpx, AddressingMode::Immediate, 2)),
        0xE1 => Some(opcode(Mnemonic::Sbc, AddressingMode::IndexedIndirect, 6)),
        0xE3 => Some(opcode(Mnemonic::Isc, AddressingMode::IndexedIndirect, 8)),
        0xE4 => Some(opcode(Mnemonic::Cpx, AddressingMode::ZeroPage, 3)),
        0xE5 => Some(opcode(Mnemonic::Sbc, AddressingMode::ZeroPage, 3)),
        0xE6 => Some(opcode(Mnemonic::Inc, AddressingMode::ZeroPage, 5)),
        0xE7 => Some(opcode(Mnemonic::Isc, AddressingMode::ZeroPage, 5)),
        0xE8 => Some(opcode(Mnemonic::Inx, AddressingMode::Implied, 2)),
        0xE9 => Some(opcode(Mnemonic::Sbc, AddressingMode::Immediate, 2)),
        0xEA => Some(opcode(Mnemonic::Nop, AddressingMode::Implied, 2)),
        0xEC => Some(opcode(Mnemonic::Cpx, AddressingMode::Absolute, 4)),
        0xED => Some(opcode(Mnemonic::Sbc, AddressingMode::Absolute, 4)),
        0xEE => Some(opcode(Mnemonic::Inc, AddressingMode::Absolute, 6)),
        0xEF => Some(opcode(Mnemonic::Isc, AddressingMode::Absolute, 6)),
        0xF0 => Some(opcode(Mnemonic::Beq, AddressingMode::Relative, 2)),
        0xF1 => Some(opcode(Mnemonic::Sbc, AddressingMode::IndirectIndexed, 5)),
        0xF3 => Some(opcode(Mnemonic::Isc, AddressingMode::IndirectIndexed, 8)),
        0xF5 => Some(opcode(Mnemonic::Sbc, AddressingMode::ZeroPageX, 4)),
        0xF6 => Some(opcode(Mnemonic::Inc, AddressingMode::ZeroPageX, 6)),
        0xF7 => Some(opcode(Mnemonic::Isc, AddressingMode::ZeroPageX, 6)),
        0xF8 => Some(opcode(Mnemonic::Sed, AddressingMode::Implied, 2)),
        0xF9 => Some(opcode(Mnemonic::Sbc, AddressingMode::AbsoluteY, 4)),
        0xFB => Some(opcode(Mnemonic::Isc, AddressingMode::AbsoluteY, 7)),
        0xFD => Some(opcode(Mnemonic::Sbc, AddressingMode::AbsoluteX, 4)),
        0xFE => Some(opcode(Mnemonic::Inc, AddressingMode::AbsoluteX, 7)),
        0xFF => Some(opcode(Mnemonic::Isc, AddressingMode::AbsoluteX, 7)),
        _ => None,
    }
}

/// Looks up the decode-table entry of an opcode byte.
pub fn decode_opcode(b: u8) -> (r: Option<Opcode>)
    ensures
        r == opcode_entry(b),
{
    reveal(opcode_entry);
    match b {
        0x00 => Some(Opcode::new(Mnemonic::Brk, AddressingMode::Implied, 7)),
        0x01 => Some(Opcode::new(Mnemonic::Ora, AddressingMode::IndexedIndirect, 6)),
        0x05 => Some(Opcode::new(Mnemonic::Ora, AddressingMode::ZeroPage, 3)),
        0x06 => Some(Opcode::new(Mnemonic::Asl, AddressingMode::ZeroPage, 5)),
        0x08 => Some(Opcode::new(Mnemonic::Php, AddressingMode::Implied, 3)),
        0x09 => Some(Opcode::new(Mnemonic::Ora, AddressingMode::Immediate, 2)),
        0x0A => Some(Opcode::new(Mnemonic::Asl, AddressingMode::Accumulator, 2)),
        0x0D => Some(Opcode::new(Mnemonic::Ora, AddressingMode::Absolute, 4)),
        0x0E => Some(Opcode::new(Mnemonic::Asl, AddressingMode::Absolute, 6)),
        0x10 => Some(Opcode::new(Mnemonic::Bpl, AddressingMode::Relative, 2)),
        0x11 => Some(Opcode::new(Mnemonic::Ora, AddressingMode::IndirectIndexed, 5)),
        0x15 => Some(Opcode::new(Mnemonic::Ora, AddressingMode::ZeroPageX, 4)),
        0x16 => Some(Opcode::new(Mnemonic::Asl, AddressingMode::ZeroPageX, 6)),
        0x18 => Some(Opcode::new(Mnemonic::Clc, AddressingMode::Implied, 2)),
        0x19 => Some(Opcode::new(Mnemonic::Ora, AddressingMode::AbsoluteY, 4)),
        0x1D => Some(Opcode::new(Mnemonic::Ora, AddressingMode::AbsoluteX, 4)),
        0x1E => Some(Opcode::new(Mnemonic::Asl, AddressingMode::AbsoluteX, 7)),
        0x20 => Some(Opcode::new(Mnemonic::Jsr, AddressingMode::Absolute, 6)),
        0x21 => Some(Opcode::new(Mnemonic::And, AddressingMode::IndexedIndirect, 6)),
        0x24 => Some(Opcode::new(Mnemonic::Bit, AddressingMode::ZeroPage, 3)),
        0x25 => Some(Opcode::new(Mnemonic::And, AddressingMode::ZeroPage, 3)),
        0x26 => Some(Opcode::new(Mnemonic::Rol, AddressingMode::ZeroPage, 5)),
        0x28 => Some(Opcode::new(Mnemonic::Plp, AddressingMode::Implied, 4)),
        0x29 => Some(Opcode::new(Mnemonic::And, AddressingMode::Immediate, 2)),
        0x2A => Some(Opcode::new(Mnemonic::Rol, AddressingMode::Accumulator, 2)),
        0x2C => Some(Opcode::new(Mnemonic::Bit, AddressingMode::Absolute, 4)),
        0x2D => Some(Opcode::new(Mnemonic::And, AddressingMode::Absolute, 4)),
        0x2E => Some(Opcode::new(Mnemonic::Rol, AddressingMode::Absolute, 6)),
        0x30 => Some(Opcode::new(Mnemonic::Bmi, AddressingMode::Relative, 2)),
        0x31 => Some(Opcode::new(Mnemonic::And, AddressingMode::IndirectIndexed, 5)),
        0x35 => Some(Opcode::new(Mnemonic::And, AddressingMode::ZeroPageX, 4)),
        0x36 => Some(Opcode::new(Mnemonic::Rol, AddressingMode::ZeroPageX, 6)),
        0x38 => Some(Opcode::new(Mnemonic::Sec, AddressingMode::Implied, 2)),
        0x39 => Some(Opcode::new(Mnemonic::And, AddressingMode::AbsoluteY, 4)),
        0x3D => Some(Opcode::new(Mnemonic::And, AddressingMode::AbsoluteX, 4)),
        0x3E => Some(Opcode::new(Mnemonic::Rol, AddressingMode::AbsoluteX, 7)),
        0x40 => Some(Opcode::new(Mnemonic::Rti, AddressingMode::Implied, 6)),
        0x41 => Some(Opcode::new(Mnemonic::Eor, AddressingMode::IndexedIndirect, 6)),
        0x45 => Some(Opcode::new(Mnemonic::Eor, AddressingMode::ZeroPage, 3)),
        0x46 => Some(Opcode::new(Mnemonic::Lsr, AddressingMode::ZeroPage, 5)),
        0x48 => Some(Opcode::new(Mnemonic::Pha, AddressingMode::Implied, 3)),
        0x49 => Some(Opcode::new(Mnemonic::Eor, AddressingMode::Immediate, 2)),
        0x4A => Some(Opcode::new(Mnemonic::Lsr, AddressingMode::Accumulator, 2)),
        0x4C => Some(Opcode::new(Mnemonic::Jmp, AddressingMode::Absolute, 3)),
        0x4D => Some(Opcode::new(Mnemonic::Eor, AddressingMode::Absolute, 4)),
        0x4E => Some(Opcode::new(Mnemonic::Lsr, AddressingMode::Absolute, 6)),
        0x50 => Some(Opcode::new(Mnemonic::Bvc, AddressingMode::Relative, 2)),
        0x51 => Some(Opcode::new(Mnemonic::Eor, AddressingMode::IndirectIndexed, 5)),
        0x55 => Some(Opcode::new(Mnemonic::Eor, AddressingMode::ZeroPageX, 4)),
        0x56 => Some(Opcode::new(Mnemonic::Lsr, AddressingMode::ZeroPageX, 6)),
        0x58 => Some(Opcode::new(Mnemonic::Cli, AddressingMode::Implied, 2)),
        0x59 => Some(Opcode::new(Mnemonic::Eor, AddressingMode::AbsoluteY, 4)),
        0x5D => Some(Opcode::new(Mnemonic::Eor, AddressingMode::AbsoluteX, 4)),
        0x5E => Some(Opcode::new(Mnemonic::Lsr, AddressingMode::AbsoluteX, 7)),
        0x60 => Some(Opcode::new(Mnemonic::Rts, AddressingMode::Implied, 6)),
        0x61 => Some(Opcode::new(Mnemonic::Adc, AddressingMode::IndexedIndirect, 6)),
        0x65 => Some(Opcode::new(Mnemonic::Adc, AddressingMode::ZeroPage, 3)),
        0x66 => Some(Opcode::new(Mnemonic::Ror, AddressingMode::ZeroPage, 5)),
        0x68 => Some(Opcode::new(Mnemonic::Pla, AddressingMode::Implied, 4)),
        0x69 => Some(Opcode::new(Mnemonic::Adc, AddressingMode::Immediate, 2)),
        0x6A => Some(Opcode::new(Mnemonic::Ror, AddressingMode::Accumulator, 2)),
        0x6C => Some(Opcode::new(Mnemonic::Jmp, AddressingMode::Indirect, 5)),
        0x6D => Some(Opcode::new(Mnemonic::Adc, AddressingMode::Absolute, 4)),
        0x6E => Some(Opcode::new(Mnemonic::Ror, AddressingMode::Absolute, 6)),
        0x70 => Some(Opcode::new(Mnemonic::Bvs, AddressingMode::Relative, 2)),
        0x71 => Some(Opcode::new(Mnemonic::Adc, AddressingMode::IndirectIndexed, 5)),
        0x75 => Some(Opcode::new(Mnemonic::Adc, AddressingMode::ZeroPageX, 4)),
        0x76 => Some(Opcode::new(Mnemonic::Ror, AddressingMode::ZeroPageX, 6)),
        0x78 => Some(Opcode::new(Mnemonic::Sei, AddressingMode::Implied, 2)),
        0x79 => Some(Opcode::new(Mnemonic::Adc, AddressingMode::AbsoluteY, 4)),
        0x7D => Some(Opcode::new(Mnemonic::Adc, AddressingMode::AbsoluteX, 4)),
        0x7E => Some(Opcode::new(Mnemonic::Ror, AddressingMode::AbsoluteX, 7)),
        0x81 => Some(Opcode::new(Mnemonic::Sta, AddressingMode::IndexedIndirect, 6)),
        0x83 => Some(Opcode::new(Mnemonic::Sax, AddressingMode::IndexedIndirect, 6)),
        0x84 => Some(Opcode::new(Mnemonic::Sty, AddressingMode::ZeroPage, 3)),
        0x85 => Some(Opcode::new(Mnemonic::Sta, AddressingMode::ZeroPage, 3)),
        0x86 => Some(Opcode::new(Mnemonic::Stx, AddressingMode::ZeroPage, 3)),
        0x87 => Some(Opcode::new(Mnemonic::Sax, AddressingMode::ZeroPage, 3)),
        0x88 => Some(Opcode::new(Mnemonic::Dey, AddressingMode::Implied, 2)),
        0x8A => Some(Opcode::new(Mnemonic::Txa, AddressingMode::Implied, 2)),
        0x8C => Some(Opcode::new(Mnemonic::Sty, AddressingMode::Absolute, 4)),
        0x8D => Some(Opcode::new(Mnemonic::Sta, AddressingMode::Absolute, 4)),
        0x8E => Some(Opcode::new(Mnemonic::Stx, AddressingMode::Absolute, 4)),
        0x8F => Some(Opcode::new(Mnemonic::Sax, AddressingMode::Absolute, 4)),
        0x90 => Some(Opcode::new(Mnemonic::Bcc, AddressingMode::Relative, 2)),
        0x91 => Some(Opcode::new(Mnemonic::Sta, AddressingMode::IndirectIndexed, 6)),
        0x94 => Some(Opcode::new(Mnemonic::Sty, AddressingMode::ZeroPageX, 4)),
        0x95 => Some(Opcode::new(Mnemonic::Sta, AddressingMode::ZeroPageX, 4)),
        0x96 => Some(Opcode::new(Mnemonic::Stx, AddressingMode::ZeroPageY, 4)),
        0x97 => Some(Opcode::new(Mnemonic::Sax, AddressingMode::ZeroPageY, 4)),
        0x98 => Some(Opcode::new(Mnemonic::Tya, AddressingMode::Implied, 2)),
        0x99 => Some(Opcode::new(Mnemonic::Sta, AddressingMode::AbsoluteY, 5)),
        0x9A => Some(Opcode::new(Mnemonic::Txs, AddressingMode::Implied, 2)),
        0x9D => Some(Opcode::new(Mnemonic::Sta, AddressingMode::AbsoluteX, 5)),
        0xA0 => Some(Opcode::new(Mnemonic::Ldy, AddressingMode::Immediate, 2)),
        0xA1 => Some(Opcode::new(Mnemonic::Lda, AddressingMode::IndexedIndirect, 6)),
        0xA2 => Some(Opcode::new(Mnemonic::Ldx, AddressingMode::Immediate, 2)),
        0xA3 => Some(Opcode::new(Mnemonic::Lax, AddressingMode::IndexedIndirect, 6)),
        0xA4 => Some(Opcode::new(Mnemonic::Ldy, AddressingMode::ZeroPage, 3)),
        0xA5 => Some(Opcode::new(Mnemonic::Lda, AddressingMode::ZeroPage, 3)),
        0xA6 => Some(Opcode::new(Mnemonic::Ldx, AddressingMode::ZeroPage, 3)),
        0xA7 => Some(Opcode::new(Mnemonic::Lax, AddressingMode::ZeroPage, 3)),
        0xA8 => Some(Opcode::new(Mnemonic::Tay, AddressingMode::Implied, 2)),
        0xA9 => Some(Opcode::new(Mnemonic::Lda, AddressingMode::Immediate, 2)),
        0xAA => Some(Opcode::new(Mnemonic::Tax, AddressingMode::Implied, 2)),
        0xAC => Some(Opcode::new(Mnemonic::Ldy, AddressingMode::Absolute, 4)),
        0xAD => Some(Opcode::new(Mnemonic::Lda, AddressingMode::Absolute, 4)),
        0xAE => Some(Opcode::new(Mnemonic::Ldx, AddressingMode::Absolute, 4)),
        0xAF => Some(Opcode::new(Mnemonic::Lax, AddressingMode::Absolute, 4)),
        0xB0 => Some(Opcode::new(Mnemonic::Bcs, AddressingMode::Relative, 2)),
        0xB1 => Some(Opcode::new(Mnemonic::Lda, AddressingMode::IndirectIndexed, 5)),
        0xB3 => Some(Opcode::new(Mnemonic::Lax, AddressingMode::IndirectIndexed, 5)),
        0xB4 => Some(Opcode::new(Mnemonic::Ldy, AddressingMode::ZeroPageX, 4)),
        0xB5 => Some(Opcode::new(Mnemonic::Lda, AddressingMode::ZeroPageX, 4)),
        0xB6 => Some(Opcode::new(Mnemonic::Ldx, AddressingMode::ZeroPageY, 4)),
        0xB7 => Some(Opcode::new(Mnemonic::Lax, AddressingMode::ZeroPageY, 4)),
        0xB8 => Some(Opcode::new(Mnemonic::Clv, AddressingMode::Implied, 2)),
        0xB9 => Some(Opcode::new(Mnemonic::Lda, AddressingMode::AbsoluteY, 4)),
        0xBA => Some(Opcode::new(Mnemonic::Tsx, AddressingMode::Implied, 2)),
        0xBC => Some(Opcode::new(Mnemonic::Ldy, AddressingMode::AbsoluteX, 4)),
        0xBD => Some(Opcode::new(Mnemonic::Lda, AddressingMode::AbsoluteX, 4)),
        0xBE => Some(Opcode::new(Mnemonic::Ldx, AddressingMode::AbsoluteY, 4)),
        0xBF => Some(Opcode::new(Mnemonic::Lax, AddressingMode::AbsoluteY, 4)),
        0xC0 => Some(Opcode::new(Mnemonic::Cpy, AddressingMode::Immediate, 2)),
        0xC1 => Some(Opcode::new(Mnemonic::Cmp, AddressingMode::IndexedIndirect, 6)),
        0xC3 => Some(Opcode::new(Mnemonic::Dcp, AddressingMode::IndexedIndirect, 8)),
        0xC4 => Some(Opcode::new(Mnemonic::Cpy, AddressingMode::ZeroPage, 3)),
        0xC5 => Some(Opcode::new(Mnemonic::Cmp, AddressingMode::ZeroPage, 3)),
        0xC6 => Some(Opcode::new(Mnemonic::Dec, AddressingMode::ZeroPage, 5)),
        0xC7 => Some(Opcode::new(Mnemonic::Dcp, AddressingMode::ZeroPage, 5)),
        0xC8 => Some(Opcode::new(Mnemonic::Iny, AddressingMode::Implied, 2)),
        0xC9 => Some(Opcode::new(Mnemonic::Cmp, AddressingMode::Immediate, 2)),
        0xCA => Some(Opcode::new(Mnemonic::Dex, AddressingMode::Implied, 2)),
        0xCC => Some(Opcode::new(Mnemonic::Cpy, AddressingMode::Absolute, 4)),
        0xCD => Some(Opcode::new(Mnemonic::Cmp, AddressingMode::Absolute, 4)),
        0xCE => Some(Opcode::new(Mnemonic::Dec, AddressingMode::Absolute, 6)),
        0xCF => Some(Opcode::new(Mnemonic::Dcp, AddressingMode::Absolute, 6)),
        0xD0 => Some(Opcode::new(Mnemonic::Bne, AddressingMode::Relative, 2)),
        0xD1 => Some(Opcode::new(Mnemonic::Cmp, AddressingMode::IndirectIndexed, 5)),
        0xD3 => Some(Opcode::new(Mnemonic::Dcp, AddressingMode::IndirectIndexed, 8)),
        0xD5 => Some(Opcode::new(Mnemonic::Cmp, AddressingMode::ZeroPageX, 4)),
        0xD6 => Some(Opcode::new(Mnemonic::Dec, AddressingMode::ZeroPageX, 6)),
        0xD7 => Some(Opcode::new(Mnemonic::Dcp, AddressingMode::ZeroPageX, 6)),
        0xD8 => Some(Opcode::new(Mnemonic::Cld, AddressingMode::Implied, 2)),
        0xD9 => Some(Opcode::new(Mnemonic::Cmp, AddressingMode::AbsoluteY, 4)),
        0xDB => Some(Opcode::new(Mnemonic::Dcp, AddressingMode::AbsoluteY, 7)),
        0xDD => Some(Opcode::new(Mnemonic::Cmp, AddressingMode::AbsoluteX, 4)),
        0xDE => Some(Opcode::new(Mnemonic::Dec, AddressingMode::AbsoluteX, 7)),
        0xDF => Some(Opcode::new(Mnemonic::Dcp, AddressingMode::AbsoluteX, 7)),
        0xE0 => Some(Opcode::new(Mnemonic::Cpx, AddressingMode::Immediate, 2)),
        0xE1 => Some(Opcode::new(Mnemonic::Sbc, AddressingMode::IndexedIndirect, 6)),
        0xE3 => Some(Opcode::new(Mnemonic::Isc, AddressingMode::IndexedIndirect, 8)),
        0xE4 => Some(Opcode::new(Mnemonic::Cpx, AddressingMode::ZeroPage, 3)),
        0xE5 => Some(Opcode::new(Mnemonic::Sbc, AddressingMode::ZeroPage, 3)),
        0xE6 => Some(Opcode::new(Mnemonic::Inc, AddressingMode::ZeroPage, 5)),
        0xE7 => Some(Opcode::new(Mnemonic::Isc, AddressingMode::ZeroPage, 5)),
        0xE8 => Some(Opcode::new(Mnemonic::Inx, AddressingMode::Implied, 2)),
        0xE9 => Some(Opcode::new(Mnemonic::Sbc, AddressingMode::Immediate, 2)),
        0xEA => Some(Opcode::new(Mnemonic::Nop, AddressingMode::Implied, 2)),
        0xEC => Some(Opcode::new(Mnemonic::Cpx, AddressingMode::Absolute, 4)),
        0xED => Some(Opcode::new(Mnemonic::Sbc, AddressingMode::Absolute, 4)),
        0xEE => Some(Opcode::new(Mnemonic::Inc, AddressingMode::Absolute, 6)),
        0xEF => Some(Opcode::new(Mnemonic::Isc, AddressingMode::Absolute, 6)),
        0xF0 => Some(Opcode::new(Mnemonic::Beq, AddressingMode::Relative, 2)),
        0xF1 => Some(Opcode::new(Mnemonic::Sbc, AddressingMode::IndirectIndexed, 5)),
        0xF3 => Some(Opcode::new(Mnemonic::Isc, AddressingMode::IndirectIndexed, 8)),
        0xF5 => Some(Opcode::new(Mnemonic::Sbc, AddressingMode::ZeroPageX, 4)),
        0xF6 => Some(Opcode::new(Mnemonic::Inc, AddressingMode::ZeroPageX, 6)),
        0xF7 => Some(Opcode::new(Mnemonic::Isc, AddressingMode::ZeroPageX, 6)),
        0xF8 => Some(Opcode::new(Mnemonic::Sed, AddressingMode::Implied, 2)),
        0xF9 => Some(Opcode::new(Mnemonic::Sbc, AddressingMode::AbsoluteY, 4)),
        0xFB => Some(Opcode::new(Mnemonic::Isc, AddressingMode::AbsoluteY, 7)),
        0xFD => Some(Opcode::new(Mnemonic::Sbc, AddressingMode::AbsoluteX, 4)),
        0xFE => Some(Opcode::new(Mnemonic::Inc, AddressingMode::AbsoluteX, 7)),
        0xFF => Some(Opcode::new(Mnemonic::Isc, AddressingMode::AbsoluteX, 7)),
        _ => None,
    }
}

/// Builds the full decode table, indexed by opcode byte.
pub fn build_opcode_table() -> (r: [Option<Opcode>; 256])
    ensures
        forall|i: int| 0 <= i < 256 ==> #[trigger] r[i] == opcode_entry(i as u8),
{
    let mut table: [Option<Opcode>; 256] = [None; 256];
    let mut i: usize = 0;
    while i < 256
        invariant
            i <= 256,
            forall|j: int| 0 <= j < i ==> #[trigger] table[j] == opcode_entry(j as u8),
        decreases 256 - i,
    {
        table[i] = decode_opcode(i as u8);
        i = i + 1;
    }
    table
}

} // verus!
