//! The opcode dispatch table: a total map from the 256 opcode bytes to a
//! triple of operation, addressing mode and base cycle count, covering
//! the 151 documented opcodes and the common undocumented ones. A byte
//! with no entry is an illegal opcode: dispatching it is a fatal
//! precondition violation, never a silent no-op.

use vstd::prelude::*;

verus! {

/// An executable operation, including the documented undocumented ones.
/// `AslA`, `LsrA`, `RolA` and `RorA` are the accumulator forms of the
/// shifts; `NopAddr` is the addressed form of NOP, whose addressing-mode
/// side effects (operand read, cycle penalties) still occur.
#[derive(Clone, Copy, Debug, PartialEq, Eq, Structural)]
pub enum Op {
    Adc,
    And,
    Asl,
    AslA,
    Bcc,
    Bcs,
    Beq,
    Bit,
    Bmi,
    Bne,
    Bpl,
    Brk,
    Bvc,
    Bvs,
    Clc,
    Cld,
    Cli,
    Clv,
    Cmp,
    Cpx,
    Cpy,
    Dcp,
    Dec,
    Dex,
    Dey,
    Eor,
    Inc,
    Inx,
    Iny,
    Isc,
    Jmp,
    Jsr,
    Lax,
    Lda,
    Ldx,
    Ldy,
    Lsr,
    LsrA,
    Nop,
    NopAddr,
    Ora,
    Pha,
    Php,
    Pla,
    Plp,
    Rla,
    Rol,
    RolA,
    Ror,
    RorA,
    Rra,
    Rti,
    Rts,
    Sax,
    Sbc,
    Sec,
    Sed,
    Sei,
    Slo,
    Sre,
    Sta,
    Stx,
    Sty,
    Tax,
    Tay,
    Tsx,
    Txa,
    Txs,
    Tya,}

/// An addressing mode. The `Store` variants compute the same address as
/// their plain forms but never pay the page-cross cycle penalty; they
/// are used by stores and by the read-modify-write undocumented opcodes.
#[derive(Clone, Copy, Debug, PartialEq, Eq, Structural)]
pub enum Mode {
    Implied,
    Immediate,
    ZeroPage,
    ZeroPageX,
    ZeroPageY,
    Absolute,
    AbsoluteX,
    AbsoluteXStore,
    AbsoluteY,
    AbsoluteYStore,
    Indirect,
    IndexedIndirect,
    IndirectIndexed,
    IndirectIndexedStore,
}

/// One opcode table entry: the operation, its addressing mode, and the
/// base cycle count from the MOS 6502 datasheet (penalties for page
/// crossings and taken branches are added separately).
#[derive(Clone, Copy, Debug, PartialEq, Eq, Structural)]
pub struct Instr {
    pub op: Op,
    pub mode: Mode,
    pub cycles: u8,
}

/// The encoded length, in bytes, of an instruction with this mode.
pub open spec fn spec_mode_len(mode: Mode) -> u16 {
    match mode {
        Mode::Implied => 1,
        Mode::Immediate => 2,
        Mode::ZeroPage => 2,
        Mode::ZeroPageX => 2,
        Mode::ZeroPageY => 2,
        Mode::Absolute => 3,
        Mode::AbsoluteX => 3,
        Mode::AbsoluteXStore => 3,
        Mode::AbsoluteY => 3,
        Mode::AbsoluteYStore => 3,
        Mode::Indirect => 3,
        Mode::IndexedIndirect => 2,
        Mode::IndirectIndexed => 2,
        Mode::IndirectIndexedStore => 2,
    }
}

pub fn mode_len(mode: Mode) -> (r: u16)
    ensures
        r == spec_mode_len(mode),
{
    match mode {
        Mode::Implied => 1,
        Mode::Immediate => 2,
        Mode::ZeroPage => 2,
        Mode::ZeroPageX => 2,
        Mode::ZeroPageY => 2,
        Mode::Absolute => 3,
        Mode::AbsoluteX => 3,
        Mode::AbsoluteXStore => 3,
        Mode::AbsoluteY => 3,
        Mode::AbsoluteYStore => 3,
        Mode::Indirect => 3,
        Mode::IndexedIndirect => 2,
        Mode::IndirectIndexed => 2,
        Mode::IndirectIndexedStore => 2,
    }
}

/// Shorthand for a table entry.
pub open spec fn some_instr(op: Op, mode: Mode, cycles: u8) -> Option<Instr> {
    Option::Some(Instr { op, mode, cycles })
}

fn mk(op: Op, mode: Mode, cycles: u8) -> (r: Option<Instr>)
    ensures
        r == some_instr(op, mode, cycles),
{
    Option::Some(Instr { op, mode, cycles })
}

/// The opcode table. `None` marks an illegal opcode. The definition is
/// opaque: reasoning about a particular opcode byte goes through
/// `decode` or an explicit `reveal`.
#[verifier::opaque]
pub open spec fn spec_decode(opcode: u8) -> Option<Instr> {
    match opcode {
        0x00 => some_instr(Op::Brk, Mode::Implied, 7),
        0x01 => some_instr(Op::Ora, Mode::IndexedIndirect, 6),
        0x03 => some_instr(Op::Slo, Mode::IndexedIndirect, 8),
        0x04 => some_instr(Op::NopAddr, Mode::ZeroPage, 3),
        0x05 => some_instr(Op::Ora, Mode::ZeroPage, 3),
        0x06 => some_instr(Op::Asl, Mode::ZeroPage, 5),
        0x07 => some_instr(Op::Slo, Mode::ZeroPage, 5),
        0x08 => some_instr(Op::Php, Mode::Implied, 3),
        0x09 => some_instr(Op::Ora, Mode::Immediate, 2),
        0x0a => some_instr(Op::AslA, Mode::Implied, 2),
        0x0c => some_instr(Op::NopAddr, Mode::Absolute, 4),
        0x0d => some_instr(Op::Ora, Mode::Absolute, 4),
        0x0e => some_instr(Op::Asl, Mode::Absolute, 6),
        0x0f => some_instr(Op::Slo, Mode::Absolute, 6),
        0x10 => some_instr(Op::Bpl, Mode::Immediate, 2),
        0x11 => some_instr(Op::Ora, Mode::IndirectIndexed, 5),
        0x13 => some_instr(Op::Slo, Mode::IndirectIndexedStore, 8),
        0x14 => some_instr(Op::NopAddr, Mode::ZeroPageX, 4),
        0x15 => some_instr(Op::Ora, Mode::ZeroPageX, 4),
        0x16 => some_instr(Op::Asl, Mode::ZeroPageX, 6),
        0x17 => some_instr(Op::Slo, Mode::ZeroPageX, 6),
        0x18 => some_instr(Op::Clc, Mode::Implied, 2),
        0x19 => some_instr(Op::Ora, Mode::AbsoluteY, 4),
        0x1a => some_instr(Op::Nop, Mode::Implied, 2),
        0x1b => some_instr(Op::Slo, Mode::AbsoluteYStore, 7),
        0x1c => some_instr(Op::NopAddr, Mode::AbsoluteX, 4),
        0x1d => some_instr(Op::Ora, Mode::AbsoluteX, 4),
        0x1e => some_instr(Op::Asl, Mode::AbsoluteX, 7),
        0x1f => some_instr(Op::Slo, Mode::AbsoluteXStore, 7),
        0x20 => some_instr(Op::Jsr, Mode::Absolute, 6),
        0x21 => some_instr(Op::And, Mode::IndexedIndirect, 6),
        0x23 => some_instr(Op::Rla, Mode::IndexedIndirect, 8),
        0x24 => some_instr(Op::Bit, Mode::ZeroPage, 3),
        0x25 => some_instr(Op::And, Mode::ZeroPage, 3),
        0x26 => some_instr(Op::Rol, Mode::ZeroPage, 5),
        0x27 => some_instr(Op::Rla, Mode::ZeroPage, 5),
        0x28 => some_instr(Op::Plp, Mode::Implied, 4),
        0x29 => some_instr(Op::And, Mode::Immediate, 2),
        0x2a => some_instr(Op::RolA, Mode::Implied, 2),
        0x2c => some_instr(Op::Bit, Mode::Absolute, 4),
        0x2d => some_instr(Op::And, Mode::Absolute, 4),
        0x2e => some_instr(Op::Rol, Mode::Absolute, 6),
        0x2f => some_instr(Op::Rla, Mode::Absolute, 6),
        0x30 => some_instr(Op::Bmi, Mode::Immediate, 2),
        0x31 => some_instr(Op::And, Mode::IndirectIndexed, 5),
        0x33 => some_instr(Op::Rla, Mode::IndirectIndexedStore, 8),
        0x34 => some_instr(Op::NopAddr, Mode::ZeroPageX, 4),
        0x35 => some_instr(Op::And, Mode::ZeroPageX, 4),
        0x36 => some_instr(Op::Rol, Mode::ZeroPageX, 6),
        0x37 => some_instr(Op::Rla, Mode::ZeroPageX, 6),
        0x38 => some_instr(Op::Sec, Mode::Implied, 2),
        0x39 => some_instr(Op::And, Mode::AbsoluteY, 4),
        0x3a => some_instr(Op::Nop, Mode::Implied, 2),
        0x3b => some_instr(Op::Rla, Mode::AbsoluteYStore, 7),
        0x3c => some_instr(Op::NopAddr, Mode::AbsoluteX, 4),
        0x3d => some_instr(Op::And, Mode::AbsoluteX, 4),
        0x3e => some_instr(Op::Rol, Mode::AbsoluteX, 7),
        0x3f => some_instr(Op::Rla, Mode::AbsoluteXStore, 7),
        0x40 => some_instr(Op::Rti, Mode::Implied, 6),
        0x41 => some_instr(Op::Eor, Mode::IndexedIndirect, 6),
        0x43 => some_instr(Op::Sre, Mode::IndexedIndirect, 8),
        0x44 => some_instr(Op::NopAddr, Mode::ZeroPage, 3),
        0x45 => some_instr(Op::Eor, Mode::ZeroPage, 3),
        0x46 => some_instr(Op::Lsr, Mode::ZeroPage, 5),
        0x47 => some_instr(Op::Sre, Mode::ZeroPage, 5),
        0x48 => some_instr(Op::Pha, Mode::Implied, 3),
        0x49 => some_instr(Op::Eor, Mode::Immediate, 2),
        0x4a => some_instr(Op::LsrA, Mode::Implied, 2),
        0x4c => some_instr(Op::Jmp, Mode::Absolute, 3),
        0x4d => some_instr(Op::Eor, Mode::Absolute, 4),
        0x4e => some_instr(Op::Lsr, Mode::Absolute, 6),
        0x4f => some_instr(Op::Sre, Mode::Absolute, 6),
        0x50 => some_instr(Op::Bvc, Mode::Immediate, 2),
        0x51 => some_instr(Op::Eor, Mode::IndirectIndexed, 5),
        0x53 => some_instr(Op::Sre, Mode::IndirectIndexed, 8),
        0x54 => some_instr(Op::NopAddr, Mode::ZeroPageX, 4),
        0x55 => some_instr(Op::Eor, Mode::ZeroPageX, 4),
        0x56 => some_instr(Op::Lsr, Mode::ZeroPageX, 6),
        0x57 => some_instr(Op::Sre, Mode::ZeroPageX, 6),
        0x58 => some_instr(Op::Cli, Mode::Implied, 2),
        0x59 => some_instr(Op::Eor, Mode::AbsoluteY, 4),
        0x5a => some_instr(Op::Nop, Mode::Implied, 2),
        0x5b => some_instr(Op::Sre, Mode::AbsoluteY, 7),
        0x5c => some_instr(Op::NopAddr, Mode::AbsoluteX, 4),
        0x5d => some_instr(Op::Eor, Mode::AbsoluteX, 4),
        0x5e => some_instr(Op::Lsr, Mode::AbsoluteX, 7),
        0x5f => some_instr(Op::Sre, Mode::AbsoluteX, 7),
        0x60 => some_instr(Op::Rts, Mode::Implied, 6),
        0x61 => some_instr(Op::Adc, Mode::IndexedIndirect, 6),
        0x63 => some_instr(Op::Rra, Mode::IndexedIndirect, 8),
        0x64 => some_instr(Op::NopAddr, Mode::ZeroPage, 3),
        0x65 => some_instr(Op::Adc, Mode::ZeroPage, 3),
        0x66 => some_instr(Op::Ror, Mode::ZeroPage, 5),
        0x67 => some_instr(Op::Rra, Mode::ZeroPage, 5),
        0x68 => some_instr(Op::Pla, Mode::Implied, 4),
        0x69 => some_instr(Op::Adc, Mode::Immediate, 2),
        0x6a => some_instr(Op::RorA, Mode::Implied, 2),
        0x6c => some_instr(Op::Jmp, Mode::Indirect, 5),
        0x6d => some_instr(Op::Adc, Mode::Absolute, 4),
        0x6e => some_instr(Op::Ror, Mode::Absolute, 6),
        0x6f => some_instr(Op::Rra, Mode::Absolute, 6),
        0x70 => some_instr(Op::Bvs, Mode::Immediate, 2),
        0x71 => some_instr(Op::Adc, Mode::IndirectIndexed, 5),
        0x73 => some_instr(Op::Rra, Mode::IndirectIndexed, 8),
        0x74 => some_instr(Op::NopAddr, Mode::ZeroPageX, 4),
        0x75 => some_instr(Op::Adc, Mode::ZeroPageX, 4),
        0x76 => some_instr(Op::Ror, Mode::ZeroPageX, 6),
        0x77 => some_instr(Op::Rra, Mode::ZeroPageX, 6),
        0x78 => some_instr(Op::Sei, Mode::Implied, 2),
        0x79 => some_instr(Op::Adc, Mode::AbsoluteY, 4),
        0x7a => some_instr(Op::Nop, Mode::Implied, 2),
        0x7b => some_instr(Op::Rra, Mode::AbsoluteY, 7),
        0x7c => some_instr(Op::NopAddr, Mode::AbsoluteX, 4),
        0x7d => some_instr(Op::Adc, Mode::AbsoluteX, 4),
        0x7e => some_instr(Op::Ror, Mode::AbsoluteX, 7),
        0x7f => some_instr(Op::Rra, Mode::AbsoluteX, 7),
        0x80 => some_instr(Op::NopAddr, Mode::Immediate, 2),
        0x81 => some_instr(Op::Sta, Mode::IndexedIndirect, 6),
        0x83 => some_instr(Op::Sax, Mode::IndexedIndirect, 6),
        0x84 => some_instr(Op::Sty, Mode::ZeroPage, 3),
        0x85 => some_instr(Op::Sta, Mode::ZeroPage, 3),
        0x86 => some_instr(Op::Stx, Mode::ZeroPage, 3),
        0x87 => some_instr(Op::Sax, Mode::ZeroPage, 3),
        0x88 => some_instr(Op::Dey, Mode::Implied, 2),
        0x8a => some_instr(Op::Txa, Mode::Implied, 2),
        0x8c => some_instr(Op::Sty, Mode::Absolute, 4),
        0x8d => some_instr(Op::Sta, Mode::Absolute, 4),
        0x8e => some_instr(Op::Stx, Mode::Absolute, 4),
        0x8f => some_instr(Op::Sax, Mode::Absolute, 4),
        0x90 => some_instr(Op::Bcc, Mode::Immediate, 2),
        0x91 => some_instr(Op::Sta, Mode::IndirectIndexed, 6),
        0x94 => some_instr(Op::Sty, Mode::ZeroPageX, 4),
        0x95 => some_instr(Op::Sta, Mode::ZeroPageX, 4),
        0x96 => some_instr(Op::Stx, Mode::ZeroPageY, 4),
        0x97 => some_instr(Op::Sax, Mode::ZeroPageY, 4),
        0x98 => some_instr(Op::Tya, Mode::Implied, 2),
        0x99 => some_instr(Op::Sta, Mode::AbsoluteYStore, 5),
        0x9a => some_instr(Op::Txs, Mode::Implied, 2),
        0x9d => some_instr(Op::Sta, Mode::AbsoluteXStore, 5),
        0xa0 => some_instr(Op::Ldy, Mode::Immediate, 2),
        0xa1 => some_instr(Op::Lda, Mode::IndexedIndirect, 6),
        0xa2 => some_instr(Op::Ldx, Mode::Immediate, 2),
        0xa3 => some_instr(Op::Lax, Mode::IndexedIndirect, 6),
        0xa4 => some_instr(Op::Ldy, Mode::ZeroPage, 3),
        0xa5 => some_instr(Op::Lda, Mode::ZeroPage, 3),
        0xa6 => some_instr(Op::Ldx, Mode::ZeroPage, 3),
        0xa7 => some_instr(Op::Lax, Mode::ZeroPage, 3),
        0xa8 => some_instr(Op::Tay, Mode::Implied, 2),
        0xa9 => some_instr(Op::Lda, Mode::Immediate, 2),
        0xaa => some_instr(Op::Tax, Mode::Implied, 2),
        0xac => some_instr(Op::Ldy, Mode::Absolute, 4),
        0xad => some_instr(Op::Lda, Mode::Absolute, 4),
        0xae => some_instr(Op::Ldx, Mode::Absolute, 4),
        0xaf => some_instr(Op::Lax, Mode::Absolute, 4),
        0xb0 => some_instr(Op::Bcs, Mode::Immediate, 2),
        0xb1 => some_instr(Op::Lda, Mode::IndirectIndexed, 5),
        0xb3 => some_instr(Op::Lax, Mode::IndirectIndexed, 5),
        0xb4 => some_instr(Op::Ldy, Mode::ZeroPageX, 4),
        0xb5 => some_instr(Op::Lda, Mode::ZeroPageX, 4),
        0xb6 => some_instr(Op::Ldx, Mode::ZeroPageY, 4),
        0xb7 => some_instr(Op::Lax, Mode::ZeroPageY, 4),
        0xb8 => some_instr(Op::Clv, Mode::Implied, 2),
        0xb9 => some_instr(Op::Lda, Mode::AbsoluteY, 4),
        0xba => some_instr(Op::Tsx, Mode::Implied, 2),
        0xbc => some_instr(Op::Ldy, Mode::AbsoluteX, 4),
        0xbd => some_instr(Op::Lda, Mode::AbsoluteX, 4),
        0xbe => some_instr(Op::Ldx, Mode::AbsoluteY, 4),
        0xbf => some_instr(Op::Lax, Mode::AbsoluteY, 4),
        0xc0 => some_instr(Op::Cpy, Mode::Immediate, 2),
        0xc1 => some_instr(Op::Cmp, Mode::IndexedIndirect, 6),
        0xc3 => some_instr(Op::Dcp, Mode::IndexedIndirect, 8),
        0xc4 => some_instr(Op::Cpy, Mode::ZeroPage, 3),
        0xc5 => some_instr(Op::Cmp, Mode::ZeroPage, 3),
        0xc6 => some_instr(Op::Dec, Mode::ZeroPage, 5),
        0xc7 => some_instr(Op::Dcp, Mode::ZeroPage, 5),
        0xc8 => some_instr(Op::Iny, Mode::Implied, 2),
        0xc9 => some_instr(Op::Cmp, Mode::Immediate, 2),
        0xca => some_instr(Op::Dex, Mode::Implied, 2),
        0xcc => some_instr(Op::Cpy, Mode::Absolute, 4),
        0xcd => some_instr(Op::Cmp, Mode::Absolute, 4),
        0xce => some_instr(Op::Dec, Mode::Absolute, 6),
        0xcf => some_instr(Op::Dcp, Mode::Absolute, 6),
        0xd0 => some_instr(Op::Bne, Mode::Immediate, 2),
        0xd1 => some_instr(Op::Cmp, Mode::IndirectIndexed, 5),
        0xd3 => some_instr(Op::Dcp, Mode::IndirectIndexedStore, 8),
        0xd4 => some_instr(Op::NopAddr, Mode::ZeroPageX, 4),
        0xd5 => some_instr(Op::Cmp, Mode::ZeroPageX, 4),
        0xd6 => some_instr(Op::Dec, Mode::ZeroPageX, 6),
        0xd7 => some_instr(Op::Dcp, Mode::ZeroPageX, 6),
        0xd8 => some_instr(Op::Cld, Mode::Implied, 2),
        0xd9 => some_instr(Op::Cmp, Mode::AbsoluteY, 4),
        0xda => some_instr(Op::Nop, Mode::Implied, 2),
        0xdb => some_instr(Op::Dcp, Mode::AbsoluteYStore, 7),
        0xdc => some_instr(Op::NopAddr, Mode::AbsoluteX, 4),
        0xdd => some_instr(Op::Cmp, Mode::AbsoluteX, 4),
        0xde => some_instr(Op::Dec, Mode::AbsoluteX, 7),
        0xdf => some_instr(Op::Dcp, Mode::AbsoluteXStore, 7),
        0xe0 => some_instr(Op::Cpx, Mode::Immediate, 2),
        0xe1 => some_instr(Op::Sbc, Mode::IndexedIndirect, 6),
        0xe3 => some_instr(Op::Isc, Mode::IndexedIndirect, 8),
        0xe4 => some_instr(Op::Cpx, Mode::ZeroPage, 3),
        0xe5 => some_instr(Op::Sbc, Mode::ZeroPage, 3),
        0xe6 => some_instr(Op::Inc, Mode::ZeroPage, 5),
        0xe7 => some_instr(Op::Isc, Mode::ZeroPage, 5),
        0xe8 => some_instr(Op::Inx, Mode::Implied, 2),
        0xe9 => some_instr(Op::Sbc, Mode::Immediate, 2),
        0xea => some_instr(Op::Nop, Mode::Implied, 2),
        0xeb => some_instr(Op::Sbc, Mode::Immediate, 2),
        0xec => some_instr(Op::Cpx, Mode::Absolute, 4),
        0xed => some_instr(Op::Sbc, Mode::Absolute, 4),
        0xee => some_instr(Op::Inc, Mode::Absolute, 6),
        0xef => some_instr(Op::Isc, Mode::Absolute, 6),
        0xf0 => some_instr(Op::Beq, Mode::Immediate, 2),
        0xf1 => some_instr(Op::Sbc, Mode::IndirectIndexed, 5),
        0xf3 => some_instr(Op::Isc, Mode::IndirectIndexedStore, 8),
        0xf4 => some_instr(Op::NopAddr, Mode::ZeroPageX, 4),
        0xf5 => some_instr(Op::Sbc, Mode::ZeroPageX, 4),
        0xf6 => some_instr(Op::Inc, Mode::ZeroPageX, 6),
        0xf7 => some_instr(Op::Isc, Mode::ZeroPageX, 6),
        0xf8 => some_instr(Op::Sed, Mode::Implied, 2),
        0xf9 => some_instr(Op::Sbc, Mode::AbsoluteY, 4),
        0xfa => some_instr(Op::Nop, Mode::Implied, 2),
        0xfb => some_instr(Op::Isc, Mode::AbsoluteYStore, 7),
        0xfc => some_instr(Op::NopAddr, Mode::AbsoluteX, 4),
        0xfd => some_instr(Op::Sbc, Mode::AbsoluteX, 4),
        0xfe => some_instr(Op::Inc, Mode::AbsoluteX, 7),
        0xff => some_instr(Op::Isc, Mode::AbsoluteXStore, 7),        _ => Option::None,
    }
}

/// Looks an opcode byte up in the table.
pub fn decode(opcode: u8) -> (r: Option<Instr>)
    ensures
        r == spec_decode(opcode),
{
    proof {
        reveal(spec_decode);
    }
    match opcode {
        0x00 => mk(Op::Brk, Mode::Implied, 7),
        0x01 => mk(Op::Ora, Mode::IndexedIndirect, 6),
        0x03 => mk(Op::Slo, Mode::IndexedIndirect, 8),
        0x04 => mk(Op::NopAddr, Mode::ZeroPage, 3),
        0x05 => mk(Op::Ora, Mode::ZeroPage, 3),
        0x06 => mk(Op::Asl, Mode::ZeroPage, 5),
        0x07 => mk(Op::Slo, Mode::ZeroPage, 5),
        0x08 => mk(Op::Php, Mode::Implied, 3),
        0x09 => mk(Op::Ora, Mode::Immediate, 2),
        0x0a => mk(Op::AslA, Mode::Implied, 2),
        0x0c => mk(Op::NopAddr, Mode::Absolute, 4),
        0x0d => mk(Op::Ora, Mode::Absolute, 4),
        0x0e => mk(Op::Asl, Mode::Absolute, 6),
        0x0f => mk(Op::Slo, Mode::Absolute, 6),
        0x10 => mk(Op::Bpl, Mode::Immediate, 2),
        0x11 => mk(Op::Ora, Mode::IndirectIndexed, 5),
        0x13 => mk(Op::Slo, Mode::IndirectIndexedStore, 8),
        0x14 => mk(Op::NopAddr, Mode::ZeroPageX, 4),
        0x15 => mk(Op::Ora, Mode::ZeroPageX, 4),
        0x16 => mk(Op::Asl, Mode::ZeroPageX, 6),
        0x17 => mk(Op::Slo, Mode::ZeroPageX, 6),
        0x18 => mk(Op::Clc, Mode::Implied, 2),
        0x19 => mk(Op::Ora, Mode::AbsoluteY, 4),
        0x1a => mk(Op::Nop, Mode::Implied, 2),
        0x1b => mk(Op::Slo, Mode::AbsoluteYStore, 7),
        0x1c => mk(Op::NopAddr, Mode::AbsoluteX, 4),
        0x1d => mk(Op::Ora, Mode::AbsoluteX, 4),
        0x1e => mk(Op::Asl, Mode::AbsoluteX, 7),
        0x1f => mk(Op::Slo, Mode::AbsoluteXStore, 7),
        0x20 => mk(Op::Jsr, Mode::Absolute, 6),
        0x21 => mk(Op::And, Mode::IndexedIndirect, 6),
        0x23 => mk(Op::Rla, Mode::IndexedIndirect, 8),
        0x24 => mk(Op::Bit, Mode::ZeroPage, 3),
        0x25 => mk(Op::And, Mode::ZeroPage, 3),
        0x26 => mk(Op::Rol, Mode::ZeroPage, 5),
        0x27 => mk(Op::Rla, Mode::ZeroPage, 5),
        0x28 => mk(Op::Plp, Mode::Implied, 4),
        0x29 => mk(Op::And, Mode::Immediate, 2),
        0x2a => mk(Op::RolA, Mode::Implied, 2),
        0x2c => mk(Op::Bit, Mode::Absolute, 4),
        0x2d => mk(Op::And, Mode::Absolute, 4),
        0x2e => mk(Op::Rol, Mode::Absolute, 6),
        0x2f => mk(Op::Rla, Mode::Absolute, 6),
        0x30 => mk(Op::Bmi, Mode::Immediate, 2),
        0x31 => mk(Op::And, Mode::IndirectIndexed, 5),
        0x33 => mk(Op::Rla, Mode::IndirectIndexedStore, 8),
        0x34 => mk(Op::NopAddr, Mode::ZeroPageX, 4),
        0x35 => mk(Op::And, Mode::ZeroPageX, 4),
        0x36 => mk(Op::Rol, Mode::ZeroPageX, 6),
        0x37 => mk(Op::Rla, Mode::ZeroPageX, 6),
        0x38 => mk(Op::Sec, Mode::Implied, 2),
        0x39 => mk(Op::And, Mode::AbsoluteY, 4),
        0x3a => mk(Op::Nop, Mode::Implied, 2),
        0x3b => mk(Op::Rla, Mode::AbsoluteYStore, 7),
        0x3c => mk(Op::NopAddr, Mode::AbsoluteX, 4),
        0x3d => mk(Op::And, Mode::AbsoluteX, 4),
        0x3e => mk(Op::Rol, Mode::AbsoluteX, 7),
        0x3f => mk(Op::Rla, Mode::AbsoluteXStore, 7),
        0x40 => mk(Op::Rti, Mode::Implied, 6),
        0x41 => mk(Op::Eor, Mode::IndexedIndirect, 6),
        0x43 => mk(Op::Sre, Mode::IndexedIndirect, 8),
        0x44 => mk(Op::NopAddr, Mode::ZeroPage, 3),
        0x45 => mk(Op::Eor, Mode::ZeroPage, 3),
        0x46 => mk(Op::Lsr, Mode::ZeroPage, 5),
        0x47 => mk(Op::Sre, Mode::ZeroPage, 5),
        0x48 => mk(Op::Pha, Mode::Implied, 3),
        0x49 => mk(Op::Eor, Mode::Immediate, 2),
        0x4a => mk(Op::LsrA, Mode::Implied, 2),
        0x4c => mk(Op::Jmp, Mode::Absolute, 3),
        0x4d => mk(Op::Eor, Mode::Absolute, 4),
        0x4e => mk(Op::Lsr, Mode::Absolute, 6),
        0x4f => mk(Op::Sre, Mode::Absolute, 6),
        0x50 => mk(Op::Bvc, Mode::Immediate, 2),
        0x51 => mk(Op::Eor, Mode::IndirectIndexed, 5),
        0x53 => mk(Op::Sre, Mode::IndirectIndexed, 8),
        0x54 => mk(Op::NopAddr, Mode::ZeroPageX, 4),
        0x55 => mk(Op::Eor, Mode::ZeroPageX, 4),
        0x56 => mk(Op::Lsr, Mode::ZeroPageX, 6),
        0x57 => mk(Op::Sre, Mode::ZeroPageX, 6),
        0x58 => mk(Op::Cli, Mode::Implied, 2),
        0x59 => mk(Op::Eor, Mode::AbsoluteY, 4),
        0x5a => mk(Op::Nop, Mode::Implied, 2),
        0x5b => mk(Op::Sre, Mode::AbsoluteY, 7),
        0x5c => mk(Op::NopAddr, Mode::AbsoluteX, 4),
        0x5d => mk(Op::Eor, Mode::AbsoluteX, 4),
        0x5e => mk(Op::Lsr, Mode::AbsoluteX, 7),
        0x5f => mk(Op::Sre, Mode::AbsoluteX, 7),
        0x60 => mk(Op::Rts, Mode::Implied, 6),
        0x61 => mk(Op::Adc, Mode::IndexedIndirect, 6),
        0x63 => mk(Op::Rra, Mode::IndexedIndirect, 8),
        0x64 => mk(Op::NopAddr, Mode::ZeroPage, 3),
        0x65 => mk(Op::Adc, Mode::ZeroPage, 3),
        0x66 => mk(Op::Ror, Mode::ZeroPage, 5),
        0x67 => mk(Op::Rra, Mode::ZeroPage, 5),
        0x68 => mk(Op::Pla, Mode::Implied, 4),
        0x69 => mk(Op::Adc, Mode::Immediate, 2),
        0x6a => mk(Op::RorA, Mode::Implied, 2),
        0x6c => mk(Op::Jmp, Mode::Indirect, 5),
        0x6d => mk(Op::Adc, Mode::Absolute, 4),
        0x6e => mk(Op::Ror, Mode::Absolute, 6),
        0x6f => mk(Op::Rra, Mode::Absolute, 6),
        0x70 => mk(Op::Bvs, Mode::Immediate, 2),
        0x71 => mk(Op::Adc, Mode::IndirectIndexed, 5),
        0x73 => mk(Op::Rra, Mode::IndirectIndexed, 8),
        0x74 => mk(Op::NopAddr, Mode::ZeroPageX, 4),
        0x75 => mk(Op::Adc, Mode::ZeroPageX, 4),
        0x76 => mk(Op::Ror, Mode::ZeroPageX, 6),
        0x77 => mk(Op::Rra, Mode::ZeroPageX, 6),
        0x78 => mk(Op::Sei, Mode::Implied, 2),
        0x79 => mk(Op::Adc, Mode::AbsoluteY, 4),
        0x7a => mk(Op::Nop, Mode::Implied, 2),
        0x7b => mk(Op::Rra, Mode::AbsoluteY, 7),
        0x7c => mk(Op::NopAddr, Mode::AbsoluteX, 4),
        0x7d => mk(Op::Adc, Mode::AbsoluteX, 4),
        0x7e => mk(Op::Ror, Mode::AbsoluteX, 7),
        0x7f => mk(Op::Rra, Mode::AbsoluteX, 7),
        0x80 => mk(Op::NopAddr, Mode::Immediate, 2),
        0x81 => mk(Op::Sta, Mode::IndexedIndirect, 6),
        0x83 => mk(Op::Sax, Mode::IndexedIndirect, 6),
        0x84 => mk(Op::Sty, Mode::ZeroPage, 3),
        0x85 => mk(Op::Sta, Mode::ZeroPage, 3),
        0x86 => mk(Op::Stx, Mode::ZeroPage, 3),
        0x87 => mk(Op::Sax, Mode::ZeroPage, 3),
        0x88 => mk(Op::Dey, Mode::Implied, 2),
        0x8a => mk(Op::Txa, Mode::Implied, 2),
        0x8c => mk(Op::Sty, Mode::Absolute, 4),
        0x8d => mk(Op::Sta, Mode::Absolute, 4),
        0x8e => mk(Op::Stx, Mode::Absolute, 4),
        0x8f => mk(Op::Sax, Mode::Absolute, 4),
        0x90 => mk(Op::Bcc, Mode::Immediate, 2),
        0x91 => mk(Op::Sta, Mode::IndirectIndexed, 6),
        0x94 => mk(Op::Sty, Mode::ZeroPageX, 4),
        0x95 => mk(Op::Sta, Mode::ZeroPageX, 4),
        0x96 => mk(Op::Stx, Mode::ZeroPageY, 4),
        0x97 => mk(Op::Sax, Mode::ZeroPageY, 4),
        0x98 => mk(Op::Tya, Mode::Implied, 2),
        0x99 => mk(Op::Sta, Mode::AbsoluteYStore, 5),
        0x9a => mk(Op::Txs, Mode::Implied, 2),
        0x9d => mk(Op::Sta, Mode::AbsoluteXStore, 5),
        0xa0 => mk(Op::Ldy, Mode::Immediate, 2),
        0xa1 => mk(Op::Lda, Mode::IndexedIndirect, 6),
        0xa2 => mk(Op::Ldx, Mode::Immediate, 2),
        0xa3 => mk(Op::Lax, Mode::IndexedIndirect, 6),
        0xa4 => mk(Op::Ldy, Mode::ZeroPage, 3),
        0xa5 => mk(Op::Lda, Mode::ZeroPage, 3),
        0xa6 => mk(Op::Ldx, Mode::ZeroPage, 3),
        0xa7 => mk(Op::Lax, Mode::ZeroPage, 3),
        0xa8 => mk(Op::Tay, Mode::Implied, 2),
        0xa9 => mk(Op::Lda, Mode::Immediate, 2),
        0xaa => mk(Op::Tax, Mode::Implied, 2),
        0xac => mk(Op::Ldy, Mode::Absolute, 4),
        0xad => mk(Op::Lda, Mode::Absolute, 4),
        0xae => mk(Op::Ldx, Mode::Absolute, 4),
        0xaf => mk(Op::Lax, Mode::Absolute, 4),
        0xb0 => mk(Op::Bcs, Mode::Immediate, 2),
        0xb1 => mk(Op::Lda, Mode::IndirectIndexed, 5),
        0xb3 => mk(Op::Lax, Mode::IndirectIndexed, 5),
        0xb4 => mk(Op::Ldy, Mode::ZeroPageX, 4),
        0xb5 => mk(Op::Lda, Mode::ZeroPageX, 4),
        0xb6 => mk(Op::Ldx, Mode::ZeroPageY, 4),
        0xb7 => mk(Op::Lax, Mode::ZeroPageY, 4),
        0xb8 => mk(Op::Clv, Mode::Implied, 2),
        0xb9 => mk(Op::Lda, Mode::AbsoluteY, 4),
        0xba => mk(Op::Tsx, Mode::Implied, 2),
        0xbc => mk(Op::Ldy, Mode::AbsoluteX, 4),
        0xbd => mk(Op::Lda, Mode::AbsoluteX, 4),
        0xbe => mk(Op::Ldx, Mode::AbsoluteY, 4),
        0xbf => mk(Op::Lax, Mode::AbsoluteY, 4),
        0xc0 => mk(Op::Cpy, Mode::Immediate, 2),
        0xc1 => mk(Op::Cmp, Mode::IndexedIndirect, 6),
        0xc3 => mk(Op::Dcp, Mode::IndexedIndirect, 8),
        0xc4 => mk(Op::Cpy, Mode::ZeroPage, 3),
        0xc5 => mk(Op::Cmp, Mode::ZeroPage, 3),
        0xc6 => mk(Op::Dec, Mode::ZeroPage, 5),
        0xc7 => mk(Op::Dcp, Mode::ZeroPage, 5),
        0xc8 => mk(Op::Iny, Mode::Implied, 2),
        0xc9 => mk(Op::Cmp, Mode::Immediate, 2),
        0xca => mk(Op::Dex, Mode::Implied, 2),
        0xcc => mk(Op::Cpy, Mode::Absolute, 4),
        0xcd => mk(Op::Cmp, Mode::Absolute, 4),
        0xce => mk(Op::Dec, Mode::Absolute, 6),
        0xcf => mk(Op::Dcp, Mode::Absolute, 6),
        0xd0 => mk(Op::Bne, Mode::Immediate, 2),
        0xd1 => mk(Op::Cmp, Mode::IndirectIndexed, 5),
        0xd3 => mk(Op::Dcp, Mode::IndirectIndexedStore, 8),
        0xd4 => mk(Op::NopAddr, Mode::ZeroPageX, 4),
        0xd5 => mk(Op::Cmp, Mode::ZeroPageX, 4),
        0xd6 => mk(Op::Dec, Mode::ZeroPageX, 6),
        0xd7 => mk(Op::Dcp, Mode::ZeroPageX, 6),
        0xd8 => mk(Op::Cld, Mode::Implied, 2),
        0xd9 => mk(Op::Cmp, Mode::AbsoluteY, 4),
        0xda => mk(Op::Nop, Mode::Implied, 2),
        0xdb => mk(Op::Dcp, Mode::AbsoluteYStore, 7),
        0xdc => mk(Op::NopAddr, Mode::AbsoluteX, 4),
        0xdd => mk(Op::Cmp, Mode::AbsoluteX, 4),
        0xde => mk(Op::Dec, Mode::AbsoluteX, 7),
        0xdf => mk(Op::Dcp, Mode::AbsoluteXStore, 7),
        0xe0 => mk(Op::Cpx, Mode::Immediate, 2),
        0xe1 => mk(Op::Sbc, Mode::IndexedIndirect, 6),
        0xe3 => mk(Op::Isc, Mode::IndexedIndirect, 8),
        0xe4 => mk(Op::Cpx, Mode::ZeroPage, 3),
        0xe5 => mk(Op::Sbc, Mode::ZeroPage, 3),
        0xe6 => mk(Op::Inc, Mode::ZeroPage, 5),
        0xe7 => mk(Op::Isc, Mode::ZeroPage, 5),
        0xe8 => mk(Op::Inx, Mode::Implied, 2),
        0xe9 => mk(Op::Sbc, Mode::Immediate, 2),
        0xea => mk(Op::Nop, Mode::Implied, 2),
        0xeb => mk(Op::Sbc, Mode::Immediate, 2),
        0xec => mk(Op::Cpx, Mode::Absolute, 4),
        0xed => mk(Op::Sbc, Mode::Absolute, 4),
        0xee => mk(Op::Inc, Mode::Absolute, 6),
        0xef => mk(Op::Isc, Mode::Absolute, 6),
        0xf0 => mk(Op::Beq, Mode::Immediate, 2),
        0xf1 => mk(Op::Sbc, Mode::IndirectIndexed, 5),
        0xf3 => mk(Op::Isc, Mode::IndirectIndexedStore, 8),
        0xf4 => mk(Op::NopAddr, Mode::ZeroPageX, 4),
        0xf5 => mk(Op::Sbc, Mode::ZeroPageX, 4),
        0xf6 => mk(Op::Inc, Mode::ZeroPageX, 6),
        0xf7 => mk(Op::Isc, Mode::ZeroPageX, 6),
        0xf8 => mk(Op::Sed, Mode::Implied, 2),
        0xf9 => mk(Op::Sbc, Mode::AbsoluteY, 4),
        0xfa => mk(Op::Nop, Mode::Implied, 2),
        0xfb => mk(Op::Isc, Mode::AbsoluteYStore, 7),
        0xfc => mk(Op::NopAddr, Mode::AbsoluteX, 4),
        0xfd => mk(Op::Sbc, Mode::AbsoluteX, 4),
        0xfe => mk(Op::Inc, Mode::AbsoluteX, 7),
        0xff => mk(Op::Isc, Mode::AbsoluteXStore, 7),        _ => Option::None,
    }
}

/// Every table entry's base cycle count lies between 2 and 8.
pub proof fn lemma_decode_cycles(opcode: u8)
    ensures
        spec_decode(opcode) is Some ==> 2 <= spec_decode(opcode).unwrap().cycles <= 8,
{
    reveal(spec_decode);
}

} // verus!
