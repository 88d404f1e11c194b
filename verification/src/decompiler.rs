//! The disassembler: renders a program's bytes as one instruction per
//! line, mnemonic first, operand in the classic 6502 syntax (`#$xx`,
//! `$xxxx,X`, `($xx),Y`, ...). A byte with no table entry, or an
//! instruction whose operand runs past the end of the program,
//! disassembles as a `???` line advancing one byte.

use vstd::prelude::*;

use crate::instructions::{decode, mode_len, spec_decode, spec_mode_len, Mode, Op};
use crate::text::{push_hex2_lower, push_hex4_lower, spec_hex2_lower, spec_hex4_lower};

verus! {

/// The mnemonic of each operation, as the disassembler spells it.
pub open spec fn spec_mnemonic(op: Op) -> Seq<char> {
    match op {
        Op::Adc => "adc"@,
        Op::And => "and"@,
        Op::Asl => "asl"@,
        Op::AslA => "asla"@,
        Op::Bcc => "bcc"@,
        Op::Bcs => "bcs"@,
        Op::Beq => "beq"@,
        Op::Bit => "bit"@,
        Op::Bmi => "bmi"@,
        Op::Bne => "bne"@,
        Op::Bpl => "bpl"@,
        Op::Brk => "brk"@,
        Op::Bvc => "bvc"@,
        Op::Bvs => "bvs"@,
        Op::Clc => "clc"@,
        Op::Cld => "cld"@,
        Op::Cli => "cli"@,
        Op::Clv => "clv"@,
        Op::Cmp => "cmp"@,
        Op::Cpx => "cpx"@,
        Op::Cpy => "cpy"@,
        Op::Dcp => "dcp"@,
        Op::Dec => "dec"@,
        Op::Dex => "dex"@,
        Op::Dey => "dey"@,
        Op::Eor => "eor"@,
        Op::Inc => "inc"@,
        Op::Inx => "inx"@,
        Op::Iny => "iny"@,
        Op::Isc => "isc"@,
        Op::Jmp => "jmp"@,
        Op::Jsr => "jsr"@,
        Op::Lax => "lax"@,
        Op::Lda => "lda"@,
        Op::Ldx => "ldx"@,
        Op::Ldy => "ldy"@,
        Op::Lsr => "lsr"@,
        Op::LsrA => "lsra"@,
        Op::Nop => "nop"@,
        Op::NopAddr => "nop_addr"@,
        Op::Ora => "ora"@,
        Op::Pha => "pha"@,
        Op::Php => "php"@,
        Op::Pla => "pla"@,
        Op::Plp => "plp"@,
        Op::Rla => "rla"@,
        Op::Rol => "rol"@,
        Op::RolA => "rola"@,
        Op::Ror => "ror"@,
        Op::RorA => "rora"@,
        Op::Rra => "rra"@,
        Op::Rti => "rti"@,
        Op::Rts => "rts"@,
        Op::Sax => "sax"@,
        Op::Sbc => "sbc"@,
        Op::Sec => "sec"@,
        Op::Sed => "sed"@,
        Op::Sei => "sei"@,
        Op::Slo => "slo"@,
        Op::Sre => "sre"@,
        Op::Sta => "sta"@,
        Op::Stx => "stx"@,
        Op::Sty => "sty"@,
        Op::Tax => "tax"@,
        Op::Tay => "tay"@,
        Op::Tsx => "tsx"@,
        Op::Txa => "txa"@,
        Op::Txs => "txs"@,
        Op::Tya => "tya"@,    }
}

pub fn mnemonic(op: Op) -> (r: &'static str)
    ensures
        r@ == spec_mnemonic(op),
{
    match op {
        Op::Adc => "adc",
        Op::And => "and",
        Op::Asl => "asl",
        Op::AslA => "asla",
        Op::Bcc => "bcc",
        Op::Bcs => "bcs",
        Op::Beq => "beq",
        Op::Bit => "bit",
        Op::Bmi => "bmi",
        Op::Bne => "bne",
        Op::Bpl => "bpl",
        Op::Brk => "brk",
        Op::Bvc => "bvc",
        Op::Bvs => "bvs",
        Op::Clc => "clc",
        Op::Cld => "cld",
        Op::Cli => "cli",
        Op::Clv => "clv",
        Op::Cmp => "cmp",
        Op::Cpx => "cpx",
        Op::Cpy => "cpy",
        Op::Dcp => "dcp",
        Op::Dec => "dec",
        Op::Dex => "dex",
        Op::Dey => "dey",
        Op::Eor => "eor",
        Op::Inc => "inc",
        Op::Inx => "inx",
        Op::Iny => "iny",
        Op::Isc => "isc",
        Op::Jmp => "jmp",
        Op::Jsr => "jsr",
        Op::Lax => "lax",
        Op::Lda => "lda",
        Op::Ldx => "ldx",
        Op::Ldy => "ldy",
        Op::Lsr => "lsr",
        Op::LsrA => "lsra",
        Op::Nop => "nop",
        Op::NopAddr => "nop_addr",
        Op::Ora => "ora",
        Op::Pha => "pha",
        Op::Php => "php",
        Op::Pla => "pla",
        Op::Plp => "plp",
        Op::Rla => "rla",
        Op::Rol => "rol",
        Op::RolA => "rola",
        Op::Ror => "ror",
        Op::RorA => "rora",
        Op::Rra => "rra",
        Op::Rti => "rti",
        Op::Rts => "rts",
        Op::Sax => "sax",
        Op::Sbc => "sbc",
        Op::Sec => "sec",
        Op::Sed => "sed",
        Op::Sei => "sei",
        Op::Slo => "slo",
        Op::Sre => "sre",
        Op::Sta => "sta",
        Op::Stx => "stx",
        Op::Sty => "sty",
        Op::Tax => "tax",
        Op::Tay => "tay",
        Op::Tsx => "tsx",
        Op::Txa => "txa",
        Op::Txs => "txs",
        Op::Tya => "tya",    }
}

/// The accumulator-form shifts print an explicit `A` operand.
pub open spec fn spec_is_acc_op(op: Op) -> bool {
    match op {
        Op::AslA => true,
        Op::LsrA => true,
        Op::RolA => true,
        Op::RorA => true,
        _ => false,
    }
}

/// The operand text of an addressing mode, over the one or two operand
/// bytes that follow the opcode (little-endian for the word forms).
pub open spec fn spec_operand_text(mode: Mode, b1: u8, b2: u8) -> Seq<char> {
    let w = crate::memory::word_le(b1, b2);
    match mode {
        Mode::Implied => Seq::<char>::empty(),
        Mode::Immediate => "#$"@ + spec_hex2_lower(b1),
        Mode::ZeroPage => "$"@ + spec_hex2_lower(b1),
        Mode::ZeroPageX => "$"@ + spec_hex2_lower(b1) + ",X"@,
        Mode::ZeroPageY => "$"@ + spec_hex2_lower(b1) + ",Y"@,
        Mode::Absolute => "$"@ + spec_hex4_lower(w),
        Mode::AbsoluteX => "$"@ + spec_hex4_lower(w) + ",X"@,
        Mode::AbsoluteXStore => "$"@ + spec_hex4_lower(w) + ",X"@,
        Mode::AbsoluteY => "$"@ + spec_hex4_lower(w) + ",Y"@,
        Mode::AbsoluteYStore => "$"@ + spec_hex4_lower(w) + ",Y"@,
        Mode::Indirect => "($"@ + spec_hex4_lower(w) + ")"@,
        Mode::IndexedIndirect => "($"@ + spec_hex2_lower(b1) + ",X)"@,
        Mode::IndirectIndexed => "($"@ + spec_hex2_lower(b1) + "),Y"@,
        Mode::IndirectIndexedStore => "($"@ + spec_hex2_lower(b1) + "),Y"@,
    }
}

/// How many bytes the disassembler steps over at `pc`: the instruction
/// length when the opcode decodes and its operand fits, one byte
/// otherwise.
pub open spec fn spec_step_len(prog: Seq<u8>, pc: int) -> int {
    match spec_decode(prog[pc]) {
        Option::None => 1,
        Option::Some(i) => if pc + spec_mode_len(i.mode) <= prog.len() {
            spec_mode_len(i.mode) as int
        } else {
            1
        },
    }
}

/// One disassembled line, newline included.
pub open spec fn spec_line(prog: Seq<u8>, pc: int) -> Seq<char> {
    match spec_decode(prog[pc]) {
        Option::None => "???\n"@,
        Option::Some(i) => if pc + spec_mode_len(i.mode) <= prog.len() {
            let b1 = if spec_mode_len(i.mode) >= 2 {
                prog[pc + 1]
            } else {
                0u8
            };
            let b2 = if spec_mode_len(i.mode) == 3 {
                prog[pc + 2]
            } else {
                0u8
            };
            spec_mnemonic(i.op) + (if spec_is_acc_op(i.op) {
                " A"@
            } else if i.mode is Implied {
                Seq::<char>::empty()
            } else {
                " "@ + spec_operand_text(i.mode, b1, b2)
            }) + "\n"@
        } else {
            "???\n"@
        },
    }
}

/// The disassembly of the whole program from `pc` on.
pub open spec fn spec_disasm(prog: Seq<u8>, pc: int) -> Seq<char>
    decreases prog.len() - pc,
{
    if pc < 0 || pc >= prog.len() {
        Seq::<char>::empty()
    } else {
        spec_line(prog, pc) + spec_disasm(prog, pc + spec_step_len(prog, pc))
    }
}

/// A disassembler positioned at the start of a program image.
#[derive(Debug, Clone)]
pub struct Decompiler<'a> {
    pub pc: usize,
    pub program: &'a [u8],
}

impl<'a> Decompiler<'a> {
    pub fn new(program: &'a [u8]) -> (r: Self)
        ensures
            r.pc == 0,
            r.program@ == program@,
    {
        Decompiler { pc: 0, program }
    }

    /// Disassemble the whole program.
    pub fn decompile(self) -> (r: String)
        ensures
            r@ == spec_disasm(self.program@, self.pc as int),
    {
        let prog = self.program;
        let mut pc = self.pc;
        let mut s = String::new();
        while pc < prog.len()
            invariant
                prog@ == self.program@,
                s@ + spec_disasm(prog@, pc as int) == spec_disasm(prog@, self.pc as int),
            decreases prog@.len() - pc,
        {
            let ghost pc0 = pc as int;
            let ghost s0 = s@;
            let opcode = prog[pc];
            match decode(opcode) {
                Option::None => {
                    s.append("???\n");
                    pc += 1;
                },
                Option::Some(i) => {
                    let len = mode_len(i.mode) as usize;
                    if len <= prog.len() - pc {
                        let b1 = if len >= 2 {
                            prog[pc + 1]
                        } else {
                            0
                        };
                        let b2 = if len == 3 {
                            prog[pc + 2]
                        } else {
                            0
                        };
                        s.append(mnemonic(i.op));
                        match i.op {
                            Op::AslA => s.append(" A"),
                            Op::LsrA => s.append(" A"),
                            Op::RolA => s.append(" A"),
                            Op::RorA => s.append(" A"),
                            _ => {
                                match i.mode {
                                    Mode::Implied => {},
                                    _ => {
                                        s.append(" ");
                                        push_operand(&mut s, i.mode, b1, b2);
                                    },
                                }
                            },
                        }
                        s.append("\n");
                        pc += len;
                    } else {
                        s.append("???\n");
                        pc += 1;
                    }
                },
            }
            proof {
                assert(s@ == s0 + spec_line(prog@, pc0));
                assert(pc == pc0 + spec_step_len(prog@, pc0));
                assert(s0 + (spec_line(prog@, pc0) + spec_disasm(prog@, pc as int)) == (s0
                    + spec_line(prog@, pc0)) + spec_disasm(prog@, pc as int));
            }
        }
        s
    }
}

/// Append a mode's operand text.
fn push_operand(s: &mut String, mode: Mode, b1: u8, b2: u8)
    ensures
        final(s)@ == old(s)@ + spec_operand_text(mode, b1, b2),
{
    let w: u16 = (b1 as u16) + 256 * (b2 as u16);
    match mode {
        Mode::Implied => {},
        Mode::Immediate => {
            s.append("#$");
            push_hex2_lower(s, b1);
        },
        Mode::ZeroPage => {
            s.append("$");
            push_hex2_lower(s, b1);
        },
        Mode::ZeroPageX => {
            s.append("$");
            push_hex2_lower(s, b1);
            s.append(",X");
        },
        Mode::ZeroPageY => {
            s.append("$");
            push_hex2_lower(s, b1);
            s.append(",Y");
        },
        Mode::Absolute => {
            s.append("$");
            push_hex4_lower(s, w);
        },
        Mode::AbsoluteX => {
            s.append("$");
            push_hex4_lower(s, w);
            s.append(",X");
        },
        Mode::AbsoluteXStore => {
            s.append("$");
            push_hex4_lower(s, w);
            s.append(",X");
        },
        Mode::AbsoluteY => {
            s.append("$");
            push_hex4_lower(s, w);
            s.append(",Y");
        },
        Mode::AbsoluteYStore => {
            s.append("$");
            push_hex4_lower(s, w);
            s.append(",Y");
        },
        Mode::Indirect => {
            s.append("($");
            push_hex4_lower(s, w);
            s.append(")");
        },
        Mode::IndexedIndirect => {
            s.append("($");
            push_hex2_lower(s, b1);
            s.append(",X)");
        },
        Mode::IndirectIndexed => {
            s.append("($");
            push_hex2_lower(s, b1);
            s.append("),Y");
        },
        Mode::IndirectIndexedStore => {
            s.append("($");
            push_hex2_lower(s, b1);
            s.append("),Y");
        },
    }
}

} // verus!
