//! The executable operations. Each public method performs one 6502
//! operation against the resolved effective address and ensures exactly
//! its arm of `op_rel` — the relational model in `semantics` — so the
//! instruction driver can compose them with the addressing modes and
//! the dispatch table.

use vstd::prelude::*;

use crate::instructions::Op;
use crate::memory::{
    lemma_mem_writes_compose, lemma_single_write, mem_after_writes, wadd16, Memory,
};
use crate::processor::{spec_stack_addr, wadd8, word_hi, word_lo, Processor};
use crate::semantics::{branch_taken, op_rel, spec_adc_core, spec_brk_writes, spec_sbc_core};

verus! {

impl<T: Memory> Processor<T> {
    /// One memory write, with the processor-level frame conditions.
    fn write_mem(&mut self, addr: u16, data: u8)
        requires
            old(self).memory.inv(),
        ensures
            final(self).core == old(self).core,
            final(self).jumped == old(self).jumped,
            final(self).cycles == old(self).cycles,
            final(self).decimal_enabled == old(self).decimal_enabled,
            mem_after_writes(old(self).memory, final(self).memory, seq![(addr, data)]),
    {
        self.memory.write(addr, data);
        proof {
            lemma_single_write(old(self).memory, self.memory, addr, data);
        }
    }

    /// The shared ADC core: add the operand and carry into A, in binary
    /// or BCD depending on the configuration and the D flag.
    fn add_to_a(&mut self, operand: u8)
        ensures
            final(self).core == spec_adc_core(old(self).core, operand, old(self).decimal_enabled),
            final(self).memory == old(self).memory,
            final(self).jumped == old(self).jumped,
            final(self).cycles == old(self).cycles,
            final(self).decimal_enabled == old(self).decimal_enabled,
    {
        let old_a = self.core.a;
        let cin: u16 = if self.core.f.c {
            1
        } else {
            0
        };
        let sum: u16 = old_a as u16 + operand as u16 + cin;
        let bin_r: u8 = (sum % 256) as u8;
        if self.decimal_enabled && self.core.f.d {
            let lo0: u16 = (old_a % 16) as u16 + (operand % 16) as u16 + cin;
            let lo: u16 = if lo0 > 9 {
                lo0 + 6
            } else {
                lo0
            };
            let hi0: u16 = (old_a / 16) as u16 + (operand / 16) as u16 + (if lo > 15 {
                1
            } else {
                0
            });
            let hi: u16 = if hi0 > 9 {
                hi0 + 6
            } else {
                hi0
            };
            self.core.f.c = hi > 15;
            self.core.a = ((hi % 16) * 16 + lo % 16) as u8;
        } else {
            self.core.a = bin_r;
            self.core.f.c = sum > 0xff;
        }
        self.core.f.set_z(bin_r);
        self.core.f.set_n(bin_r);
        self.core.f.v = (old_a ^ operand) & 0x80 == 0 && (old_a ^ bin_r) & 0x80 != 0;
    }

    /// The shared SBC core: subtract the operand and borrow from A, in
    /// binary or BCD; all flags reflect the binary computation.
    fn sub_from_a(&mut self, operand: u8)
        ensures
            final(self).core == spec_sbc_core(old(self).core, operand, old(self).decimal_enabled),
            final(self).memory == old(self).memory,
            final(self).jumped == old(self).jumped,
            final(self).cycles == old(self).cycles,
            final(self).decimal_enabled == old(self).decimal_enabled,
    {
        let old_a = self.core.a;
        let borrow: u16 = if self.core.f.c {
            0
        } else {
            1
        };
        let diff: u16 = 256u16 + old_a as u16 - operand as u16 - borrow;
        let bin_r: u8 = (diff % 256) as u8;
        if self.decimal_enabled && self.core.f.d {
            let lo0: u16 = 16u16 + (old_a % 16) as u16 - (operand % 16) as u16 - borrow;
            let lo: u16 = if lo0 < 16 {
                lo0 + 10
            } else {
                lo0
            };
            let hi0: u16 = 16u16 + (old_a / 16) as u16 - (operand / 16) as u16 - (if lo0 < 16 {
                1
            } else {
                0
            });
            let hi: u16 = if hi0 < 16 {
                hi0 + 10
            } else {
                hi0
            };
            self.core.a = ((hi % 16) * 16 + lo % 16) as u8;
        } else {
            self.core.a = bin_r;
        }
        self.core.f.c = diff >= 256;
        self.core.f.set_z(bin_r);
        self.core.f.set_n(bin_r);
        self.core.f.v = (old_a ^ operand) & 0x80 != 0 && (old_a ^ bin_r) & 0x80 != 0;
    }

    /// The shared comparison core: set N, Z from the 8-bit difference
    /// and C from the unsigned order.
    fn compare_with(&mut self, reg: u8, operand: u8)
        ensures
            final(self).core.f == crate::semantics::spec_cmp_flags(old(self).core.f, reg, operand),
            final(self).core.a == old(self).core.a,
            final(self).core.x == old(self).core.x,
            final(self).core.y == old(self).core.y,
            final(self).core.sp == old(self).core.sp,
            final(self).core.pc == old(self).core.pc,
            final(self).memory == old(self).memory,
            final(self).jumped == old(self).jumped,
            final(self).cycles == old(self).cycles,
            final(self).decimal_enabled == old(self).decimal_enabled,
    {
        let diff: u16 = 256u16 + reg as u16 - operand as u16;
        let r: u8 = (diff % 256) as u8;
        self.core.f.set_n(r);
        self.core.f.set_z(r);
        self.core.f.c = reg >= operand;
    }

    pub fn adc(&mut self, addr: u16)
        requires
            old(self).memory.inv(),
        ensures
            op_rel(*old(self), *final(self), Op::Adc, addr),
            old(self).cycles <= final(self).cycles <= old(self).cycles + 2,
            old(self).memory.inv() ==> final(self).memory.inv(),
            final(self).decimal_enabled == old(self).decimal_enabled,
    {
        proof {
            reveal(crate::semantics::rel_adc);
        }
        let operand = self.memory.read(addr);
        self.add_to_a(operand);
    }

    pub fn sbc(&mut self, addr: u16)
        requires
            old(self).memory.inv(),
        ensures
            op_rel(*old(self), *final(self), Op::Sbc, addr),
            old(self).cycles <= final(self).cycles <= old(self).cycles + 2,
            old(self).memory.inv() ==> final(self).memory.inv(),
            final(self).decimal_enabled == old(self).decimal_enabled,
    {
        proof {
            reveal(crate::semantics::rel_sbc);
        }
        let operand = self.memory.read(addr);
        self.sub_from_a(operand);
    }

    pub fn and(&mut self, addr: u16)
        requires
            old(self).memory.inv(),
        ensures
            op_rel(*old(self), *final(self), Op::And, addr),
            old(self).cycles <= final(self).cycles <= old(self).cycles + 2,
            old(self).memory.inv() ==> final(self).memory.inv(),
            final(self).decimal_enabled == old(self).decimal_enabled,
    {
        proof {
            reveal(crate::semantics::rel_and);
        }
        self.core.a &= self.memory.read(addr);
        let r = self.core.a;
        self.core.f.set_z(r);
        self.core.f.set_n(r);
    }

    pub fn ora(&mut self, addr: u16)
        requires
            old(self).memory.inv(),
        ensures
            op_rel(*old(self), *final(self), Op::Ora, addr),
            old(self).cycles <= final(self).cycles <= old(self).cycles + 2,
            old(self).memory.inv() ==> final(self).memory.inv(),
            final(self).decimal_enabled == old(self).decimal_enabled,
    {
        proof {
            reveal(crate::semantics::rel_ora);
        }
        self.core.a |= self.memory.read(addr);
        let r = self.core.a;
        self.core.f.set_z(r);
        self.core.f.set_n(r);
    }

    pub fn eor(&mut self, addr: u16)
        requires
            old(self).memory.inv(),
        ensures
            op_rel(*old(self), *final(self), Op::Eor, addr),
            old(self).cycles <= final(self).cycles <= old(self).cycles + 2,
            old(self).memory.inv() ==> final(self).memory.inv(),
            final(self).decimal_enabled == old(self).decimal_enabled,
    {
        proof {
            reveal(crate::semantics::rel_eor);
        }
        self.core.a ^= self.memory.read(addr);
        let r = self.core.a;
        self.core.f.set_z(r);
        self.core.f.set_n(r);
    }

    pub fn bit(&mut self, addr: u16)
        requires
            old(self).memory.inv(),
        ensures
            op_rel(*old(self), *final(self), Op::Bit, addr),
            old(self).cycles <= final(self).cycles <= old(self).cycles + 2,
            old(self).memory.inv() ==> final(self).memory.inv(),
            final(self).decimal_enabled == old(self).decimal_enabled,
    {
        proof {
            reveal(crate::semantics::rel_bit);
        }
        let operand = self.memory.read(addr);
        let anded = self.core.a & operand;
        self.core.f.z = anded == 0;
        self.core.f.v = operand & 0x40 != 0;
        self.core.f.n = operand & 0x80 != 0;
    }

    pub fn cmp(&mut self, addr: u16)
        requires
            old(self).memory.inv(),
        ensures
            op_rel(*old(self), *final(self), Op::Cmp, addr),
            old(self).cycles <= final(self).cycles <= old(self).cycles + 2,
            old(self).memory.inv() ==> final(self).memory.inv(),
            final(self).decimal_enabled == old(self).decimal_enabled,
    {
        proof {
            reveal(crate::semantics::rel_cmp);
        }
        let operand = self.memory.read(addr);
        let reg = self.core.a;
        self.compare_with(reg, operand);
    }

    pub fn cpx(&mut self, addr: u16)
        requires
            old(self).memory.inv(),
        ensures
            op_rel(*old(self), *final(self), Op::Cpx, addr),
            old(self).cycles <= final(self).cycles <= old(self).cycles + 2,
            old(self).memory.inv() ==> final(self).memory.inv(),
            final(self).decimal_enabled == old(self).decimal_enabled,
    {
        proof {
            reveal(crate::semantics::rel_cpx);
        }
        let operand = self.memory.read(addr);
        let reg = self.core.x;
        self.compare_with(reg, operand);
    }

    pub fn cpy(&mut self, addr: u16)
        requires
            old(self).memory.inv(),
        ensures
            op_rel(*old(self), *final(self), Op::Cpy, addr),
            old(self).cycles <= final(self).cycles <= old(self).cycles + 2,
            old(self).memory.inv() ==> final(self).memory.inv(),
            final(self).decimal_enabled == old(self).decimal_enabled,
    {
        proof {
            reveal(crate::semantics::rel_cpy);
        }
        let operand = self.memory.read(addr);
        let reg = self.core.y;
        self.compare_with(reg, operand);
    }

    pub fn lda(&mut self, addr: u16)
        requires
            old(self).memory.inv(),
        ensures
            op_rel(*old(self), *final(self), Op::Lda, addr),
            old(self).cycles <= final(self).cycles <= old(self).cycles + 2,
            old(self).memory.inv() ==> final(self).memory.inv(),
            final(self).decimal_enabled == old(self).decimal_enabled,
    {
        proof {
            reveal(crate::semantics::rel_lda);
        }
        let v = self.memory.read(addr);
        self.core.a = v;
        self.core.f.set_z(v);
        self.core.f.set_n(v);
    }

    pub fn ldx(&mut self, addr: u16)
        requires
            old(self).memory.inv(),
        ensures
            op_rel(*old(self), *final(self), Op::Ldx, addr),
            old(self).cycles <= final(self).cycles <= old(self).cycles + 2,
            old(self).memory.inv() ==> final(self).memory.inv(),
            final(self).decimal_enabled == old(self).decimal_enabled,
    {
        proof {
            reveal(crate::semantics::rel_ldx);
        }
        let v = self.memory.read(addr);
        self.core.x = v;
        self.core.f.set_z(v);
        self.core.f.set_n(v);
    }

    pub fn ldy(&mut self, addr: u16)
        requires
            old(self).memory.inv(),
        ensures
            op_rel(*old(self), *final(self), Op::Ldy, addr),
            old(self).cycles <= final(self).cycles <= old(self).cycles + 2,
            old(self).memory.inv() ==> final(self).memory.inv(),
            final(self).decimal_enabled == old(self).decimal_enabled,
    {
        proof {
            reveal(crate::semantics::rel_ldy);
        }
        let v = self.memory.read(addr);
        self.core.y = v;
        self.core.f.set_z(v);
        self.core.f.set_n(v);
    }

    /// Undocumented: load A and X together from the operand.
    pub fn lax(&mut self, addr: u16)
        requires
            old(self).memory.inv(),
        ensures
            op_rel(*old(self), *final(self), Op::Lax, addr),
            old(self).cycles <= final(self).cycles <= old(self).cycles + 2,
            old(self).memory.inv() ==> final(self).memory.inv(),
            final(self).decimal_enabled == old(self).decimal_enabled,
    {
        proof {
            reveal(crate::semantics::rel_lax);
        }
        let v = self.memory.read(addr);
        self.core.a = v;
        self.core.x = v;
        self.core.f.set_z(v);
        self.core.f.set_n(v);
    }

    pub fn asla(&mut self)
        ensures
            forall|a: u16| op_rel(*old(self), *final(self), Op::AslA, a),
            old(self).cycles <= final(self).cycles <= old(self).cycles + 2,
            old(self).memory.inv() ==> final(self).memory.inv(),
            final(self).decimal_enabled == old(self).decimal_enabled,
    {
        proof {
            reveal(crate::semantics::rel_asla);
        }
        let m = self.core.a;
        self.core.f.c = m & 0x80 != 0;
        let r = m << 1;
        self.core.a = r;
        self.core.f.set_z(r);
        self.core.f.set_n(r);
    }

    pub fn lsra(&mut self)
        ensures
            forall|a: u16| op_rel(*old(self), *final(self), Op::LsrA, a),
            old(self).cycles <= final(self).cycles <= old(self).cycles + 2,
            old(self).memory.inv() ==> final(self).memory.inv(),
            final(self).decimal_enabled == old(self).decimal_enabled,
    {
        proof {
            reveal(crate::semantics::rel_lsra);
        }
        let m = self.core.a;
        self.core.f.c = m & 0x01 != 0;
        let r = m >> 1;
        self.core.a = r;
        self.core.f.set_z(r);
        self.core.f.set_n(r);
    }

    pub fn rola(&mut self)
        ensures
            forall|a: u16| op_rel(*old(self), *final(self), Op::RolA, a),
            old(self).cycles <= final(self).cycles <= old(self).cycles + 2,
            old(self).memory.inv() ==> final(self).memory.inv(),
            final(self).decimal_enabled == old(self).decimal_enabled,
    {
        proof {
            reveal(crate::semantics::rel_rola);
        }
        let carry: u8 = if self.core.f.c {
            1
        } else {
            0
        };
        let m = self.core.a;
        self.core.f.c = m & 0x80 != 0;
        let r = (m << 1) | carry;
        self.core.a = r;
        self.core.f.set_z(r);
        self.core.f.set_n(r);
    }

    pub fn rora(&mut self)
        ensures
            forall|a: u16| op_rel(*old(self), *final(self), Op::RorA, a),
            old(self).cycles <= final(self).cycles <= old(self).cycles + 2,
            old(self).memory.inv() ==> final(self).memory.inv(),
            final(self).decimal_enabled == old(self).decimal_enabled,
    {
        proof {
            reveal(crate::semantics::rel_rora);
        }
        let carry: u8 = if self.core.f.c {
            0x80
        } else {
            0
        };
        let m = self.core.a;
        self.core.f.c = m & 0x01 != 0;
        let r = (m >> 1) | carry;
        self.core.a = r;
        self.core.f.set_z(r);
        self.core.f.set_n(r);
    }

    pub fn asl(&mut self, addr: u16)
        requires
            old(self).memory.inv(),
        ensures
            op_rel(*old(self), *final(self), Op::Asl, addr),
            old(self).cycles <= final(self).cycles <= old(self).cycles + 2,
            old(self).memory.inv() ==> final(self).memory.inv(),
            final(self).decimal_enabled == old(self).decimal_enabled,
    {
        proof {
            reveal(crate::semantics::rel_asl);
        }
        let m = self.memory.read(addr);
        self.core.f.c = m & 0x80 != 0;
        let r = m << 1;
        self.write_mem(addr, r);
        self.core.f.set_z(r);
        self.core.f.set_n(r);
    }

    pub fn lsr(&mut self, addr: u16)
        requires
            old(self).memory.inv(),
        ensures
            op_rel(*old(self), *final(self), Op::Lsr, addr),
            old(self).cycles <= final(self).cycles <= old(self).cycles + 2,
            old(self).memory.inv() ==> final(self).memory.inv(),
            final(self).decimal_enabled == old(self).decimal_enabled,
    {
        proof {
            reveal(crate::semantics::rel_lsr);
        }
        let m = self.memory.read(addr);
        self.core.f.c = m & 0x01 != 0;
        let r = m >> 1;
        self.write_mem(addr, r);
        self.core.f.set_z(r);
        self.core.f.set_n(r);
    }

    pub fn rol(&mut self, addr: u16)
        requires
            old(self).memory.inv(),
        ensures
            op_rel(*old(self), *final(self), Op::Rol, addr),
            old(self).cycles <= final(self).cycles <= old(self).cycles + 2,
            old(self).memory.inv() ==> final(self).memory.inv(),
            final(self).decimal_enabled == old(self).decimal_enabled,
    {
        proof {
            reveal(crate::semantics::rel_rol);
        }
        let carry: u8 = if self.core.f.c {
            1
        } else {
            0
        };
        let m = self.memory.read(addr);
        self.core.f.c = m & 0x80 != 0;
        let r = (m << 1) | carry;
        self.write_mem(addr, r);
        self.core.f.set_z(r);
        self.core.f.set_n(r);
    }

    pub fn ror(&mut self, addr: u16)
        requires
            old(self).memory.inv(),
        ensures
            op_rel(*old(self), *final(self), Op::Ror, addr),
            old(self).cycles <= final(self).cycles <= old(self).cycles + 2,
            old(self).memory.inv() ==> final(self).memory.inv(),
            final(self).decimal_enabled == old(self).decimal_enabled,
    {
        proof {
            reveal(crate::semantics::rel_ror);
        }
        let carry: u8 = if self.core.f.c {
            0x80
        } else {
            0
        };
        let m = self.memory.read(addr);
        self.core.f.c = m & 0x01 != 0;
        let r = (m >> 1) | carry;
        self.write_mem(addr, r);
        self.core.f.set_z(r);
        self.core.f.set_n(r);
    }

    pub fn inc(&mut self, addr: u16)
        requires
            old(self).memory.inv(),
        ensures
            op_rel(*old(self), *final(self), Op::Inc, addr),
            old(self).cycles <= final(self).cycles <= old(self).cycles + 2,
            old(self).memory.inv() ==> final(self).memory.inv(),
            final(self).decimal_enabled == old(self).decimal_enabled,
    {
        proof {
            reveal(crate::semantics::rel_inc);
        }
        let m = self.memory.read(addr);
        let r = m.wrapping_add(1);
        self.write_mem(addr, r);
        self.core.f.set_z(r);
        self.core.f.set_n(r);
    }

    pub fn dec(&mut self, addr: u16)
        requires
            old(self).memory.inv(),
        ensures
            op_rel(*old(self), *final(self), Op::Dec, addr),
            old(self).cycles <= final(self).cycles <= old(self).cycles + 2,
            old(self).memory.inv() ==> final(self).memory.inv(),
            final(self).decimal_enabled == old(self).decimal_enabled,
    {
        proof {
            reveal(crate::semantics::rel_dec);
        }
        let m = self.memory.read(addr);
        let r = m.wrapping_sub(1);
        self.write_mem(addr, r);
        self.core.f.set_z(r);
        self.core.f.set_n(r);
    }

    /// Undocumented: ASL the operand in memory, then OR the shifted
    /// value into A.
    pub fn slo(&mut self, addr: u16)
        requires
            old(self).memory.inv(),
        ensures
            op_rel(*old(self), *final(self), Op::Slo, addr),
            old(self).cycles <= final(self).cycles <= old(self).cycles + 2,
            old(self).memory.inv() ==> final(self).memory.inv(),
            final(self).decimal_enabled == old(self).decimal_enabled,
    {
        proof {
            reveal(crate::semantics::rel_slo);
        }
        let m = self.memory.read(addr);
        self.core.f.c = m & 0x80 != 0;
        let r = m << 1;
        self.write_mem(addr, r);
        self.core.a |= r;
        let a = self.core.a;
        self.core.f.set_z(a);
        self.core.f.set_n(a);
    }

    /// Undocumented: LSR the operand in memory, then EOR the shifted
    /// value into A.
    pub fn sre(&mut self, addr: u16)
        requires
            old(self).memory.inv(),
        ensures
            op_rel(*old(self), *final(self), Op::Sre, addr),
            old(self).cycles <= final(self).cycles <= old(self).cycles + 2,
            old(self).memory.inv() ==> final(self).memory.inv(),
            final(self).decimal_enabled == old(self).decimal_enabled,
    {
        proof {
            reveal(crate::semantics::rel_sre);
        }
        let m = self.memory.read(addr);
        self.core.f.c = m & 0x01 != 0;
        let r = m >> 1;
        self.write_mem(addr, r);
        self.core.a ^= r;
        let a = self.core.a;
        self.core.f.set_z(a);
        self.core.f.set_n(a);
    }

    /// Undocumented: ROL the operand in memory, then AND the rotated
    /// value into A.
    pub fn rla(&mut self, addr: u16)
        requires
            old(self).memory.inv(),
        ensures
            op_rel(*old(self), *final(self), Op::Rla, addr),
            old(self).cycles <= final(self).cycles <= old(self).cycles + 2,
            old(self).memory.inv() ==> final(self).memory.inv(),
            final(self).decimal_enabled == old(self).decimal_enabled,
    {
        proof {
            reveal(crate::semantics::rel_rla);
        }
        let carry: u8 = if self.core.f.c {
            1
        } else {
            0
        };
        let m = self.memory.read(addr);
        self.core.f.c = m & 0x80 != 0;
        let r = (m << 1) | carry;
        self.write_mem(addr, r);
        self.core.a &= r;
        let a = self.core.a;
        self.core.f.set_z(a);
        self.core.f.set_n(a);
    }

    /// Undocumented: ROR the operand in memory, then ADC the rotated
    /// value with the carry the rotation produced.
    pub fn rra(&mut self, addr: u16)
        requires
            old(self).memory.inv(),
        ensures
            op_rel(*old(self), *final(self), Op::Rra, addr),
            old(self).cycles <= final(self).cycles <= old(self).cycles + 2,
            old(self).memory.inv() ==> final(self).memory.inv(),
            final(self).decimal_enabled == old(self).decimal_enabled,
    {
        proof {
            reveal(crate::semantics::rel_rra);
        }
        let carry: u8 = if self.core.f.c {
            0x80
        } else {
            0
        };
        let m = self.memory.read(addr);
        self.core.f.c = m & 0x01 != 0;
        let r = (m >> 1) | carry;
        self.write_mem(addr, r);
        self.add_to_a(r);
    }

    /// Undocumented: DEC the operand in memory, then CMP A against the
    /// decremented value.
    pub fn dcp(&mut self, addr: u16)
        requires
            old(self).memory.inv(),
        ensures
            op_rel(*old(self), *final(self), Op::Dcp, addr),
            old(self).cycles <= final(self).cycles <= old(self).cycles + 2,
            old(self).memory.inv() ==> final(self).memory.inv(),
            final(self).decimal_enabled == old(self).decimal_enabled,
    {
        proof {
            reveal(crate::semantics::rel_dcp);
        }
        let m = self.memory.read(addr);
        let r = m.wrapping_sub(1);
        self.write_mem(addr, r);
        let reg = self.core.a;
        self.compare_with(reg, r);
    }

    /// Undocumented: INC the operand in memory, then SBC the
    /// incremented value.
    pub fn isc(&mut self, addr: u16)
        requires
            old(self).memory.inv(),
        ensures
            op_rel(*old(self), *final(self), Op::Isc, addr),
            old(self).cycles <= final(self).cycles <= old(self).cycles + 2,
            old(self).memory.inv() ==> final(self).memory.inv(),
            final(self).decimal_enabled == old(self).decimal_enabled,
    {
        proof {
            reveal(crate::semantics::rel_isc);
        }
        let m = self.memory.read(addr);
        let r = m.wrapping_add(1);
        self.write_mem(addr, r);
        self.sub_from_a(r);
    }

    pub fn sta(&mut self, addr: u16)
        requires
            old(self).memory.inv(),
        ensures
            op_rel(*old(self), *final(self), Op::Sta, addr),
            old(self).cycles <= final(self).cycles <= old(self).cycles + 2,
            old(self).memory.inv() ==> final(self).memory.inv(),
            final(self).decimal_enabled == old(self).decimal_enabled,
    {
        proof {
            reveal(crate::semantics::rel_sta);
        }
        let v = self.core.a;
        self.write_mem(addr, v);
    }

    pub fn stx(&mut self, addr: u16)
        requires
            old(self).memory.inv(),
        ensures
            op_rel(*old(self), *final(self), Op::Stx, addr),
            old(self).cycles <= final(self).cycles <= old(self).cycles + 2,
            old(self).memory.inv() ==> final(self).memory.inv(),
            final(self).decimal_enabled == old(self).decimal_enabled,
    {
        proof {
            reveal(crate::semantics::rel_stx);
        }
        let v = self.core.x;
        self.write_mem(addr, v);
    }

    pub fn sty(&mut self, addr: u16)
        requires
            old(self).memory.inv(),
        ensures
            op_rel(*old(self), *final(self), Op::Sty, addr),
            old(self).cycles <= final(self).cycles <= old(self).cycles + 2,
            old(self).memory.inv() ==> final(self).memory.inv(),
            final(self).decimal_enabled == old(self).decimal_enabled,
    {
        proof {
            reveal(crate::semantics::rel_sty);
        }
        let v = self.core.y;
        self.write_mem(addr, v);
    }

    /// Undocumented: store A AND X; no flags change.
    pub fn sax(&mut self, addr: u16)
        requires
            old(self).memory.inv(),
        ensures
            op_rel(*old(self), *final(self), Op::Sax, addr),
            old(self).cycles <= final(self).cycles <= old(self).cycles + 2,
            old(self).memory.inv() ==> final(self).memory.inv(),
            final(self).decimal_enabled == old(self).decimal_enabled,
    {
        proof {
            reveal(crate::semantics::rel_sax);
        }
        let v = self.core.a & self.core.x;
        self.write_mem(addr, v);
    }

    pub fn inx(&mut self)
        ensures
            forall|a: u16| op_rel(*old(self), *final(self), Op::Inx, a),
            old(self).cycles <= final(self).cycles <= old(self).cycles + 2,
            old(self).memory.inv() ==> final(self).memory.inv(),
            final(self).decimal_enabled == old(self).decimal_enabled,
    {
        proof {
            reveal(crate::semantics::rel_inx);
        }
        let r = self.core.x.wrapping_add(1);
        self.core.x = r;
        self.core.f.set_z(r);
        self.core.f.set_n(r);
    }

    pub fn iny(&mut self)
        ensures
            forall|a: u16| op_rel(*old(self), *final(self), Op::Iny, a),
            old(self).cycles <= final(self).cycles <= old(self).cycles + 2,
            old(self).memory.inv() ==> final(self).memory.inv(),
            final(self).decimal_enabled == old(self).decimal_enabled,
    {
        proof {
            reveal(crate::semantics::rel_iny);
        }
        let r = self.core.y.wrapping_add(1);
        self.core.y = r;
        self.core.f.set_z(r);
        self.core.f.set_n(r);
    }

    pub fn dex(&mut self)
        ensures
            forall|a: u16| op_rel(*old(self), *final(self), Op::Dex, a),
            old(self).cycles <= final(self).cycles <= old(self).cycles + 2,
            old(self).memory.inv() ==> final(self).memory.inv(),
            final(self).decimal_enabled == old(self).decimal_enabled,
    {
        proof {
            reveal(crate::semantics::rel_dex);
        }
        let r = self.core.x.wrapping_sub(1);
        self.core.x = r;
        self.core.f.set_z(r);
        self.core.f.set_n(r);
    }

    pub fn dey(&mut self)
        ensures
            forall|a: u16| op_rel(*old(self), *final(self), Op::Dey, a),
            old(self).cycles <= final(self).cycles <= old(self).cycles + 2,
            old(self).memory.inv() ==> final(self).memory.inv(),
            final(self).decimal_enabled == old(self).decimal_enabled,
    {
        proof {
            reveal(crate::semantics::rel_dey);
        }
        let r = self.core.y.wrapping_sub(1);
        self.core.y = r;
        self.core.f.set_z(r);
        self.core.f.set_n(r);
    }

    pub fn tax(&mut self)
        ensures
            forall|a: u16| op_rel(*old(self), *final(self), Op::Tax, a),
            old(self).cycles <= final(self).cycles <= old(self).cycles + 2,
            old(self).memory.inv() ==> final(self).memory.inv(),
            final(self).decimal_enabled == old(self).decimal_enabled,
    {
        proof {
            reveal(crate::semantics::rel_tax);
        }
        let r = self.core.a;
        self.core.x = r;
        self.core.f.set_z(r);
        self.core.f.set_n(r);
    }

    pub fn tay(&mut self)
        ensures
            forall|a: u16| op_rel(*old(self), *final(self), Op::Tay, a),
            old(self).cycles <= final(self).cycles <= old(self).cycles + 2,
            old(self).memory.inv() ==> final(self).memory.inv(),
            final(self).decimal_enabled == old(self).decimal_enabled,
    {
        proof {
            reveal(crate::semantics::rel_tay);
        }
        let r = self.core.a;
        self.core.y = r;
        self.core.f.set_z(r);
        self.core.f.set_n(r);
    }

    pub fn txa(&mut self)
        ensures
            forall|a: u16| op_rel(*old(self), *final(self), Op::Txa, a),
            old(self).cycles <= final(self).cycles <= old(self).cycles + 2,
            old(self).memory.inv() ==> final(self).memory.inv(),
            final(self).decimal_enabled == old(self).decimal_enabled,
    {
        proof {
            reveal(crate::semantics::rel_txa);
        }
        let r = self.core.x;
        self.core.a = r;
        self.core.f.set_z(r);
        self.core.f.set_n(r);
    }

    pub fn tya(&mut self)
        ensures
            forall|a: u16| op_rel(*old(self), *final(self), Op::Tya, a),
            old(self).cycles <= final(self).cycles <= old(self).cycles + 2,
            old(self).memory.inv() ==> final(self).memory.inv(),
            final(self).decimal_enabled == old(self).decimal_enabled,
    {
        proof {
            reveal(crate::semantics::rel_tya);
        }
        let r = self.core.y;
        self.core.a = r;
        self.core.f.set_z(r);
        self.core.f.set_n(r);
    }

    pub fn tsx(&mut self)
        ensures
            forall|a: u16| op_rel(*old(self), *final(self), Op::Tsx, a),
            old(self).cycles <= final(self).cycles <= old(self).cycles + 2,
            old(self).memory.inv() ==> final(self).memory.inv(),
            final(self).decimal_enabled == old(self).decimal_enabled,
    {
        proof {
            reveal(crate::semantics::rel_tsx);
        }
        let r = self.core.sp;
        self.core.x = r;
        self.core.f.set_z(r);
        self.core.f.set_n(r);
    }

    /// TXS updates no flags.
    pub fn txs(&mut self)
        ensures
            forall|a: u16| op_rel(*old(self), *final(self), Op::Txs, a),
            old(self).cycles <= final(self).cycles <= old(self).cycles + 2,
            old(self).memory.inv() ==> final(self).memory.inv(),
            final(self).decimal_enabled == old(self).decimal_enabled,
    {
        proof {
            reveal(crate::semantics::rel_txs);
        }
        self.core.sp = self.core.x;
    }

    pub fn clc(&mut self)
        ensures
            forall|a: u16| op_rel(*old(self), *final(self), Op::Clc, a),
            old(self).cycles <= final(self).cycles <= old(self).cycles + 2,
            old(self).memory.inv() ==> final(self).memory.inv(),
            final(self).decimal_enabled == old(self).decimal_enabled,
    {
        proof {
            reveal(crate::semantics::rel_clc);
        }
        self.core.f.c = false;
    }

    pub fn sec(&mut self)
        ensures
            forall|a: u16| op_rel(*old(self), *final(self), Op::Sec, a),
            old(self).cycles <= final(self).cycles <= old(self).cycles + 2,
            old(self).memory.inv() ==> final(self).memory.inv(),
            final(self).decimal_enabled == old(self).decimal_enabled,
    {
        proof {
            reveal(crate::semantics::rel_sec);
        }
        self.core.f.c = true;
    }

    pub fn cld(&mut self)
        ensures
            forall|a: u16| op_rel(*old(self), *final(self), Op::Cld, a),
            old(self).cycles <= final(self).cycles <= old(self).cycles + 2,
            old(self).memory.inv() ==> final(self).memory.inv(),
            final(self).decimal_enabled == old(self).decimal_enabled,
    {
        proof {
            reveal(crate::semantics::rel_cld);
        }
        self.core.f.d = false;
    }

    pub fn sed(&mut self)
        ensures
            forall|a: u16| op_rel(*old(self), *final(self), Op::Sed, a),
            old(self).cycles <= final(self).cycles <= old(self).cycles + 2,
            old(self).memory.inv() ==> final(self).memory.inv(),
            final(self).decimal_enabled == old(self).decimal_enabled,
    {
        proof {
            reveal(crate::semantics::rel_sed);
        }
        self.core.f.d = true;
    }

    pub fn cli(&mut self)
        ensures
            forall|a: u16| op_rel(*old(self), *final(self), Op::Cli, a),
            old(self).cycles <= final(self).cycles <= old(self).cycles + 2,
            old(self).memory.inv() ==> final(self).memory.inv(),
            final(self).decimal_enabled == old(self).decimal_enabled,
    {
        proof {
            reveal(crate::semantics::rel_cli);
        }
        self.core.f.i = false;
    }

    pub fn sei(&mut self)
        ensures
            forall|a: u16| op_rel(*old(self), *final(self), Op::Sei, a),
            old(self).cycles <= final(self).cycles <= old(self).cycles + 2,
            old(self).memory.inv() ==> final(self).memory.inv(),
            final(self).decimal_enabled == old(self).decimal_enabled,
    {
        proof {
            reveal(crate::semantics::rel_sei);
        }
        self.core.f.i = true;
    }

    pub fn clv(&mut self)
        ensures
            forall|a: u16| op_rel(*old(self), *final(self), Op::Clv, a),
            old(self).cycles <= final(self).cycles <= old(self).cycles + 2,
            old(self).memory.inv() ==> final(self).memory.inv(),
            final(self).decimal_enabled == old(self).decimal_enabled,
    {
        proof {
            reveal(crate::semantics::rel_clv);
        }
        self.core.f.v = false;
    }

    pub fn nop(&mut self)
        ensures
            forall|a: u16| op_rel(*old(self), *final(self), Op::Nop, a),
            old(self).cycles <= final(self).cycles <= old(self).cycles + 2,
            old(self).memory.inv() ==> final(self).memory.inv(),
            final(self).decimal_enabled == old(self).decimal_enabled,
    {
        proof {
            reveal(crate::semantics::rel_nop);
        }
    }

    /// The addressed form of NOP: the addressing mode's side effects
    /// (operand read, cycle penalties) have already happened; the
    /// operation itself changes nothing.
    pub fn nop_addr(&mut self, addr: u16)
        ensures
            op_rel(*old(self), *final(self), Op::NopAddr, addr),
            old(self).cycles <= final(self).cycles <= old(self).cycles + 2,
            old(self).memory.inv() ==> final(self).memory.inv(),
            final(self).decimal_enabled == old(self).decimal_enabled,
    {
        proof {
            reveal(crate::semantics::rel_nopaddr);
        }
    }

    /// A taken branch: move PC by the sign-extended operand and pay the
    /// taken-branch cycle, plus one more on a page crossing.
    fn branch(&mut self, addr: u16)
        requires
            old(self).memory.inv(),
            old(self).cycles + 2 <= usize::MAX,
        ensures
            branch_taken(*old(self), *final(self), addr),
    {
        let offset = self.memory.read_signed(addr);
        let base = self.core.pc.wrapping_add(2);
        let target = base.wrapping_add(offset as u16);
        if base & 0xff00 != target & 0xff00 {
            self.cycles += 1;
        }
        self.core.pc = self.core.pc.wrapping_add(offset as u16);
        self.cycles += 1;
    }

    pub fn bcc(&mut self, addr: u16)
        requires
            old(self).memory.inv(),
            old(self).cycles + 2 <= usize::MAX,
        ensures
            op_rel(*old(self), *final(self), Op::Bcc, addr),
            old(self).cycles <= final(self).cycles <= old(self).cycles + 2,
            old(self).memory.inv() ==> final(self).memory.inv(),
            final(self).decimal_enabled == old(self).decimal_enabled,
    {
        proof {
            reveal(crate::semantics::rel_bcc);
        }
        if !self.core.f.c {
            self.branch(addr);
        }
    }

    pub fn bcs(&mut self, addr: u16)
        requires
            old(self).memory.inv(),
            old(self).cycles + 2 <= usize::MAX,
        ensures
            op_rel(*old(self), *final(self), Op::Bcs, addr),
            old(self).cycles <= final(self).cycles <= old(self).cycles + 2,
            old(self).memory.inv() ==> final(self).memory.inv(),
            final(self).decimal_enabled == old(self).decimal_enabled,
    {
        proof {
            reveal(crate::semantics::rel_bcs);
        }
        if self.core.f.c {
            self.branch(addr);
        }
    }

    pub fn beq(&mut self, addr: u16)
        requires
            old(self).memory.inv(),
            old(self).cycles + 2 <= usize::MAX,
        ensures
            op_rel(*old(self), *final(self), Op::Beq, addr),
            old(self).cycles <= final(self).cycles <= old(self).cycles + 2,
            old(self).memory.inv() ==> final(self).memory.inv(),
            final(self).decimal_enabled == old(self).decimal_enabled,
    {
        proof {
            reveal(crate::semantics::rel_beq);
        }
        if self.core.f.z {
            self.branch(addr);
        }
    }

    pub fn bne(&mut self, addr: u16)
        requires
            old(self).memory.inv(),
            old(self).cycles + 2 <= usize::MAX,
        ensures
            op_rel(*old(self), *final(self), Op::Bne, addr),
            old(self).cycles <= final(self).cycles <= old(self).cycles + 2,
            old(self).memory.inv() ==> final(self).memory.inv(),
            final(self).decimal_enabled == old(self).decimal_enabled,
    {
        proof {
            reveal(crate::semantics::rel_bne);
        }
        if !self.core.f.z {
            self.branch(addr);
        }
    }

    pub fn bmi(&mut self, addr: u16)
        requires
            old(self).memory.inv(),
            old(self).cycles + 2 <= usize::MAX,
        ensures
            op_rel(*old(self), *final(self), Op::Bmi, addr),
            old(self).cycles <= final(self).cycles <= old(self).cycles + 2,
            old(self).memory.inv() ==> final(self).memory.inv(),
            final(self).decimal_enabled == old(self).decimal_enabled,
    {
        proof {
            reveal(crate::semantics::rel_bmi);
        }
        if self.core.f.n {
            self.branch(addr);
        }
    }

    pub fn bpl(&mut self, addr: u16)
        requires
            old(self).memory.inv(),
            old(self).cycles + 2 <= usize::MAX,
        ensures
            op_rel(*old(self), *final(self), Op::Bpl, addr),
            old(self).cycles <= final(self).cycles <= old(self).cycles + 2,
            old(self).memory.inv() ==> final(self).memory.inv(),
            final(self).decimal_enabled == old(self).decimal_enabled,
    {
        proof {
            reveal(crate::semantics::rel_bpl);
        }
        if !self.core.f.n {
            self.branch(addr);
        }
    }

    pub fn bvs(&mut self, addr: u16)
        requires
            old(self).memory.inv(),
            old(self).cycles + 2 <= usize::MAX,
        ensures
            op_rel(*old(self), *final(self), Op::Bvs, addr),
            old(self).cycles <= final(self).cycles <= old(self).cycles + 2,
            old(self).memory.inv() ==> final(self).memory.inv(),
            final(self).decimal_enabled == old(self).decimal_enabled,
    {
        proof {
            reveal(crate::semantics::rel_bvs);
        }
        if self.core.f.v {
            self.branch(addr);
        }
    }

    pub fn bvc(&mut self, addr: u16)
        requires
            old(self).memory.inv(),
            old(self).cycles + 2 <= usize::MAX,
        ensures
            op_rel(*old(self), *final(self), Op::Bvc, addr),
            old(self).cycles <= final(self).cycles <= old(self).cycles + 2,
            old(self).memory.inv() ==> final(self).memory.inv(),
            final(self).decimal_enabled == old(self).decimal_enabled,
    {
        proof {
            reveal(crate::semantics::rel_bvc);
        }
        if !self.core.f.v {
            self.branch(addr);
        }
    }

    pub fn jmp(&mut self, addr: u16)
        ensures
            op_rel(*old(self), *final(self), Op::Jmp, addr),
            old(self).cycles <= final(self).cycles <= old(self).cycles + 2,
            old(self).memory.inv() ==> final(self).memory.inv(),
            final(self).decimal_enabled == old(self).decimal_enabled,
    {
        proof {
            reveal(crate::semantics::rel_jmp);
        }
        self.core.pc = addr;
        self.jumped = true;
    }

    /// JSR pushes the address of its own last operand byte (PC + 2),
    /// high byte first, then jumps.
    pub fn jsr(&mut self, addr: u16)
        requires
            old(self).memory.inv(),
        ensures
            op_rel(*old(self), *final(self), Op::Jsr, addr),
            old(self).cycles <= final(self).cycles <= old(self).cycles + 2,
            old(self).memory.inv() ==> final(self).memory.inv(),
            final(self).decimal_enabled == old(self).decimal_enabled,
    {
        proof {
            reveal(crate::semantics::rel_jsr);
        }
        let ret = self.core.pc.wrapping_add(2);
        self.push_word(ret);
        self.core.pc = addr;
        self.jumped = true;
    }

    pub fn rts(&mut self)
        requires
            old(self).memory.inv(),
        ensures
            forall|a: u16| op_rel(*old(self), *final(self), Op::Rts, a),
            old(self).cycles <= final(self).cycles <= old(self).cycles + 2,
            old(self).memory.inv() ==> final(self).memory.inv(),
            final(self).decimal_enabled == old(self).decimal_enabled,
    {
        proof {
            reveal(crate::semantics::rel_rts);
        }
        let lob = self.pull();
        let hob = self.pull();
        self.core.pc = (lob as u16) + 256 * (hob as u16);
    }

    pub fn rti(&mut self)
        requires
            old(self).memory.inv(),
        ensures
            forall|a: u16| op_rel(*old(self), *final(self), Op::Rti, a),
            old(self).cycles <= final(self).cycles <= old(self).cycles + 2,
            old(self).memory.inv() ==> final(self).memory.inv(),
            final(self).decimal_enabled == old(self).decimal_enabled,
    {
        proof {
            reveal(crate::semantics::rel_rti);
        }
        let p = self.pull();
        self.core.f.set_byte(p);
        let lob = self.pull();
        let hob = self.pull();
        self.core.pc = (lob as u16) + 256 * (hob as u16);
        self.jumped = true;
    }

    pub fn brk(&mut self)
        requires
            old(self).memory.inv(),
        ensures
            forall|a: u16| op_rel(*old(self), *final(self), Op::Brk, a),
            old(self).cycles <= final(self).cycles <= old(self).cycles + 2,
            old(self).memory.inv() ==> final(self).memory.inv(),
            final(self).decimal_enabled == old(self).decimal_enabled,
    {
        proof {
            reveal(crate::semantics::rel_brk);
        }
        let ghost pre = *self;
        let ret = self.core.pc.wrapping_add(2);
        self.push_word(ret);
        let ghost mid = *self;
        self.php();
        proof {
            reveal(crate::semantics::rel_php);
            assert(op_rel(mid, *self, Op::Php, 0));
            lemma_mem_writes_compose(
                pre.memory,
                mid.memory,
                self.memory,
                seq![
                    (spec_stack_addr(pre.core.sp), word_hi(wadd16(pre.core.pc, 2))),
                    (spec_stack_addr(wadd8(pre.core.sp, -1)), word_lo(wadd16(pre.core.pc, 2))),
                ],
                seq![
                    (
                        spec_stack_addr(wadd8(pre.core.sp, -2)),
                        crate::flags::spec_flags_byte(pre.core.f) | 0x30,
                    ),
                ],
            );
            assert(seq![
                (spec_stack_addr(pre.core.sp), word_hi(wadd16(pre.core.pc, 2))),
                (spec_stack_addr(wadd8(pre.core.sp, -1)), word_lo(wadd16(pre.core.pc, 2))),
            ] + seq![
                (
                    spec_stack_addr(wadd8(pre.core.sp, -2)),
                    crate::flags::spec_flags_byte(pre.core.f) | 0x30,
                ),
            ] =~= spec_brk_writes(pre));
        }
        self.core.f.i = true;
        let vector = self.memory.read_word(0xfffe);
        self.core.pc = vector;
        self.jumped = true;
    }

    pub fn pha(&mut self)
        requires
            old(self).memory.inv(),
        ensures
            forall|a: u16| op_rel(*old(self), *final(self), Op::Pha, a),
            old(self).cycles <= final(self).cycles <= old(self).cycles + 2,
            old(self).memory.inv() ==> final(self).memory.inv(),
            final(self).decimal_enabled == old(self).decimal_enabled,
    {
        proof {
            reveal(crate::semantics::rel_pha);
        }
        let v = self.core.a;
        self.push(v);
    }

    /// PHP pushes the status byte with bits 4 and 5 forced set.
    pub fn php(&mut self)
        requires
            old(self).memory.inv(),
        ensures
            forall|a: u16| op_rel(*old(self), *final(self), Op::Php, a),
            old(self).cycles <= final(self).cycles <= old(self).cycles + 2,
            old(self).memory.inv() ==> final(self).memory.inv(),
            final(self).decimal_enabled == old(self).decimal_enabled,
    {
        proof {
            reveal(crate::semantics::rel_php);
        }
        let v = self.core.f.get_byte();
        self.push(v | 0x30);
    }

    pub fn pla(&mut self)
        requires
            old(self).memory.inv(),
        ensures
            forall|a: u16| op_rel(*old(self), *final(self), Op::Pla, a),
            old(self).cycles <= final(self).cycles <= old(self).cycles + 2,
            old(self).memory.inv() ==> final(self).memory.inv(),
            final(self).decimal_enabled == old(self).decimal_enabled,
    {
        proof {
            reveal(crate::semantics::rel_pla);
        }
        let v = self.pull();
        self.core.a = v;
        self.core.f.set_z(v);
        self.core.f.set_n(v);
    }

    /// PLP restores the stored flags; bits 4 and 5 of the pulled byte
    /// are ignored.
    pub fn plp(&mut self)
        requires
            old(self).memory.inv(),
        ensures
            forall|a: u16| op_rel(*old(self), *final(self), Op::Plp, a),
            old(self).cycles <= final(self).cycles <= old(self).cycles + 2,
            old(self).memory.inv() ==> final(self).memory.inv(),
            final(self).decimal_enabled == old(self).decimal_enabled,
    {
        proof {
            reveal(crate::semantics::rel_plp);
        }
        let byte = self.pull();
        self.core.f.set_byte(byte);
    }
}

} // verus!
