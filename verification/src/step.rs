//! The instruction driver: one public operation, `emulate_instruction`,
//! which reads the opcode at PC, dispatches through the table, resolves
//! the addressing mode, applies the operation, accumulates cycles, and
//! advances PC unless the operation jumped. Its contract is the step
//! relation `step_spec`, which pins the entire next state.

use vstd::prelude::*;

use crate::instructions::{decode, mode_len, spec_decode, spec_mode_len, Instr, Mode, Op};
use crate::memory::{wadd16, Memory};
use crate::processor::{spec_mode_addr, spec_mode_extra, Core, Processor};
use crate::semantics::op_rel;

verus! {

/// The driver's closing bookkeeping after an operation ran: the base
/// cycle count is added, and PC either stays where a control operation
/// put it (clearing the latch) or advances by the instruction length.
pub open spec fn spec_finish<T: Memory>(mid: Processor<T>, i: Instr) -> Processor<T> {
    Processor {
        core: (Core {
            pc: if mid.jumped {
                mid.core.pc
            } else {
                wadd16(mid.core.pc, spec_mode_len(i.mode) as int)
            },
            ..mid.core
        }),
        jumped: false,
        cycles: (mid.cycles + i.cycles) as usize,
        ..mid
    }
}

/// One instruction step, as a relation between the pre- and post-
/// states: the opcode at PC decodes to some entry, whose addressing
/// mode yields an effective address and possibly a page-cross penalty;
/// the operation relates the penalized state to some intermediate
/// state; and the driver's bookkeeping yields the final state. An
/// illegal opcode admits no step at all.
pub open spec fn step_spec<T: Memory>(pre: Processor<T>, post: Processor<T>) -> bool {
    let opcode = pre.memory.spec_read(pre.core.pc);
    match spec_decode(opcode) {
        Option::None => false,
        Option::Some(i) => {
            let addr = spec_mode_addr(pre, i.mode);
            let mid1 = (Processor {
                cycles: (pre.cycles + spec_mode_extra(pre, i.mode)) as usize,
                ..pre
            });
            exists|mid2: Processor<T>|
                op_rel(mid1, mid2, i.op, addr) && post == spec_finish(mid2, i)
        },
    }
}

impl<T: Memory> Processor<T> {
    /// Resolve an addressing mode: compute the effective address,
    /// paying the page-cross penalty cycle where the mode calls for it.
    fn resolve_mode(&mut self, mode: Mode) -> (addr: u16)
        requires
            old(self).memory.inv(),
            old(self).cycles + 1 <= usize::MAX,
        ensures
            addr == spec_mode_addr(*old(self), mode),
            old(self).cycles <= final(self).cycles <= old(self).cycles + 1,
            final(self).core == old(self).core,
            final(self).memory == old(self).memory,
            final(self).jumped == old(self).jumped,
            final(self).decimal_enabled == old(self).decimal_enabled,
            final(self).cycles == old(self).cycles + spec_mode_extra(*old(self), mode),
    {
        match mode {
            Mode::Implied => 0,
            Mode::Immediate => self.immediate(),
            Mode::ZeroPage => self.zero_page(),
            Mode::ZeroPageX => self.zero_page_x(),
            Mode::ZeroPageY => self.zero_page_y(),
            Mode::Absolute => self.absolute(),
            Mode::AbsoluteX => self.absolute_x(),
            Mode::AbsoluteXStore => self.absolute_x_for_store(),
            Mode::AbsoluteY => self.absolute_y(),
            Mode::AbsoluteYStore => self.absolute_y_for_store(),
            Mode::Indirect => self.indirect(),
            Mode::IndexedIndirect => self.indexed_indirect(),
            Mode::IndirectIndexed => self.indirect_indexed(),
            Mode::IndirectIndexedStore => self.indirect_indexed_for_store(),
        }
    }

    /// Apply one operation to the resolved effective address.
    fn dispatch_op(&mut self, op: Op, addr: u16)
        requires
            old(self).memory.inv(),
            old(self).cycles + 2 <= usize::MAX,
        ensures
            op_rel(*old(self), *final(self), op, addr),
            old(self).cycles <= final(self).cycles <= old(self).cycles + 2,
            final(self).memory.inv(),
            final(self).decimal_enabled == old(self).decimal_enabled,
    {
        match op {
            Op::Adc => self.adc(addr),
            Op::And => self.and(addr),
            Op::Asl => self.asl(addr),
            Op::AslA => self.asla(),
            Op::Bcc => self.bcc(addr),
            Op::Bcs => self.bcs(addr),
            Op::Beq => self.beq(addr),
            Op::Bit => self.bit(addr),
            Op::Bmi => self.bmi(addr),
            Op::Bne => self.bne(addr),
            Op::Bpl => self.bpl(addr),
            Op::Brk => self.brk(),
            Op::Bvc => self.bvc(addr),
            Op::Bvs => self.bvs(addr),
            Op::Clc => self.clc(),
            Op::Cld => self.cld(),
            Op::Cli => self.cli(),
            Op::Clv => self.clv(),
            Op::Cmp => self.cmp(addr),
            Op::Cpx => self.cpx(addr),
            Op::Cpy => self.cpy(addr),
            Op::Dcp => self.dcp(addr),
            Op::Dec => self.dec(addr),
            Op::Dex => self.dex(),
            Op::Dey => self.dey(),
            Op::Eor => self.eor(addr),
            Op::Inc => self.inc(addr),
            Op::Inx => self.inx(),
            Op::Iny => self.iny(),
            Op::Isc => self.isc(addr),
            Op::Jmp => self.jmp(addr),
            Op::Jsr => self.jsr(addr),
            Op::Lax => self.lax(addr),
            Op::Lda => self.lda(addr),
            Op::Ldx => self.ldx(addr),
            Op::Ldy => self.ldy(addr),
            Op::Lsr => self.lsr(addr),
            Op::LsrA => self.lsra(),
            Op::Nop => self.nop(),
            Op::NopAddr => self.nop_addr(addr),
            Op::Ora => self.ora(addr),
            Op::Pha => self.pha(),
            Op::Php => self.php(),
            Op::Pla => self.pla(),
            Op::Plp => self.plp(),
            Op::Rla => self.rla(addr),
            Op::Rol => self.rol(addr),
            Op::RolA => self.rola(),
            Op::Ror => self.ror(addr),
            Op::RorA => self.rora(),
            Op::Rra => self.rra(addr),
            Op::Rti => self.rti(),
            Op::Rts => self.rts(),
            Op::Sax => self.sax(addr),
            Op::Sbc => self.sbc(addr),
            Op::Sec => self.sec(),
            Op::Sed => self.sed(),
            Op::Sei => self.sei(),
            Op::Slo => self.slo(addr),
            Op::Sre => self.sre(addr),
            Op::Sta => self.sta(addr),
            Op::Stx => self.stx(addr),
            Op::Sty => self.sty(addr),
            Op::Tax => self.tax(),
            Op::Tay => self.tay(),
            Op::Tsx => self.tsx(),
            Op::Txa => self.txa(),
            Op::Txs => self.txs(),
            Op::Tya => self.tya(),
        }
    }

    /// Execute the instruction at PC. Decoding an unmapped opcode is a
    /// fatal precondition violation: the caller must ensure the byte at
    /// PC is a legal opcode. The cycle bound is a machine limit on the
    /// cycle counter, never reached in practice.
    pub fn emulate_instruction(&mut self)
        requires
            old(self).memory.inv(),
            !old(self).jumped,
            spec_decode(old(self).memory.spec_read(old(self).core.pc)) is Some,
            old(self).cycles + 12 <= usize::MAX,
        ensures
            step_spec(*old(self), *final(self)),
            final(self).memory.inv(),
            !final(self).jumped,
            final(self).decimal_enabled == old(self).decimal_enabled,
    {
        let ghost pre = *self;
        let opcode = self.memory.read(self.core.pc);
        proof {
            crate::instructions::lemma_decode_cycles(pre.memory.spec_read(pre.core.pc));
        }
        let instr = decode(opcode).unwrap();
        let addr = self.resolve_mode(instr.mode);
        let ghost mid1 = *self;
        self.dispatch_op(instr.op, addr);
        let ghost mid2 = *self;
        self.cycles = self.cycles + instr.cycles as usize;
        if self.jumped {
            self.jumped = false;
        } else {
            let len = mode_len(instr.mode);
            self.core.pc = self.core.pc.wrapping_add(len);
        }
        proof {
            lemma_step_intro(pre, mid1, mid2, *self, instr);
        }
    }
}

/// Introduction rule for `step_spec`: the driver's three stages, given
/// field by field, compose into one step.
proof fn lemma_step_intro<T: Memory>(
    pre: Processor<T>,
    mid1: Processor<T>,
    mid2: Processor<T>,
    post: Processor<T>,
    i: Instr,
)
    requires
        spec_decode(pre.memory.spec_read(pre.core.pc)) == Option::Some(i),
        mid1.core == pre.core,
        mid1.memory == pre.memory,
        mid1.jumped == pre.jumped,
        mid1.decimal_enabled == pre.decimal_enabled,
        mid1.cycles == pre.cycles + spec_mode_extra(pre, i.mode),
        op_rel(mid1, mid2, i.op, spec_mode_addr(pre, i.mode)),
        post.core == (Core {
            pc: if mid2.jumped {
                mid2.core.pc
            } else {
                wadd16(mid2.core.pc, spec_mode_len(i.mode) as int)
            },
            ..mid2.core
        }),
        !post.jumped,
        post.cycles == mid2.cycles + i.cycles,
        post.memory == mid2.memory,
        post.decimal_enabled == mid2.decimal_enabled,
    ensures
        step_spec(pre, post),
{
    assert(mid1 == (Processor {
        cycles: (pre.cycles + spec_mode_extra(pre, i.mode)) as usize,
        ..pre
    }));
    assert(post == spec_finish(mid2, i));
    assert(step_spec(pre, post));
}

} // verus!
