//! The processor: architectural state (A, X, Y, P, SP, PC), the envelope
//! that binds it to a memory, the stack helpers, and the addressing-mode
//! decoders. The operations themselves live in `ops`; their mathematical
//! model lives in `semantics`.

use vstd::prelude::*;

use crate::flags::Flags;
use crate::instructions::Mode;
use crate::memory::{
    lemma_mem_writes_compose, lemma_single_write, mem_after_writes, spec_mem_word, word_le, wadd16,
    Memory,
};

verus! {

/// 8-bit wrapping addition of an integer offset.
pub open spec fn wadd8(x: u8, k: int) -> u8 {
    (((x + k) % 256 + 256) % 256) as u8
}

/// The stack lives in page 1, indexed by SP.
pub open spec fn spec_stack_addr(sp: u8) -> u16 {
    0x100u16 | (sp as u16)
}

/// Whether two addresses lie in different 256-byte pages.
pub open spec fn page_crossed(base: u16, eff: u16) -> bool {
    base & 0xff00 != eff & 0xff00
}

/// The high byte of a 16-bit word.
pub open spec fn word_hi(v: u16) -> u8 {
    (v >> 8) as u8
}

/// The low byte of a 16-bit word.
pub open spec fn word_lo(v: u16) -> u8 {
    (v & 0xff) as u8
}

/// The architectural register file of the 6502.
#[derive(Clone, Copy, Debug, PartialEq, Eq, Structural)]
pub struct Core {
    pub a: u8,
    pub x: u8,
    pub y: u8,
    pub f: Flags,
    pub sp: u8,
    pub pc: u16,
}

impl Core {
    /// The register file at reset: registers clear, SP at 0xFD, PC zero
    /// (the caller supplies the boot PC).
    pub open spec fn spec_reset() -> Core {
        Core { a: 0, x: 0, y: 0, f: Flags::spec_clear(), sp: 0xfd, pc: 0 }
    }

    pub fn new() -> (r: Core)
        ensures
            r == Core::spec_reset(),
    {
        Core {
            a: 0,
            x: 0,
            y: 0,
            f: Flags { c: false, z: false, i: false, d: false, v: false, n: false },
            sp: 0xfd,
            pc: 0x0000,
        }
    }
}

impl Default for Core {
    fn default() -> (r: Self)
        ensures
            r == Core::spec_reset(),
    {
        Core::new()
    }
}

/// The processor envelope: the register file, the memory it runs
/// against, the "jumped" latch set by control-flow operations so the
/// driver skips the PC advance, a monotonically increasing cycle
/// counter, and the decimal-mode configuration switch (the NES variant
/// of the 6502 ignores the D flag; other hosts honour it).
#[derive(Clone)]
pub struct Processor<T: Memory> {
    pub core: Core,
    pub memory: T,
    pub jumped: bool,
    pub cycles: usize,
    pub decimal_enabled: bool,
}

impl<T: Memory> Processor<T> {
    /// A processor at reset bound to the given memory, with decimal
    /// mode disabled as on the NES.
    pub fn with_memory(memory: T) -> (r: Self)
        ensures
            r.core == Core::spec_reset(),
            r.memory == memory,
            !r.jumped,
            r.cycles == 0,
            !r.decimal_enabled,
    {
        Processor { core: Core::new(), memory, jumped: false, cycles: 0, decimal_enabled: false }
    }

    pub fn stack_addr(&self) -> (r: u16)
        ensures
            r == spec_stack_addr(self.core.sp),
    {
        0x100u16 | (self.core.sp as u16)
    }

    /// Pull: SP is incremented first, then the byte at the new top is
    /// read (SP points at the next free slot).
    pub fn pull(&mut self) -> (r: u8)
        requires
            old(self).memory.inv(),
        ensures
            *final(self) == (Processor {
                core: (Core { sp: wadd8(old(self).core.sp, 1), ..old(self).core }),
                ..*old(self)
            }),
            r == old(self).memory.spec_read(spec_stack_addr(wadd8(old(self).core.sp, 1))),
    {
        self.core.sp = self.core.sp.wrapping_add(1);
        self.memory.read(self.stack_addr())
    }

    /// Push: the byte is written at the current top, then SP is
    /// decremented.
    pub fn push(&mut self, value: u8)
        requires
            old(self).memory.inv(),
        ensures
            final(self).core == (Core { sp: wadd8(old(self).core.sp, -1), ..old(self).core }),
            final(self).jumped == old(self).jumped,
            final(self).cycles == old(self).cycles,
            final(self).decimal_enabled == old(self).decimal_enabled,
            mem_after_writes(
                old(self).memory,
                final(self).memory,
                seq![(spec_stack_addr(old(self).core.sp), value)],
            ),
    {
        let addr = self.stack_addr();
        self.memory.write(addr, value);
        self.core.sp = self.core.sp.wrapping_sub(1);
        proof {
            lemma_single_write(
                old(self).memory,
                self.memory,
                spec_stack_addr(old(self).core.sp),
                value,
            );
        }
    }

    /// Push a 16-bit word, high byte first (so the low byte ends up at
    /// the lower stack address).
    pub fn push_word(&mut self, value: u16)
        requires
            old(self).memory.inv(),
        ensures
            final(self).core == (Core { sp: wadd8(old(self).core.sp, -2), ..old(self).core }),
            final(self).jumped == old(self).jumped,
            final(self).cycles == old(self).cycles,
            final(self).decimal_enabled == old(self).decimal_enabled,
            mem_after_writes(
                old(self).memory,
                final(self).memory,
                seq![
                    (spec_stack_addr(old(self).core.sp), word_hi(value)),
                    (spec_stack_addr(wadd8(old(self).core.sp, -1)), word_lo(value)),
                ],
            ),
    {
        let ghost pre = *self;
        self.push((value >> 8) as u8);
        let ghost mid = *self;
        self.push((value & 0xff) as u8);
        proof {
            lemma_mem_writes_compose(
                pre.memory,
                mid.memory,
                self.memory,
                seq![(spec_stack_addr(pre.core.sp), word_hi(value))],
                seq![(spec_stack_addr(wadd8(pre.core.sp, -1)), word_lo(value))],
            );
            assert(seq![(spec_stack_addr(pre.core.sp), word_hi(value))] + seq![
                (spec_stack_addr(wadd8(pre.core.sp, -1)), word_lo(value)),
            ] =~= seq![
                (spec_stack_addr(pre.core.sp), word_hi(value)),
                (spec_stack_addr(wadd8(pre.core.sp, -1)), word_lo(value)),
            ]);
        }
    }

    // ADDRESSING MODES

    /// The operand address of the immediate mode: the byte after the
    /// opcode.
    pub fn immediate(&self) -> (r: u16)
        ensures
            r == wadd16(self.core.pc, 1),
    {
        self.core.pc.wrapping_add(1)
    }

    /// The operand byte itself.
    pub fn immediate_operand(&self) -> (r: u8)
        requires
            self.memory.inv(),
        ensures
            r == self.memory.spec_read(wadd16(self.core.pc, 1)),
    {
        let addr = self.immediate();
        self.memory.read(addr)
    }

    pub fn zero_page(&self) -> (r: u16)
        requires
            self.memory.inv(),
        ensures
            r == spec_mode_addr(*self, Mode::ZeroPage),
    {
        self.immediate_operand() as u16
    }

    pub fn zero_page_x(&self) -> (r: u16)
        requires
            self.memory.inv(),
        ensures
            r == spec_mode_addr(*self, Mode::ZeroPageX),
    {
        self.immediate_operand().wrapping_add(self.core.x) as u16
    }

    pub fn zero_page_y(&self) -> (r: u16)
        requires
            self.memory.inv(),
        ensures
            r == spec_mode_addr(*self, Mode::ZeroPageY),
    {
        self.immediate_operand().wrapping_add(self.core.y) as u16
    }

    pub fn absolute(&self) -> (r: u16)
        requires
            self.memory.inv(),
        ensures
            r == spec_mem_word(self.memory, wadd16(self.core.pc, 1)),
    {
        let addr = self.immediate();
        self.memory.read_word(addr)
    }

    pub fn absolute_x(&mut self) -> (r: u16)
        requires
            old(self).memory.inv(),
            old(self).cycles + 1 <= usize::MAX,
        ensures
            r == spec_mode_addr(*old(self), Mode::AbsoluteX),
            final(self).core == old(self).core,
            final(self).memory == old(self).memory,
            final(self).jumped == old(self).jumped,
            final(self).decimal_enabled == old(self).decimal_enabled,
            final(self).cycles == old(self).cycles + spec_mode_extra(*old(self), Mode::AbsoluteX),
    {
        let base = self.absolute();
        let addr = base.wrapping_add(self.core.x as u16);
        if base & 0xff00 != addr & 0xff00 {
            self.cycles += 1;
        }
        addr
    }

    pub fn absolute_x_for_store(&self) -> (r: u16)
        requires
            self.memory.inv(),
        ensures
            r == spec_mode_addr(*self, Mode::AbsoluteXStore),
    {
        self.absolute().wrapping_add(self.core.x as u16)
    }

    pub fn absolute_y(&mut self) -> (r: u16)
        requires
            old(self).memory.inv(),
            old(self).cycles + 1 <= usize::MAX,
        ensures
            r == spec_mode_addr(*old(self), Mode::AbsoluteY),
            final(self).core == old(self).core,
            final(self).memory == old(self).memory,
            final(self).jumped == old(self).jumped,
            final(self).decimal_enabled == old(self).decimal_enabled,
            final(self).cycles == old(self).cycles + spec_mode_extra(*old(self), Mode::AbsoluteY),
    {
        let base = self.absolute();
        let addr = base.wrapping_add(self.core.y as u16);
        if base & 0xff00 != addr & 0xff00 {
            self.cycles += 1;
        }
        addr
    }

    pub fn absolute_y_for_store(&self) -> (r: u16)
        requires
            self.memory.inv(),
        ensures
            r == spec_mode_addr(*self, Mode::AbsoluteYStore),
    {
        self.absolute().wrapping_add(self.core.y as u16)
    }

    /// A word read through a pointer, reproducing the 6502 page-wrap
    /// bug: when the pointer's low byte is 0xFF, the high byte is
    /// fetched from the start of the same page, not the next one.
    pub fn wrapping_read(&self, indirect_addr: u16) -> (r: u16)
        requires
            self.memory.inv(),
        ensures
            r == spec_wrap_read_word(self.memory, indirect_addr),
    {
        if indirect_addr & 0x00ff == 0x00ff {
            let lo = self.memory.read(indirect_addr);
            let hi = self.memory.read(indirect_addr & 0xff00);
            (lo as u16) + 256 * (hi as u16)
        } else {
            self.memory.read_word(indirect_addr)
        }
    }

    pub fn indirect(&self) -> (r: u16)
        requires
            self.memory.inv(),
        ensures
            r == spec_mode_addr(*self, Mode::Indirect),
    {
        let base = self.absolute();
        self.wrapping_read(base)
    }

    pub fn indexed_indirect(&self) -> (r: u16)
        requires
            self.memory.inv(),
        ensures
            r == spec_mode_addr(*self, Mode::IndexedIndirect),
    {
        let zp = self.zero_page_x();
        self.wrapping_read(zp)
    }

    pub fn indirect_indexed(&mut self) -> (r: u16)
        requires
            old(self).memory.inv(),
            old(self).cycles + 1 <= usize::MAX,
        ensures
            r == spec_mode_addr(*old(self), Mode::IndirectIndexed),
            final(self).core == old(self).core,
            final(self).memory == old(self).memory,
            final(self).jumped == old(self).jumped,
            final(self).decimal_enabled == old(self).decimal_enabled,
            final(self).cycles == old(self).cycles + spec_mode_extra(
                *old(self),
                Mode::IndirectIndexed,
            ),
    {
        let zp = self.zero_page();
        let base = self.wrapping_read(zp);
        let addr = base.wrapping_add(self.core.y as u16);
        if base & 0xff00 != addr & 0xff00 {
            self.cycles += 1;
        }
        addr
    }

    pub fn indirect_indexed_for_store(&self) -> (r: u16)
        requires
            self.memory.inv(),
        ensures
            r == spec_mode_addr(*self, Mode::IndirectIndexedStore),
    {
        let zp = self.zero_page();
        let base = self.wrapping_read(zp);
        base.wrapping_add(self.core.y as u16)
    }
}

/// A word read through a pointer with the 6502 page-wrap bug.
pub open spec fn spec_wrap_read_word<T: Memory>(m: T, ptr: u16) -> u16 {
    if ptr & 0x00ff == 0x00ff {
        word_le(m.spec_read(ptr), m.spec_read(ptr & 0xff00))
    } else {
        word_le(m.spec_read(ptr), m.spec_read(if ptr == 0xffff { 0u16 } else { (ptr + 1) as u16 }))
    }
}

/// The effective address each addressing mode yields, as a pure
/// function of the pre-instruction state. For `Implied` no address is
/// consumed and the value is unused.
pub open spec fn spec_mode_addr<T: Memory>(p: Processor<T>, mode: Mode) -> u16 {
    let m = p.memory;
    let pc1 = wadd16(p.core.pc, 1);
    let operand = m.spec_read(pc1);
    match mode {
        Mode::Implied => 0,
        Mode::Immediate => pc1,
        Mode::ZeroPage => operand as u16,
        Mode::ZeroPageX => wadd8(operand, p.core.x as int) as u16,
        Mode::ZeroPageY => wadd8(operand, p.core.y as int) as u16,
        Mode::Absolute => spec_mem_word(m, pc1),
        Mode::AbsoluteX => wadd16(spec_mem_word(m, pc1), p.core.x as int),
        Mode::AbsoluteXStore => wadd16(spec_mem_word(m, pc1), p.core.x as int),
        Mode::AbsoluteY => wadd16(spec_mem_word(m, pc1), p.core.y as int),
        Mode::AbsoluteYStore => wadd16(spec_mem_word(m, pc1), p.core.y as int),
        Mode::Indirect => spec_wrap_read_word(m, spec_mem_word(m, pc1)),
        Mode::IndexedIndirect => spec_wrap_read_word(m, wadd8(operand, p.core.x as int) as u16),
        Mode::IndirectIndexed => wadd16(spec_wrap_read_word(m, operand as u16), p.core.y as int),
        Mode::IndirectIndexedStore => wadd16(
            spec_wrap_read_word(m, operand as u16),
            p.core.y as int,
        ),
    }
}

/// The page-cross cycle penalty a mode pays: 1 when a read-style indexed
/// mode's effective address lies in a different page than its base, 0
/// otherwise. Store-style modes never pay it.
pub open spec fn spec_mode_extra<T: Memory>(p: Processor<T>, mode: Mode) -> int {
    let m = p.memory;
    let pc1 = wadd16(p.core.pc, 1);
    match mode {
        Mode::AbsoluteX => if page_crossed(
            spec_mem_word(m, pc1),
            wadd16(spec_mem_word(m, pc1), p.core.x as int),
        ) {
            1int
        } else {
            0int
        },
        Mode::AbsoluteY => if page_crossed(
            spec_mem_word(m, pc1),
            wadd16(spec_mem_word(m, pc1), p.core.y as int),
        ) {
            1int
        } else {
            0int
        },
        Mode::IndirectIndexed => if page_crossed(
            spec_wrap_read_word(m, m.spec_read(pc1) as u16),
            wadd16(spec_wrap_read_word(m, m.spec_read(pc1) as u16), p.core.y as int),
        ) {
            1int
        } else {
            0int
        },
        _ => 0int,
    }
}

} // verus!
