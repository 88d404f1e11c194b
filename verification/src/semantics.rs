//! The mathematical model of the operations: pure functions from the
//! register file (and an operand byte) to the next register file, and
//! the relation `op_rel` that says exactly what each operation does to
//! the whole processor — registers, flags, memory, cycle counter and
//! jumped latch. The executable operations in `ops` each ensure their
//! own `op_rel` arm; the step relation in `step` composes these with
//! the addressing modes and the dispatch table.

use vstd::prelude::*;

use crate::flags::{spec_flags_byte, spec_flags_from_byte, spec_zn, Flags};
use crate::instructions::Op;
use crate::memory::{mem_after_writes, read_after, word_le, wadd16, Memory};
use crate::processor::{
    page_crossed, spec_stack_addr, wadd8, word_hi, word_lo, Core, Processor,
};

verus! {

// ---------------------------------------------------------------------
// Pure register-file semantics
// ---------------------------------------------------------------------

/// The full-precision binary sum of ADC.
pub open spec fn spec_adc_sum(a: u8, m: u8, c: bool) -> int {
    a + m + (if c {
        1int
    } else {
        0int
    })
}

/// The signed-overflow rule for addition: set when both addends share a
/// sign and the result's sign differs.
pub open spec fn spec_overflow_add(a: u8, m: u8, r: u8) -> bool {
    (a ^ m) & 0x80 == 0 && (a ^ r) & 0x80 != 0
}

/// The signed-overflow rule for subtraction.
pub open spec fn spec_overflow_sub(a: u8, m: u8, r: u8) -> bool {
    (a ^ m) & 0x80 != 0 && (a ^ r) & 0x80 != 0
}

/// ADC in binary mode: A, C, V, Z, N updated.
pub open spec fn spec_adc_bin(c: Core, m: u8) -> Core {
    let s = spec_adc_sum(c.a, m, c.f.c);
    let r = (s % 256) as u8;
    Core {
        a: r,
        f: (Flags { c: s > 255, v: spec_overflow_add(c.a, m, r), ..spec_zn(c.f, r) }),
        ..c
    }
}

/// ADC in decimal mode: BCD addition of the low then high nibbles with
/// base-10 carry propagation; C reflects BCD overflow; Z, N and V are
/// computed from the binary-mode result byte (the classic NMOS quirk).
pub open spec fn spec_adc_dec(c: Core, m: u8) -> Core {
    let cin = if c.f.c {
        1int
    } else {
        0int
    };
    let s = c.a + m + cin;
    let bin_r = (s % 256) as u8;
    let lo0 = c.a % 16 + m % 16 + cin;
    let lo = if lo0 > 9 {
        lo0 + 6
    } else {
        lo0
    };
    let hi0 = c.a / 16 + m / 16 + (if lo > 15 {
        1int
    } else {
        0int
    });
    let hi = if hi0 > 9 {
        hi0 + 6
    } else {
        hi0
    };
    let r = ((hi % 16) * 16 + lo % 16) as u8;
    Core {
        a: r,
        f: (Flags { c: hi > 15, v: spec_overflow_add(c.a, m, bin_r), ..spec_zn(c.f, bin_r) }),
        ..c
    }
}

pub open spec fn spec_adc_core(c: Core, m: u8, decimal: bool) -> Core {
    if decimal && c.f.d {
        spec_adc_dec(c, m)
    } else {
        spec_adc_bin(c, m)
    }
}

/// The borrow-offset difference of SBC: 256 + A - m - (1 - C), always
/// in 0..=511; 256 or more means no borrow out (C set).
pub open spec fn spec_sbc_diff(a: u8, m: u8, c: bool) -> int {
    256 + a - m - (if c {
        0int
    } else {
        1int
    })
}

/// SBC in binary mode: A, C, V, Z, N updated; carry is the inverted
/// borrow.
pub open spec fn spec_sbc_bin(c: Core, m: u8) -> Core {
    let d = spec_sbc_diff(c.a, m, c.f.c);
    let r = (d % 256) as u8;
    Core {
        a: r,
        f: (Flags { c: d >= 256, v: spec_overflow_sub(c.a, m, r), ..spec_zn(c.f, r) }),
        ..c
    }
}

/// SBC in decimal mode: BCD subtraction nibble by nibble; all flags are
/// those of the binary-mode computation, only A is adjusted.
pub open spec fn spec_sbc_dec(c: Core, m: u8) -> Core {
    let borrow = if c.f.c {
        0int
    } else {
        1int
    };
    let d = 256 + c.a - m - borrow;
    let bin_r = (d % 256) as u8;
    let lo0 = 16 + c.a % 16 - m % 16 - borrow;
    let lo = if lo0 < 16 {
        lo0 + 10
    } else {
        lo0
    };
    let hi0 = 16 + c.a / 16 - m / 16 - (if lo0 < 16 {
        1int
    } else {
        0int
    });
    let hi = if hi0 < 16 {
        hi0 + 10
    } else {
        hi0
    };
    let r = ((hi % 16) * 16 + lo % 16) as u8;
    Core {
        a: r,
        f: (Flags { c: d >= 256, v: spec_overflow_sub(c.a, m, bin_r), ..spec_zn(c.f, bin_r) }),
        ..c
    }
}

pub open spec fn spec_sbc_core(c: Core, m: u8, decimal: bool) -> Core {
    if decimal && c.f.d {
        spec_sbc_dec(c, m)
    } else {
        spec_sbc_bin(c, m)
    }
}

/// The flags of a comparison: Z and N from the 8-bit difference, C when
/// the register is at least the operand (unsigned).
pub open spec fn spec_cmp_flags(f: Flags, reg: u8, m: u8) -> Flags {
    let r = ((256 + reg - m) % 256) as u8;
    Flags { c: reg >= m, ..spec_zn(f, r) }
}

pub open spec fn spec_and_core(c: Core, m: u8) -> Core {
    Core { a: c.a & m, f: spec_zn(c.f, c.a & m), ..c }
}

pub open spec fn spec_ora_core(c: Core, m: u8) -> Core {
    Core { a: c.a | m, f: spec_zn(c.f, c.a | m), ..c }
}

pub open spec fn spec_eor_core(c: Core, m: u8) -> Core {
    Core { a: c.a ^ m, f: spec_zn(c.f, c.a ^ m), ..c }
}

/// BIT: Z from A AND m, V and N copied from bits 6 and 7 of the
/// operand; A unchanged.
pub open spec fn spec_bit_core(c: Core, m: u8) -> Core {
    Core {
        f: (Flags { z: c.a & m == 0, v: m & 0x40 != 0, n: m & 0x80 != 0, ..c.f }),
        ..c
    }
}

/// The shifted value and carry of each shift or rotate form.
pub open spec fn spec_asl_val(m: u8) -> u8 {
    m << 1
}

pub open spec fn spec_lsr_val(m: u8) -> u8 {
    m >> 1
}

pub open spec fn spec_rol_val(m: u8, c: bool) -> u8 {
    (m << 1) | (if c {
        1u8
    } else {
        0u8
    })
}

pub open spec fn spec_ror_val(m: u8, c: bool) -> u8 {
    (m >> 1) | (if c {
        0x80u8
    } else {
        0u8
    })
}

/// Flags after a shift toward carry from bit 7 (ASL, ROL, SLO, RLA).
pub open spec fn spec_shift_left_flags(f: Flags, m: u8, r: u8) -> Flags {
    Flags { c: m & 0x80 != 0, ..spec_zn(f, r) }
}

/// Flags after a shift toward carry from bit 0 (LSR, ROR, SRE).
pub open spec fn spec_shift_right_flags(f: Flags, m: u8, r: u8) -> Flags {
    Flags { c: m & 0x01 != 0, ..spec_zn(f, r) }
}

// ---------------------------------------------------------------------
// The operation relation
// ---------------------------------------------------------------------

/// The operation changed only the register file, to `c2`.
pub open spec fn core_step<T: Memory>(pre: Processor<T>, post: Processor<T>, c2: Core) -> bool {
    post == (Processor { core: c2, ..pre })
}

/// The operation set the register file to `c2` and performed exactly
/// one memory write of `wd` at `wa`; cycles and the latch are
/// untouched.
pub open spec fn rmw_step<T: Memory>(
    pre: Processor<T>,
    post: Processor<T>,
    c2: Core,
    wa: u16,
    wd: u8,
) -> bool {
    &&& post.core == c2
    &&& post.jumped == pre.jumped
    &&& post.cycles == pre.cycles
    &&& post.decimal_enabled == pre.decimal_enabled
    &&& mem_after_writes(pre.memory, post.memory, seq![(wa, wd)])
}

/// A taken branch: PC moves by the sign-extended operand byte (the
/// driver still adds the instruction length afterwards, so the final
/// target is PC + 2 + offset), one cycle is paid for taking the branch
/// and one more when the target lies in a different page than the
/// address after the operand.
pub open spec fn branch_taken<T: Memory>(pre: Processor<T>, post: Processor<T>, addr: u16) -> bool {
    let off = pre.memory.spec_read(addr) as i8;
    let base = wadd16(pre.core.pc, 2);
    let tgt = wadd16(base, (off as u16) as int);
    &&& post.core == (Core { pc: wadd16(pre.core.pc, (off as u16) as int), ..pre.core })
    &&& post.cycles == pre.cycles + 1 + (if page_crossed(base, tgt) {
        1int
    } else {
        0int
    })
    &&& post.memory == pre.memory
    &&& post.jumped == pre.jumped
    &&& post.decimal_enabled == pre.decimal_enabled
}

/// A conditional branch: taken when `cond` holds, otherwise nothing
/// changes.
pub open spec fn branch_step<T: Memory>(
    pre: Processor<T>,
    post: Processor<T>,
    addr: u16,
    cond: bool,
) -> bool {
    if cond {
        branch_taken(pre, post, addr)
    } else {
        post == pre
    }
}

/// The three writes BRK performs: return address (high then low), then
/// the status byte with bits 4 and 5 forced set.
pub open spec fn spec_brk_writes<T: Memory>(pre: Processor<T>) -> Seq<(u16, u8)> {
    let ret = wadd16(pre.core.pc, 2);
    seq![
        (spec_stack_addr(pre.core.sp), word_hi(ret)),
        (spec_stack_addr(wadd8(pre.core.sp, -1)), word_lo(ret)),
        (spec_stack_addr(wadd8(pre.core.sp, -2)), spec_flags_byte(pre.core.f) | 0x30),
    ]
}

/// The `Adc` arm of `op_rel`.
#[verifier::opaque]
pub open spec fn rel_adc<T: Memory>(pre: Processor<T>, post: Processor<T>, addr: u16) -> bool {
    let m = pre.memory.spec_read(addr);
    let c = pre.core;
    core_step(pre, post, spec_adc_core(c, m, pre.decimal_enabled))
}

/// The `Sbc` arm of `op_rel`.
#[verifier::opaque]
pub open spec fn rel_sbc<T: Memory>(pre: Processor<T>, post: Processor<T>, addr: u16) -> bool {
    let m = pre.memory.spec_read(addr);
    let c = pre.core;
    core_step(pre, post, spec_sbc_core(c, m, pre.decimal_enabled))
}

/// The `And` arm of `op_rel`.
#[verifier::opaque]
pub open spec fn rel_and<T: Memory>(pre: Processor<T>, post: Processor<T>, addr: u16) -> bool {
    let m = pre.memory.spec_read(addr);
    let c = pre.core;
    core_step(pre, post, spec_and_core(c, m))
}

/// The `Ora` arm of `op_rel`.
#[verifier::opaque]
pub open spec fn rel_ora<T: Memory>(pre: Processor<T>, post: Processor<T>, addr: u16) -> bool {
    let m = pre.memory.spec_read(addr);
    let c = pre.core;
    core_step(pre, post, spec_ora_core(c, m))
}

/// The `Eor` arm of `op_rel`.
#[verifier::opaque]
pub open spec fn rel_eor<T: Memory>(pre: Processor<T>, post: Processor<T>, addr: u16) -> bool {
    let m = pre.memory.spec_read(addr);
    let c = pre.core;
    core_step(pre, post, spec_eor_core(c, m))
}

/// The `Bit` arm of `op_rel`.
#[verifier::opaque]
pub open spec fn rel_bit<T: Memory>(pre: Processor<T>, post: Processor<T>, addr: u16) -> bool {
    let m = pre.memory.spec_read(addr);
    let c = pre.core;
    core_step(pre, post, spec_bit_core(c, m))
}

/// The `Cmp` arm of `op_rel`.
#[verifier::opaque]
pub open spec fn rel_cmp<T: Memory>(pre: Processor<T>, post: Processor<T>, addr: u16) -> bool {
    let m = pre.memory.spec_read(addr);
    let c = pre.core;
    core_step(pre, post, (Core { f: spec_cmp_flags(c.f, c.a, m), ..c }))
}

/// The `Cpx` arm of `op_rel`.
#[verifier::opaque]
pub open spec fn rel_cpx<T: Memory>(pre: Processor<T>, post: Processor<T>, addr: u16) -> bool {
    let m = pre.memory.spec_read(addr);
    let c = pre.core;
    core_step(pre, post, (Core { f: spec_cmp_flags(c.f, c.x, m), ..c }))
}

/// The `Cpy` arm of `op_rel`.
#[verifier::opaque]
pub open spec fn rel_cpy<T: Memory>(pre: Processor<T>, post: Processor<T>, addr: u16) -> bool {
    let m = pre.memory.spec_read(addr);
    let c = pre.core;
    core_step(pre, post, (Core { f: spec_cmp_flags(c.f, c.y, m), ..c }))
}

/// The `Lda` arm of `op_rel`.
#[verifier::opaque]
pub open spec fn rel_lda<T: Memory>(pre: Processor<T>, post: Processor<T>, addr: u16) -> bool {
    let m = pre.memory.spec_read(addr);
    let c = pre.core;
    core_step(pre, post, (Core { a: m, f: spec_zn(c.f, m), ..c }))
}

/// The `Ldx` arm of `op_rel`.
#[verifier::opaque]
pub open spec fn rel_ldx<T: Memory>(pre: Processor<T>, post: Processor<T>, addr: u16) -> bool {
    let m = pre.memory.spec_read(addr);
    let c = pre.core;
    core_step(pre, post, (Core { x: m, f: spec_zn(c.f, m), ..c }))
}

/// The `Ldy` arm of `op_rel`.
#[verifier::opaque]
pub open spec fn rel_ldy<T: Memory>(pre: Processor<T>, post: Processor<T>, addr: u16) -> bool {
    let m = pre.memory.spec_read(addr);
    let c = pre.core;
    core_step(pre, post, (Core { y: m, f: spec_zn(c.f, m), ..c }))
}

/// LAX (undocumented): load A and X together from the operand.
#[verifier::opaque]
pub open spec fn rel_lax<T: Memory>(pre: Processor<T>, post: Processor<T>, addr: u16) -> bool {
    let m = pre.memory.spec_read(addr);
    let c = pre.core;
    core_step(pre, post, (Core { a: m, x: m, f: spec_zn(c.f, m), ..c }))
}

/// The `AslA` arm of `op_rel`.
#[verifier::opaque]
pub open spec fn rel_asla<T: Memory>(pre: Processor<T>, post: Processor<T>, addr: u16) -> bool {
    let m = pre.memory.spec_read(addr);
    let c = pre.core;
    core_step(
        pre,
        post,
        (Core {
            a: spec_asl_val(c.a),
            f: spec_shift_left_flags(c.f, c.a, spec_asl_val(c.a)),
            ..c
        }),
    )
}

/// The `LsrA` arm of `op_rel`.
#[verifier::opaque]
pub open spec fn rel_lsra<T: Memory>(pre: Processor<T>, post: Processor<T>, addr: u16) -> bool {
    let m = pre.memory.spec_read(addr);
    let c = pre.core;
    core_step(
        pre,
        post,
        (Core {
            a: spec_lsr_val(c.a),
            f: spec_shift_right_flags(c.f, c.a, spec_lsr_val(c.a)),
            ..c
        }),
    )
}

/// The `RolA` arm of `op_rel`.
#[verifier::opaque]
pub open spec fn rel_rola<T: Memory>(pre: Processor<T>, post: Processor<T>, addr: u16) -> bool {
    let m = pre.memory.spec_read(addr);
    let c = pre.core;
    core_step(
        pre,
        post,
        (Core {
            a: spec_rol_val(c.a, c.f.c),
            f: spec_shift_left_flags(c.f, c.a, spec_rol_val(c.a, c.f.c)),
            ..c
        }),
    )
}

/// The `RorA` arm of `op_rel`.
#[verifier::opaque]
pub open spec fn rel_rora<T: Memory>(pre: Processor<T>, post: Processor<T>, addr: u16) -> bool {
    let m = pre.memory.spec_read(addr);
    let c = pre.core;
    core_step(
        pre,
        post,
        (Core {
            a: spec_ror_val(c.a, c.f.c),
            f: spec_shift_right_flags(c.f, c.a, spec_ror_val(c.a, c.f.c)),
            ..c
        }),
    )
}

/// The `Asl` arm of `op_rel`.
#[verifier::opaque]
pub open spec fn rel_asl<T: Memory>(pre: Processor<T>, post: Processor<T>, addr: u16) -> bool {
    let m = pre.memory.spec_read(addr);
    let c = pre.core;
    rmw_step(
        pre,
        post,
        (Core { f: spec_shift_left_flags(c.f, m, spec_asl_val(m)), ..c }),
        addr,
        spec_asl_val(m),
    )
}

/// The `Lsr` arm of `op_rel`.
#[verifier::opaque]
pub open spec fn rel_lsr<T: Memory>(pre: Processor<T>, post: Processor<T>, addr: u16) -> bool {
    let m = pre.memory.spec_read(addr);
    let c = pre.core;
    rmw_step(
        pre,
        post,
        (Core { f: spec_shift_right_flags(c.f, m, spec_lsr_val(m)), ..c }),
        addr,
        spec_lsr_val(m),
    )
}

/// The `Rol` arm of `op_rel`.
#[verifier::opaque]
pub open spec fn rel_rol<T: Memory>(pre: Processor<T>, post: Processor<T>, addr: u16) -> bool {
    let m = pre.memory.spec_read(addr);
    let c = pre.core;
    rmw_step(
        pre,
        post,
        (Core { f: spec_shift_left_flags(c.f, m, spec_rol_val(m, c.f.c)), ..c }),
        addr,
        spec_rol_val(m, c.f.c),
    )
}

/// The `Ror` arm of `op_rel`.
#[verifier::opaque]
pub open spec fn rel_ror<T: Memory>(pre: Processor<T>, post: Processor<T>, addr: u16) -> bool {
    let m = pre.memory.spec_read(addr);
    let c = pre.core;
    rmw_step(
        pre,
        post,
        (Core { f: spec_shift_right_flags(c.f, m, spec_ror_val(m, c.f.c)), ..c }),
        addr,
        spec_ror_val(m, c.f.c),
    )
}

/// The `Inc` arm of `op_rel`.
#[verifier::opaque]
pub open spec fn rel_inc<T: Memory>(pre: Processor<T>, post: Processor<T>, addr: u16) -> bool {
    let m = pre.memory.spec_read(addr);
    let c = pre.core;
    rmw_step(
        pre,
        post,
        (Core { f: spec_zn(c.f, wadd8(m, 1)), ..c }),
        addr,
        wadd8(m, 1),
    )
}

/// The `Dec` arm of `op_rel`.
#[verifier::opaque]
pub open spec fn rel_dec<T: Memory>(pre: Processor<T>, post: Processor<T>, addr: u16) -> bool {
    let m = pre.memory.spec_read(addr);
    let c = pre.core;
    rmw_step(
        pre,
        post,
        (Core { f: spec_zn(c.f, wadd8(m, -1)), ..c }),
        addr,
        wadd8(m, -1),
    )
}

/// SLO (undocumented): ASL the operand in memory, then OR the
/// shifted value into A.
#[verifier::opaque]
pub open spec fn rel_slo<T: Memory>(pre: Processor<T>, post: Processor<T>, addr: u16) -> bool {
    let m = pre.memory.spec_read(addr);
    let c = pre.core;
    rmw_step(
        pre,
        post,
        (Core {
            a: c.a | spec_asl_val(m),
            f: (Flags { c: m & 0x80 != 0, ..spec_zn(c.f, c.a | spec_asl_val(m)) }),
            ..c
        }),
        addr,
        spec_asl_val(m),
    )
}

/// SRE (undocumented): LSR the operand in memory, then EOR the
/// shifted value into A.
#[verifier::opaque]
pub open spec fn rel_sre<T: Memory>(pre: Processor<T>, post: Processor<T>, addr: u16) -> bool {
    let m = pre.memory.spec_read(addr);
    let c = pre.core;
    rmw_step(
        pre,
        post,
        (Core {
            a: c.a ^ spec_lsr_val(m),
            f: (Flags { c: m & 0x01 != 0, ..spec_zn(c.f, c.a ^ spec_lsr_val(m)) }),
            ..c
        }),
        addr,
        spec_lsr_val(m),
    )
}

/// RLA (undocumented): ROL the operand in memory, then AND the
/// rotated value into A.
#[verifier::opaque]
pub open spec fn rel_rla<T: Memory>(pre: Processor<T>, post: Processor<T>, addr: u16) -> bool {
    let m = pre.memory.spec_read(addr);
    let c = pre.core;
    rmw_step(
        pre,
        post,
        (Core {
            a: c.a & spec_rol_val(m, c.f.c),
            f: (Flags { c: m & 0x80 != 0, ..spec_zn(c.f, c.a & spec_rol_val(m, c.f.c)) }),
            ..c
        }),
        addr,
        spec_rol_val(m, c.f.c),
    )
}

/// RRA (undocumented): ROR the operand in memory, then ADC the
/// rotated value, with the carry the rotation just produced.
#[verifier::opaque]
pub open spec fn rel_rra<T: Memory>(pre: Processor<T>, post: Processor<T>, addr: u16) -> bool {
    let m = pre.memory.spec_read(addr);
    let c = pre.core;
    rmw_step(
        pre,
        post,
        spec_adc_core(
                (Core { f: (Flags { c: m & 0x01 != 0, ..c.f }), ..c }),
                spec_ror_val(m, c.f.c),
                pre.decimal_enabled,
            ),
        addr,
        spec_ror_val(m, c.f.c),
    )
}

/// DCP (undocumented): DEC the operand in memory, then CMP A
/// against the decremented value.
#[verifier::opaque]
pub open spec fn rel_dcp<T: Memory>(pre: Processor<T>, post: Processor<T>, addr: u16) -> bool {
    let m = pre.memory.spec_read(addr);
    let c = pre.core;
    rmw_step(
        pre,
        post,
        (Core { f: spec_cmp_flags(c.f, c.a, wadd8(m, -1)), ..c }),
        addr,
        wadd8(m, -1),
    )
}

/// ISC (undocumented): INC the operand in memory, then SBC the
/// incremented value.
#[verifier::opaque]
pub open spec fn rel_isc<T: Memory>(pre: Processor<T>, post: Processor<T>, addr: u16) -> bool {
    let m = pre.memory.spec_read(addr);
    let c = pre.core;
    rmw_step(
        pre,
        post,
        spec_sbc_core(c, wadd8(m, 1), pre.decimal_enabled),
        addr,
        wadd8(m, 1),
    )
}

/// The `Sta` arm of `op_rel`.
#[verifier::opaque]
pub open spec fn rel_sta<T: Memory>(pre: Processor<T>, post: Processor<T>, addr: u16) -> bool {
    let m = pre.memory.spec_read(addr);
    let c = pre.core;
    rmw_step(pre, post, c, addr, c.a)
}

/// The `Stx` arm of `op_rel`.
#[verifier::opaque]
pub open spec fn rel_stx<T: Memory>(pre: Processor<T>, post: Processor<T>, addr: u16) -> bool {
    let m = pre.memory.spec_read(addr);
    let c = pre.core;
    rmw_step(pre, post, c, addr, c.x)
}

/// The `Sty` arm of `op_rel`.
#[verifier::opaque]
pub open spec fn rel_sty<T: Memory>(pre: Processor<T>, post: Processor<T>, addr: u16) -> bool {
    let m = pre.memory.spec_read(addr);
    let c = pre.core;
    rmw_step(pre, post, c, addr, c.y)
}

/// SAX (undocumented): store A AND X; no flags change.
#[verifier::opaque]
pub open spec fn rel_sax<T: Memory>(pre: Processor<T>, post: Processor<T>, addr: u16) -> bool {
    let m = pre.memory.spec_read(addr);
    let c = pre.core;
    rmw_step(pre, post, c, addr, c.a & c.x)
}

/// The `Inx` arm of `op_rel`.
#[verifier::opaque]
pub open spec fn rel_inx<T: Memory>(pre: Processor<T>, post: Processor<T>, addr: u16) -> bool {
    let m = pre.memory.spec_read(addr);
    let c = pre.core;
    core_step(
        pre,
        post,
        (Core { x: wadd8(c.x, 1), f: spec_zn(c.f, wadd8(c.x, 1)), ..c }),
    )
}

/// The `Iny` arm of `op_rel`.
#[verifier::opaque]
pub open spec fn rel_iny<T: Memory>(pre: Processor<T>, post: Processor<T>, addr: u16) -> bool {
    let m = pre.memory.spec_read(addr);
    let c = pre.core;
    core_step(
        pre,
        post,
        (Core { y: wadd8(c.y, 1), f: spec_zn(c.f, wadd8(c.y, 1)), ..c }),
    )
}

/// The `Dex` arm of `op_rel`.
#[verifier::opaque]
pub open spec fn rel_dex<T: Memory>(pre: Processor<T>, post: Processor<T>, addr: u16) -> bool {
    let m = pre.memory.spec_read(addr);
    let c = pre.core;
    core_step(
        pre,
        post,
        (Core { x: wadd8(c.x, -1), f: spec_zn(c.f, wadd8(c.x, -1)), ..c }),
    )
}

/// The `Dey` arm of `op_rel`.
#[verifier::opaque]
pub open spec fn rel_dey<T: Memory>(pre: Processor<T>, post: Processor<T>, addr: u16) -> bool {
    let m = pre.memory.spec_read(addr);
    let c = pre.core;
    core_step(
        pre,
        post,
        (Core { y: wadd8(c.y, -1), f: spec_zn(c.f, wadd8(c.y, -1)), ..c }),
    )
}

/// The `Tax` arm of `op_rel`.
#[verifier::opaque]
pub open spec fn rel_tax<T: Memory>(pre: Processor<T>, post: Processor<T>, addr: u16) -> bool {
    let m = pre.memory.spec_read(addr);
    let c = pre.core;
    core_step(pre, post, (Core { x: c.a, f: spec_zn(c.f, c.a), ..c }))
}

/// The `Tay` arm of `op_rel`.
#[verifier::opaque]
pub open spec fn rel_tay<T: Memory>(pre: Processor<T>, post: Processor<T>, addr: u16) -> bool {
    let m = pre.memory.spec_read(addr);
    let c = pre.core;
    core_step(pre, post, (Core { y: c.a, f: spec_zn(c.f, c.a), ..c }))
}

/// The `Txa` arm of `op_rel`.
#[verifier::opaque]
pub open spec fn rel_txa<T: Memory>(pre: Processor<T>, post: Processor<T>, addr: u16) -> bool {
    let m = pre.memory.spec_read(addr);
    let c = pre.core;
    core_step(pre, post, (Core { a: c.x, f: spec_zn(c.f, c.x), ..c }))
}

/// The `Tya` arm of `op_rel`.
#[verifier::opaque]
pub open spec fn rel_tya<T: Memory>(pre: Processor<T>, post: Processor<T>, addr: u16) -> bool {
    let m = pre.memory.spec_read(addr);
    let c = pre.core;
    core_step(pre, post, (Core { a: c.y, f: spec_zn(c.f, c.y), ..c }))
}

/// The `Tsx` arm of `op_rel`.
#[verifier::opaque]
pub open spec fn rel_tsx<T: Memory>(pre: Processor<T>, post: Processor<T>, addr: u16) -> bool {
    let m = pre.memory.spec_read(addr);
    let c = pre.core;
    core_step(pre, post, (Core { x: c.sp, f: spec_zn(c.f, c.sp), ..c }))
}

/// TXS updates no flags.
#[verifier::opaque]
pub open spec fn rel_txs<T: Memory>(pre: Processor<T>, post: Processor<T>, addr: u16) -> bool {
    let m = pre.memory.spec_read(addr);
    let c = pre.core;
    core_step(pre, post, (Core { sp: c.x, ..c }))
}

/// The `Clc` arm of `op_rel`.
#[verifier::opaque]
pub open spec fn rel_clc<T: Memory>(pre: Processor<T>, post: Processor<T>, addr: u16) -> bool {
    let m = pre.memory.spec_read(addr);
    let c = pre.core;
    core_step(pre, post, (Core { f: (Flags { c: false, ..c.f }), ..c }))
}

/// The `Sec` arm of `op_rel`.
#[verifier::opaque]
pub open spec fn rel_sec<T: Memory>(pre: Processor<T>, post: Processor<T>, addr: u16) -> bool {
    let m = pre.memory.spec_read(addr);
    let c = pre.core;
    core_step(pre, post, (Core { f: (Flags { c: true, ..c.f }), ..c }))
}

/// The `Cld` arm of `op_rel`.
#[verifier::opaque]
pub open spec fn rel_cld<T: Memory>(pre: Processor<T>, post: Processor<T>, addr: u16) -> bool {
    let m = pre.memory.spec_read(addr);
    let c = pre.core;
    core_step(pre, post, (Core { f: (Flags { d: false, ..c.f }), ..c }))
}

/// The `Sed` arm of `op_rel`.
#[verifier::opaque]
pub open spec fn rel_sed<T: Memory>(pre: Processor<T>, post: Processor<T>, addr: u16) -> bool {
    let m = pre.memory.spec_read(addr);
    let c = pre.core;
    core_step(pre, post, (Core { f: (Flags { d: true, ..c.f }), ..c }))
}

/// The `Cli` arm of `op_rel`.
#[verifier::opaque]
pub open spec fn rel_cli<T: Memory>(pre: Processor<T>, post: Processor<T>, addr: u16) -> bool {
    let m = pre.memory.spec_read(addr);
    let c = pre.core;
    core_step(pre, post, (Core { f: (Flags { i: false, ..c.f }), ..c }))
}

/// The `Sei` arm of `op_rel`.
#[verifier::opaque]
pub open spec fn rel_sei<T: Memory>(pre: Processor<T>, post: Processor<T>, addr: u16) -> bool {
    let m = pre.memory.spec_read(addr);
    let c = pre.core;
    core_step(pre, post, (Core { f: (Flags { i: true, ..c.f }), ..c }))
}

/// The `Clv` arm of `op_rel`.
#[verifier::opaque]
pub open spec fn rel_clv<T: Memory>(pre: Processor<T>, post: Processor<T>, addr: u16) -> bool {
    let m = pre.memory.spec_read(addr);
    let c = pre.core;
    core_step(pre, post, (Core { f: (Flags { v: false, ..c.f }), ..c }))
}

/// The `Nop` arm of `op_rel`.
#[verifier::opaque]
pub open spec fn rel_nop<T: Memory>(pre: Processor<T>, post: Processor<T>, addr: u16) -> bool {
    let m = pre.memory.spec_read(addr);
    let c = pre.core;
    core_step(pre, post, c)
}

/// The addressed form of NOP: the addressing mode side effects
/// happen outside this relation; the operation itself changes nothing.
#[verifier::opaque]
pub open spec fn rel_nopaddr<T: Memory>(pre: Processor<T>, post: Processor<T>, addr: u16) -> bool {
    let m = pre.memory.spec_read(addr);
    let c = pre.core;
    core_step(pre, post, c)
}

/// The `Bcc` arm of `op_rel`.
#[verifier::opaque]
pub open spec fn rel_bcc<T: Memory>(pre: Processor<T>, post: Processor<T>, addr: u16) -> bool {
    let m = pre.memory.spec_read(addr);
    let c = pre.core;
    branch_step(pre, post, addr, !c.f.c)
}

/// The `Bcs` arm of `op_rel`.
#[verifier::opaque]
pub open spec fn rel_bcs<T: Memory>(pre: Processor<T>, post: Processor<T>, addr: u16) -> bool {
    let m = pre.memory.spec_read(addr);
    let c = pre.core;
    branch_step(pre, post, addr, c.f.c)
}

/// The `Beq` arm of `op_rel`.
#[verifier::opaque]
pub open spec fn rel_beq<T: Memory>(pre: Processor<T>, post: Processor<T>, addr: u16) -> bool {
    let m = pre.memory.spec_read(addr);
    let c = pre.core;
    branch_step(pre, post, addr, c.f.z)
}

/// The `Bne` arm of `op_rel`.
#[verifier::opaque]
pub open spec fn rel_bne<T: Memory>(pre: Processor<T>, post: Processor<T>, addr: u16) -> bool {
    let m = pre.memory.spec_read(addr);
    let c = pre.core;
    branch_step(pre, post, addr, !c.f.z)
}

/// The `Bmi` arm of `op_rel`.
#[verifier::opaque]
pub open spec fn rel_bmi<T: Memory>(pre: Processor<T>, post: Processor<T>, addr: u16) -> bool {
    let m = pre.memory.spec_read(addr);
    let c = pre.core;
    branch_step(pre, post, addr, c.f.n)
}

/// The `Bpl` arm of `op_rel`.
#[verifier::opaque]
pub open spec fn rel_bpl<T: Memory>(pre: Processor<T>, post: Processor<T>, addr: u16) -> bool {
    let m = pre.memory.spec_read(addr);
    let c = pre.core;
    branch_step(pre, post, addr, !c.f.n)
}

/// The `Bvs` arm of `op_rel`.
#[verifier::opaque]
pub open spec fn rel_bvs<T: Memory>(pre: Processor<T>, post: Processor<T>, addr: u16) -> bool {
    let m = pre.memory.spec_read(addr);
    let c = pre.core;
    branch_step(pre, post, addr, c.f.v)
}

/// The `Bvc` arm of `op_rel`.
#[verifier::opaque]
pub open spec fn rel_bvc<T: Memory>(pre: Processor<T>, post: Processor<T>, addr: u16) -> bool {
    let m = pre.memory.spec_read(addr);
    let c = pre.core;
    branch_step(pre, post, addr, !c.f.v)
}

/// The `Jmp` arm of `op_rel`.
#[verifier::opaque]
pub open spec fn rel_jmp<T: Memory>(pre: Processor<T>, post: Processor<T>, addr: u16) -> bool {
    let m = pre.memory.spec_read(addr);
    let c = pre.core;
    post == (Processor {
        core: (Core { pc: addr, ..c }),
        jumped: true,
        ..pre
    })
}

/// JSR pushes the address of its own last operand byte (PC + 2),
/// high byte first, then jumps.
#[verifier::opaque]
pub open spec fn rel_jsr<T: Memory>(pre: Processor<T>, post: Processor<T>, addr: u16) -> bool {
    let m = pre.memory.spec_read(addr);
    let c = pre.core;
    {
        let ret = wadd16(c.pc, 2);
        &&& post.core == (Core { pc: addr, sp: wadd8(c.sp, -2), ..c })
        &&& post.jumped == true
        &&& post.cycles == pre.cycles
        &&& post.decimal_enabled == pre.decimal_enabled
        &&& mem_after_writes(
            pre.memory,
            post.memory,
            seq![
                (spec_stack_addr(c.sp), word_hi(ret)),
                (spec_stack_addr(wadd8(c.sp, -1)), word_lo(ret)),
            ],
        )
    }
}

/// RTS pulls PC low byte then high byte; the latch stays clear, so
/// the driver still advances PC by the one-byte length and execution
/// resumes just past the pulled address (the matching JSR pushed the
/// address of its own last operand byte).
#[verifier::opaque]
pub open spec fn rel_rts<T: Memory>(pre: Processor<T>, post: Processor<T>, addr: u16) -> bool {
    let m = pre.memory.spec_read(addr);
    let c = pre.core;
    {
        let lo = pre.memory.spec_read(spec_stack_addr(wadd8(c.sp, 1)));
        let hi = pre.memory.spec_read(spec_stack_addr(wadd8(c.sp, 2)));
        post == (Processor {
            core: (Core { pc: word_le(lo, hi), sp: wadd8(c.sp, 2), ..c }),
            ..pre
        })
    }
}

/// RTI pulls the status byte (ignoring bits 4 and 5), then PC low
/// and high; the latch is set so PC is not advanced further.
#[verifier::opaque]
pub open spec fn rel_rti<T: Memory>(pre: Processor<T>, post: Processor<T>, addr: u16) -> bool {
    let m = pre.memory.spec_read(addr);
    let c = pre.core;
    {
        let p = pre.memory.spec_read(spec_stack_addr(wadd8(c.sp, 1)));
        let lo = pre.memory.spec_read(spec_stack_addr(wadd8(c.sp, 2)));
        let hi = pre.memory.spec_read(spec_stack_addr(wadd8(c.sp, 3)));
        post == (Processor {
            core: (Core {
                pc: word_le(lo, hi),
                sp: wadd8(c.sp, 3),
                f: spec_flags_from_byte(p),
                ..c
            }),
            jumped: true,
            ..pre
        })
    }
}

/// BRK pushes PC + 2 and the status byte with B and U set, sets
/// the interrupt-disable flag, and jumps through the vector at 0xFFFE
/// as it reads after those pushes.
#[verifier::opaque]
pub open spec fn rel_brk<T: Memory>(pre: Processor<T>, post: Processor<T>, addr: u16) -> bool {
    let m = pre.memory.spec_read(addr);
    let c = pre.core;
    {
        let w = spec_brk_writes(pre);
        let lo = read_after(pre.memory, w, 0xfffe);
        let hi = read_after(pre.memory, w, 0xffff);
        &&& post.core == (Core {
            pc: word_le(lo, hi),
            sp: wadd8(c.sp, -3),
            f: (Flags { i: true, ..c.f }),
            ..c
        })
        &&& post.jumped == true
        &&& post.cycles == pre.cycles
        &&& post.decimal_enabled == pre.decimal_enabled
        &&& mem_after_writes(pre.memory, post.memory, w)
    }
}

/// The `Pha` arm of `op_rel`.
#[verifier::opaque]
pub open spec fn rel_pha<T: Memory>(pre: Processor<T>, post: Processor<T>, addr: u16) -> bool {
    let m = pre.memory.spec_read(addr);
    let c = pre.core;
    {
        &&& post.core == (Core { sp: wadd8(c.sp, -1), ..c })
        &&& post.jumped == pre.jumped
        &&& post.cycles == pre.cycles
        &&& post.decimal_enabled == pre.decimal_enabled
        &&& mem_after_writes(
            pre.memory,
            post.memory,
            seq![(spec_stack_addr(c.sp), c.a)],
        )
    }
}

/// PHP pushes the status byte with bits 4 and 5 forced set.
#[verifier::opaque]
pub open spec fn rel_php<T: Memory>(pre: Processor<T>, post: Processor<T>, addr: u16) -> bool {
    let m = pre.memory.spec_read(addr);
    let c = pre.core;
    {
        &&& post.core == (Core { sp: wadd8(c.sp, -1), ..c })
        &&& post.jumped == pre.jumped
        &&& post.cycles == pre.cycles
        &&& post.decimal_enabled == pre.decimal_enabled
        &&& mem_after_writes(
            pre.memory,
            post.memory,
            seq![(spec_stack_addr(c.sp), spec_flags_byte(c.f) | 0x30)],
        )
    }
}

/// The `Pla` arm of `op_rel`.
#[verifier::opaque]
pub open spec fn rel_pla<T: Memory>(pre: Processor<T>, post: Processor<T>, addr: u16) -> bool {
    let m = pre.memory.spec_read(addr);
    let c = pre.core;
    {
        let v = pre.memory.spec_read(spec_stack_addr(wadd8(c.sp, 1)));
        post == (Processor {
            core: (Core { a: v, sp: wadd8(c.sp, 1), f: spec_zn(c.f, v), ..c }),
            ..pre
        })
    }
}

/// PLP restores the stored flags; bits 4 and 5 of the pulled byte
/// are ignored.
#[verifier::opaque]
pub open spec fn rel_plp<T: Memory>(pre: Processor<T>, post: Processor<T>, addr: u16) -> bool {
    let m = pre.memory.spec_read(addr);
    let c = pre.core;
    {
        let v = pre.memory.spec_read(spec_stack_addr(wadd8(c.sp, 1)));
        post == (Processor {
            core: (Core { sp: wadd8(c.sp, 1), f: spec_flags_from_byte(v), ..c }),
            ..pre
        })
    }
}

/// What each operation does to the whole processor, given the effective
/// address its addressing mode produced: the dispatch over the per-op
/// relations above.
pub open spec fn op_rel<T: Memory>(
    pre: Processor<T>,
    post: Processor<T>,
    op: Op,
    addr: u16,
) -> bool {
    match op {
        Op::Adc => rel_adc(pre, post, addr),
        Op::Sbc => rel_sbc(pre, post, addr),
        Op::And => rel_and(pre, post, addr),
        Op::Ora => rel_ora(pre, post, addr),
        Op::Eor => rel_eor(pre, post, addr),
        Op::Bit => rel_bit(pre, post, addr),
        Op::Cmp => rel_cmp(pre, post, addr),
        Op::Cpx => rel_cpx(pre, post, addr),
        Op::Cpy => rel_cpy(pre, post, addr),
        Op::Lda => rel_lda(pre, post, addr),
        Op::Ldx => rel_ldx(pre, post, addr),
        Op::Ldy => rel_ldy(pre, post, addr),
        Op::Lax => rel_lax(pre, post, addr),
        Op::AslA => rel_asla(pre, post, addr),
        Op::LsrA => rel_lsra(pre, post, addr),
        Op::RolA => rel_rola(pre, post, addr),
        Op::RorA => rel_rora(pre, post, addr),
        Op::Asl => rel_asl(pre, post, addr),
        Op::Lsr => rel_lsr(pre, post, addr),
        Op::Rol => rel_rol(pre, post, addr),
        Op::Ror => rel_ror(pre, post, addr),
        Op::Inc => rel_inc(pre, post, addr),
        Op::Dec => rel_dec(pre, post, addr),
        Op::Slo => rel_slo(pre, post, addr),
        Op::Sre => rel_sre(pre, post, addr),
        Op::Rla => rel_rla(pre, post, addr),
        Op::Rra => rel_rra(pre, post, addr),
        Op::Dcp => rel_dcp(pre, post, addr),
        Op::Isc => rel_isc(pre, post, addr),
        Op::Sta => rel_sta(pre, post, addr),
        Op::Stx => rel_stx(pre, post, addr),
        Op::Sty => rel_sty(pre, post, addr),
        Op::Sax => rel_sax(pre, post, addr),
        Op::Inx => rel_inx(pre, post, addr),
        Op::Iny => rel_iny(pre, post, addr),
        Op::Dex => rel_dex(pre, post, addr),
        Op::Dey => rel_dey(pre, post, addr),
        Op::Tax => rel_tax(pre, post, addr),
        Op::Tay => rel_tay(pre, post, addr),
        Op::Txa => rel_txa(pre, post, addr),
        Op::Tya => rel_tya(pre, post, addr),
        Op::Tsx => rel_tsx(pre, post, addr),
        Op::Txs => rel_txs(pre, post, addr),
        Op::Clc => rel_clc(pre, post, addr),
        Op::Sec => rel_sec(pre, post, addr),
        Op::Cld => rel_cld(pre, post, addr),
        Op::Sed => rel_sed(pre, post, addr),
        Op::Cli => rel_cli(pre, post, addr),
        Op::Sei => rel_sei(pre, post, addr),
        Op::Clv => rel_clv(pre, post, addr),
        Op::Nop => rel_nop(pre, post, addr),
        Op::NopAddr => rel_nopaddr(pre, post, addr),
        Op::Bcc => rel_bcc(pre, post, addr),
        Op::Bcs => rel_bcs(pre, post, addr),
        Op::Beq => rel_beq(pre, post, addr),
        Op::Bne => rel_bne(pre, post, addr),
        Op::Bmi => rel_bmi(pre, post, addr),
        Op::Bpl => rel_bpl(pre, post, addr),
        Op::Bvs => rel_bvs(pre, post, addr),
        Op::Bvc => rel_bvc(pre, post, addr),
        Op::Jmp => rel_jmp(pre, post, addr),
        Op::Jsr => rel_jsr(pre, post, addr),
        Op::Rts => rel_rts(pre, post, addr),
        Op::Rti => rel_rti(pre, post, addr),
        Op::Brk => rel_brk(pre, post, addr),
        Op::Pha => rel_pha(pre, post, addr),
        Op::Php => rel_php(pre, post, addr),
        Op::Pla => rel_pla(pre, post, addr),
        Op::Plp => rel_plp(pre, post, addr),
    }
}

} // verus!
