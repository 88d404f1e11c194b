//! The algebraic properties of the core, each stated and proved over
//! the spec functions that the executable contracts use: PC advance and
//! control-flow targets of a step, the Z/N flag rule, the ADC/SBC round
//! trip, stack round trips and stack wrap, the page-cross cycle rule,
//! and the indirect-JMP page-wrap bug.

use vstd::prelude::*;

use crate::flags::{lemma_flags_byte_round_trip, spec_flags_byte, spec_zn, Flags};
use crate::instructions::{spec_decode, spec_mode_len, Instr, Mode, Op};
use crate::memory::{word_le, wadd16, Memory};
use crate::processor::{spec_stack_addr, spec_wrap_read_word, wadd8, Core, Processor,
    spec_mode_addr, spec_mode_extra, page_crossed};
use crate::semantics::{op_rel, rel_pha, rel_php, rel_pla, rel_plp, rel_adc,
    rel_and, rel_asl, rel_asla, rel_bcc, rel_bcs, rel_beq, rel_bit, rel_bmi, rel_bne, rel_bpl,
    rel_brk, rel_bvc, rel_bvs, rel_clc, rel_cld, rel_cli, rel_clv, rel_cmp, rel_cpx, rel_cpy,
    rel_dcp, rel_dec, rel_dex, rel_dey, rel_eor, rel_inc, rel_inx, rel_iny, rel_isc, rel_jmp,
    rel_jsr, rel_lax, rel_lda, rel_ldx, rel_ldy, rel_lsr, rel_lsra, rel_nop, rel_nopaddr,
    rel_ora, rel_rla, rel_rol, rel_rola, rel_ror, rel_rora, rel_rra, rel_rti, rel_rts, rel_sax,
    rel_sbc, rel_sec, rel_sed, rel_sei, rel_slo, rel_sre, rel_sta, rel_stx, rel_sty, rel_tax,
    rel_tay, rel_tsx, rel_txa, rel_txs, rel_tya, spec_adc_bin, spec_sbc_bin, spec_brk_writes};
use crate::step::{spec_finish, step_spec};
use crate::memory::read_after;

verus! {

/// The unconditional control operations: those that always overwrite
/// PC.
pub open spec fn is_control_op(op: Op) -> bool {
    match op {
        Op::Jmp => true,
        Op::Jsr => true,
        Op::Rts => true,
        Op::Rti => true,
        Op::Brk => true,
        _ => false,
    }
}

pub open spec fn is_branch_op(op: Op) -> bool {
    match op {
        Op::Bcc => true,
        Op::Bcs => true,
        Op::Beq => true,
        Op::Bne => true,
        Op::Bmi => true,
        Op::Bpl => true,
        Op::Bvc => true,
        Op::Bvs => true,
        _ => false,
    }
}

/// The condition under which a branch operation takes its branch.
pub open spec fn branch_cond(f: Flags, op: Op) -> bool {
    match op {
        Op::Bcc => !f.c,
        Op::Bcs => f.c,
        Op::Beq => f.z,
        Op::Bne => !f.z,
        Op::Bmi => f.n,
        Op::Bpl => !f.n,
        Op::Bvc => !f.v,
        Op::Bvs => f.v,
        _ => false,
    }
}

/// A control instruction in a given state: an unconditional control
/// operation, or a branch whose condition holds.
pub open spec fn is_control_instr<T: Memory>(pre: Processor<T>, op: Op) -> bool {
    is_control_op(op) || (is_branch_op(op) && branch_cond(pre.core.f, op))
}

/// A non-control operation leaves PC and the jumped latch untouched.
pub proof fn lemma_op_rel_noncontrol<T: Memory>(
    pre: Processor<T>,
    post: Processor<T>,
    op: Op,
    addr: u16,
)
    requires
        op_rel(pre, post, op, addr),
        !is_control_instr(pre, op),
    ensures
        post.core.pc == pre.core.pc,
        post.jumped == pre.jumped,
{
    match op {
        Op::Adc => reveal(rel_adc),
        Op::And => reveal(rel_and),
        Op::Asl => reveal(rel_asl),
        Op::AslA => reveal(rel_asla),
        Op::Bcc => reveal(rel_bcc),
        Op::Bcs => reveal(rel_bcs),
        Op::Beq => reveal(rel_beq),
        Op::Bit => reveal(rel_bit),
        Op::Bmi => reveal(rel_bmi),
        Op::Bne => reveal(rel_bne),
        Op::Bpl => reveal(rel_bpl),
        Op::Brk => reveal(rel_brk),
        Op::Bvc => reveal(rel_bvc),
        Op::Bvs => reveal(rel_bvs),
        Op::Clc => reveal(rel_clc),
        Op::Cld => reveal(rel_cld),
        Op::Cli => reveal(rel_cli),
        Op::Clv => reveal(rel_clv),
        Op::Cmp => reveal(rel_cmp),
        Op::Cpx => reveal(rel_cpx),
        Op::Cpy => reveal(rel_cpy),
        Op::Dcp => reveal(rel_dcp),
        Op::Dec => reveal(rel_dec),
        Op::Dex => reveal(rel_dex),
        Op::Dey => reveal(rel_dey),
        Op::Eor => reveal(rel_eor),
        Op::Inc => reveal(rel_inc),
        Op::Inx => reveal(rel_inx),
        Op::Iny => reveal(rel_iny),
        Op::Isc => reveal(rel_isc),
        Op::Jmp => reveal(rel_jmp),
        Op::Jsr => reveal(rel_jsr),
        Op::Lax => reveal(rel_lax),
        Op::Lda => reveal(rel_lda),
        Op::Ldx => reveal(rel_ldx),
        Op::Ldy => reveal(rel_ldy),
        Op::Lsr => reveal(rel_lsr),
        Op::LsrA => reveal(rel_lsra),
        Op::Nop => reveal(rel_nop),
        Op::NopAddr => reveal(rel_nopaddr),
        Op::Ora => reveal(rel_ora),
        Op::Pha => reveal(rel_pha),
        Op::Php => reveal(rel_php),
        Op::Pla => reveal(rel_pla),
        Op::Plp => reveal(rel_plp),
        Op::Rla => reveal(rel_rla),
        Op::Rol => reveal(rel_rol),
        Op::RolA => reveal(rel_rola),
        Op::Ror => reveal(rel_ror),
        Op::RorA => reveal(rel_rora),
        Op::Rra => reveal(rel_rra),
        Op::Rti => reveal(rel_rti),
        Op::Rts => reveal(rel_rts),
        Op::Sax => reveal(rel_sax),
        Op::Sbc => reveal(rel_sbc),
        Op::Sec => reveal(rel_sec),
        Op::Sed => reveal(rel_sed),
        Op::Sei => reveal(rel_sei),
        Op::Slo => reveal(rel_slo),
        Op::Sre => reveal(rel_sre),
        Op::Sta => reveal(rel_sta),
        Op::Stx => reveal(rel_stx),
        Op::Sty => reveal(rel_sty),
        Op::Tax => reveal(rel_tax),
        Op::Tay => reveal(rel_tay),
        Op::Tsx => reveal(rel_tsx),
        Op::Txa => reveal(rel_txa),
        Op::Txs => reveal(rel_txs),
        Op::Tya => reveal(rel_tya),
    }
}

/// For every non-control instruction, a step advances PC by exactly the
/// addressing-mode length.
pub proof fn lemma_step_pc_advance<T: Memory>(pre: Processor<T>, post: Processor<T>, i: Instr)
    requires
        step_spec(pre, post),
        !pre.jumped,
        spec_decode(pre.memory.spec_read(pre.core.pc)) == Option::Some(i),
        !is_control_instr(pre, i.op),
    ensures
        post.core.pc == wadd16(pre.core.pc, spec_mode_len(i.mode) as int),
{
    let addr = spec_mode_addr(pre, i.mode);
    let mid1 = (Processor {
        cycles: (pre.cycles + spec_mode_extra(pre, i.mode)) as usize,
        ..pre
    });
    let mid2 = choose|mid2: Processor<T>|
        op_rel(mid1, mid2, i.op, addr) && post == spec_finish(mid2, i);
    lemma_op_rel_noncontrol(mid1, mid2, i.op, addr);
}

/// A wrapping add, as an integer: the double mod collapses to one.
pub proof fn lemma_wadd16_unwrap(x: u16, k: int)
    ensures
        wadd16(x, k) == (x + k) % 0x10000,
{
    let m = 0x10000int;
    let e = (x + k) % m;
    vstd::arithmetic::div_mod::lemma_mod_bound(x + k, m);
    vstd::arithmetic::div_mod::lemma_mod_add_multiples_vanish(e, m);
    vstd::arithmetic::div_mod::lemma_small_mod(e as nat, m as nat);
}

/// 16-bit wrapping adds compose: adding k1 and then k2 is adding
/// k1 + k2.
pub proof fn lemma_wadd16_add(x: u16, k1: int, k2: int)
    ensures
        wadd16(wadd16(x, k1), k2) == wadd16(x, k1 + k2),
{
    let m = 0x10000int;
    lemma_wadd16_unwrap(x, k1);
    lemma_wadd16_unwrap(wadd16(x, k1), k2);
    lemma_wadd16_unwrap(x, k1 + k2);
    assert((((x + k1) % m) + k2) % m == ((x + k1) + k2) % m) by {
        vstd::arithmetic::div_mod::lemma_add_mod_noop_right(k2, x + k1, m);
    }
}

/// An 8-bit wrapping add, as an integer.
pub proof fn lemma_wadd8_unwrap(x: u8, k: int)
    ensures
        wadd8(x, k) == (x + k) % 256,
{
    let m = 256int;
    let e = (x + k) % m;
    vstd::arithmetic::div_mod::lemma_mod_bound(x + k, m);
    vstd::arithmetic::div_mod::lemma_mod_add_multiples_vanish(e, m);
    vstd::arithmetic::div_mod::lemma_small_mod(e as nat, m as nat);
}

/// 8-bit wrapping adds compose.
pub proof fn lemma_wadd8_add(x: u8, k1: int, k2: int)
    ensures
        wadd8(wadd8(x, k1), k2) == wadd8(x, k1 + k2),
{
    let m = 256int;
    lemma_wadd8_unwrap(x, k1);
    lemma_wadd8_unwrap(wadd8(x, k1), k2);
    lemma_wadd8_unwrap(x, k1 + k2);
    assert((((x + k1) % m) + k2) % m == ((x + k1) + k2) % m) by {
        vstd::arithmetic::div_mod::lemma_add_mod_noop_right(k2, x + k1, m);
    }
}

/// The target a control instruction leaves PC at once the step
/// completes: the effective address for JMP and JSR, the pulled address
/// for RTI, the pulled address plus the instruction length for RTS
/// (the matching JSR pushed the address of its own last byte), the
/// vector read after BRK's pushes, and the relative target for a taken
/// branch.
pub open spec fn spec_control_target<T: Memory>(pre: Processor<T>, i: Instr) -> u16 {
    let c = pre.core;
    let m = pre.memory;
    match i.op {
        Op::Jmp => spec_mode_addr(pre, i.mode),
        Op::Jsr => spec_mode_addr(pre, i.mode),
        Op::Rts => wadd16(
            word_le(
                m.spec_read(spec_stack_addr(wadd8(c.sp, 1))),
                m.spec_read(spec_stack_addr(wadd8(c.sp, 2))),
            ),
            spec_mode_len(i.mode) as int,
        ),
        Op::Rti => word_le(
            m.spec_read(spec_stack_addr(wadd8(c.sp, 2))),
            m.spec_read(spec_stack_addr(wadd8(c.sp, 3))),
        ),
        Op::Brk => word_le(
            read_after(m, spec_brk_writes(pre), 0xfffe),
            read_after(m, spec_brk_writes(pre), 0xffff),
        ),
        _ => wadd16(
            c.pc,
            spec_mode_len(i.mode) + ((m.spec_read(spec_mode_addr(pre, i.mode)) as i8) as u16),
        ),
    }
}

/// For control instructions (JMP, JSR, RTS, RTI, BRK and taken
/// branches), a step ends with PC at the computed target and the
/// jumped latch cleared.
pub proof fn lemma_step_control_target<T: Memory>(pre: Processor<T>, post: Processor<T>, i: Instr)
    requires
        step_spec(pre, post),
        !pre.jumped,
        spec_decode(pre.memory.spec_read(pre.core.pc)) == Option::Some(i),
        is_control_instr(pre, i.op),
    ensures
        post.core.pc == spec_control_target(pre, i),
        !post.jumped,
{
    let addr = spec_mode_addr(pre, i.mode);
    let mid1 = (Processor {
        cycles: (pre.cycles + spec_mode_extra(pre, i.mode)) as usize,
        ..pre
    });
    let mid2 = choose|mid2: Processor<T>|
        op_rel(mid1, mid2, i.op, addr) && post == spec_finish(mid2, i);
    match i.op {
        Op::Jmp => reveal(rel_jmp),
        Op::Jsr => reveal(rel_jsr),
        Op::Rts => reveal(rel_rts),
        Op::Rti => reveal(rel_rti),
        Op::Brk => reveal(rel_brk),
        Op::Bcc => reveal(rel_bcc),
        Op::Bcs => reveal(rel_bcs),
        Op::Beq => reveal(rel_beq),
        Op::Bne => reveal(rel_bne),
        Op::Bmi => reveal(rel_bmi),
        Op::Bpl => reveal(rel_bpl),
        Op::Bvc => reveal(rel_bvc),
        Op::Bvs => reveal(rel_bvs),
        _ => {},
    }
    if is_branch_op(i.op) {
        let off = (pre.memory.spec_read(addr) as i8) as u16;
        lemma_wadd16_add(pre.core.pc, off as int, spec_mode_len(i.mode) as int);
    }
}

/// Z equals (result == 0) and N equals bit 7 of the result, for the
/// flag rule every flag-setting operation applies.
pub proof fn lemma_zn_flags(f: Flags, r: u8)
    ensures
        spec_zn(f, r).z == (r == 0),
        spec_zn(f, r).n == ((r >> 7) == 1),
{
    assert((r & 0x80 != 0) == ((r >> 7) == 1)) by (bit_vector);
}

/// The exact binary-mode round trip: ADC of m with carry c, followed
/// by SBC of m with carry not-c, recovers the accumulator, whatever
/// carry the addition produced.
pub proof fn lemma_adc_sbc_round_trip(core: Core, m: u8)
    ensures
        ({
            let added = spec_adc_bin(core, m);
            let back = spec_sbc_bin((Core { f: (Flags { c: !core.f.c, ..added.f }), ..added }), m);
            back.a == core.a
        }),
{
    broadcast use vstd::arithmetic::div_mod::lemma_mod_bound;

    let cin = if core.f.c {
        1int
    } else {
        0int
    };
    let s = core.a + m + cin;
    let r = s % 256;
    let cout = if s > 255 {
        1int
    } else {
        0int
    };
    assert(r == s - 256 * cout) by {
        if s > 255 {
            vstd::arithmetic::div_mod::lemma_mod_sub_multiples_vanish(s, 256);
            vstd::arithmetic::div_mod::lemma_small_mod((s - 256) as nat, 256);
        } else {
            vstd::arithmetic::div_mod::lemma_small_mod(s as nat, 256);
        }
    }
    let d = 256 + r - m - cin;
    assert(d == 256 * (1 - cout) + core.a);
    assert(d % 256 == core.a) by {
        vstd::arithmetic::div_mod::lemma_mod_multiples_vanish(1 - cout, core.a as int, 256);
        vstd::arithmetic::div_mod::lemma_small_mod(core.a as nat, 256);
    }
}

/// The round trip as the carry-out phrasing states it: when the
/// addition's carry out equals its carry in, SBC with the inverted
/// carry out recovers the accumulator. (When the two carries differ,
/// the inverted-carry-out round trip is off by exactly the carry
/// difference; the lemma above gives the unconditional identity.)
pub proof fn lemma_adc_sbc_round_trip_carry_out(core: Core, m: u8)
    requires
        spec_adc_bin(core, m).f.c == core.f.c,
    ensures
        ({
            let added = spec_adc_bin(core, m);
            let back = spec_sbc_bin(
                (Core { f: (Flags { c: !added.f.c, ..added.f }), ..added }),
                m,
            );
            back.a == core.a
        }),
{
    lemma_adc_sbc_round_trip(core, m);
}

/// PHA then PLA restores A exactly, on any memory whose writes land at
/// the address written (flat RAM, mirrored RAM — not ROM).
pub proof fn lemma_pha_pla_round_trip<T: Memory>(
    p0: Processor<T>,
    p1: Processor<T>,
    p2: Processor<T>,
)
    requires
        op_rel(p0, p1, Op::Pha, 0),
        op_rel(p1, p2, Op::Pla, 0),
        p0.memory.spec_writes(spec_stack_addr(p0.core.sp)).contains(
            spec_stack_addr(p0.core.sp),
        ),
    ensures
        p2.core.a == p0.core.a,
        p2.core.sp == p0.core.sp,
{
    reveal(rel_pha);
    reveal(rel_pla);
    let sa = spec_stack_addr(p0.core.sp);
    let w = seq![(sa, p0.core.a)];
    assert(w.drop_last() =~= Seq::<(u16, u8)>::empty());
    lemma_wadd8_add(p0.core.sp, -1, 1);
    assert(p1.memory.spec_read(sa) == read_after(p0.memory, w, sa));
}

/// PHP then PLP restores every stored flag bit; the B and U bits exist
/// only in the pushed copy.
pub proof fn lemma_php_plp_round_trip<T: Memory>(
    p0: Processor<T>,
    p1: Processor<T>,
    p2: Processor<T>,
)
    requires
        op_rel(p0, p1, Op::Php, 0),
        op_rel(p1, p2, Op::Plp, 0),
        p0.memory.spec_writes(spec_stack_addr(p0.core.sp)).contains(
            spec_stack_addr(p0.core.sp),
        ),
    ensures
        p2.core.f == p0.core.f,
        p2.core.sp == p0.core.sp,
{
    reveal(rel_php);
    reveal(rel_plp);
    let sa = spec_stack_addr(p0.core.sp);
    let w = seq![(sa, spec_flags_byte(p0.core.f) | 0x30)];
    assert(w.drop_last() =~= Seq::<(u16, u8)>::empty());
    lemma_wadd8_add(p0.core.sp, -1, 1);
    assert(p1.memory.spec_read(sa) == read_after(p0.memory, w, sa));
    assert(0x30u8 & 0xcf == 0) by (bit_vector);
    lemma_flags_byte_round_trip(p0.core.f, 0x30);
}

/// After `k` consecutive pushes, SP has moved down by `k` modulo 256.
proof fn lemma_stack_wrap_aux<T: Memory>(chain: Seq<Processor<T>>, k: int)
    requires
        0 <= k < chain.len(),
        forall|j: int|
            0 <= j < chain.len() - 1 ==> op_rel(#[trigger] chain[j], chain[j + 1], Op::Pha, 0),
    ensures
        chain[k].core.sp == wadd8(chain[0].core.sp, -k),
    decreases k,
{
    reveal(rel_pha);
    lemma_wadd8_unwrap(chain[0].core.sp, 0);
    vstd::arithmetic::div_mod::lemma_small_mod(chain[0].core.sp as nat, 256);
    if k > 0 {
        lemma_stack_wrap_aux(chain, k - 1);
        lemma_wadd8_add(chain[0].core.sp, -(k - 1), -1);
    }
}

/// Stack wrap: 256 consecutive pushes return SP to its starting value
/// — with SP initially 0xFF, it is 0xFF again after the 256th push.
pub proof fn lemma_stack_wrap<T: Memory>(chain: Seq<Processor<T>>)
    requires
        chain.len() == 257,
        chain[0].core.sp == 0xff,
        forall|j: int|
            0 <= j < 256 ==> op_rel(#[trigger] chain[j], chain[j + 1], Op::Pha, 0),
    ensures
        chain[256].core.sp == 0xff,
{
    lemma_stack_wrap_aux(chain, 256);
    lemma_wadd8_unwrap(0xff, -256);
}

/// The base address a read-style indexed mode indexes from.
pub open spec fn spec_mode_base<T: Memory>(p: Processor<T>, mode: Mode) -> u16 {
    let m = p.memory;
    let pc1 = wadd16(p.core.pc, 1);
    match mode {
        Mode::IndirectIndexed => spec_wrap_read_word(m, m.spec_read(pc1) as u16),
        _ => crate::memory::spec_mem_word(m, pc1),
    }
}

/// The page-cross cycle rule: a read-style indexed mode pays exactly
/// one extra cycle when its effective address leaves the base's page,
/// and none otherwise — so two runs that differ only in whether the
/// page is crossed differ by exactly one cycle.
pub proof fn lemma_page_cross_delta<T: Memory>(p1: Processor<T>, p2: Processor<T>, mode: Mode)
    requires
        mode == Mode::AbsoluteX || mode == Mode::AbsoluteY || mode == Mode::IndirectIndexed,
        !page_crossed(spec_mode_base(p1, mode), spec_mode_addr(p1, mode)),
        page_crossed(spec_mode_base(p2, mode), spec_mode_addr(p2, mode)),
    ensures
        spec_mode_extra(p1, mode) == 0,
        spec_mode_extra(p2, mode) == 1,
        spec_mode_extra(p2, mode) - spec_mode_extra(p1, mode) == 1,
{
}

/// The indirect-JMP page-wrap bug: a pointer whose low byte is 0xFF
/// takes its high byte from the start of the same page — with pointer
/// 0x02FF the high byte is read from 0x0200, not 0x0300.
pub proof fn lemma_indirect_jmp_page_wrap<T: Memory>(m: T)
    ensures
        spec_wrap_read_word(m, 0x02ff) == word_le(m.spec_read(0x02ff), m.spec_read(0x0200)),
{
    assert(0x02ffu16 & 0x00ff == 0x00ff) by (bit_vector);
    assert(0x02ffu16 & 0xff00 == 0x0200) by (bit_vector);
}

/// A non-branch operation leaves the cycle counter untouched: all
/// cycle accounting outside branches is done by the addressing mode
/// and the driver.
pub proof fn lemma_op_rel_cycles<T: Memory>(
    pre: Processor<T>,
    post: Processor<T>,
    op: Op,
    addr: u16,
)
    requires
        op_rel(pre, post, op, addr),
        !is_branch_op(op),
    ensures
        post.cycles == pre.cycles,
{
    match op {
        Op::Adc => reveal(rel_adc),
        Op::And => reveal(rel_and),
        Op::Asl => reveal(rel_asl),
        Op::AslA => reveal(rel_asla),
        Op::Bcc => reveal(rel_bcc),
        Op::Bcs => reveal(rel_bcs),
        Op::Beq => reveal(rel_beq),
        Op::Bit => reveal(rel_bit),
        Op::Bmi => reveal(rel_bmi),
        Op::Bne => reveal(rel_bne),
        Op::Bpl => reveal(rel_bpl),
        Op::Brk => reveal(rel_brk),
        Op::Bvc => reveal(rel_bvc),
        Op::Bvs => reveal(rel_bvs),
        Op::Clc => reveal(rel_clc),
        Op::Cld => reveal(rel_cld),
        Op::Cli => reveal(rel_cli),
        Op::Clv => reveal(rel_clv),
        Op::Cmp => reveal(rel_cmp),
        Op::Cpx => reveal(rel_cpx),
        Op::Cpy => reveal(rel_cpy),
        Op::Dcp => reveal(rel_dcp),
        Op::Dec => reveal(rel_dec),
        Op::Dex => reveal(rel_dex),
        Op::Dey => reveal(rel_dey),
        Op::Eor => reveal(rel_eor),
        Op::Inc => reveal(rel_inc),
        Op::Inx => reveal(rel_inx),
        Op::Iny => reveal(rel_iny),
        Op::Isc => reveal(rel_isc),
        Op::Jmp => reveal(rel_jmp),
        Op::Jsr => reveal(rel_jsr),
        Op::Lax => reveal(rel_lax),
        Op::Lda => reveal(rel_lda),
        Op::Ldx => reveal(rel_ldx),
        Op::Ldy => reveal(rel_ldy),
        Op::Lsr => reveal(rel_lsr),
        Op::LsrA => reveal(rel_lsra),
        Op::Nop => reveal(rel_nop),
        Op::NopAddr => reveal(rel_nopaddr),
        Op::Ora => reveal(rel_ora),
        Op::Pha => reveal(rel_pha),
        Op::Php => reveal(rel_php),
        Op::Pla => reveal(rel_pla),
        Op::Plp => reveal(rel_plp),
        Op::Rla => reveal(rel_rla),
        Op::Rol => reveal(rel_rol),
        Op::RolA => reveal(rel_rola),
        Op::Ror => reveal(rel_ror),
        Op::RorA => reveal(rel_rora),
        Op::Rra => reveal(rel_rra),
        Op::Rti => reveal(rel_rti),
        Op::Rts => reveal(rel_rts),
        Op::Sax => reveal(rel_sax),
        Op::Sbc => reveal(rel_sbc),
        Op::Sec => reveal(rel_sec),
        Op::Sed => reveal(rel_sed),
        Op::Sei => reveal(rel_sei),
        Op::Slo => reveal(rel_slo),
        Op::Sre => reveal(rel_sre),
        Op::Sta => reveal(rel_sta),
        Op::Stx => reveal(rel_stx),
        Op::Sty => reveal(rel_sty),
        Op::Tax => reveal(rel_tax),
        Op::Tay => reveal(rel_tay),
        Op::Tsx => reveal(rel_tsx),
        Op::Txa => reveal(rel_txa),
        Op::Txs => reveal(rel_txs),
        Op::Tya => reveal(rel_tya),
    }
}

/// Exact cycle accounting of a step, outside branches: the base count
/// from the table plus the addressing mode's page-cross penalty.
pub proof fn lemma_step_cycles<T: Memory>(pre: Processor<T>, post: Processor<T>, i: Instr)
    requires
        step_spec(pre, post),
        spec_decode(pre.memory.spec_read(pre.core.pc)) == Option::Some(i),
        !is_branch_op(i.op),
        pre.cycles + spec_mode_extra(pre, i.mode) + i.cycles <= usize::MAX,
    ensures
        post.cycles == pre.cycles + spec_mode_extra(pre, i.mode) + i.cycles,
{
    let addr = spec_mode_addr(pre, i.mode);
    let mid1 = (Processor {
        cycles: (pre.cycles + spec_mode_extra(pre, i.mode)) as usize,
        ..pre
    });
    let mid2 = choose|mid2: Processor<T>|
        op_rel(mid1, mid2, i.op, addr) && post == spec_finish(mid2, i);
    lemma_op_rel_cycles(mid1, mid2, i.op, addr);
}

/// The page-cross cycle rule at the instruction level: two runs of the
/// same non-branch instruction from states with equal cycle counters,
/// one crossing a page in its indexed mode and one not, end exactly
/// one cycle apart.
pub proof fn lemma_step_page_cross_delta<T: Memory>(
    pre1: Processor<T>,
    post1: Processor<T>,
    pre2: Processor<T>,
    post2: Processor<T>,
    i: Instr,
)
    requires
        step_spec(pre1, post1),
        step_spec(pre2, post2),
        spec_decode(pre1.memory.spec_read(pre1.core.pc)) == Option::Some(i),
        spec_decode(pre2.memory.spec_read(pre2.core.pc)) == Option::Some(i),
        !is_branch_op(i.op),
        i.mode == Mode::AbsoluteX || i.mode == Mode::AbsoluteY || i.mode == Mode::IndirectIndexed,
        pre1.cycles == pre2.cycles,
        !page_crossed(spec_mode_base(pre1, i.mode), spec_mode_addr(pre1, i.mode)),
        page_crossed(spec_mode_base(pre2, i.mode), spec_mode_addr(pre2, i.mode)),
        pre2.cycles + 1 + i.cycles <= usize::MAX,
    ensures
        post2.cycles - post1.cycles == 1,
{
    lemma_page_cross_delta(pre1, pre2, i.mode);
    lemma_step_cycles(pre1, post1, i);
    lemma_step_cycles(pre2, post2, i);
}

} // verus!
