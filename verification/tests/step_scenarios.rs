use rsto6502::{Memory, Processor, RandomAccessMemory};

fn cpu_with_ram() -> Processor<RandomAccessMemory> {
    Processor::with_memory(RandomAccessMemory::new(0x10000))
}

#[test]
fn lda_immediate_sets_n() {
    let mut cpu = cpu_with_ram();
    cpu.memory.write(0x0000, 0xa9);
    cpu.memory.write(0x0001, 0x80);
    cpu.core.pc = 0;
    let cycles_before = cpu.cycles;

    cpu.emulate_instruction();

    assert_eq!(cpu.core.a, 0x80);
    assert!(cpu.core.f.n);
    assert!(!cpu.core.f.z);
    assert_eq!(cpu.core.pc, 2);
    assert_eq!(cpu.cycles, cycles_before + 2);
}

#[test]
fn lda_immediate_sets_z() {
    let mut cpu = cpu_with_ram();
    cpu.memory.write(0x0000, 0xa9);
    cpu.memory.write(0x0001, 0x00);
    cpu.core.pc = 0;
    let cycles_before = cpu.cycles;

    cpu.emulate_instruction();

    assert_eq!(cpu.core.a, 0x00);
    assert!(cpu.core.f.z);
    assert!(!cpu.core.f.n);
    assert_eq!(cpu.core.pc, 2);
    assert_eq!(cpu.cycles, cycles_before + 2);
}

#[test]
fn inx_wraps() {
    let mut cpu = cpu_with_ram();
    cpu.core.x = 0xff;
    cpu.memory.write(0x0000, 0xe8);
    cpu.core.pc = 0;
    let cycles_before = cpu.cycles;

    cpu.emulate_instruction();

    assert_eq!(cpu.core.x, 0x00);
    assert!(cpu.core.f.z);
    assert!(!cpu.core.f.n);
    assert_eq!(cpu.cycles, cycles_before + 2);
    assert_eq!(cpu.core.pc, 1);
}

#[test]
fn jsr_rts_round_trip() {
    let mut cpu = cpu_with_ram();
    cpu.core.sp = 0xfd;
    cpu.core.pc = 0x1000;
    cpu.memory.write(0x1000, 0x20);
    cpu.memory.write(0x1001, 0x34);
    cpu.memory.write(0x1002, 0x12);
    cpu.memory.write(0x1234, 0x60);

    cpu.emulate_instruction();
    assert_eq!(cpu.core.pc, 0x1234);
    assert_eq!(cpu.core.sp, 0xfb);
    assert_eq!(cpu.memory.contents[0x01fd], 0x10);
    assert_eq!(cpu.memory.contents[0x01fc], 0x02);

    cpu.emulate_instruction();
    assert_eq!(cpu.core.pc, 0x1003);
    assert_eq!(cpu.core.sp, 0xfd);
}

#[test]
fn indirect_jmp_page_wrap_bug() {
    let mut cpu = cpu_with_ram();
    cpu.memory.write(0x1000, 0x6c);
    cpu.memory.write(0x1001, 0xff);
    cpu.memory.write(0x1002, 0x02);
    cpu.memory.write(0x02ff, 0x34);
    cpu.memory.write(0x0200, 0x12);
    cpu.memory.write(0x0300, 0x55);
    cpu.core.pc = 0x1000;

    cpu.emulate_instruction();

    assert_eq!(cpu.core.pc, 0x1234);
}

#[test]
fn branch_page_cross_penalty() {
    let mut cpu = cpu_with_ram();
    cpu.core.pc = 0x10fd;
    cpu.memory.write(0x10fd, 0xf0);
    cpu.memory.write(0x10fe, 0x05);
    cpu.core.f.z = true;
    let cycles_before = cpu.cycles;

    cpu.emulate_instruction();

    assert_eq!(cpu.core.pc, 0x1104);
    assert_eq!(cpu.cycles, cycles_before + 4);
}

#[test]
fn branch_taken_same_page_costs_three() {
    let mut cpu = cpu_with_ram();
    cpu.core.pc = 0x1000;
    cpu.memory.write(0x1000, 0xf0);
    cpu.memory.write(0x1001, 0x05);
    cpu.core.f.z = true;
    let cycles_before = cpu.cycles;

    cpu.emulate_instruction();

    assert_eq!(cpu.core.pc, 0x1007);
    assert_eq!(cpu.cycles, cycles_before + 3);
}

#[test]
fn branch_not_taken_costs_two() {
    let mut cpu = cpu_with_ram();
    cpu.core.pc = 0x1000;
    cpu.memory.write(0x1000, 0xf0);
    cpu.memory.write(0x1001, 0x05);
    cpu.core.f.z = false;
    let cycles_before = cpu.cycles;

    cpu.emulate_instruction();

    assert_eq!(cpu.core.pc, 0x1002);
    assert_eq!(cpu.cycles, cycles_before + 2);
}

#[test]
fn lda_absolute_x_page_cross_costs_one_more() {
    let mut cpu = cpu_with_ram();
    // No crossing: base 0x1200 + X 0x01.
    cpu.core.pc = 0x0000;
    cpu.core.x = 0x01;
    cpu.memory.write(0x0000, 0xbd);
    cpu.memory.write(0x0001, 0x00);
    cpu.memory.write(0x0002, 0x12);
    let before = cpu.cycles;
    cpu.emulate_instruction();
    let plain = cpu.cycles - before;
    assert_eq!(plain, 4);

    // Crossing: base 0x12ff + X 0x01 reaches 0x1300.
    let mut cpu = cpu_with_ram();
    cpu.core.pc = 0x0000;
    cpu.core.x = 0x01;
    cpu.memory.write(0x0000, 0xbd);
    cpu.memory.write(0x0001, 0xff);
    cpu.memory.write(0x0002, 0x12);
    let before = cpu.cycles;
    cpu.emulate_instruction();
    let crossed = cpu.cycles - before;
    assert_eq!(crossed, 5);
    assert_eq!(crossed - plain, 1);
}

#[test]
fn sta_absolute_x_never_pays_the_penalty() {
    let mut cpu = cpu_with_ram();
    cpu.core.pc = 0x0000;
    cpu.core.x = 0x01;
    cpu.core.a = 0x42;
    cpu.memory.write(0x0000, 0x9d);
    cpu.memory.write(0x0001, 0xff);
    cpu.memory.write(0x0002, 0x12);
    let before = cpu.cycles;
    cpu.emulate_instruction();
    assert_eq!(cpu.cycles - before, 5);
    assert_eq!(cpu.memory.contents[0x1300], 0x42);
}

#[test]
fn adc_sets_carry_and_overflow() {
    let mut cpu = cpu_with_ram();
    cpu.core.a = 0x50;
    cpu.memory.write(0x2000, 0x50);
    cpu.adc(0x2000);
    // 0x50 + 0x50 = 0xa0: signed overflow, no carry, negative.
    assert_eq!(cpu.core.a, 0xa0);
    assert!(cpu.core.f.v);
    assert!(!cpu.core.f.c);
    assert!(cpu.core.f.n);

    let mut cpu = cpu_with_ram();
    cpu.core.a = 0xff;
    cpu.core.f.c = true;
    cpu.memory.write(0x2000, 0x00);
    cpu.adc(0x2000);
    // 0xff + 0x00 + 1 = 0x100: carry out, zero.
    assert_eq!(cpu.core.a, 0x00);
    assert!(cpu.core.f.c);
    assert!(cpu.core.f.z);
    assert!(!cpu.core.f.v);
}

#[test]
fn sbc_borrow_is_inverted_carry() {
    let mut cpu = cpu_with_ram();
    cpu.core.a = 0x40;
    cpu.core.f.c = true;
    cpu.memory.write(0x2000, 0x41);
    cpu.sbc(0x2000);
    // 0x40 - 0x41 borrows: C cleared, result 0xff.
    assert_eq!(cpu.core.a, 0xff);
    assert!(!cpu.core.f.c);
    assert!(cpu.core.f.n);
}

#[test]
fn adc_sbc_round_trip_binary() {
    for a in [0x00_u8, 0x01, 0x3f, 0x7f, 0x80, 0xc3, 0xff] {
        for m in [0x00_u8, 0x01, 0x7f, 0x80, 0xff] {
            for carry in [false, true] {
                let mut cpu = cpu_with_ram();
                cpu.core.a = a;
                cpu.core.f.c = carry;
                cpu.memory.write(0x2000, m);
                cpu.adc(0x2000);
                // SBC with the inverted original carry undoes the ADC.
                cpu.core.f.c = !carry;
                cpu.sbc(0x2000);
                assert_eq!(cpu.core.a, a);
            }
        }
    }
}

#[test]
fn adc_decimal_mode_when_enabled() {
    let mut cpu = cpu_with_ram();
    cpu.decimal_enabled = true;
    cpu.core.f.d = true;
    cpu.core.a = 0x15;
    cpu.memory.write(0x2000, 0x27);
    cpu.adc(0x2000);
    // BCD: 15 + 27 = 42.
    assert_eq!(cpu.core.a, 0x42);
    assert!(!cpu.core.f.c);

    let mut cpu = cpu_with_ram();
    cpu.decimal_enabled = true;
    cpu.core.f.d = true;
    cpu.core.a = 0x58;
    cpu.memory.write(0x2000, 0x46);
    cpu.core.f.c = true;
    cpu.adc(0x2000);
    // BCD: 58 + 46 + 1 = 105: 05 with carry out.
    assert_eq!(cpu.core.a, 0x05);
    assert!(cpu.core.f.c);
}

#[test]
fn adc_ignores_d_flag_when_decimal_disabled() {
    let mut cpu = cpu_with_ram();
    cpu.core.f.d = true;
    cpu.core.a = 0x15;
    cpu.memory.write(0x2000, 0x27);
    cpu.adc(0x2000);
    assert_eq!(cpu.core.a, 0x3c);
}

#[test]
fn sbc_decimal_mode_when_enabled() {
    let mut cpu = cpu_with_ram();
    cpu.decimal_enabled = true;
    cpu.core.f.d = true;
    cpu.core.f.c = true;
    cpu.core.a = 0x42;
    cpu.memory.write(0x2000, 0x15);
    cpu.sbc(0x2000);
    // BCD: 42 - 15 = 27.
    assert_eq!(cpu.core.a, 0x27);
    assert!(cpu.core.f.c);
}

#[test]
fn pha_pla_restores_a() {
    let mut cpu = cpu_with_ram();
    cpu.core.a = 0x5a;
    cpu.pha();
    cpu.core.a = 0x00;
    cpu.pla();
    assert_eq!(cpu.core.a, 0x5a);
    assert_eq!(cpu.core.sp, 0xfd);
}

#[test]
fn php_plp_restores_flags() {
    let mut cpu = cpu_with_ram();
    cpu.core.f.c = true;
    cpu.core.f.n = true;
    cpu.core.f.d = true;
    let before = cpu.core.f;
    cpu.php();
    cpu.core.f.set_byte(0x00);
    cpu.plp();
    assert_eq!(cpu.core.f, before);
}

#[test]
fn stack_wraps_after_256_pushes() {
    let mut cpu = cpu_with_ram();
    cpu.core.sp = 0xff;
    for _ in 0..256 {
        cpu.pha();
    }
    assert_eq!(cpu.core.sp, 0xff);
}

#[test]
fn brk_pushes_state_and_jumps_through_vector() {
    let mut cpu = cpu_with_ram();
    cpu.core.pc = 0x1000;
    cpu.core.sp = 0xfd;
    cpu.core.f.c = true;
    cpu.memory.write(0x1000, 0x00);
    cpu.memory.write(0xfffe, 0x78);
    cpu.memory.write(0xffff, 0x56);

    cpu.emulate_instruction();

    assert_eq!(cpu.core.pc, 0x5678);
    assert!(cpu.core.f.i);
    assert_eq!(cpu.core.sp, 0xfa);
    assert_eq!(cpu.memory.contents[0x01fd], 0x10);
    assert_eq!(cpu.memory.contents[0x01fc], 0x02);
    // The pushed status byte has B and U forced set.
    assert_eq!(cpu.memory.contents[0x01fb], 0x31);
}

#[test]
fn rti_restores_flags_and_pc_exactly() {
    let mut cpu = cpu_with_ram();
    cpu.core.pc = 0x2000;
    cpu.core.sp = 0xfa;
    cpu.memory.write(0x2000, 0x40);
    cpu.memory.write(0x01fb, 0x81); // status: C and N
    cpu.memory.write(0x01fc, 0x34);
    cpu.memory.write(0x01fd, 0x12);

    cpu.emulate_instruction();

    assert_eq!(cpu.core.pc, 0x1234);
    assert_eq!(cpu.core.sp, 0xfd);
    assert!(cpu.core.f.c);
    assert!(cpu.core.f.n);
    assert!(!cpu.core.f.z);
}

#[test]
fn isc_increments_then_subtracts() {
    let mut cpu = cpu_with_ram();
    cpu.core.a = 0x10;
    cpu.core.f.c = true;
    cpu.memory.write(0x0000, 0xe7); // isc zero page
    cpu.memory.write(0x0001, 0x80);
    cpu.memory.write(0x0080, 0x04);
    cpu.core.pc = 0;

    cpu.emulate_instruction();

    assert_eq!(cpu.memory.contents[0x0080], 0x05);
    assert_eq!(cpu.core.a, 0x0b);
}

#[test]
fn rra_rotates_then_adds() {
    let mut cpu = cpu_with_ram();
    cpu.core.a = 0x10;
    cpu.core.f.c = false;
    cpu.memory.write(0x0000, 0x67); // rra zero page
    cpu.memory.write(0x0001, 0x80);
    cpu.memory.write(0x0080, 0x05);
    cpu.core.pc = 0;

    cpu.emulate_instruction();

    // 0x05 rotates right to 0x02 with carry out 1; A = 0x10 + 0x02 + 1.
    assert_eq!(cpu.memory.contents[0x0080], 0x02);
    assert_eq!(cpu.core.a, 0x13);
}

#[test]
fn dcp_decrements_then_compares() {
    let mut cpu = cpu_with_ram();
    cpu.core.a = 0x04;
    cpu.memory.write(0x0000, 0xc7); // dcp zero page
    cpu.memory.write(0x0001, 0x80);
    cpu.memory.write(0x0080, 0x05);
    cpu.core.pc = 0;

    cpu.emulate_instruction();

    assert_eq!(cpu.memory.contents[0x0080], 0x04);
    assert!(cpu.core.f.z);
    assert!(cpu.core.f.c);
}

#[test]
fn zero_page_x_wraps_within_zero_page() {
    let mut cpu = cpu_with_ram();
    cpu.core.x = 0x10;
    cpu.memory.write(0x0000, 0xb5); // lda zero page,X
    cpu.memory.write(0x0001, 0xf8);
    cpu.memory.write(0x0008, 0x7e); // (0xf8 + 0x10) mod 256
    cpu.core.pc = 0;

    cpu.emulate_instruction();

    assert_eq!(cpu.core.a, 0x7e);
}

#[test]
fn indexed_indirect_wraps_pointer_through_zero_page() {
    let mut cpu = cpu_with_ram();
    cpu.core.x = 0x01;
    cpu.memory.write(0x0010, 0xa1); // lda (zp,X)
    cpu.memory.write(0x0011, 0xfe);
    cpu.memory.write(0x00ff, 0x34); // pointer low at (0xfe + 1)
    cpu.memory.write(0x0000, 0x12); // pointer high wraps to 0x00
    cpu.memory.write(0x1234, 0x99);
    cpu.core.pc = 0x0010;

    cpu.emulate_instruction();

    assert_eq!(cpu.core.a, 0x99);
}
