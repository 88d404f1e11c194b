use rsto6502::{Memory, Processor, RandomAccessMemory};

fn cpu_with_ram() -> Processor<RandomAccessMemory> {
    Processor::with_memory(RandomAccessMemory::new(0x10000))
}

#[test]
fn asl_shifts_memory_and_sets_carry_from_bit_seven() {
    let mut cpu = cpu_with_ram();
    cpu.memory.write(0x0080, 0x81);
    cpu.asl(0x0080);
    assert_eq!(cpu.memory.contents[0x0080], 0x02);
    assert!(cpu.core.f.c);
    assert!(!cpu.core.f.z);
    assert!(!cpu.core.f.n);
}

#[test]
fn lsr_shifts_memory_and_sets_carry_from_bit_zero() {
    let mut cpu = cpu_with_ram();
    cpu.memory.write(0x0080, 0x01);
    cpu.lsr(0x0080);
    assert_eq!(cpu.memory.contents[0x0080], 0x00);
    assert!(cpu.core.f.c);
    assert!(cpu.core.f.z);
}

#[test]
fn rol_shifts_in_the_old_carry_at_bit_zero() {
    let mut cpu = cpu_with_ram();
    cpu.core.f.c = true;
    cpu.memory.write(0x0080, 0x40);
    cpu.rol(0x0080);
    assert_eq!(cpu.memory.contents[0x0080], 0x81);
    assert!(!cpu.core.f.c);
    assert!(cpu.core.f.n);
}

#[test]
fn ror_shifts_in_the_old_carry_at_bit_seven() {
    let mut cpu = cpu_with_ram();
    cpu.core.f.c = true;
    cpu.memory.write(0x0080, 0x02);
    cpu.ror(0x0080);
    assert_eq!(cpu.memory.contents[0x0080], 0x81);
    assert!(!cpu.core.f.c);
    assert!(cpu.core.f.n);
}

#[test]
fn accumulator_shifts_touch_only_a() {
    let mut cpu = cpu_with_ram();
    cpu.core.a = 0x81;
    cpu.asla();
    assert_eq!(cpu.core.a, 0x02);
    assert!(cpu.core.f.c);

    cpu.rora();
    // Carry 1 rotates into bit 7; bit 0 of 0x02 is 0.
    assert_eq!(cpu.core.a, 0x81);
    assert!(!cpu.core.f.c);

    cpu.lsra();
    assert_eq!(cpu.core.a, 0x40);
    assert!(cpu.core.f.c);

    cpu.rola();
    assert_eq!(cpu.core.a, 0x81);
    assert!(!cpu.core.f.c);
}

#[test]
fn bit_copies_bits_six_and_seven_of_the_operand() {
    let mut cpu = cpu_with_ram();
    cpu.core.a = 0x01;
    cpu.memory.write(0x0080, 0xc0);
    cpu.bit(0x0080);
    assert!(cpu.core.f.z); // A AND m == 0
    assert!(cpu.core.f.v); // bit 6
    assert!(cpu.core.f.n); // bit 7
    assert_eq!(cpu.core.a, 0x01);
}

#[test]
fn logic_ops_update_a_and_flags() {
    let mut cpu = cpu_with_ram();
    cpu.core.a = 0x0f;
    cpu.memory.write(0x0080, 0xf0);
    cpu.and(0x0080);
    assert_eq!(cpu.core.a, 0x00);
    assert!(cpu.core.f.z);

    cpu.core.a = 0x0f;
    cpu.ora(0x0080);
    assert_eq!(cpu.core.a, 0xff);
    assert!(cpu.core.f.n);

    cpu.eor(0x0080);
    assert_eq!(cpu.core.a, 0x0f);
    assert!(!cpu.core.f.n);
    assert!(!cpu.core.f.z);
}

#[test]
fn lax_loads_a_and_x_together() {
    let mut cpu = cpu_with_ram();
    cpu.memory.write(0x0080, 0x80);
    cpu.lax(0x0080);
    assert_eq!(cpu.core.a, 0x80);
    assert_eq!(cpu.core.x, 0x80);
    assert!(cpu.core.f.n);
}

#[test]
fn sax_stores_a_and_x_without_flags() {
    let mut cpu = cpu_with_ram();
    cpu.core.a = 0xf0;
    cpu.core.x = 0x3c;
    cpu.core.f.z = true;
    cpu.sax(0x0080);
    assert_eq!(cpu.memory.contents[0x0080], 0x30);
    assert!(cpu.core.f.z);
}

#[test]
fn slo_shifts_memory_then_ors_into_a() {
    let mut cpu = cpu_with_ram();
    cpu.core.a = 0x01;
    cpu.memory.write(0x0080, 0x82);
    cpu.slo(0x0080);
    assert_eq!(cpu.memory.contents[0x0080], 0x04);
    assert_eq!(cpu.core.a, 0x05);
    assert!(cpu.core.f.c);
}

#[test]
fn sre_shifts_memory_then_eors_into_a() {
    let mut cpu = cpu_with_ram();
    cpu.core.a = 0x0f;
    cpu.memory.write(0x0080, 0x05);
    cpu.sre(0x0080);
    assert_eq!(cpu.memory.contents[0x0080], 0x02);
    assert_eq!(cpu.core.a, 0x0d);
    assert!(cpu.core.f.c);
}

#[test]
fn rla_rotates_memory_then_ands_into_a() {
    let mut cpu = cpu_with_ram();
    cpu.core.a = 0xff;
    cpu.core.f.c = true;
    cpu.memory.write(0x0080, 0x40);
    cpu.rla(0x0080);
    assert_eq!(cpu.memory.contents[0x0080], 0x81);
    assert_eq!(cpu.core.a, 0x81);
    assert!(!cpu.core.f.c);
}

#[test]
fn inc_dec_wrap_in_memory() {
    let mut cpu = cpu_with_ram();
    cpu.memory.write(0x0080, 0xff);
    cpu.inc(0x0080);
    assert_eq!(cpu.memory.contents[0x0080], 0x00);
    assert!(cpu.core.f.z);

    cpu.dec(0x0080);
    assert_eq!(cpu.memory.contents[0x0080], 0xff);
    assert!(cpu.core.f.n);
}

#[test]
fn register_steps_wrap() {
    let mut cpu = cpu_with_ram();
    cpu.core.x = 0x00;
    cpu.dex();
    assert_eq!(cpu.core.x, 0xff);
    assert!(cpu.core.f.n);

    cpu.core.y = 0xff;
    cpu.iny();
    assert_eq!(cpu.core.y, 0x00);
    assert!(cpu.core.f.z);

    cpu.dey();
    assert_eq!(cpu.core.y, 0xff);
}

#[test]
fn txs_sets_sp_without_flags_and_tsx_sets_flags() {
    let mut cpu = cpu_with_ram();
    cpu.core.x = 0x00;
    cpu.core.f.z = false;
    cpu.txs();
    assert_eq!(cpu.core.sp, 0x00);
    assert!(!cpu.core.f.z);

    cpu.tsx();
    assert_eq!(cpu.core.x, 0x00);
    assert!(cpu.core.f.z);
}

#[test]
fn flag_ops_assign_directly() {
    let mut cpu = cpu_with_ram();
    cpu.sec();
    assert!(cpu.core.f.c);
    cpu.sed();
    assert!(cpu.core.f.d);
    cpu.sei();
    assert!(cpu.core.f.i);
    cpu.core.f.v = true;
    cpu.clv();
    assert!(!cpu.core.f.v);
}

#[test]
fn nop_changes_nothing() {
    let mut cpu = cpu_with_ram();
    cpu.core.a = 0x12;
    let core_before = cpu.core;
    cpu.nop();
    cpu.nop_addr(0x1234);
    assert_eq!(cpu.core, core_before);
}

#[test]
fn sbc_opcode_alias_behaves_like_sbc() {
    let mut cpu = cpu_with_ram();
    cpu.core.a = 0x10;
    cpu.core.f.c = true;
    cpu.memory.write(0x0000, 0xeb); // undocumented SBC immediate alias
    cpu.memory.write(0x0001, 0x01);
    cpu.core.pc = 0;
    cpu.emulate_instruction();
    assert_eq!(cpu.core.a, 0x0f);
    assert!(cpu.core.f.c);
    assert_eq!(cpu.core.pc, 2);
}
