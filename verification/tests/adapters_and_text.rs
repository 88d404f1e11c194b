use rsto6502::nintendo::Nes;
use rsto6502::{Decompiler, Memory, MirroredMemory, Processor, RandomAccessMemory, ReadOnlyMemory};

#[test]
fn ram_indexes_modulo_its_size() {
    let mut ram = RandomAccessMemory::new(0x0800);
    ram.write(0x0001, 0xaa);
    assert_eq!(ram.read(0x0001), 0xaa);
    // 0x0801 aliases 0x0001 modulo the declared size.
    assert_eq!(ram.read(0x0801), 0xaa);
    ram.write(0x0802, 0xbb);
    assert_eq!(ram.read(0x0002), 0xbb);
}

#[test]
fn rom_discards_writes() {
    let mut rom = ReadOnlyMemory::new(0x100);
    rom.write(0x0010, 0xff);
    assert_eq!(rom.read(0x0010), 0x00);
    // Reads beyond the backing vector yield zero, never a fault.
    assert_eq!(rom.read(0xffff), 0x00);
}

#[test]
fn mirrored_memory_masks_the_address() {
    let mut mem = MirroredMemory::new(RandomAccessMemory::new(0x0800), 0x07ff, 0x2000);
    mem.write(0x1801, 0xcc);
    assert_eq!(mem.read(0x0001), 0xcc);
    assert_eq!(mem.read(0x0801), 0xcc);
    assert_eq!(mem.length(), 0x2000);
}

#[test]
fn read_word_is_little_endian() {
    let mut ram = RandomAccessMemory::new(0x10000);
    ram.write(0x1000, 0x34);
    ram.write(0x1001, 0x12);
    assert_eq!(ram.read_word(0x1000), 0x1234);
}

#[test]
fn read_signed_sign_extends() {
    let mut ram = RandomAccessMemory::new(0x10000);
    ram.write(0x1000, 0xfb);
    assert_eq!(ram.read_signed(0x1000), -5);
    ram.write(0x1001, 0x05);
    assert_eq!(ram.read_signed(0x1001), 5);
}

fn minimal_rom() -> Vec<u8> {
    // Header: "NES\x1A", one 16 KiB PRG bank, no CHR.
    let mut rom = vec![0x4e, 0x45, 0x53, 0x1a, 0x01, 0x00];
    rom.resize(16, 0);
    rom.resize(16 + 0x4000, 0);
    rom
}

#[test]
fn nes_boots_with_cartridge_visible() {
    let mut rom = minimal_rom();
    rom[16] = 0x42; // first PRG byte
    rom[16 + 0x3fff] = 0x99; // last PRG byte
    let nes = Nes::new(&rom);

    assert_eq!(nes.cpu.core.sp, 0xfd);
    assert_eq!(nes.cpu.cycles, 0);
    // The 16 KiB bank appears at 0x8000 and mirrored at 0xC000.
    assert_eq!(nes.cpu.memory.read(0x8000), 0x42);
    assert_eq!(nes.cpu.memory.read(0xc000), 0x42);
    assert_eq!(nes.cpu.memory.read(0xbfff), 0x99);
    assert_eq!(nes.cpu.memory.read(0xffff), 0x99);
    // RAM reads zero and is mirrored every 0x0800.
    assert_eq!(nes.cpu.memory.read(0x0000), 0x00);
}

#[test]
fn nes_ram_mirrors_and_rom_ignores_stores() {
    let mut nes = Nes::new(&minimal_rom());
    nes.cpu.memory.write(0x0002, 0x07);
    assert_eq!(nes.cpu.memory.read(0x0002), 0x07);
    assert_eq!(nes.cpu.memory.read(0x0802), 0x07);
    assert_eq!(nes.cpu.memory.read(0x1002), 0x07);
    nes.cpu.memory.write(0x8000, 0x55);
    assert_eq!(nes.cpu.memory.read(0x8000), 0x00);
}

#[test]
fn nes_runs_a_program_from_prg_rom() {
    let mut rom = minimal_rom();
    // At 0xC000: LDA #$07; STA $02.
    rom[16] = 0xa9;
    rom[17] = 0x07;
    rom[18] = 0x85;
    rom[19] = 0x02;
    let mut nes = Nes::new(&rom);
    nes.cpu.core.pc = 0xc000;
    nes.cpu.core.f.i = true;
    nes.cpu.cycles = 7;

    nes.cpu.emulate_instruction();
    nes.cpu.emulate_instruction();

    assert_eq!(nes.cpu.memory.read(0x0002), 0x07);
    assert_eq!(nes.cpu.core.pc, 0xc004);
    assert_eq!(nes.cpu.cycles, 7 + 2 + 3);
}

#[test]
fn ines_validity_is_checked() {
    assert!(rsto6502::nintendo::ines::ines_valid(&minimal_rom()));
    let mut bad_magic = minimal_rom();
    bad_magic[0] = 0x4d;
    assert!(!rsto6502::nintendo::ines::ines_valid(&bad_magic));
    let truncated = vec![0x4e, 0x45, 0x53, 0x1a, 0x01, 0x00];
    assert!(!rsto6502::nintendo::ines::ines_valid(&truncated));
    let mut huge_prg = minimal_rom();
    huge_prg[4] = 0x03;
    assert!(!rsto6502::nintendo::ines::ines_valid(&huge_prg));
}

#[test]
fn trace_line_matches_reference_format() {
    let mut cpu = Processor::with_memory(RandomAccessMemory::new(0x10000));
    cpu.core.pc = 0xc000;
    cpu.core.f.i = true;
    cpu.cycles = 7;
    let line = cpu.trace_line(cpu.core.pc);
    assert_eq!(line, "C000  A:00 X:00 Y:00 P:04 SP:FD PPU:  0, 21 CYC:7");
}

#[test]
fn trace_line_pads_ppu_fields() {
    let mut cpu = Processor::with_memory(RandomAccessMemory::new(0x10000));
    cpu.cycles = 40000;
    // 40000 * 3 = 120000 dots: row 351, dot 309.
    let line = cpu.trace_line(0x0000);
    assert_eq!(line, "0000  A:00 X:00 Y:00 P:00 SP:FD PPU:351,309 CYC:40000");
}

#[test]
fn decompile_renders_each_mode() {
    let program = [
        0xa9, 0x80, // lda #$80
        0x4c, 0x34, 0x12, // jmp $1234
        0x0a, // asla A
        0xb1, 0x21, // lda ($21),Y
        0xbd, 0xff, 0x12, // lda $12ff,X
        0xe8, // inx
    ];
    let text = Decompiler::new(&program).decompile();
    assert_eq!(
        text,
        "lda #$80\njmp $1234\nasla A\nlda ($21),Y\nlda $12ff,X\ninx\n"
    );
}

#[test]
fn decompile_renders_zero_page_and_indirect_modes() {
    let program = [
        0xa5, 0x10, // lda $10
        0xb5, 0x10, // lda $10,X
        0xb6, 0x10, // ldx $10,Y
        0x6c, 0x00, 0x30, // jmp ($3000)
        0xa1, 0x20, // lda ($20,X)
        0x99, 0x00, 0x40, // sta $4000,Y
        0x04, 0x44, // nop_addr $44
    ];
    let text = Decompiler::new(&program).decompile();
    assert_eq!(
        text,
        "lda $10\nlda $10,X\nldx $10,Y\njmp ($3000)\nlda ($20,X)\nsta $4000,Y\nnop_addr $44\n"
    );
}

#[test]
fn decompile_marks_unknown_and_truncated_bytes() {
    let program = [0x02, 0xa9];
    let text = Decompiler::new(&program).decompile();
    assert_eq!(text, "???\n???\n");
}
