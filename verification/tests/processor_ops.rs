use rsto6502::{Core, Flags, Memory, Processor, RandomAccessMemory};

fn new_processor() -> Processor<RandomAccessMemory> {
    Processor::with_memory(RandomAccessMemory::new(0x1000000))
}

#[test]
fn test_core_new() {
    let core = Core::new();

    assert_eq!(core.a, 0);
    assert_eq!(core.x, 0);
    assert_eq!(core.y, 0);
    assert_eq!(core.f, Flags::default());
    assert_eq!(core.sp, 0xfd);
    assert_eq!(core.pc, 0x0000);
}

#[test]
fn test_clc() {
    let mut cpu = new_processor();

    let expected = {
        let mut c = Core::default();
        c.f.c = false;
        c
    };

    cpu.core.f.c = true;
    cpu.clc();
    assert_eq!(cpu.core, expected);

    cpu.clc();
    assert_eq!(cpu.core, expected);
}

#[test]
fn test_cld() {
    let mut cpu = new_processor();

    let expected = {
        let mut c = Core::default();
        c.f.d = false;
        c
    };

    cpu.core.f.d = true;
    cpu.cld();
    assert_eq!(cpu.core, expected);

    cpu.cld();
    assert_eq!(cpu.core, expected);
}

#[test]
fn test_cli() {
    let mut cpu = new_processor();

    let expected = {
        let mut c = Core::default();
        c.f.i = false;
        c
    };

    cpu.core.f.i = true;
    cpu.cli();
    assert_eq!(cpu.core, expected);

    cpu.cli();
    assert_eq!(cpu.core, expected);
}

#[test]
fn test_cmp() {
    let mut cpu = new_processor();
    let addr: u16 = 0x1000;

    let val: u8 = 0x00;
    cpu.core.a = 0x80;
    cpu.memory.write(addr, val);
    cpu.cmp(addr);
    assert!(!cpu.core.f.z);
    assert!(cpu.core.f.n);
    assert!(cpu.core.f.c);
}

#[test]
fn test_cpx() {
    let mut cpu = new_processor();
    let addr: u16 = 0x1000;

    let val: u8 = 0x00;
    cpu.core.x = 0x80;
    cpu.memory.write(addr, val);
    cpu.cpx(addr);
    assert!(!cpu.core.f.z);
    assert!(cpu.core.f.n);
    assert!(cpu.core.f.c);
}

#[test]
fn test_cpy() {
    let mut cpu = new_processor();
    let addr: u16 = 0x1000;

    let val: u8 = 0x00;
    cpu.core.y = 0x80;
    cpu.memory.write(addr, val);
    cpu.cpy(addr);
    assert!(!cpu.core.f.z);
    assert!(cpu.core.f.n);
    assert!(cpu.core.f.c);
}

#[test]
fn test_lda() {
    let mut cpu = new_processor();
    let addr: u16 = 0x1000;

    let mut val = 0x77;
    cpu.memory.write(addr, val);
    cpu.lda(addr);
    let expected = {
        let mut c = Core::default();
        c.a = val;
        c
    };
    assert_eq!(cpu.core, expected);

    val = 0xf8;
    cpu.memory.write(addr, val);
    cpu.lda(addr);
    let expected = {
        let mut c = Core::default();
        c.a = val;
        c.f.n = true;
        c
    };
    assert_eq!(cpu.core, expected);

    val = 0x00;
    cpu.memory.write(addr, val);
    cpu.lda(addr);
    let expected = {
        let mut c = Core::default();
        c.a = val;
        c.f.z = true;
        c
    };
    assert_eq!(cpu.core, expected);
}

#[test]
fn test_ldx() {
    let mut cpu = new_processor();
    let addr: u16 = 0x1000;

    let mut val = 0x77;
    cpu.memory.write(addr, val);
    cpu.ldx(addr);
    let expected = {
        let mut c = Core::default();
        c.x = val;
        c
    };
    assert_eq!(cpu.core, expected);

    val = 0xf8;
    cpu.memory.write(addr, val);
    cpu.ldx(addr);
    let expected = {
        let mut c = Core::default();
        c.x = val;
        c.f.n = true;
        c
    };
    assert_eq!(cpu.core, expected);

    val = 0x00;
    cpu.memory.write(addr, val);
    cpu.ldx(addr);
    let expected = {
        let mut c = Core::default();
        c.x = val;
        c.f.z = true;
        c
    };
    assert_eq!(cpu.core, expected);
}

#[test]
fn test_ldy() {
    let mut cpu = new_processor();
    let addr: u16 = 0x1000;

    let mut val = 0x77;
    cpu.memory.write(addr, val);
    cpu.ldy(addr);
    let expected = {
        let mut c = Core::default();
        c.y = val;
        c
    };
    assert_eq!(cpu.core, expected);

    val = 0xf8;
    cpu.memory.write(addr, val);
    cpu.ldy(addr);
    let expected = {
        let mut c = Core::default();
        c.y = val;
        c.f.n = true;
        c
    };
    assert_eq!(cpu.core, expected);

    val = 0x00;
    cpu.memory.write(addr, val);
    cpu.ldy(addr);
    let expected = {
        let mut c = Core::default();
        c.y = val;
        c.f.z = true;
        c
    };
    assert_eq!(cpu.core, expected);
}

#[test]
fn test_sta() {
    let mut cpu = new_processor();
    let addr: u16 = 0x2000;

    let val = 0x9f;
    cpu.core.a = val;

    cpu.sta(addr);
    assert_eq!(val, cpu.memory.contents[addr as usize]);
}

#[test]
fn test_stx() {
    let mut cpu = new_processor();
    let addr: u16 = 0x2000;

    let val = 0xfc;
    cpu.core.x = val;

    cpu.stx(addr);
    assert_eq!(val, cpu.memory.contents[addr as usize]);
}

#[test]
fn test_sty() {
    let mut cpu = new_processor();
    let addr: u16 = 0x2000;

    let val = 0x04;
    cpu.core.y = val;

    cpu.sty(addr);
    assert_eq!(val, cpu.memory.contents[addr as usize]);
}

#[test]
fn test_tax() {
    let mut cpu = new_processor();

    let val = 0xff;
    cpu.core.a = val;
    let expected = {
        let mut c = cpu.core.clone();
        c.x = val;
        c.f.n = true;
        c
    };

    cpu.tax();
    assert_eq!(expected, cpu.core);

    let val = 0x00;
    cpu.core.a = val;
    let expected = {
        let mut c = cpu.core.clone();
        c.x = val;
        c.f.n = false;
        c.f.z = true;
        c
    };

    cpu.tax();
    assert_eq!(expected, cpu.core);

    let val = 0x54;
    cpu.core.a = val;
    let expected = {
        let mut c = cpu.core.clone();
        c.x = val;
        c.f.z = false;
        c
    };

    cpu.tax();
    assert_eq!(expected, cpu.core);
}

#[test]
fn test_tay() {
    let mut cpu = new_processor();

    let val = 0xff;
    cpu.core.a = val;
    let expected = {
        let mut c = cpu.core.clone();
        c.y = val;
        c.f.n = true;
        c
    };

    cpu.tay();
    assert_eq!(expected, cpu.core);

    let val = 0x00;
    cpu.core.a = val;
    let expected = {
        let mut c = cpu.core.clone();
        c.y = val;
        c.f.n = false;
        c.f.z = true;
        c
    };

    cpu.tay();
    assert_eq!(expected, cpu.core);

    let val = 0x54;
    cpu.core.a = val;
    let expected = {
        let mut c = cpu.core.clone();
        c.y = val;
        c.f.z = false;
        c
    };

    cpu.tay();
    assert_eq!(expected, cpu.core);
}

#[test]
fn test_txa() {
    let mut cpu = new_processor();

    let val = 0xff;
    cpu.core.x = val;
    let expected = {
        let mut c = cpu.core.clone();
        c.a = val;
        c.f.n = true;
        c
    };

    cpu.txa();
    assert_eq!(expected, cpu.core);

    let val = 0x00;
    cpu.core.x = val;
    let expected = {
        let mut c = cpu.core.clone();
        c.a = val;
        c.f.n = false;
        c.f.z = true;
        c
    };

    cpu.txa();
    assert_eq!(expected, cpu.core);

    let val = 0x54;
    cpu.core.x = val;
    let expected = {
        let mut c = cpu.core.clone();
        c.a = val;
        c.f.z = false;
        c
    };

    cpu.txa();
    assert_eq!(expected, cpu.core);
}

#[test]
fn test_tya() {
    let mut cpu = new_processor();

    let val = 0xff;
    cpu.core.y = val;
    let expected = {
        let mut c = cpu.core.clone();
        c.a = val;
        c.f.n = true;
        c
    };

    cpu.tya();
    assert_eq!(expected, cpu.core);

    let val = 0x00;
    cpu.core.y = val;
    let expected = {
        let mut c = cpu.core.clone();
        c.a = val;
        c.f.n = false;
        c.f.z = true;
        c
    };

    cpu.tya();
    assert_eq!(expected, cpu.core);

    let val = 0x54;
    cpu.core.y = val;
    let expected = {
        let mut c = cpu.core.clone();
        c.a = val;
        c.f.z = false;
        c
    };

    cpu.tya();
    assert_eq!(expected, cpu.core);
}
