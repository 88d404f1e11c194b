use rsto6502::Flags;

#[test]
fn test_macro() {
    assert_eq!(
        Flags {
            ..Flags::default()
        },
        Flags::default()
    );
    assert_eq!(
        Flags {
            c: true,
            ..Flags::default()
        },
        Flags {
            c: true,
            ..Flags::default()
        }
    );
}

#[test]
fn test_set_z() {
    let mut f = Flags::default();
    assert!(!f.z);

    f.set_z(0);
    assert!(f.z);

    for n in 1..=0xff {
        f.set_z(n);
        assert!(!f.z);
        f.set_z(0);
    }
}

#[test]
fn test_set_n() {
    let mut f = Flags::default();
    assert!(!f.n);

    for n in 0..=0x7f {
        f.set_n(n | 0x80);
        assert!(f.n);
        f.set_n(n);
        assert!(!f.n);
    }
}

#[test]
fn test_get_byte_packs_bits() {
    let mut f = Flags::default();
    assert_eq!(f.get_byte(), 0x00);
    f.c = true;
    assert_eq!(f.get_byte(), 0x01);
    f.z = true;
    assert_eq!(f.get_byte(), 0x03);
    f.i = true;
    assert_eq!(f.get_byte(), 0x07);
    f.d = true;
    assert_eq!(f.get_byte(), 0x0f);
    f.v = true;
    assert_eq!(f.get_byte(), 0x4f);
    f.n = true;
    assert_eq!(f.get_byte(), 0xcf);
}

#[test]
fn test_set_byte_ignores_b_and_u() {
    let mut f = Flags::default();
    f.set_byte(0xff);
    assert_eq!(
        f,
        Flags {
            c: true,
            z: true,
            i: true,
            d: true,
            v: true,
            n: true
        }
    );
    f.set_byte(0x30);
    assert_eq!(f, Flags::default());
}

#[test]
fn test_byte_round_trip() {
    for bits in 0..=0x3f_u8 {
        let f = Flags {
            c: bits & 0x01 != 0,
            z: bits & 0x02 != 0,
            i: bits & 0x04 != 0,
            d: bits & 0x08 != 0,
            v: bits & 0x10 != 0,
            n: bits & 0x20 != 0,
        };
        let mut g = Flags::default();
        g.set_byte(f.get_byte() | 0x30);
        assert_eq!(g, f);
    }
}
