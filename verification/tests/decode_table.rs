use rsto6502::instructions::{decode, Mode, Op};

#[test]
fn opcode_table_has_the_expected_population() {
    let mut count = 0;
    for op in 0..=255u16 {
        if decode(op as u8).is_some() {
            count += 1;
        }
    }
    // 151 documented opcodes plus the common undocumented ones.
    assert_eq!(count, 227);
}

#[test]
fn illegal_opcodes_have_no_entry() {
    for op in [0x02_u8, 0x12, 0x22, 0x32, 0x42, 0x52, 0x62, 0x72, 0x92, 0xb2, 0xd2, 0xf2] {
        assert!(decode(op).is_none());
    }
}

#[test]
fn base_cycle_counts_match_the_datasheet() {
    // ADC zero page takes 3 cycles.
    let adc_zp = decode(0x65).unwrap();
    assert_eq!(adc_zp.op, Op::Adc);
    assert_eq!(adc_zp.mode, Mode::ZeroPage);
    assert_eq!(adc_zp.cycles, 3);

    // ADC absolute,X takes 4 base cycles plus one on a page cross.
    let adc_abx = decode(0x7d).unwrap();
    assert_eq!(adc_abx.op, Op::Adc);
    assert_eq!(adc_abx.mode, Mode::AbsoluteX);
    assert_eq!(adc_abx.cycles, 4);

    // BRK takes 7; JSR takes 6; the undocumented SBC alias takes 2.
    assert_eq!(decode(0x00).unwrap().cycles, 7);
    assert_eq!(decode(0x20).unwrap().cycles, 6);
    assert_eq!(decode(0xeb).unwrap().cycles, 2);
    assert_eq!(decode(0xeb).unwrap().op, Op::Sbc);
}

#[test]
fn store_modes_are_distinguished_from_read_modes() {
    // LDA absolute,X pays the page-cross penalty; STA absolute,X never
    // does, so it dispatches through the store variant of the mode.
    assert_eq!(decode(0xbd).unwrap().mode, Mode::AbsoluteX);
    assert_eq!(decode(0x9d).unwrap().mode, Mode::AbsoluteXStore);
    assert_eq!(decode(0x99).unwrap().mode, Mode::AbsoluteYStore);
    assert_eq!(decode(0xd3).unwrap().mode, Mode::IndirectIndexedStore);
}
