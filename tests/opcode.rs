use cpu6502::opcode::{Addressing, OpCode, OpId};

#[test]
fn table_gives_mnemonic_mode_and_length() {
    let adc = OpCode::get(0x69).unwrap();
    assert_eq!(adc.id, OpId::ADC);
    assert_eq!(adc.addressing, Addressing::Immediate);
    assert_eq!(adc.bytes, 2);
    let jmp = OpCode::get(0x4C).unwrap();
    assert_eq!(jmp.id, OpId::JMP);
    assert_eq!(jmp.addressing, Addressing::Absolute);
    assert_eq!(jmp.bytes, 3);
    let ind = OpCode::get(0x6C).unwrap();
    assert_eq!(ind.addressing, Addressing::Indirect);
    let dex = OpCode::get(0xCA).unwrap();
    assert_eq!(dex.id, OpId::DEX);
    assert_eq!(dex.bytes, 1);
    let asl = OpCode::get(0x0A).unwrap();
    assert_eq!(asl.addressing, Addressing::Accumulator);
    assert_eq!(asl.bytes, 1);
    assert_eq!(OpCode::get(0x00).unwrap().id, OpId::BRK);
}

#[test]
fn invalid_bytes_have_no_opcode() {
    assert_eq!(OpCode::get(0x02), None);
    assert_eq!(OpCode::get(0xFF), None);
    let valid = (0..=255u8).filter(|c| OpCode::get(*c).is_some()).count();
    assert_eq!(valid, 151);
}

#[test]
fn length_follows_addressing_mode() {
    for code in 0..=255u8 {
        if let Some(op) = OpCode::get(code) {
            assert_eq!(op.bytes, op.addressing.len());
        }
    }
    assert_eq!(Addressing::Implied.len(), 1);
    assert_eq!(Addressing::ZeroPageY.len(), 2);
    assert_eq!(Addressing::AbsoluteY.len(), 3);
}
