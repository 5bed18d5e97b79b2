use erg_eval::opcode::Opcode;

#[test]
fn opcode_bytes_round_trip() {
    assert_eq!(Opcode::from_byte(1), Some(Opcode::PopTop));
    assert_eq!(Opcode::from_byte(100), Some(Opcode::LoadConst));
    assert_eq!(Opcode::from_byte(255), Some(Opcode::NotImplemented));
    assert_eq!(Opcode::from_byte(7), None);
    assert_eq!(Opcode::LoadConst.to_byte(), 100);
}

#[test]
fn argument_band_is_contiguous() {
    assert!(!Opcode::PopTop.take_arg());
    assert!(Opcode::StoreName.take_arg());
    assert!(Opcode::LoadConst.take_arg());
    assert!(Opcode::ErgCallPureFunction.take_arg());
    assert!(!Opcode::ErgLoadEmptySlot.take_arg());
    assert!(!Opcode::ReturnValue.take_arg());
}
