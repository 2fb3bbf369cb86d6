use j1939::pdu::ProtocolDataUnit;

#[test]
fn pdu_unchecked_sets_broadcast_by_format() {
    let u = ProtocolDataUnit::new_unchecked(239, 5);
    assert_eq!((u.format(), u.specific(), u.broadcast()), (239, 5, false));
    let u = ProtocolDataUnit::new_unchecked(240, 6);
    assert_eq!((u.format(), u.specific(), u.broadcast()), (240, 6, true));
}

#[test]
fn pdu_broadcast_needs_high_format() {
    let u = ProtocolDataUnit::new_broadcast(0xF0, 0x12).unwrap();
    assert_eq!((u.format(), u.specific(), u.broadcast()), (0xF0, 0x12, true));
    assert!(ProtocolDataUnit::new_broadcast(0xEF, 0x12).is_err());
}

#[test]
fn pdu_addressable_needs_low_format() {
    let u = ProtocolDataUnit::new_addressable(0xEF, 0x21).unwrap();
    assert_eq!((u.format(), u.specific(), u.broadcast()), (0xEF, 0x21, false));
    assert!(ProtocolDataUnit::new_addressable(0xF0, 0x21).is_err());
}
