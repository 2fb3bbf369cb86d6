use j1939::pgn::{Number, Pgn};

#[test]
fn default() {
    // default should leave no bits set
    assert_eq!(Number::default().to_bits(), 0);
}

#[test]
fn destination_address() {
    let pgn = Pgn::new(Number {
        specific: 0,
        format: 0,
        data_page: false,
        extended_data_page: false,
    });

    // if the format number is below 240, this should return the
    // destination address
    assert_eq!(
        Pgn::Destination(Number {
            ..Default::default()
        }),
        pgn
    );
}

#[test]
fn broadcast_group_extension() {
    let pgn = Pgn::new(Number {
        specific: 0,
        format: 0,
        data_page: false,
        extended_data_page: false,
    });

    // if the format number is below 240, this should return the
    // destination address
    assert_eq!(
        Pgn::Destination(Number {
            ..Default::default()
        }),
        pgn
    );
}

fn number(format: u8, specific: u8) -> Number {
    Number {
        specific,
        format,
        data_page: false,
        extended_data_page: false,
    }
}

#[test]
fn number_bits_layout() {
    let n = Number {
        specific: 0x22,
        format: 0xF1,
        data_page: true,
        extended_data_page: true,
    };
    assert_eq!(n.to_bits(), 0x3F122);
    assert_eq!(Pgn::new(n).to_bits(), 0x3F122);
    assert_eq!(number(0xF0, 0x04).to_bits(), 0xF004);
}

#[test]
fn new_picks_variant_by_format() {
    assert_eq!(Pgn::new(number(239, 1)), Pgn::Destination(number(239, 1)));
    assert_eq!(Pgn::new(number(240, 1)), Pgn::Broadcast(number(240, 1)));
}

#[test]
fn accessors_are_exclusive() {
    for format in 0u8..=255 {
        let pgn = Pgn::new(number(format, 0x42));
        let dest = pgn.destination_address();
        let ext = pgn.broadcast_group_extension();
        assert!(dest.is_some() != ext.is_some());
        if format < 240 {
            assert_eq!(dest, Some(0x42));
        } else {
            assert_eq!(ext, Some(0x42));
        }
    }
}

#[test]
fn new_destination_checks_format() {
    assert_eq!(Pgn::new_destination(number(0xEF, 7)), Ok(Pgn::Destination(number(0xEF, 7))));
    assert!(Pgn::new_destination(number(0xF0, 7)).is_err());
}

#[test]
fn new_broadcast_checks_format() {
    assert_eq!(Pgn::new_broadcast(number(0xF0, 7)), Ok(Pgn::Broadcast(number(0xF0, 7))));
    assert!(Pgn::new_broadcast(number(0xEF, 7)).is_err());
}

#[test]
fn to_number_returns_fields() {
    assert_eq!(Pgn::Broadcast(number(0xFE, 3)).to_number(), number(0xFE, 3));
}
