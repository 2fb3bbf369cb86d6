use j1939::{
    decode_signal, encode_signal, Control, Parameter, Signal, Signal10, Signal12, Signal16,
    Signal20, Signal24, Signal28, Signal32, Signal4, Signal8, SignalRange, Width,
};

#[test]
fn signal_default() {
    // should default to the assigned 'undefined' value
    assert_eq!(Signal::<u8>::default(), Signal::<u8>::NotAvailable);
}

#[test]
fn parameter_default() {
    // should default to the assigned 'undefined' value
    assert_eq!(Parameter::default().to_bits(), 0b11);
}

#[test]
fn parameter_is_assertive() {
    // default value should not be assertive
    let param = Parameter::default();
    assert!(!param.is_assertive());

    // error value should not be assertive
    let param = Parameter::Error;
    assert!(!param.is_assertive());

    // disabled value should be assertive
    let param = Parameter::Disabled;
    assert!(param.is_assertive());

    // enabled value should be assertive
    let param = Parameter::Enabled;
    assert!(param.is_assertive());
}

#[test]
fn parameter_is_enabled() {
    // enabled value should be true
    let param = Parameter::Enabled;
    assert!(param.is_enabled());
}

#[test]
fn parameter_is_disabled() {
    // disabled value should be true
    let param = Parameter::Disabled;
    assert!(param.is_disabled());
}

#[test]
fn parameter_is_error() {
    // error value should be true
    let param = Parameter::Error;
    assert!(param.is_error());
}

#[test]
fn parameter_is_not_available() {
    // not available value should be true
    let param = Parameter::NotAvailable;
    assert!(param.is_not_available());
}

#[test]
fn control_default() {
    // should default to the assigned 'undefined' value
    assert_eq!(Control::default().to_bits(), 0b11);
}

#[test]
fn control_is_assertive() {
    // default value should not be assertive
    let ctrl = Control::default();
    assert!(!ctrl.is_assertive());

    // enable value should be assertive
    let ctrl = Control::Enable;
    assert!(ctrl.is_assertive());

    // disabled value should be assertive
    let ctrl = Control::Disable;
    assert!(ctrl.is_assertive());
}

#[test]
fn control_is_enable() {
    // enable value should be true
    let param = Control::Enable;
    assert!(param.is_enable());
}

#[test]
fn control_is_disable() {
    // disable value should be true
    let param = Control::Disable;
    assert!(param.is_disable());
}

#[test]
fn control_is_no_action() {
    // no action value should be true
    let param = Control::NoAction;
    assert!(param.is_no_action());
}

#[test]
fn parameter_and_control_codes() {
    assert_eq!(Parameter::Disabled.to_bits(), 0b00);
    assert_eq!(Parameter::Enabled.to_bits(), 0b01);
    assert_eq!(Parameter::Error.to_bits(), 0b10);
    assert_eq!(Parameter::NotAvailable.to_bits(), 0b11);
    assert_eq!(Control::Disable.to_bits(), 0b00);
    assert_eq!(Control::Enable.to_bits(), 0b01);
    assert_eq!(Control::NoAction.to_bits(), 0b11);
    assert!(!Parameter::Enabled.is_disabled());
    assert!(!Control::NoAction.is_enable());
}

#[test]
fn signal8_examples() {
    assert_eq!(Signal8::new(0xFF), Ok(Signal::NotAvailable));
    assert_eq!(Signal8::new(0xFA), Ok(Signal::Value(0xFA)));
    assert_eq!(Signal8::new(0x00), Ok(Signal::Value(0x00)));
    assert_eq!(Signal8::new(0xFB), Ok(Signal::Indicator));
    assert_eq!(Signal8::new(0xFC), Ok(Signal::Reserved));
    assert_eq!(Signal8::new(0xFD), Ok(Signal::Reserved));
    assert_eq!(Signal8::new(0xFE), Ok(Signal::Error));
}

#[test]
fn signal12_indicator_band() {
    assert_eq!(Signal12::new(0xFB5), Ok(Signal::Indicator));
    assert_eq!(Signal12::new(0xFAF), Ok(Signal::Value(0xFAF)));
    assert_eq!(Signal12::new(0xFC0), Ok(Signal::Reserved));
    assert_eq!(Signal12::new(0xFEF), Ok(Signal::Error));
    assert_eq!(Signal12::new(0xFF0), Ok(Signal::NotAvailable));
    assert!(Signal12::new(0x1000).is_err());
}

#[test]
fn signal4_table() {
    assert_eq!(Signal4::new(0xA), Ok(Signal::Value(0xA)));
    assert_eq!(Signal4::new(0xB), Ok(Signal::Indicator));
    assert_eq!(Signal4::new(0xD), Ok(Signal::Reserved));
    assert_eq!(Signal4::new(0xE), Ok(Signal::Error));
    assert_eq!(Signal4::new(0xF), Ok(Signal::NotAvailable));
    assert!(Signal4::new(0x10).is_err());
    assert!(Signal4::new(0xFF).is_err());
}

#[test]
fn signal10_table() {
    assert_eq!(Signal10::new(0x3FA), Ok(Signal::Value(0x3FA)));
    assert_eq!(Signal10::new(0x3FB), Ok(Signal::Indicator));
    assert_eq!(Signal10::new(0x3FC), Ok(Signal::Reserved));
    assert_eq!(Signal10::new(0x3FE), Ok(Signal::Error));
    assert_eq!(Signal10::new(0x3FF), Ok(Signal::NotAvailable));
    assert!(Signal10::new(0x400).is_err());
}

#[test]
fn signal16_to_32_tables() {
    assert_eq!(Signal16::new(0xFAFF), Ok(Signal::Value(0xFAFF)));
    assert_eq!(Signal16::new(0xFB00), Ok(Signal::Indicator));
    assert_eq!(Signal16::new(0xFFFF), Ok(Signal::NotAvailable));
    assert_eq!(Signal20::new(0xFE000), Ok(Signal::Error));
    assert!(Signal20::new(0x100000).is_err());
    assert_eq!(Signal24::new(0xFDFFFF), Ok(Signal::Reserved));
    assert!(Signal24::new(0x1000000).is_err());
    assert_eq!(Signal28::new(0xFAFFFFF), Ok(Signal::Value(0xFAFFFFF)));
    assert!(Signal28::new(0x10000000).is_err());
    assert_eq!(Signal32::new(0xFFFFFFFF), Ok(Signal::NotAvailable));
    assert_eq!(Signal32::new(0xFB000000), Ok(Signal::Indicator));
}

#[test]
fn signal_range_trait_dispatch() {
    assert_eq!(<Signal8 as SignalRange<u8, Signal8>>::new(0xFE), Ok(Signal::Error));
    assert!(<Signal4 as SignalRange<u8, Signal4>>::new(0x10).is_err());
}

const WIDTHS: [Width; 9] = [
    Width::Bits4,
    Width::Bits8,
    Width::Bits10,
    Width::Bits12,
    Width::Bits16,
    Width::Bits20,
    Width::Bits24,
    Width::Bits28,
    Width::Bits32,
];

#[test]
fn signal_encode_sentinels() {
    assert_eq!(encode_signal(Width::Bits12, Signal::Indicator), 0xFB0);
    assert_eq!(encode_signal(Width::Bits12, Signal::Reserved), 0xFC0);
    assert_eq!(encode_signal(Width::Bits12, Signal::Error), 0xFE0);
    assert_eq!(encode_signal(Width::Bits12, Signal::NotAvailable), 0xFFF);
    assert_eq!(encode_signal(Width::Bits8, Signal::Value(0x12)), 0x12);
    assert_eq!(encode_signal(Width::Bits4, Signal::NotAvailable), 0xF);
}

#[test]
fn signal_round_trips() {
    for w in WIDTHS {
        let b = w.bands();
        for raw in [0, 1, b.indicator - 1, b.indicator, b.reserved, b.error, b.max] {
            let s = decode_signal(w, raw).unwrap();
            assert_eq!(encode_signal(w, s), raw);
        }
        for s in [
            Signal::Value(0),
            Signal::Value(b.indicator - 1),
            Signal::Indicator,
            Signal::Reserved,
            Signal::Error,
            Signal::NotAvailable,
        ] {
            assert_eq!(decode_signal(w, encode_signal(w, s)), Ok(s));
        }
        if b.max < u32::MAX {
            assert!(decode_signal(w, b.max + 1).is_err());
        }
    }
}
