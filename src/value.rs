//! # Value types
use vstd::prelude::*;

verus! {

/// Signal range trait: decodes a raw value of one bit width.
pub trait SignalRange<T, S> {
    fn new(value: T) -> Result<Signal<T>, &'static str>;
}

/// A decoded signal: an ordinary value or one of the sentinels of SAE J1939-71.
#[derive(Debug, Copy, Clone, Eq, PartialEq)]
pub enum Signal<T> {
    Value(T),
    Indicator,
    Reserved,
    Error,
    NotAvailable,
}

impl<T> Default for Signal<T> {
    /// A signal that has not been received is not available.
    fn default() -> (r: Self)
        ensures
            r is NotAvailable,
    {
        Signal::NotAvailable
    }
}

/// The bit widths of the signals of SAE J1939-71.
#[derive(Debug, Copy, Clone, Eq, PartialEq)]
pub enum Width {
    Bits4,
    Bits8,
    Bits10,
    Bits12,
    Bits16,
    Bits20,
    Bits24,
    Bits28,
    Bits32,
}

/// Where each band of the raw value space of one width begins: values lie
/// below `indicator`, and each sentinel band runs up to the next start.
/// `max` is the largest raw value of the width, the end of the last band.
pub struct Bands {
    pub indicator: u32,
    pub reserved: u32,
    pub error: u32,
    pub not_available: u32,
    pub max: u32,
}

/// The band table of each width.
pub open spec fn bands_of(w: Width) -> Bands {
    match w {
        Width::Bits4 => Bands { indicator: 0xB, reserved: 0xC, error: 0xE, not_available: 0xF, max: 0xF },
        Width::Bits8 => Bands {
            indicator: 0xFB,
            reserved: 0xFC,
            error: 0xFE,
            not_available: 0xFF,
            max: 0xFF,
        },
        Width::Bits10 => Bands {
            indicator: 0x3FB,
            reserved: 0x3FC,
            error: 0x3FE,
            not_available: 0x3FF,
            max: 0x3FF,
        },
        Width::Bits12 => Bands {
            indicator: 0xFB0,
            reserved: 0xFC0,
            error: 0xFE0,
            not_available: 0xFF0,
            max: 0xFFF,
        },
        Width::Bits16 => Bands {
            indicator: 0xFB00,
            reserved: 0xFC00,
            error: 0xFE00,
            not_available: 0xFF00,
            max: 0xFFFF,
        },
        Width::Bits20 => Bands {
            indicator: 0xFB000,
            reserved: 0xFC000,
            error: 0xFE000,
            not_available: 0xFF000,
            max: 0xFFFFF,
        },
        Width::Bits24 => Bands {
            indicator: 0xFB0000,
            reserved: 0xFC0000,
            error: 0xFE0000,
            not_available: 0xFF0000,
            max: 0xFFFFFF,
        },
        Width::Bits28 => Bands {
            indicator: 0xFB00000,
            reserved: 0xFC00000,
            error: 0xFE00000,
            not_available: 0xFF00000,
            max: 0xFFFFFFF,
        },
        Width::Bits32 => Bands {
            indicator: 0xFB000000,
            reserved: 0xFC000000,
            error: 0xFE000000,
            not_available: 0xFF000000,
            max: 0xFFFFFFFF,
        },
    }
}

/// The signal that a raw value `raw` of width `w` stands for; a value carries
/// `payload`, which callers set to `raw` in their own integer type.
pub open spec fn classify<T>(w: Width, raw: int, payload: T) -> Signal<T> {
    let b = bands_of(w);
    if raw < b.indicator {
        Signal::Value(payload)
    } else if raw < b.reserved {
        Signal::Indicator
    } else if raw < b.error {
        Signal::Reserved
    } else if raw < b.not_available {
        Signal::Error
    } else {
        Signal::NotAvailable
    }
}

/// Whether `s` can be sent in width `w`: a value must lie below the
/// indicator band.
pub open spec fn representable(w: Width, s: Signal<u32>) -> bool {
    s matches Signal::Value(v) ==> v < bands_of(w).indicator
}

/// The raw value that `s` is sent as: a value as itself, each sentinel as the
/// first raw value of its band, and not-available as all bits set.
pub open spec fn raw_of(w: Width, s: Signal<u32>) -> int {
    let b = bands_of(w);
    match s {
        Signal::Value(v) => v as int,
        Signal::Indicator => b.indicator as int,
        Signal::Reserved => b.reserved as int,
        Signal::Error => b.error as int,
        Signal::NotAvailable => b.max as int,
    }
}

/// Whether `raw` is the raw value that its own signal is sent as: any value,
/// and the one chosen raw value of each sentinel band.
pub open spec fn canonical(w: Width, raw: int) -> bool {
    let b = bands_of(w);
    ||| 0 <= raw < b.indicator
    ||| raw == b.indicator
    ||| raw == b.reserved
    ||| raw == b.error
    ||| raw == b.max
}

impl Width {
    /// The band table of this width.
    pub fn bands(self) -> (r: Bands)
        ensures
            r == bands_of(self),
    {
        match self {
            Width::Bits4 => Bands { indicator: 0xB, reserved: 0xC, error: 0xE, not_available: 0xF, max: 0xF },
            Width::Bits8 => Bands {
                indicator: 0xFB,
                reserved: 0xFC,
                error: 0xFE,
                not_available: 0xFF,
                max: 0xFF,
            },
            Width::Bits10 => Bands {
                indicator: 0x3FB,
                reserved: 0x3FC,
                error: 0x3FE,
                not_available: 0x3FF,
                max: 0x3FF,
            },
            Width::Bits12 => Bands {
                indicator: 0xFB0,
                reserved: 0xFC0,
                error: 0xFE0,
                not_available: 0xFF0,
                max: 0xFFF,
            },
            Width::Bits16 => Bands {
                indicator: 0xFB00,
                reserved: 0xFC00,
                error: 0xFE00,
                not_available: 0xFF00,
                max: 0xFFFF,
            },
            Width::Bits20 => Bands {
                indicator: 0xFB000,
                reserved: 0xFC000,
                error: 0xFE000,
                not_available: 0xFF000,
                max: 0xFFFFF,
            },
            Width::Bits24 => Bands {
                indicator: 0xFB0000,
                reserved: 0xFC0000,
                error: 0xFE0000,
                not_available: 0xFF0000,
                max: 0xFFFFFF,
            },
            Width::Bits28 => Bands {
                indicator: 0xFB00000,
                reserved: 0xFC00000,
                error: 0xFE00000,
                not_available: 0xFF00000,
                max: 0xFFFFFFF,
            },
            Width::Bits32 => Bands {
                indicator: 0xFB000000,
                reserved: 0xFC000000,
                error: 0xFE000000,
                not_available: 0xFF000000,
                max: 0xFFFFFFFF,
            },
        }
    }
}

/// Decodes a raw value of width `width`; a value above the width's largest
/// raw value does not fit and is refused.
pub fn decode_signal(width: Width, raw: u32) -> (r: Result<Signal<u32>, &'static str>)
    ensures
        r is Err <==> raw > bands_of(width).max,
        r matches Ok(s) ==> s == classify(width, raw as int, raw),
{
    let b = width.bands();
    if raw > b.max {
        Err("value provided is not within valid range")
    } else if raw < b.indicator {
        Ok(Signal::Value(raw))
    } else if raw < b.reserved {
        Ok(Signal::Indicator)
    } else if raw < b.error {
        Ok(Signal::Reserved)
    } else if raw < b.not_available {
        Ok(Signal::Error)
    } else {
        Ok(Signal::NotAvailable)
    }
}

/// Encodes a signal of width `width` into its raw value.
pub fn encode_signal(width: Width, signal: Signal<u32>) -> (r: u32)
    requires
        representable(width, signal),
    ensures
        r == raw_of(width, signal),
        r <= bands_of(width).max,
{
    let b = width.bands();
    match signal {
        Signal::Value(v) => v,
        Signal::Indicator => b.indicator,
        Signal::Reserved => b.reserved,
        Signal::Error => b.error,
        Signal::NotAvailable => b.max,
    }
}

/// Decodes a raw value of width `width` carried in a byte.
fn decode_u8(width: Width, value: u8) -> (r: Result<Signal<u8>, &'static str>)
    ensures
        r is Err <==> value > bands_of(width).max,
        r matches Ok(s) ==> s == classify(width, value as int, value),
{
    match decode_signal(width, value as u32) {
        Ok(Signal::Value(v)) => Ok(Signal::Value(v as u8)),
        Ok(Signal::Indicator) => Ok(Signal::Indicator),
        Ok(Signal::Reserved) => Ok(Signal::Reserved),
        Ok(Signal::Error) => Ok(Signal::Error),
        Ok(Signal::NotAvailable) => Ok(Signal::NotAvailable),
        Err(e) => Err(e),
    }
}

/// Decodes a raw value of width `width` carried in 16 bits.
fn decode_u16(width: Width, value: u16) -> (r: Result<Signal<u16>, &'static str>)
    ensures
        r is Err <==> value > bands_of(width).max,
        r matches Ok(s) ==> s == classify(width, value as int, value),
{
    match decode_signal(width, value as u32) {
        Ok(Signal::Value(v)) => Ok(Signal::Value(v as u16)),
        Ok(Signal::Indicator) => Ok(Signal::Indicator),
        Ok(Signal::Reserved) => Ok(Signal::Reserved),
        Ok(Signal::Error) => Ok(Signal::Error),
        Ok(Signal::NotAvailable) => Ok(Signal::NotAvailable),
        Err(e) => Err(e),
    }
}

/// 4-bit signal type.
pub struct Signal4();

impl Signal4 {
    /// Decodes a raw 4-bit value.
    pub fn new(value: u8) -> (r: Result<Signal<u8>, &'static str>)
        ensures
            r is Err <==> value > 0xF,
            r matches Ok(s) ==> s == classify(Width::Bits4, value as int, value),
    {
        decode_u8(Width::Bits4, value)
    }
}

impl SignalRange<u8, Signal4> for Signal4 {
    fn new(value: u8) -> Result<Signal<u8>, &'static str> {
        Signal4::new(value)
    }
}

/// 8-bit signal type.
pub struct Signal8();

impl Signal8 {
    /// Decodes a raw 8-bit value.
    pub fn new(value: u8) -> (r: Result<Signal<u8>, &'static str>)
        ensures
            r is Err <==> value > 0xFF,
            r matches Ok(s) ==> s == classify(Width::Bits8, value as int, value),
    {
        decode_u8(Width::Bits8, value)
    }
}

impl SignalRange<u8, Signal8> for Signal8 {
    fn new(value: u8) -> Result<Signal<u8>, &'static str> {
        Signal8::new(value)
    }
}

/// 10-bit signal type.
pub struct Signal10();

impl Signal10 {
    /// Decodes a raw 10-bit value.
    pub fn new(value: u16) -> (r: Result<Signal<u16>, &'static str>)
        ensures
            r is Err <==> value > 0x3FF,
            r matches Ok(s) ==> s == classify(Width::Bits10, value as int, value),
    {
        decode_u16(Width::Bits10, value)
    }
}

impl SignalRange<u16, Signal10> for Signal10 {
    fn new(value: u16) -> Result<Signal<u16>, &'static str> {
        Signal10::new(value)
    }
}

/// 12-bit signal type.
pub struct Signal12();

impl Signal12 {
    /// Decodes a raw 12-bit value.
    pub fn new(value: u16) -> (r: Result<Signal<u16>, &'static str>)
        ensures
            r is Err <==> value > 0xFFF,
            r matches Ok(s) ==> s == classify(Width::Bits12, value as int, value),
    {
        decode_u16(Width::Bits12, value)
    }
}

impl SignalRange<u16, Signal12> for Signal12 {
    fn new(value: u16) -> Result<Signal<u16>, &'static str> {
        Signal12::new(value)
    }
}

/// 16-bit signal type.
pub struct Signal16();

impl Signal16 {
    /// Decodes a raw 16-bit value.
    pub fn new(value: u16) -> (r: Result<Signal<u16>, &'static str>)
        ensures
            r is Err <==> value > 0xFFFF,
            r matches Ok(s) ==> s == classify(Width::Bits16, value as int, value),
    {
        decode_u16(Width::Bits16, value)
    }
}

impl SignalRange<u16, Signal16> for Signal16 {
    fn new(value: u16) -> Result<Signal<u16>, &'static str> {
        Signal16::new(value)
    }
}

/// 20-bit signal type.
pub struct Signal20();

impl Signal20 {
    /// Decodes a raw 20-bit value.
    pub fn new(value: u32) -> (r: Result<Signal<u32>, &'static str>)
        ensures
            r is Err <==> value > 0xFFFFF,
            r matches Ok(s) ==> s == classify(Width::Bits20, value as int, value),
    {
        decode_signal(Width::Bits20, value)
    }
}

impl SignalRange<u32, Signal20> for Signal20 {
    fn new(value: u32) -> Result<Signal<u32>, &'static str> {
        Signal20::new(value)
    }
}

/// 24-bit signal type.
pub struct Signal24();

impl Signal24 {
    /// Decodes a raw 24-bit value.
    pub fn new(value: u32) -> (r: Result<Signal<u32>, &'static str>)
        ensures
            r is Err <==> value > 0xFFFFFF,
            r matches Ok(s) ==> s == classify(Width::Bits24, value as int, value),
    {
        decode_signal(Width::Bits24, value)
    }
}

impl SignalRange<u32, Signal24> for Signal24 {
    fn new(value: u32) -> Result<Signal<u32>, &'static str> {
        Signal24::new(value)
    }
}

/// 28-bit signal type.
pub struct Signal28();

impl Signal28 {
    /// Decodes a raw 28-bit value.
    pub fn new(value: u32) -> (r: Result<Signal<u32>, &'static str>)
        ensures
            r is Err <==> value > 0xFFFFFFF,
            r matches Ok(s) ==> s == classify(Width::Bits28, value as int, value),
    {
        decode_signal(Width::Bits28, value)
    }
}

impl SignalRange<u32, Signal28> for Signal28 {
    fn new(value: u32) -> Result<Signal<u32>, &'static str> {
        Signal28::new(value)
    }
}

/// 32-bit signal type.
pub struct Signal32();

impl Signal32 {
    /// Decodes a raw 32-bit value.
    pub fn new(value: u32) -> (r: Result<Signal<u32>, &'static str>)
        ensures
            r is Err <==> value > 0xFFFFFFFF,
            r matches Ok(s) ==> s == classify(Width::Bits32, value as int, value),
    {
        decode_signal(Width::Bits32, value)
    }
}

impl SignalRange<u32, Signal32> for Signal32 {
    fn new(value: u32) -> Result<Signal<u32>, &'static str> {
        Signal32::new(value)
    }
}

/// Encoding a representable signal and decoding the raw value gives back the
/// same signal.
pub proof fn lemma_signal_encode_decode(w: Width, s: Signal<u32>)
    requires
        representable(w, s),
    ensures
        raw_of(w, s) <= bands_of(w).max,
        classify(w, raw_of(w, s), raw_of(w, s) as u32) == s,
{
}

/// Decoding a raw value that fits the width and encoding the signal gives back
/// the raw value, wherever the raw value is the one its signal is sent as.
pub proof fn lemma_signal_decode_encode(w: Width, raw: u32)
    requires
        raw <= bands_of(w).max,
        canonical(w, raw as int),
    ensures
        representable(w, classify(w, raw as int, raw)),
        raw_of(w, classify(w, raw as int, raw)) == raw,
{
}

/// Transmitted values for discrete parameters (i.e. measured).
///
/// Reference: SAE J1939-71 Table 2.
#[derive(Debug, Copy, Clone, PartialEq, Eq)]
pub enum Parameter {
    Disabled,
    Enabled,
    Error,
    NotAvailable,
}

/// The 2-bit code a parameter state is sent as.
pub open spec fn parameter_code(p: Parameter) -> u8 {
    match p {
        Parameter::Disabled => 0b00,
        Parameter::Enabled => 0b01,
        Parameter::Error => 0b10,
        Parameter::NotAvailable => 0b11,
    }
}

impl Default for Parameter {
    /// A parameter that has not been received is not available.
    fn default() -> (r: Self)
        ensures
            r == Parameter::NotAvailable,
    {
        Parameter::NotAvailable
    }
}

impl Parameter {
    /// The 2-bit code of this state.
    pub fn to_bits(self) -> (r: u8)
        ensures
            r == parameter_code(self),
    {
        match self {
            Parameter::Disabled => 0b00,
            Parameter::Enabled => 0b01,
            Parameter::Error => 0b10,
            Parameter::NotAvailable => 0b11,
        }
    }

    /// True of the parameter represents an assertive state (enabled or disabled).
    #[inline]
    pub fn is_assertive(self) -> (r: bool)
        ensures
            r == (self == Parameter::Enabled || self == Parameter::Disabled),
    {
        matches!(self, Parameter::Enabled | Parameter::Disabled)
    }

    /// True if the value is enabled
    #[inline]
    pub fn is_enabled(self) -> (r: bool)
        ensures
            r == (self == Parameter::Enabled),
    {
        matches!(self, Parameter::Enabled)
    }

    /// True if the value is disabled
    #[inline]
    pub fn is_disabled(self) -> (r: bool)
        ensures
            r == (self == Parameter::Disabled),
    {
        matches!(self, Parameter::Disabled)
    }

    /// True if the parameter has the error value
    #[inline]
    pub fn is_error(self) -> (r: bool)
        ensures
            r == (self == Parameter::Error),
    {
        matches!(self, Parameter::Error)
    }

    /// True if the parameter has the not-available value
    #[inline]
    pub fn is_not_available(self) -> (r: bool)
        ensures
            r == (self == Parameter::NotAvailable),
    {
        matches!(self, Parameter::NotAvailable)
    }
}

/// Transmitted values for control commands (i.e. status).
///
/// Reference: SAE J1939-71 Table 2; the code `0b10` is reserved.
#[derive(Debug, Copy, Clone, PartialEq, Eq)]
pub enum Control {
    /// Command to disable function (turn off).
    Disable,
    /// Command to enable function (turn on).
    Enable,
    /// Take no action (leave as is).
    NoAction,
}

/// The 2-bit code a control command is sent as.
pub open spec fn control_code(c: Control) -> u8 {
    match c {
        Control::Disable => 0b00,
        Control::Enable => 0b01,
        Control::NoAction => 0b11,
    }
}

impl Default for Control {
    /// Without a command, no action is taken.
    fn default() -> (r: Self)
        ensures
            r == Control::NoAction,
    {
        Control::NoAction
    }
}

impl Control {
    /// The 2-bit code of this command.
    pub fn to_bits(self) -> (r: u8)
        ensures
            r == control_code(self),
    {
        match self {
            Control::Disable => 0b00,
            Control::Enable => 0b01,
            Control::NoAction => 0b11,
        }
    }

    /// True of the parameter represents an assertive state (enabled or disabled).
    #[inline]
    pub fn is_assertive(self) -> (r: bool)
        ensures
            r == (self == Control::Enable || self == Control::Disable),
    {
        matches!(self, Control::Enable | Control::Disable)
    }

    /// True if the value is enable
    #[inline]
    pub fn is_enable(self) -> (r: bool)
        ensures
            r == (self == Control::Enable),
    {
        matches!(self, Control::Enable)
    }

    /// True if the value is disable
    #[inline]
    pub fn is_disable(self) -> (r: bool)
        ensures
            r == (self == Control::Disable),
    {
        matches!(self, Control::Disable)
    }

    /// True if the value is no action
    #[inline]
    pub fn is_no_action(self) -> (r: bool)
        ensures
            r == (self == Control::NoAction),
    {
        matches!(self, Control::NoAction)
    }
}

} // verus!
