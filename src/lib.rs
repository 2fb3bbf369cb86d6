//! Bit-exact codecs for SAE J1939: CAN identifiers, parameter group numbers
//! and the sentinel-aware signal ranges of SAE J1939-71.
pub mod identifier;
pub mod pdu;
pub mod pgn;
pub mod value;

pub use crate::identifier::{ExtendedId, StandardId};
pub use crate::pgn::Number as ParameterGroupNumber;
pub use crate::value::{
    Bands, Control, Parameter, Signal, Signal10, Signal12, Signal16, Signal20, Signal24, Signal28, Signal32, Signal4,
    Signal8, SignalRange, Width, decode_signal, encode_signal,
};
