//! # Protocol data unit
use vstd::prelude::*;

use crate::pgn::BROADCAST_FORMAT_START;

verus! {

/// The format and specific bytes of a PDU, with whether the format makes it
/// broadcast-only (format 240 and above).
#[derive(Copy, Clone)]
pub struct ProtocolDataUnit {
    format: u8,
    specific: u8,
    broadcast: bool,
}

impl ProtocolDataUnit {
    /// The broadcast flag is the one the format byte gives.
    #[verifier::type_invariant]
    spec fn flag_matches_format(self) -> bool {
        self.broadcast == (self.format >= BROADCAST_FORMAT_START)
    }

    /// The PDU format byte.
    pub closed spec fn format_byte(self) -> u8 {
        self.format
    }

    /// The PDU specific byte.
    pub closed spec fn specific_byte(self) -> u8 {
        self.specific
    }

    /// Creates a new data unit without asserting anything.
    pub fn new_unchecked(format: u8, specific: u8) -> (r: Self)
        ensures
            r.format_byte() == format,
            r.specific_byte() == specific,
    {
        Self { format, specific, broadcast: format > 239 }
    }

    /// Creates a new broadcast data unit.
    ///
    /// Returns Err if the format is below 240 (0xF0).
    pub fn new_broadcast(format: u8, group_extension: u8) -> (r: Result<Self, &'static str>)
        ensures
            r is Err <==> format < BROADCAST_FORMAT_START,
            r matches Ok(u) ==> u.format_byte() == format && u.specific_byte() == group_extension,
    {
        if format < BROADCAST_FORMAT_START {
            return Err("format must be over 239 (0xEF)");
        }
        Ok(Self { format, specific: group_extension, broadcast: true })
    }

    /// Creates a new addressable data unit.
    ///
    /// Returns Err if the format is 240 (0xF0) or above.
    pub fn new_addressable(format: u8, destination: u8) -> (r: Result<Self, &'static str>)
        ensures
            r is Err <==> format >= BROADCAST_FORMAT_START,
            r matches Ok(u) ==> u.format_byte() == format && u.specific_byte() == destination,
    {
        if format >= BROADCAST_FORMAT_START {
            return Err("format must be below 240 (0xF0)");
        }
        Ok(Self { format, specific: destination, broadcast: false })
    }

    /// PDU format byte.
    pub fn format(self) -> (r: u8)
        ensures
            r == self.format_byte(),
    {
        self.format
    }

    /// PDU specific byte.
    pub fn specific(self) -> (r: u8)
        ensures
            r == self.specific_byte(),
    {
        self.specific
    }

    /// Returns true if the message is formatted to be broadcast.
    pub fn broadcast(self) -> (r: bool)
        ensures
            r == (self.format_byte() >= BROADCAST_FORMAT_START),
    {
        proof {
            use_type_invariant(&self);
        }
        self.broadcast
    }
}

} // verus!
