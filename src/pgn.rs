//! # Parameter group number
use vstd::prelude::*;

verus! {

/// The format byte from which on a PGN is broadcast-only.
pub const BROADCAST_FORMAT_START: u8 = 240;

/// The four fields that make up the 18 significant bits of a PGN.
#[derive(Debug, Default, PartialEq, Eq, Copy, Clone)]
pub struct Number {
    pub specific: u8,
    pub format: u8,
    pub data_page: bool,
    pub extended_data_page: bool,
}

/// `1` for a set flag, `0` otherwise.
pub open spec fn flag(b: bool) -> int {
    if b { 1 } else { 0 }
}

/// The packed value `extended_data_page << 17 | data_page << 16 | format << 8 | specific`.
pub open spec fn number_bits(n: Number) -> int {
    flag(n.extended_data_page) * 0x20000 + flag(n.data_page) * 0x10000 + n.format * 0x100
        + n.specific
}

impl Number {
    /// Packs the PGN into its 18 significant bits.
    pub fn to_bits(self) -> (r: u32)
        ensures
            r == number_bits(self),
            r < 0x40000,
    {
        let s = self.specific as u32;
        let f = self.format as u32;
        let d: u32 = if self.data_page { 1 } else { 0 };
        let e: u32 = if self.extended_data_page { 1 } else { 0 };
        assert(e << 17 | d << 16 | f << 8 | s == e * 0x20000 + d * 0x10000 + f * 0x100 + s)
            by (bit_vector)
            requires
                e <= 1,
                d <= 1,
                f < 256,
                s < 256,
        ;
        e << 17 | d << 16 | f << 8 | s
    }
}

/// Parameter group number variant representation: whether the PDU specific
/// byte addresses a destination or extends a broadcast group.
#[derive(Debug, PartialEq, Eq, Copy, Clone)]
pub enum Pgn {
    Destination(Number),
    Broadcast(Number),
}

/// Whether a PGN with this format byte addresses a destination.
pub open spec fn is_destination_format(format: u8) -> bool {
    format < BROADCAST_FORMAT_START
}

impl Pgn {
    /// The fields of the PGN, whichever variant holds them.
    pub open spec fn number(self) -> Number {
        match self {
            Pgn::Destination(n) => n,
            Pgn::Broadcast(n) => n,
        }
    }

    /// The PDU specific byte as a destination address: present iff the
    /// format byte is below 240.
    pub open spec fn destination_of(self) -> Option<u8> {
        if is_destination_format(self.number().format) {
            Some(self.number().specific)
        } else {
            None
        }
    }

    /// The PDU specific byte as a group extension: present iff the format
    /// byte is 240 or above.
    pub open spec fn group_extension_of(self) -> Option<u8> {
        if is_destination_format(self.number().format) {
            None
        } else {
            Some(self.number().specific)
        }
    }

    /// The variant agrees with the format byte.
    pub open spec fn wf(self) -> bool {
        match self {
            Pgn::Destination(n) => is_destination_format(n.format),
            Pgn::Broadcast(n) => !is_destination_format(n.format),
        }
    }

    /// Create a new PGN.
    ///
    /// This does not explicitly check the resulting variant of the PGN like
    /// `new_destination()` and `new_broadcast()`.
    pub fn new(number: Number) -> (r: Self)
        ensures
            r.wf(),
            r.number() == number,
    {
        if number.format < BROADCAST_FORMAT_START {
            Pgn::Destination(number)
        } else {
            Pgn::Broadcast(number)
        }
    }

    /// Create a new destination address PGN.
    ///
    /// Returns Err if the format is not below 240.
    pub fn new_destination(number: Number) -> (r: Result<Self, &'static str>)
        ensures
            r is Ok <==> is_destination_format(number.format),
            r matches Ok(p) ==> p == Pgn::Destination(number),
    {
        if number.format < BROADCAST_FORMAT_START {
            Ok(Pgn::Destination(number))
        } else {
            Err("format must be below 240 for destination PGNs.")
        }
    }

    /// Create a new broadcast PGN.
    ///
    /// Returns Err if the format is not above 239.
    pub fn new_broadcast(number: Number) -> (r: Result<Self, &'static str>)
        ensures
            r is Ok <==> !is_destination_format(number.format),
            r matches Ok(p) ==> p == Pgn::Broadcast(number),
    {
        if number.format >= BROADCAST_FORMAT_START {
            Ok(Pgn::Broadcast(number))
        } else {
            Err("format must be above 239 for broadcast PGNs.")
        }
    }

    /// The destination address, where the format byte makes the PDU specific
    /// byte one.
    pub fn destination_address(self) -> (r: Option<u8>)
        ensures
            r == self.destination_of(),
    {
        let n = self.to_number();
        if n.format < BROADCAST_FORMAT_START {
            Some(n.specific)
        } else {
            None
        }
    }

    /// The group extension, where the format byte makes the PDU specific byte
    /// one.
    pub fn broadcast_group_extension(self) -> (r: Option<u8>)
        ensures
            r == self.group_extension_of(),
    {
        let n = self.to_number();
        if n.format < BROADCAST_FORMAT_START {
            None
        } else {
            Some(n.specific)
        }
    }

    /// The fields of the PGN.
    pub fn to_number(self) -> (r: Number)
        ensures
            r == self.number(),
    {
        match self {
            Pgn::Destination(n) => n,
            Pgn::Broadcast(n) => n,
        }
    }

    /// Packs the PGN into its 18 significant bits.
    pub fn to_bits(self) -> (r: u32)
        ensures
            r == number_bits(self.number()),
    {
        match self {
            Pgn::Broadcast(v) => v.to_bits(),
            Pgn::Destination(v) => v.to_bits(),
        }
    }
}

/// Exactly one of `destination_address` and `broadcast_group_extension` is
/// `Some`, whatever the format byte: the specific byte is either a destination
/// or a group extension, never both and never neither.
pub proof fn lemma_destination_broadcast_exclusive(pgn: Pgn)
    ensures
        pgn.destination_of() is Some != pgn.group_extension_of() is Some,
        pgn.destination_of() is Some <==> pgn.number().format < 240,
{
}

} // verus!
