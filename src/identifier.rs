//! # Identifier types
use vstd::prelude::*;

use bxcan::{ExtendedId as BxExtendedId, StandardId as BxStandardId};

use crate::pgn::{flag, number_bits, Number};

verus! {

/// Identifiers are prioritised by three bits: a priority is below this bound.
pub const PRIORITY_LIMIT: u8 = 8;

/// 11-bit standard identifier.
pub struct StandardId {
    /// Source address
    pub source_address: u8,
    /// Message priority
    pub priority: u8,
}

/// The fields of an 11-bit identifier: `raw[10:8]` and `raw[7:0]`.
pub open spec fn standard_of(raw: int) -> StandardId {
    StandardId { source_address: (raw % 0x100) as u8, priority: (raw / 0x100) as u8 }
}

/// The raw 11-bit form `priority << 8 | source_address`.
pub open spec fn standard_bits(id: StandardId) -> int {
    id.priority * 0x100 + id.source_address
}

impl StandardId {
    /// Create standard identifier from raw bits.
    pub fn new(raw: u16) -> (r: Self)
        requires
            raw <= 0x7FF,
        ensures
            r == standard_of(raw as int),
            r.priority < PRIORITY_LIMIT,
    {
        let priority = (raw >> 8u16) as u8;
        let source_address = (raw & 0xFFu16) as u8;
        assert(raw >> 8u16 == raw / 0x100 && raw & 0xFFu16 == raw % 0x100) by (bit_vector);
        StandardId { source_address, priority }
    }

    /// Convert to raw bits.
    pub fn to_bits(&self) -> (r: u16)
        requires
            self.priority < PRIORITY_LIMIT,
        ensures
            r == standard_bits(*self),
            r <= 0x7FF,
    {
        let p = self.priority as u16;
        let sa = self.source_address as u16;
        assert(p << 8u16 | sa == p * 0x100 + sa) by (bit_vector)
            requires
                p < 8,
                sa < 0x100,
        ;
        p << 8u16 | sa
    }
}

/// Decoding an 11-bit identifier and encoding the result gives back the raw bits.
pub proof fn lemma_standard_decode_encode(raw: u16)
    requires
        raw <= 0x7FF,
    ensures
        standard_bits(standard_of(raw as int)) == raw,
{
    assert(raw == (raw / 0x100) * 0x100 + raw % 0x100) by (nonlinear_arith);
}

/// Encoding a standard identifier with a valid priority and decoding the result
/// gives back the same identifier.
pub proof fn lemma_standard_encode_decode(id: StandardId)
    requires
        id.priority < PRIORITY_LIMIT,
    ensures
        standard_of(standard_bits(id)) == id,
{
    let raw = standard_bits(id);
    assert(raw / 0x100 == id.priority && raw % 0x100 == id.source_address) by (nonlinear_arith)
        requires
            raw == id.priority * 0x100 + id.source_address,
            0 <= id.source_address < 0x100,
            0 <= id.priority,
    ;
}

#[verifier::external_type_specification]
#[verifier::external_body]
pub struct ExStandardId(BxStandardId);

/// Relies on bxcan's `StandardId::as_raw`: a bxcan standard identifier holds
/// an 11-bit value (`0..=0x7FF`), which `as_raw` returns as it is.
pub assume_specification[ BxStandardId::as_raw ](id: &BxStandardId) -> (r: u16)
    ensures
        r <= 0x7FF,
;

// Specifications cannot name the raw bits a bxcan identifier holds, so the
// conversion promises no result beyond what `new` proves of it.
impl vstd::std_specs::convert::FromSpecImpl<BxStandardId> for StandardId {
    open spec fn obeys_from_spec() -> bool {
        false
    }

    open spec fn from_spec(id: BxStandardId) -> StandardId {
        StandardId { source_address: 0, priority: 0 }
    }
}

impl From<BxStandardId> for StandardId {
    /// Decodes the raw bits of a bxcan identifier; their 11-bit range keeps
    /// the priority below 8.
    fn from(id: BxStandardId) -> Self {
        StandardId::new(id.as_raw())
    }
}

/// 29-bit extended identifier.
pub struct ExtendedId {
    /// Source address
    pub source_address: u8,
    /// Parameter group number
    pub pgn: Number,
    /// Message priority
    pub priority: u8,
}

/// The fields of a 29-bit identifier, laid out from the most significant bit as
/// priority (3), extended data page (1), data page (1), PDU format (8),
/// PDU specific (8) and source address (8).
pub open spec fn extended_of(raw: int) -> ExtendedId {
    ExtendedId {
        source_address: (raw % 0x100) as u8,
        pgn: Number {
            specific: (raw / 0x100 % 0x100) as u8,
            format: (raw / 0x10000 % 0x100) as u8,
            data_page: raw / 0x1000000 % 2 == 1,
            extended_data_page: raw / 0x2000000 % 2 == 1,
        },
        priority: (raw / 0x4000000) as u8,
    }
}

/// The raw 29-bit form `priority << 26 | pgn << 8 | source_address`.
pub open spec fn extended_bits(id: ExtendedId) -> int {
    id.priority * 0x4000000 + number_bits(id.pgn) * 0x100 + id.source_address
}

impl ExtendedId {
    /// Create extended identifier from raw bits.
    pub fn new(raw: u32) -> (r: Self)
        requires
            raw <= 0x1FFF_FFFF,
        ensures
            r == extended_of(raw as int),
            r.priority < PRIORITY_LIMIT,
    {
        let priority = (raw >> 26u32) as u8;
        let ext_data_page = (raw >> 25u32) & 1 != 0;
        let data_page = (raw >> 24u32) & 1 != 0;
        let pdu_format = ((raw >> 16u32) & 0xFF) as u8;
        let pdu_specific = ((raw >> 8u32) & 0xFF) as u8;
        let source_address = (raw & 0xFF) as u8;
        assert(raw >> 26u32 == raw / 0x4000000) by (bit_vector);
        assert((raw >> 25u32) & 1 == raw / 0x2000000 % 2) by (bit_vector);
        assert((raw >> 24u32) & 1 == raw / 0x1000000 % 2) by (bit_vector);
        assert((raw >> 16u32) & 0xFF == raw / 0x10000 % 0x100) by (bit_vector);
        assert((raw >> 8u32) & 0xFF == raw / 0x100 % 0x100) by (bit_vector);
        assert(raw & 0xFF == raw % 0x100) by (bit_vector);
        ExtendedId {
            source_address,
            pgn: Number {
                specific: pdu_specific,
                format: pdu_format,
                data_page,
                extended_data_page: ext_data_page,
            },
            priority,
        }
    }

    /// Convert to raw bits.
    pub fn to_bits(&self) -> (r: u32)
        requires
            self.priority < PRIORITY_LIMIT,
        ensures
            r == extended_bits(*self),
            r <= 0x1FFF_FFFF,
    {
        let sa = self.source_address as u32;
        let pgn: u32 = self.pgn.to_bits();
        let p = self.priority as u32;
        assert(p << 26u32 | pgn << 8u32 | sa == p * 0x4000000 + pgn * 0x100 + sa) by (bit_vector)
            requires
                p < 8,
                pgn < 0x40000,
                sa < 0x100,
        ;
        p << 26u32 | pgn << 8u32 | sa
    }
}

#[verifier::external_type_specification]
#[verifier::external_body]
pub struct ExExtendedId(BxExtendedId);

/// Relies on bxcan's `ExtendedId::as_raw`: a bxcan extended identifier holds
/// a 29-bit value (`0..=0x1FFF_FFFF`), which `as_raw` returns as it is.
pub assume_specification[ BxExtendedId::as_raw ](id: &BxExtendedId) -> (r: u32)
    ensures
        r <= 0x1FFF_FFFF,
;

// Specifications cannot name the raw bits a bxcan identifier holds, so the
// conversion promises no result beyond what `new` proves of it.
impl vstd::std_specs::convert::FromSpecImpl<BxExtendedId> for ExtendedId {
    open spec fn obeys_from_spec() -> bool {
        false
    }

    open spec fn from_spec(id: BxExtendedId) -> ExtendedId {
        extended_of(0)
    }
}

impl From<BxExtendedId> for ExtendedId {
    /// Decodes the raw bits of a bxcan identifier; their 29-bit range keeps
    /// the priority below 8.
    fn from(id: BxExtendedId) -> Self {
        ExtendedId::new(id.as_raw())
    }
}

/// Decoding a 29-bit identifier and encoding the result gives back the raw bits.
pub proof fn lemma_extended_decode_encode(raw: u32)
    requires
        raw <= 0x1FFF_FFFF,
    ensures
        extended_bits(extended_of(raw as int)) == raw,
{
    let id = extended_of(raw as int);
    let e = flag(id.pgn.extended_data_page);
    let d = flag(id.pgn.data_page);
    assert(e == raw / 0x2000000 % 2 && d == raw / 0x1000000 % 2) by {
        assert(raw / 0x2000000 % 2 == 0 || raw / 0x2000000 % 2 == 1);
        assert(raw / 0x1000000 % 2 == 0 || raw / 0x1000000 % 2 == 1);
    }
    assert(raw == (raw / 0x4000000) * 0x4000000 + (raw / 0x2000000 % 2) * 0x2000000 + (raw
        / 0x1000000 % 2) * 0x1000000 + (raw / 0x10000 % 0x100) * 0x10000 + (raw / 0x100 % 0x100)
        * 0x100 + raw % 0x100) by (bit_vector)
        requires
            raw <= 0x1FFF_FFFF,
    ;
}

/// Encoding an extended identifier with a valid priority and decoding the
/// result gives back the same identifier.
pub proof fn lemma_extended_encode_decode(id: ExtendedId)
    requires
        id.priority < PRIORITY_LIMIT,
    ensures
        extended_of(extended_bits(id)) == id,
{
    let p = id.priority as u32;
    let e = flag(id.pgn.extended_data_page) as u32;
    let d = flag(id.pgn.data_page) as u32;
    let f = id.pgn.format as u32;
    let s = id.pgn.specific as u32;
    let a = id.source_address as u32;
    let raw = (p * 0x4000000 + e * 0x2000000 + d * 0x1000000 + f * 0x10000 + s * 0x100 + a) as u32;
    assert(extended_bits(id) == raw);
    assert(raw / 0x4000000 == p && raw / 0x2000000 % 2 == e && raw / 0x1000000 % 2 == d && raw
        / 0x10000 % 0x100 == f && raw / 0x100 % 0x100 == s && raw % 0x100 == a) by (bit_vector)
        requires
            p < 8,
            e <= 1,
            d <= 1,
            f < 0x100,
            s < 0x100,
            a < 0x100,
            raw == p * 0x4000000 + e * 0x2000000 + d * 0x1000000 + f * 0x10000 + s * 0x100 + a,
    ;
}

} // verus!
