//! AIS binary message handlers and their shared field readers.

use vstd::prelude::*;
use vstd::arithmetic::power2::lemma2_to64;
use crate::bits::{
    PayloadBits, bv_bits, extract_i, extract_u, lemma_extract_i_bound, lemma_extract_u_bound,
    pick_i64, pick_u64,
};
use crate::errors::{ErrorModel, ParseError};
use crate::sixbit::{chars_to_string, field_text, pick_text};
use crate::types::{ParsedSentence, SentenceModel, Station};

pub mod vdm_t1t2t3;
pub mod vdm_t5;
pub mod vdm_t18;
pub mod vdm_t19;
pub mod vdm_t24;

verus! {

/// Raw longitude sentinel: `181` degrees, meaning not available.
pub const LON_SENTINEL: i64 = 0x6791AC0;

/// Raw latitude sentinel: `91` degrees, meaning not available.
pub const LAT_SENTINEL: i64 = 0x3412140;

/// Raw course-over-ground sentinel (`3600` tenths of a degree).
pub const COG_SENTINEL: u64 = 0xE10;

/// Raw speed-over-ground sentinel (tenths of knots).
pub const SOG_SENTINEL: u64 = 1023;

/// Raw true-heading sentinel (degrees).
pub const HEADING_SENTINEL: u64 = 511;

/// Raw rate-of-turn sentinel.
pub const ROT_SENTINEL: i64 = -128;

/// The result of a decode, with records replaced by their models.
pub open spec fn result_model(r: Result<ParsedSentence, ParseError>) -> Result<
    SentenceModel,
    ErrorModel,
> {
    match r {
        Ok(p) => Ok(p@),
        Err(e) => Err(e@),
    }
}

/// Speed over ground in tenths of knots; absent on the sentinel.
pub open spec fn spec_sog(bits: Seq<bool>, offset: nat) -> Option<u16> {
    let raw = extract_u(bits, offset, 10);
    if raw == SOG_SENTINEL {
        None
    } else {
        Some(raw as u16)
    }
}

/// Longitude in 1/600000 degree; absent on the sentinel.
pub open spec fn spec_lon(bits: Seq<bool>, offset: nat) -> Option<i32> {
    let raw = extract_i(bits, offset, 28);
    if raw == LON_SENTINEL {
        None
    } else {
        Some(raw as i32)
    }
}

/// Latitude in 1/600000 degree; absent on the sentinel.
pub open spec fn spec_lat(bits: Seq<bool>, offset: nat) -> Option<i32> {
    let raw = extract_i(bits, offset, 27);
    if raw == LAT_SENTINEL {
        None
    } else {
        Some(raw as i32)
    }
}

/// Course over ground in tenths of degrees; absent on the sentinel only,
/// with no range clamping.
pub open spec fn spec_cog(bits: Seq<bool>, offset: nat) -> Option<u16> {
    let raw = extract_u(bits, offset, 12);
    if raw == COG_SENTINEL {
        None
    } else {
        Some(raw as u16)
    }
}

/// True heading in degrees; absent on the sentinel.
pub open spec fn spec_heading(bits: Seq<bool>, offset: nat) -> Option<u16> {
    let raw = extract_u(bits, offset, 9);
    if raw == HEADING_SENTINEL {
        None
    } else {
        Some(raw as u16)
    }
}

/// A six-bit text field; absent when nothing is left after trimming.
pub open spec fn spec_text(bits: Seq<bool>, offset: nat, n: nat) -> Option<Seq<char>> {
    let t = field_text(bits, offset, n);
    if t.len() == 0 {
        None
    } else {
        Some(t)
    }
}

/// Reads speed over ground at `offset` (10 bits, tenths of knots).
pub fn read_sog(bv: &PayloadBits, offset: usize) -> (r: Option<u16>)
    ensures
        r == spec_sog(bv_bits(*bv), offset as nat),
{
    let raw = pick_u64(bv, offset, 10);
    proof {
        lemma_extract_u_bound(bv_bits(*bv), offset as nat, 10);
        lemma2_to64();
    }
    if raw == SOG_SENTINEL {
        None
    } else {
        Some(raw as u16)
    }
}

/// Reads longitude at `offset` (28 bits signed, 1/600000 degree).
pub fn read_lon(bv: &PayloadBits, offset: usize) -> (r: Option<i32>)
    ensures
        r == spec_lon(bv_bits(*bv), offset as nat),
{
    let raw = pick_i64(bv, offset, 28);
    proof {
        lemma_extract_i_bound(bv_bits(*bv), offset as nat, 28);
        lemma2_to64();
    }
    if raw == LON_SENTINEL {
        None
    } else {
        Some(raw as i32)
    }
}

/// Reads latitude at `offset` (27 bits signed, 1/600000 degree).
pub fn read_lat(bv: &PayloadBits, offset: usize) -> (r: Option<i32>)
    ensures
        r == spec_lat(bv_bits(*bv), offset as nat),
{
    let raw = pick_i64(bv, offset, 27);
    proof {
        lemma_extract_i_bound(bv_bits(*bv), offset as nat, 27);
        lemma2_to64();
    }
    if raw == LAT_SENTINEL {
        None
    } else {
        Some(raw as i32)
    }
}

/// Reads course over ground at `offset` (12 bits, tenths of degrees).
pub fn read_cog(bv: &PayloadBits, offset: usize) -> (r: Option<u16>)
    ensures
        r == spec_cog(bv_bits(*bv), offset as nat),
{
    let raw = pick_u64(bv, offset, 12);
    proof {
        lemma_extract_u_bound(bv_bits(*bv), offset as nat, 12);
        lemma2_to64();
    }
    if raw == COG_SENTINEL {
        None
    } else {
        Some(raw as u16)
    }
}

/// Reads true heading at `offset` (9 bits, degrees).
pub fn read_heading(bv: &PayloadBits, offset: usize) -> (r: Option<u16>)
    ensures
        r == spec_heading(bv_bits(*bv), offset as nat),
{
    let raw = pick_u64(bv, offset, 9);
    proof {
        lemma_extract_u_bound(bv_bits(*bv), offset as nat, 9);
        lemma2_to64();
    }
    if raw == HEADING_SENTINEL {
        None
    } else {
        Some(raw as u16)
    }
}

/// Reads the 30-bit MMSI at bit 8.
pub fn read_mmsi(bv: &PayloadBits) -> (r: u32)
    ensures
        r == extract_u(bv_bits(*bv), 8, 30) as u32,
{
    let raw = pick_u64(bv, 8, 30);
    proof {
        lemma_extract_u_bound(bv_bits(*bv), 8, 30);
        lemma2_to64();
    }
    raw as u32
}

/// Reads a one-bit flag at `offset`.
pub fn read_flag(bv: &PayloadBits, offset: usize) -> (r: bool)
    ensures
        r == (extract_u(bv_bits(*bv), offset as nat, 1) == 1),
{
    let raw = pick_u64(bv, offset, 1);
    proof {
        lemma_extract_u_bound(bv_bits(*bv), offset as nat, 1);
        lemma2_to64();
    }
    raw == 1
}

/// Reads a six-bit text field of `n` characters; absent when empty.
pub fn read_text(bv: &PayloadBits, offset: usize, n: usize) -> (r: Option<String>)
    requires
        offset + 6 * n <= usize::MAX,
    ensures
        crate::types::string_field_model(r) == spec_text(bv_bits(*bv), offset as nat, n as nat),
{
    let t = pick_text(bv, offset, n);
    if t.len() == 0 {
        None
    } else {
        Some(chars_to_string(&t))
    }
}

/// What the AIS dispatcher yields for a decoded bit stream: the typed
/// record of a handled message type, or the error owed to the others.
pub open spec fn ais_dispatch_model(bits: Seq<bool>, station: Station, own_vessel: bool) -> Result<
    SentenceModel,
    ErrorModel,
> {
    let t = extract_u(bits, 0, 6);
    if t == 1 || t == 2 || t == 3 {
        Ok(SentenceModel::Dynamic(vdm_t1t2t3::t123_record(bits, station, own_vessel)))
    } else if t == 5 {
        Ok(SentenceModel::Fixed(vdm_t5::t5_model(bits, own_vessel)))
    } else if t == 18 {
        Ok(SentenceModel::Dynamic(vdm_t18::t18_record(bits, station, own_vessel)))
    } else if t == 19 {
        Ok(SentenceModel::Dynamic(vdm_t19::t19_record(bits, station, own_vessel)))
    } else if t == 24 {
        vdm_t24::t24_dispatch_model(bits, own_vessel)
    } else if t == 4 || (6 <= t && t <= 17) || (20 <= t && t <= 23) {
        Err(ErrorModel::UnsupportedMessageType { message_type: t as u8 })
    } else {
        Err(ErrorModel::UnrecognizedMessageType { message_type: t as u8 })
    }
}

/// Reads the six-bit message type and routes to the matching handler.
pub fn dispatch(bv: &PayloadBits, station: Station, own_vessel: bool) -> (r: Result<
    ParsedSentence,
    ParseError,
>)
    ensures
        result_model(r) == ais_dispatch_model(bv_bits(*bv), station, own_vessel),
{
    let message_type = pick_u64(bv, 0, 6);
    proof {
        lemma_extract_u_bound(bv_bits(*bv), 0, 6);
        lemma2_to64();
    }
    if message_type == 1 || message_type == 2 || message_type == 3 {
        vdm_t1t2t3::handle(bv, station, own_vessel)
    } else if message_type == 5 {
        vdm_t5::handle(bv, station, own_vessel)
    } else if message_type == 18 {
        vdm_t18::handle(bv, station, own_vessel)
    } else if message_type == 19 {
        vdm_t19::handle(bv, station, own_vessel)
    } else if message_type == 24 {
        vdm_t24::handle(bv, station, own_vessel)
    } else if message_type == 4 || (6 <= message_type && message_type <= 17) || (20 <= message_type
        && message_type <= 23) {
        Err(ParseError::UnsupportedMessageType { message_type: message_type as u8 })
    } else {
        Err(ParseError::UnrecognizedMessageType { message_type: message_type as u8 })
    }
}

} // verus!
