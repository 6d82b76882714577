//! AIS type 5: static and voyage related data (424 bits, two fragments).

use vstd::prelude::*;
use vstd::arithmetic::power2::lemma2_to64;
use crate::ais::{read_mmsi, read_text, spec_text};
use crate::bits::{PayloadBits, bv_bits, extract_u, lemma_extract_u_bound, pick_u64};
use crate::errors::ParseError;
use crate::types::{AisClass, ParsedSentence, SentenceModel, StaticModel, Station};

verus! {

/// A small unsigned field mapped to `None` on one reserved raw value.
pub open spec fn opt_field(raw: nat, absent: nat) -> Option<u8> {
    if raw == absent {
        None
    } else {
        Some(raw as u8)
    }
}

/// The static record a type 5 message denotes. Raw value 0 means "not
/// available" for the IMO number, ship type, fix type, ETA month and day,
/// and draught; hour 24 and minute 60 mean the same for the ETA clock.
pub open spec fn t5_model(bits: Seq<bool>, own_vessel: bool) -> StaticModel {
    StaticModel {
        own_vessel,
        ais_type: AisClass::ClassA,
        mmsi: extract_u(bits, 8, 30) as u32,
        ais_version_indicator: Some(extract_u(bits, 38, 2) as u8),
        imo_number: if extract_u(bits, 40, 30) == 0 {
            None
        } else {
            Some(extract_u(bits, 40, 30) as u32)
        },
        call_sign: spec_text(bits, 70, 7),
        name: spec_text(bits, 112, 20),
        ship_cargo_type: opt_field(extract_u(bits, 232, 8), 0),
        equipment_vendor_id: None,
        dimension_to_bow: Some(extract_u(bits, 240, 9) as u16),
        dimension_to_stern: Some(extract_u(bits, 249, 9) as u16),
        dimension_to_port: Some(extract_u(bits, 258, 6) as u8),
        dimension_to_starboard: Some(extract_u(bits, 264, 6) as u8),
        position_fix_type: opt_field(extract_u(bits, 270, 4), 0),
        eta_month: opt_field(extract_u(bits, 274, 4), 0),
        eta_day: opt_field(extract_u(bits, 278, 5), 0),
        eta_hour: opt_field(extract_u(bits, 283, 5), 24),
        eta_minute: opt_field(extract_u(bits, 288, 6), 60),
        draught_decimeters: opt_field(extract_u(bits, 294, 8), 0),
        destination: spec_text(bits, 302, 20),
        mothership_mmsi: None,
    }
}

/// Decodes a static and voyage data report.
pub fn handle(bv: &PayloadBits, _station: Station, own_vessel: bool) -> (r: Result<
    ParsedSentence,
    ParseError,
>)
    ensures
        ({
            &&& r is Ok
            &&& r->Ok_0 is VesselStaticData
            &&& r->Ok_0->VesselStaticData_0@ == t5_model(bv_bits(*bv), own_vessel)
        }),
{
    let ghost bits = bv_bits(*bv);
    proof {
        lemma_extract_u_bound(bits, 38, 2);
        lemma_extract_u_bound(bits, 40, 30);
        lemma_extract_u_bound(bits, 232, 8);
        lemma_extract_u_bound(bits, 240, 9);
        lemma_extract_u_bound(bits, 249, 9);
        lemma_extract_u_bound(bits, 258, 6);
        lemma_extract_u_bound(bits, 264, 6);
        lemma_extract_u_bound(bits, 270, 4);
        lemma_extract_u_bound(bits, 274, 4);
        lemma_extract_u_bound(bits, 278, 5);
        lemma_extract_u_bound(bits, 283, 5);
        lemma_extract_u_bound(bits, 288, 6);
        lemma_extract_u_bound(bits, 294, 8);
        lemma2_to64();
    }
    let imo_raw = pick_u64(bv, 40, 30);
    let ship_raw = pick_u64(bv, 232, 8) as u8;
    let fix_raw = pick_u64(bv, 270, 4) as u8;
    let month_raw = pick_u64(bv, 274, 4) as u8;
    let day_raw = pick_u64(bv, 278, 5) as u8;
    let hour_raw = pick_u64(bv, 283, 5) as u8;
    let minute_raw = pick_u64(bv, 288, 6) as u8;
    let draught_raw = pick_u64(bv, 294, 8) as u8;
    let d = crate::types::VesselStaticData {
        own_vessel,
        ais_type: AisClass::ClassA,
        mmsi: read_mmsi(bv),
        ais_version_indicator: Some(pick_u64(bv, 38, 2) as u8),
        imo_number: if imo_raw == 0 {
            None
        } else {
            Some(imo_raw as u32)
        },
        call_sign: read_text(bv, 70, 7),
        name: read_text(bv, 112, 20),
        ship_cargo_type: if ship_raw == 0 {
            None
        } else {
            Some(ship_raw)
        },
        equipment_vendor_id: None,
        dimension_to_bow: Some(pick_u64(bv, 240, 9) as u16),
        dimension_to_stern: Some(pick_u64(bv, 249, 9) as u16),
        dimension_to_port: Some(pick_u64(bv, 258, 6) as u8),
        dimension_to_starboard: Some(pick_u64(bv, 264, 6) as u8),
        position_fix_type: if fix_raw == 0 {
            None
        } else {
            Some(fix_raw)
        },
        eta_month: if month_raw == 0 {
            None
        } else {
            Some(month_raw)
        },
        eta_day: if day_raw == 0 {
            None
        } else {
            Some(day_raw)
        },
        eta_hour: if hour_raw == 24 {
            None
        } else {
            Some(hour_raw)
        },
        eta_minute: if minute_raw == 60 {
            None
        } else {
            Some(minute_raw)
        },
        draught_decimeters: if draught_raw == 0 {
            None
        } else {
            Some(draught_raw)
        },
        destination: read_text(bv, 302, 20),
        mothership_mmsi: None,
    };
    proof {
        assert(d@ =~= t5_model(bits, own_vessel));
    }
    Ok(ParsedSentence::VesselStaticData(d))
}

} // verus!
