//! AIS type 24: Class B static data report, parts A and B.
//!
//! Each part carries only its own fields; the caller merges parts that
//! share an MMSI with `VesselStaticData::merge`.

use vstd::prelude::*;
use vstd::arithmetic::power2::lemma2_to64;
use crate::ais::{read_mmsi, read_text, spec_text};
use crate::bits::{PayloadBits, bv_bits, extract_u, lemma_extract_u_bound, pick_u64};
use crate::errors::{ErrorModel, ParseError};
use crate::types::{AisClass, ParsedSentence, SentenceModel, StaticModel, Station};

verus! {

/// MMSIs of auxiliary craft, which report a mothership instead of
/// dimensions in part B.
pub open spec fn is_auxiliary_craft(mmsi: u32) -> bool {
    980000000 <= mmsi < 990000000
}

/// The static record a part A report denotes: the vessel name alone.
pub open spec fn t24a_model(bits: Seq<bool>, own_vessel: bool) -> StaticModel {
    StaticModel {
        own_vessel,
        ais_type: AisClass::ClassB,
        mmsi: extract_u(bits, 8, 30) as u32,
        ais_version_indicator: None,
        imo_number: None,
        call_sign: None,
        name: spec_text(bits, 40, 20),
        ship_cargo_type: None,
        equipment_vendor_id: None,
        dimension_to_bow: None,
        dimension_to_stern: None,
        dimension_to_port: None,
        dimension_to_starboard: None,
        position_fix_type: None,
        eta_month: None,
        eta_day: None,
        eta_hour: None,
        eta_minute: None,
        draught_decimeters: None,
        destination: None,
        mothership_mmsi: None,
    }
}

/// The static record a part B report denotes: ship type, vendor, call
/// sign, and dimensions, or the mothership MMSI for an auxiliary craft.
pub open spec fn t24b_model(bits: Seq<bool>, own_vessel: bool) -> StaticModel {
    let mmsi = extract_u(bits, 8, 30) as u32;
    let aux = is_auxiliary_craft(mmsi);
    StaticModel {
        own_vessel,
        ais_type: AisClass::ClassB,
        mmsi,
        ais_version_indicator: None,
        imo_number: None,
        call_sign: spec_text(bits, 90, 7),
        name: None,
        ship_cargo_type: if extract_u(bits, 40, 8) == 0 {
            None
        } else {
            Some(extract_u(bits, 40, 8) as u8)
        },
        equipment_vendor_id: spec_text(bits, 48, 7),
        dimension_to_bow: if aux {
            None
        } else {
            Some(extract_u(bits, 132, 9) as u16)
        },
        dimension_to_stern: if aux {
            None
        } else {
            Some(extract_u(bits, 141, 9) as u16)
        },
        dimension_to_port: if aux {
            None
        } else {
            Some(extract_u(bits, 150, 6) as u8)
        },
        dimension_to_starboard: if aux {
            None
        } else {
            Some(extract_u(bits, 156, 6) as u8)
        },
        position_fix_type: None,
        eta_month: None,
        eta_day: None,
        eta_hour: None,
        eta_minute: None,
        draught_decimeters: None,
        destination: None,
        mothership_mmsi: if aux {
            Some(extract_u(bits, 132, 30) as u32)
        } else {
            None
        },
    }
}

/// What a type 24 report yields: the part's record, or a format error
/// when the part number is reserved.
pub open spec fn t24_dispatch_model(bits: Seq<bool>, own_vessel: bool) -> Result<
    SentenceModel,
    ErrorModel,
> {
    let part = extract_u(bits, 38, 2);
    if part == 0 {
        Ok(SentenceModel::Fixed(t24a_model(bits, own_vessel)))
    } else if part == 1 {
        Ok(SentenceModel::Fixed(t24b_model(bits, own_vessel)))
    } else {
        Err(ErrorModel::InvalidFormat)
    }
}

/// Decodes a Class B static data report, part A or part B.
pub fn handle(bv: &PayloadBits, _station: Station, own_vessel: bool) -> (r: Result<
    ParsedSentence,
    ParseError,
>)
    ensures
        crate::ais::result_model(r) == t24_dispatch_model(bv_bits(*bv), own_vessel),
{
    let ghost bits = bv_bits(*bv);
    proof {
        lemma_extract_u_bound(bits, 38, 2);
        lemma_extract_u_bound(bits, 40, 8);
        lemma_extract_u_bound(bits, 132, 9);
        lemma_extract_u_bound(bits, 141, 9);
        lemma_extract_u_bound(bits, 150, 6);
        lemma_extract_u_bound(bits, 156, 6);
        lemma_extract_u_bound(bits, 132, 30);
        lemma2_to64();
    }
    let part = pick_u64(bv, 38, 2);
    if part == 0 {
        let d = crate::types::VesselStaticData {
            own_vessel,
            ais_type: AisClass::ClassB,
            mmsi: read_mmsi(bv),
            ais_version_indicator: None,
            imo_number: None,
            call_sign: None,
            name: read_text(bv, 40, 20),
            ship_cargo_type: None,
            equipment_vendor_id: None,
            dimension_to_bow: None,
            dimension_to_stern: None,
            dimension_to_port: None,
            dimension_to_starboard: None,
            position_fix_type: None,
            eta_month: None,
            eta_day: None,
            eta_hour: None,
            eta_minute: None,
            draught_decimeters: None,
            destination: None,
            mothership_mmsi: None,
        };
        proof {
            assert(d@ =~= t24a_model(bits, own_vessel));
        }
        Ok(ParsedSentence::VesselStaticData(d))
    } else if part == 1 {
        let mmsi = read_mmsi(bv);
        let aux = 980000000 <= mmsi && mmsi < 990000000;
        let ship_raw = pick_u64(bv, 40, 8) as u8;
        let d = crate::types::VesselStaticData {
            own_vessel,
            ais_type: AisClass::ClassB,
            mmsi,
            ais_version_indicator: None,
            imo_number: None,
            call_sign: read_text(bv, 90, 7),
            name: None,
            ship_cargo_type: if ship_raw == 0 {
                None
            } else {
                Some(ship_raw)
            },
            equipment_vendor_id: read_text(bv, 48, 7),
            dimension_to_bow: if aux {
                None
            } else {
                Some(pick_u64(bv, 132, 9) as u16)
            },
            dimension_to_stern: if aux {
                None
            } else {
                Some(pick_u64(bv, 141, 9) as u16)
            },
            dimension_to_port: if aux {
                None
            } else {
                Some(pick_u64(bv, 150, 6) as u8)
            },
            dimension_to_starboard: if aux {
                None
            } else {
                Some(pick_u64(bv, 156, 6) as u8)
            },
            position_fix_type: None,
            eta_month: None,
            eta_day: None,
            eta_hour: None,
            eta_minute: None,
            draught_decimeters: None,
            destination: None,
            mothership_mmsi: if aux {
                Some(pick_u64(bv, 132, 30) as u32)
            } else {
                None
            },
        };
        proof {
            assert(d@ =~= t24b_model(bits, own_vessel));
        }
        Ok(ParsedSentence::VesselStaticData(d))
    } else {
        Err(ParseError::InvalidFormat)
    }
}

} // verus!
