//! AIS types 1, 2 and 3: Class A position report (168 bits).

use vstd::prelude::*;
use vstd::arithmetic::power2::lemma2_to64;
use crate::ais::{
    ROT_SENTINEL, read_cog, read_flag, read_heading, read_lat, read_lon, read_mmsi, read_sog,
    spec_cog, spec_heading, spec_lat, spec_lon, spec_sog,
};
use crate::bits::{
    PayloadBits, bv_bits, extract_i, extract_u, lemma_extract_i_bound, lemma_extract_u_bound,
    pick_i64, pick_u64,
};
use crate::errors::ParseError;
use crate::types::{
    AisClass, ParsedSentence, PositioningSystemMeta, RotDirection, Station, VesselDynamicData,
    spec_nav_status,
};

verus! {

/// The raw rate-of-turn field; absent on the sentinel.
pub open spec fn spec_rot(bits: Seq<bool>) -> Option<i8> {
    let raw = extract_i(bits, 42, 8);
    if raw == ROT_SENTINEL {
        None
    } else {
        Some(raw as i8)
    }
}

/// Turn direction, the sign of the rate-of-turn field; absent on the sentinel.
pub open spec fn spec_rot_direction(bits: Seq<bool>) -> Option<RotDirection> {
    let raw = extract_i(bits, 42, 8);
    if raw == ROT_SENTINEL {
        None
    } else if raw < 0 {
        Some(RotDirection::Port)
    } else if raw > 0 {
        Some(RotDirection::Starboard)
    } else {
        Some(RotDirection::Center)
    }
}

/// Positioning-system state carried by timestamp values 61 to 63.
pub open spec fn spec_psm(ts: nat) -> Option<PositioningSystemMeta> {
    if ts == 61 {
        Some(PositioningSystemMeta::ManualInputMode)
    } else if ts == 62 {
        Some(PositioningSystemMeta::DeadReckoningMode)
    } else if ts == 63 {
        Some(PositioningSystemMeta::Inoperative)
    } else {
        None
    }
}

/// Special manoeuvre indicator: engaged, not engaged, or not available.
pub open spec fn spec_special_manoeuvre(raw: nat) -> Option<bool> {
    if raw == 1 {
        Some(false)
    } else if raw == 2 {
        Some(true)
    } else {
        None
    }
}

/// The record a Class A position report denotes.
pub open spec fn t123_record(bits: Seq<bool>, station: Station, own_vessel: bool)
    -> VesselDynamicData {
    VesselDynamicData {
        own_vessel,
        station,
        ais_type: AisClass::ClassA,
        mmsi: extract_u(bits, 8, 30) as u32,
        nav_status: spec_nav_status(extract_u(bits, 38, 4)),
        rot_raw: spec_rot(bits),
        rot_direction: spec_rot_direction(bits),
        sog_deciknots: spec_sog(bits, 50),
        high_position_accuracy: extract_u(bits, 60, 1) == 1,
        longitude_min600k: spec_lon(bits, 61),
        latitude_min600k: spec_lat(bits, 89),
        cog_decidegrees: spec_cog(bits, 116),
        heading_true_degrees: spec_heading(bits, 128),
        timestamp_seconds: extract_u(bits, 137, 6) as u8,
        positioning_system_meta: spec_psm(extract_u(bits, 137, 6)),
        special_manoeuvre: spec_special_manoeuvre(extract_u(bits, 143, 2)),
        raim_flag: extract_u(bits, 148, 1) == 1,
        class_b_unit_flag: None,
        class_b_display: None,
        class_b_dsc: None,
        class_b_band_flag: None,
        class_b_msg22_flag: None,
        class_b_mode_flag: None,
        class_b_css_flag: None,
        radio_status: Some(extract_u(bits, 149, 19) as u32),
    }
}

/// Decodes a Class A position report.
pub fn handle(bv: &PayloadBits, station: Station, own_vessel: bool) -> (r: Result<
    ParsedSentence,
    ParseError,
>)
    ensures
        r == Ok::<ParsedSentence, ParseError>(
            ParsedSentence::VesselDynamicData(t123_record(bv_bits(*bv), station, own_vessel)),
        ),
{
    let ghost bits = bv_bits(*bv);
    proof {
        lemma_extract_u_bound(bits, 38, 4);
        lemma_extract_i_bound(bits, 42, 8);
        lemma_extract_u_bound(bits, 137, 6);
        lemma_extract_u_bound(bits, 143, 2);
        lemma_extract_u_bound(bits, 149, 19);
        lemma2_to64();
    }
    let nav_raw = pick_u64(bv, 38, 4);
    let nav_status = if nav_raw == 0 {
        crate::types::NavigationStatus::UnderWayUsingEngine
    } else if nav_raw == 1 {
        crate::types::NavigationStatus::AtAnchor
    } else if nav_raw == 2 {
        crate::types::NavigationStatus::NotUnderCommand
    } else if nav_raw == 3 {
        crate::types::NavigationStatus::RestrictedManoeuvrability
    } else if nav_raw == 4 {
        crate::types::NavigationStatus::ConstrainedByDraught
    } else if nav_raw == 5 {
        crate::types::NavigationStatus::Moored
    } else if nav_raw == 6 {
        crate::types::NavigationStatus::Aground
    } else if nav_raw == 7 {
        crate::types::NavigationStatus::EngagedInFishing
    } else if nav_raw == 8 {
        crate::types::NavigationStatus::UnderWaySailing
    } else if nav_raw == 9 {
        crate::types::NavigationStatus::ReservedForHsc
    } else if nav_raw == 10 {
        crate::types::NavigationStatus::ReservedForWig
    } else if nav_raw == 11 {
        crate::types::NavigationStatus::Reserved11
    } else if nav_raw == 12 {
        crate::types::NavigationStatus::Reserved12
    } else if nav_raw == 13 {
        crate::types::NavigationStatus::Reserved13
    } else if nav_raw == 14 {
        crate::types::NavigationStatus::AisSartIsActive
    } else {
        crate::types::NavigationStatus::NotDefined
    };
    let rot_raw_field = pick_i64(bv, 42, 8);
    let (rot_raw, rot_direction) = if rot_raw_field == ROT_SENTINEL {
        (None, None)
    } else if rot_raw_field < 0 {
        (Some(rot_raw_field as i8), Some(RotDirection::Port))
    } else if rot_raw_field > 0 {
        (Some(rot_raw_field as i8), Some(RotDirection::Starboard))
    } else {
        (Some(rot_raw_field as i8), Some(RotDirection::Center))
    };
    let ts = pick_u64(bv, 137, 6) as u8;
    let psm = if ts == 61 {
        Some(PositioningSystemMeta::ManualInputMode)
    } else if ts == 62 {
        Some(PositioningSystemMeta::DeadReckoningMode)
    } else if ts == 63 {
        Some(PositioningSystemMeta::Inoperative)
    } else {
        None
    };
    let sm_raw = pick_u64(bv, 143, 2);
    let special_manoeuvre = if sm_raw == 1 {
        Some(false)
    } else if sm_raw == 2 {
        Some(true)
    } else {
        None
    };
    Ok(ParsedSentence::VesselDynamicData(VesselDynamicData {
        own_vessel,
        station,
        ais_type: AisClass::ClassA,
        mmsi: read_mmsi(bv),
        nav_status,
        rot_raw,
        rot_direction,
        sog_deciknots: read_sog(bv, 50),
        high_position_accuracy: read_flag(bv, 60),
        longitude_min600k: read_lon(bv, 61),
        latitude_min600k: read_lat(bv, 89),
        cog_decidegrees: read_cog(bv, 116),
        heading_true_degrees: read_heading(bv, 128),
        timestamp_seconds: ts,
        positioning_system_meta: psm,
        special_manoeuvre,
        raim_flag: read_flag(bv, 148),
        class_b_unit_flag: None,
        class_b_display: None,
        class_b_dsc: None,
        class_b_band_flag: None,
        class_b_msg22_flag: None,
        class_b_mode_flag: None,
        class_b_css_flag: None,
        radio_status: Some(pick_u64(bv, 149, 19) as u32),
    }))
}

} // verus!
