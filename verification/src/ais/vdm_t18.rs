//! AIS type 18: standard Class B position report (168 bits).

use vstd::prelude::*;
use vstd::arithmetic::power2::lemma2_to64;
use crate::ais::{
    read_cog, read_flag, read_heading, read_lat, read_lon, read_mmsi, read_sog, spec_cog,
    spec_heading, spec_lat, spec_lon, spec_sog,
};
use crate::bits::{PayloadBits, bv_bits, extract_u, lemma_extract_u_bound, pick_u64};
use crate::errors::ParseError;
use crate::types::{AisClass, NavigationStatus, ParsedSentence, Station, VesselDynamicData};

verus! {

/// The record a standard Class B position report denotes: no navigation
/// status and no rate of turn; the capability flags sit at bits 141 to 147.
pub open spec fn t18_record(bits: Seq<bool>, station: Station, own_vessel: bool)
    -> VesselDynamicData {
    VesselDynamicData {
        own_vessel,
        station,
        ais_type: AisClass::ClassB,
        mmsi: extract_u(bits, 8, 30) as u32,
        nav_status: NavigationStatus::NotDefined,
        rot_raw: None,
        rot_direction: None,
        sog_deciknots: spec_sog(bits, 46),
        high_position_accuracy: extract_u(bits, 56, 1) == 1,
        longitude_min600k: spec_lon(bits, 57),
        latitude_min600k: spec_lat(bits, 85),
        cog_decidegrees: spec_cog(bits, 112),
        heading_true_degrees: spec_heading(bits, 124),
        timestamp_seconds: extract_u(bits, 133, 6) as u8,
        positioning_system_meta: None,
        special_manoeuvre: None,
        raim_flag: extract_u(bits, 148, 1) == 1,
        class_b_unit_flag: Some(extract_u(bits, 141, 1) == 1),
        class_b_display: Some(extract_u(bits, 142, 1) == 1),
        class_b_dsc: Some(extract_u(bits, 143, 1) == 1),
        class_b_band_flag: Some(extract_u(bits, 144, 1) == 1),
        class_b_msg22_flag: Some(extract_u(bits, 145, 1) == 1),
        class_b_mode_flag: Some(extract_u(bits, 146, 1) == 1),
        class_b_css_flag: Some(extract_u(bits, 147, 1) == 1),
        radio_status: Some(extract_u(bits, 149, 19) as u32),
    }
}

/// Decodes a standard Class B position report.
pub fn handle(bv: &PayloadBits, station: Station, own_vessel: bool) -> (r: Result<
    ParsedSentence,
    ParseError,
>)
    ensures
        r == Ok::<ParsedSentence, ParseError>(
            ParsedSentence::VesselDynamicData(t18_record(bv_bits(*bv), station, own_vessel)),
        ),
{
    proof {
        lemma_extract_u_bound(bv_bits(*bv), 133, 6);
        lemma_extract_u_bound(bv_bits(*bv), 149, 19);
        lemma2_to64();
    }
    Ok(ParsedSentence::VesselDynamicData(VesselDynamicData {
        own_vessel,
        station,
        ais_type: AisClass::ClassB,
        mmsi: read_mmsi(bv),
        nav_status: NavigationStatus::NotDefined,
        rot_raw: None,
        rot_direction: None,
        sog_deciknots: read_sog(bv, 46),
        high_position_accuracy: read_flag(bv, 56),
        longitude_min600k: read_lon(bv, 57),
        latitude_min600k: read_lat(bv, 85),
        cog_decidegrees: read_cog(bv, 112),
        heading_true_degrees: read_heading(bv, 124),
        timestamp_seconds: pick_u64(bv, 133, 6) as u8,
        positioning_system_meta: None,
        special_manoeuvre: None,
        raim_flag: read_flag(bv, 148),
        class_b_unit_flag: Some(read_flag(bv, 141)),
        class_b_display: Some(read_flag(bv, 142)),
        class_b_dsc: Some(read_flag(bv, 143)),
        class_b_band_flag: Some(read_flag(bv, 144)),
        class_b_msg22_flag: Some(read_flag(bv, 145)),
        class_b_mode_flag: Some(read_flag(bv, 146)),
        class_b_css_flag: Some(read_flag(bv, 147)),
        radio_status: Some(pick_u64(bv, 149, 19) as u32),
    }))
}

} // verus!
