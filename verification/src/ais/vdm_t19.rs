//! AIS type 19: extended Class B equipment position report (312 bits).

use vstd::prelude::*;
use vstd::arithmetic::power2::lemma2_to64;
use crate::ais::{
    read_cog, read_flag, read_heading, read_lat, read_lon, read_mmsi, read_sog, spec_cog,
    spec_heading, spec_lat, spec_lon, spec_sog,
};
use crate::bits::{PayloadBits, bv_bits, extract_u, lemma_extract_u_bound, pick_u64};
use crate::errors::ParseError;
use crate::types::{AisClass, NavigationStatus, ParsedSentence, Station, VesselDynamicData};

verus! {

/// The record an extended Class B position report denotes: the Class B
/// capability subfields and the radio status stay absent.
pub open spec fn t19_record(bits: Seq<bool>, station: Station, own_vessel: bool)
    -> VesselDynamicData {
    VesselDynamicData {
        own_vessel,
        station,
        ais_type: AisClass::ClassB,
        mmsi: extract_u(bits, 8, 30) as u32,
        nav_status: NavigationStatus::NotDefined,
        rot_raw: None,
        rot_direction: None,
        sog_deciknots: spec_sog(bits, 46),
        high_position_accuracy: extract_u(bits, 56, 1) == 1,
        longitude_min600k: spec_lon(bits, 57),
        latitude_min600k: spec_lat(bits, 85),
        cog_decidegrees: spec_cog(bits, 112),
        heading_true_degrees: spec_heading(bits, 124),
        timestamp_seconds: extract_u(bits, 133, 6) as u8,
        positioning_system_meta: None,
        special_manoeuvre: None,
        raim_flag: extract_u(bits, 305, 1) == 1,
        class_b_unit_flag: None,
        class_b_display: None,
        class_b_dsc: None,
        class_b_band_flag: None,
        class_b_msg22_flag: None,
        class_b_mode_flag: None,
        class_b_css_flag: None,
        radio_status: None,
    }
}

/// Decodes an extended Class B position report.
pub fn handle(bv: &PayloadBits, station: Station, own_vessel: bool) -> (r: Result<
    ParsedSentence,
    ParseError,
>)
    ensures
        r == Ok::<ParsedSentence, ParseError>(
            ParsedSentence::VesselDynamicData(t19_record(bv_bits(*bv), station, own_vessel)),
        ),
{
    proof {
        lemma_extract_u_bound(bv_bits(*bv), 133, 6);
        lemma2_to64();
    }
    Ok(ParsedSentence::VesselDynamicData(VesselDynamicData {
        own_vessel,
        station,
        ais_type: AisClass::ClassB,
        mmsi: read_mmsi(bv),
        nav_status: NavigationStatus::NotDefined,
        rot_raw: None,
        rot_direction: None,
        sog_deciknots: read_sog(bv, 46),
        high_position_accuracy: read_flag(bv, 56),
        longitude_min600k: read_lon(bv, 57),
        latitude_min600k: read_lat(bv, 85),
        cog_decidegrees: read_cog(bv, 112),
        heading_true_degrees: read_heading(bv, 124),
        timestamp_seconds: pick_u64(bv, 133, 6) as u8,
        positioning_system_meta: None,
        special_manoeuvre: None,
        raim_flag: read_flag(bv, 305),
        class_b_unit_flag: None,
        class_b_display: None,
        class_b_dsc: None,
        class_b_band_flag: None,
        class_b_msg22_flag: None,
        class_b_mode_flag: None,
        class_b_css_flag: None,
        radio_status: None,
    }))
}

} // verus!
