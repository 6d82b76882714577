use nmea_parser::decode_sentence;
use nmea_parser::store::NmeaStore;
use nmea_parser::types::{AisClass, NavigationStatus, ParsedSentence, VesselDynamicData};

fn close(a: f64, b: f64, eps: f64) -> bool {
    (a - b).abs() < eps
}

fn decode_dynamic(sentence: &str) -> VesselDynamicData {
    match decode_sentence(sentence, &mut NmeaStore::new()).unwrap() {
        ParsedSentence::VesselDynamicData(vdd) => vdd,
        other => panic!("expected a dynamic record, got {:?}", other),
    }
}

#[test]
fn test_parse_vdm_type19() {
    let mut store = NmeaStore::new();
    match decode_sentence(
        "!AIVDM,1,1,,,C>l2oRh02mFenjw93gGjswp1kkaQkgQWc111111111jd0000002P,0*2F",
        &mut store,
    ) {
        Ok(ps) => {
            match ps {
                // The expected result
                ParsedSentence::VesselDynamicData(vdd) => {
                    assert_eq!(vdd.mmsi, 994097035);
                    assert_eq!(vdd.nav_status, NavigationStatus::NotDefined);
                    assert_eq!(vdd.rot_raw, None);
                    assert_eq!(vdd.rot_direction, None);
                    assert_eq!(vdd.sog_deciknots.map(|raw| raw as f64 * 0.1), Some(1.1));
                    assert!(!vdd.high_position_accuracy);
                    assert!(close(
                        vdd.latitude_min600k.map(|raw| raw as f64 / 600000.0).unwrap_or(0.0),
                        -6.0,
                        0.1
                    ));
                    assert!(close(
                        vdd.longitude_min600k.map(|raw| raw as f64 / 600000.0).unwrap_or(0.0),
                        -147.9,
                        0.1
                    ));
                    assert!(close(
                        vdd.cog_decidegrees.map(|raw| raw as f64 * 0.1).unwrap_or(0.0),
                        388.6,
                        0.1
                    ));
                    assert_eq!(vdd.heading_true_degrees, None);
                    assert_eq!(vdd.timestamp_seconds, 48);
                    assert_eq!(vdd.positioning_system_meta, None);
                    assert_eq!(vdd.special_manoeuvre, None);
                    assert!(!vdd.raim_flag);
                }
                ParsedSentence::Incomplete => {
                    assert!(false);
                }
                _ => {
                    assert!(false);
                }
            }
        }
        Err(e) => {
            assert_eq!(format!("{:?}", e), "OK");
        }
    }
}

#[test]
fn type19_is_class_b() {
    let vdd = decode_dynamic(
        "!AIVDM,1,1,,,C>l2oRh02mFenjw93gGjswp1kkaQkgQWc111111111jd0000002P,0*2F",
    );
    assert_eq!(vdd.ais_type, AisClass::ClassB);
    assert_eq!(vdd.radio_status, None);
    assert_eq!(vdd.class_b_unit_flag, None);
}

/// Appends `width` bits of `value`, most significant first.
fn push_field(bits: &mut Vec<bool>, value: u64, width: usize) {
    for k in (0..width).rev() {
        bits.push((value >> k) & 1 == 1);
    }
}

/// Armors a bit stream: six bits per character.
fn armor(bits: &[bool]) -> String {
    assert!(bits.len() % 6 == 0);
    let mut s = String::new();
    for group in bits.chunks(6) {
        let mut v: u8 = 0;
        for &b in group {
            v = v * 2 + if b { 1 } else { 0 };
        }
        let c = if v < 40 { v + 48 } else { v + 56 };
        s.push(c as char);
    }
    s
}

#[test]
fn type1_sentinels_mean_absent() {
    let mut bits: Vec<bool> = Vec::new();
    push_field(&mut bits, 1, 6); // message type 1
    push_field(&mut bits, 0, 2); // repeat indicator
    push_field(&mut bits, 123456789, 30); // MMSI
    push_field(&mut bits, 15, 4); // navigation status: not defined
    push_field(&mut bits, 0x80, 8); // ROT sentinel (-128)
    push_field(&mut bits, 1023, 10); // SOG sentinel
    push_field(&mut bits, 0, 1); // accuracy
    push_field(&mut bits, 0x6791AC0, 28); // longitude sentinel
    push_field(&mut bits, 0x3412140, 27); // latitude sentinel
    push_field(&mut bits, 0xE10, 12); // COG sentinel
    push_field(&mut bits, 511, 9); // heading sentinel
    push_field(&mut bits, 60, 6); // timestamp
    push_field(&mut bits, 0, 2); // special manoeuvre: not available
    push_field(&mut bits, 0, 3); // spare
    push_field(&mut bits, 0, 1); // RAIM
    push_field(&mut bits, 0, 19); // radio status
    assert_eq!(bits.len(), 168);
    let sentence = format!("!AIVDM,1,1,,A,{},0", armor(&bits));
    let vdd = decode_dynamic(&sentence);
    assert_eq!(vdd.ais_type, AisClass::ClassA);
    assert_eq!(vdd.mmsi, 123456789);
    assert_eq!(vdd.nav_status, NavigationStatus::NotDefined);
    assert_eq!(vdd.rot_raw, None);
    assert_eq!(vdd.rot_direction, None);
    assert_eq!(vdd.sog_deciknots, None);
    assert_eq!(vdd.longitude_min600k, None);
    assert_eq!(vdd.latitude_min600k, None);
    assert_eq!(vdd.cog_decidegrees, None);
    assert_eq!(vdd.heading_true_degrees, None);
    assert_eq!(vdd.timestamp_seconds, 60);
    assert_eq!(vdd.special_manoeuvre, None);
    assert!(!vdd.raim_flag);
}

#[test]
fn type1_present_values_decode() {
    let mut bits: Vec<bool> = Vec::new();
    push_field(&mut bits, 3, 6); // message type 3
    push_field(&mut bits, 0, 2);
    push_field(&mut bits, 244660920, 30);
    push_field(&mut bits, 5, 4); // moored
    push_field(&mut bits, 4, 8); // ROT raw 4, turning starboard
    push_field(&mut bits, 123, 10); // 12.3 knots
    push_field(&mut bits, 1, 1);
    // 4.5 degrees east and north
    push_field(&mut bits, 4 * 600000 + 300000, 28);
    push_field(&mut bits, 4 * 600000 + 300000, 27);
    push_field(&mut bits, 3549, 12); // COG 354.9
    push_field(&mut bits, 91, 9);
    push_field(&mut bits, 30, 6);
    push_field(&mut bits, 1, 2); // not engaged in special manoeuvre
    push_field(&mut bits, 0, 3);
    push_field(&mut bits, 1, 1);
    push_field(&mut bits, 0, 19);
    let sentence = format!("!AIVDM,1,1,,B,{},0", armor(&bits));
    let vdd = decode_dynamic(&sentence);
    assert_eq!(vdd.mmsi, 244660920);
    assert_eq!(vdd.nav_status, NavigationStatus::Moored);
    assert_eq!(vdd.rot_raw, Some(4));
    assert_eq!(
        vdd.rot_direction,
        Some(nmea_parser::types::RotDirection::Starboard)
    );
    assert_eq!(vdd.sog_deciknots, Some(123));
    assert!(vdd.high_position_accuracy);
    assert_eq!(vdd.longitude_min600k, Some(2700000));
    assert_eq!(vdd.latitude_min600k, Some(2700000));
    assert_eq!(vdd.cog_decidegrees, Some(3549));
    assert_eq!(vdd.heading_true_degrees, Some(91));
    assert_eq!(vdd.timestamp_seconds, 30);
    assert_eq!(vdd.special_manoeuvre, Some(false));
    assert!(vdd.raim_flag);
    assert_eq!(vdd.ais_type, AisClass::ClassA);
}

#[test]
fn truncated_payload_reads_zero_extended() {
    // Only the message type and part of the MMSI are transmitted; the
    // extractor reads the missing ranges as zero, and the sentinel checks
    // see plain zeros, which are valid values.
    let sentence = "!AIVDM,1,1,,A,10,0";
    let vdd = decode_dynamic(sentence);
    assert_eq!(vdd.mmsi, 0);
    assert_eq!(vdd.sog_deciknots, Some(0));
    assert_eq!(vdd.longitude_min600k, Some(0));
    assert_eq!(vdd.latitude_min600k, Some(0));
}
