use nmea_parser::decode_sentence;
use nmea_parser::errors::{AisField, ParseError};
use nmea_parser::store::NmeaStore;
use nmea_parser::types::{GnssKind, NavigationSystem, ParsedSentence};

#[test]
fn test_parse_corrupted() {
    // Try a sentence with mismatching checksum
    assert!(decode_sentence("!AIVDM,1,1,,A,38Id705000rRVJhE7cl9n;160000,0*41", &mut NmeaStore::new())
        .ok()
        .is_none());
}

#[test]
fn test_parse_missing_checksum() {
    // Try a sentence without checksum
    assert!(decode_sentence("!AIVDM,1,1,,A,38Id705000rRVJhE7cl9n;160000,0", &mut NmeaStore::new())
        .ok()
        .is_some());
}

#[test]
fn mismatching_checksum_reports_checksum_error() {
    let r = decode_sentence("!AIVDM,1,1,,A,38Id705000rRVJhE7cl9n;160000,0*41", &mut NmeaStore::new());
    assert_eq!(r, Err(ParseError::ChecksumMismatch));
}

#[test]
fn gnss_sentence_routes_to_handler() {
    let body = "$GPGGA,123519,4807.038,N,01131.000,E,1,08,0.9,545.4,M,46.9,M,,";
    let r = decode_sentence(body, &mut NmeaStore::new()).unwrap();
    match r {
        ParsedSentence::GnssPending { kind, system, body: routed } => {
            assert_eq!(kind, GnssKind::Gga);
            assert_eq!(system, NavigationSystem::Gps);
            assert_eq!(routed, body);
        }
        other => panic!("expected a routed GNSS sentence, got {:?}", other),
    }
}

#[test]
fn gnss_talkers_map_to_systems() {
    let cases = [
        ("$GNRMC,x", NavigationSystem::Combination, GnssKind::Rmc),
        ("$GLGSA,x", NavigationSystem::Glonass, GnssKind::Gsa),
        ("$GAGSV,x", NavigationSystem::Galileo, GnssKind::Gsv),
        ("$BDVTG,x", NavigationSystem::Beidou, GnssKind::Vtg),
        ("$GIGLL,x", NavigationSystem::Navic, GnssKind::Gll),
        ("$QZGGA,x", NavigationSystem::Qzss, GnssKind::Gga),
        ("$XXGLL,x", NavigationSystem::Other, GnssKind::Gll),
    ];
    for (text, system, kind) in cases {
        match decode_sentence(text, &mut NmeaStore::new()).unwrap() {
            ParsedSentence::GnssPending { kind: k, system: s, .. } => {
                assert_eq!(k, kind);
                assert_eq!(s, system);
            }
            other => panic!("expected a routed GNSS sentence, got {:?}", other),
        }
    }
}

#[test]
fn sentence_without_comma_is_invalid() {
    let r = decode_sentence("!AIVDM", &mut NmeaStore::new());
    assert_eq!(r, Err(ParseError::InvalidFormat));
}

#[test]
fn unknown_gnss_id_is_unsupported() {
    let r = decode_sentence("$GPZZZ,1,2", &mut NmeaStore::new());
    assert_eq!(r, Err(ParseError::UnsupportedSentence { header: "$GPZZZ".to_string() }));
}

#[test]
fn unsupported_ais_message_type_is_reported() {
    // First payload character '4' encodes the six-bit value 4.
    let r = decode_sentence("!AIVDM,1,1,,A,4000,0", &mut NmeaStore::new());
    assert_eq!(r, Err(ParseError::UnsupportedMessageType { message_type: 4 }));
}

#[test]
fn unrecognized_ais_message_type_is_reported() {
    // First payload character '0' encodes the six-bit value 0.
    let r = decode_sentence("!AIVDM,1,1,,A,0000,0", &mut NmeaStore::new());
    assert_eq!(r, Err(ParseError::UnrecognizedMessageType { message_type: 0 }));
}

#[test]
fn bad_payload_character_fails_decode() {
    let r = decode_sentence("!AIVDM,1,1,,A,~~~,0", &mut NmeaStore::new());
    assert_eq!(r, Err(ParseError::PayloadDecodeFailed));
}

#[test]
fn bad_fragment_count_fails_field_parse() {
    let r = decode_sentence("!AIVDM,x,1,,A,4000,0", &mut NmeaStore::new());
    assert_eq!(
        r,
        Err(ParseError::FieldParseFailed { field: AisField::FragmentCount, raw: "x".to_string() })
    );
}

#[test]
fn bad_fragment_number_fails_field_parse() {
    let r = decode_sentence("!AIVDM,1,y,,A,4000,0", &mut NmeaStore::new());
    assert_eq!(
        r,
        Err(ParseError::FieldParseFailed { field: AisField::FragmentNumber, raw: "y".to_string() })
    );
}

#[test]
fn three_fragment_transmissions_stay_incomplete() {
    let r = decode_sentence("!AIVDM,3,1,5,A,4000,0", &mut NmeaStore::new());
    assert_eq!(r, Ok(ParsedSentence::Incomplete));
}

#[test]
fn missing_message_id_stays_incomplete() {
    let r = decode_sentence("!AIVDM,2,1,,A,4000,0", &mut NmeaStore::new());
    assert_eq!(r, Ok(ParsedSentence::Incomplete));
}
