use nmea_parser::decode_sentence;
use nmea_parser::store::NmeaStore;
use nmea_parser::types::{AisClass, ParsedSentence, VesselStaticData};

const T5_FRAG_1: &str = "!AIVDM,2,1,3,B,55P5TL01VIaAL@7WKO@mBplU@<PDhh000000001S;AJ::4A80?4i@E53,0*3E";
const T5_FRAG_2: &str = "!AIVDM,2,2,3,B,1@0000000000000,2*55";

fn decode_static(sentence: &str, store: &mut NmeaStore) -> VesselStaticData {
    match decode_sentence(sentence, store).unwrap() {
        ParsedSentence::VesselStaticData(vsd) => vsd,
        other => panic!("expected a static record, got {:?}", other),
    }
}

fn assert_mt_mitchell(vsd: &VesselStaticData) {
    assert_eq!(vsd.mmsi, 369190000);
    assert_eq!(vsd.ais_type, AisClass::ClassA);
    assert_eq!(vsd.ais_version_indicator, Some(0));
    assert_eq!(vsd.imo_number, Some(6710932));
    assert_eq!(vsd.call_sign.as_deref(), Some("WDA9674"));
    assert_eq!(vsd.name.as_deref(), Some("MT.MITCHELL"));
    assert_eq!(vsd.ship_cargo_type, Some(99));
    assert_eq!(vsd.dimension_to_bow, Some(90));
    assert_eq!(vsd.dimension_to_stern, Some(90));
    assert_eq!(vsd.dimension_to_port, Some(10));
    assert_eq!(vsd.dimension_to_starboard, Some(10));
    assert_eq!(vsd.position_fix_type, Some(1));
    assert_eq!(vsd.eta_month, Some(1));
    assert_eq!(vsd.eta_day, Some(2));
    assert_eq!(vsd.eta_hour, Some(8));
    assert_eq!(vsd.eta_minute, Some(0));
    assert_eq!(vsd.draught_decimeters.map(|raw| raw as f64 * 0.1), Some(6.0));
    assert_eq!(vsd.destination.as_deref(), Some("SEATTLE"));
}

#[test]
fn two_fragment_type5_in_order() {
    let mut store = NmeaStore::new();
    let first = decode_sentence(T5_FRAG_1, &mut store).unwrap();
    assert_eq!(first, ParsedSentence::Incomplete);
    let vsd = decode_static(T5_FRAG_2, &mut store);
    assert_mt_mitchell(&vsd);
}

#[test]
fn two_fragment_type5_reversed_order_gives_same_record() {
    let mut store = NmeaStore::new();
    let first = decode_sentence(T5_FRAG_2, &mut store).unwrap();
    assert_eq!(first, ParsedSentence::Incomplete);
    let reversed = decode_static(T5_FRAG_1, &mut store);

    let mut store2 = NmeaStore::new();
    decode_sentence(T5_FRAG_1, &mut store2).unwrap();
    let in_order = decode_static(T5_FRAG_2, &mut store2);

    assert_eq!(reversed, in_order);
    assert_mt_mitchell(&reversed);
}

#[test]
fn fragments_on_different_channels_do_not_pair() {
    let mut store = NmeaStore::new();
    assert_eq!(
        decode_sentence(T5_FRAG_1, &mut store).unwrap(),
        ParsedSentence::Incomplete
    );
    // Same transmission shape, but channel A instead of B: no pairing.
    let other_channel = "!AIVDM,2,2,3,A,1@0000000000000,2";
    assert_eq!(
        decode_sentence(other_channel, &mut store).unwrap(),
        ParsedSentence::Incomplete
    );
}

const T24_PART_A: &str = "!AIVDM,1,1,,A,H42O55i18tMET00000000000000,2*6D";
const T24_PART_B: &str = "!AIVDM,1,1,,A,H42O55lti4hhhilD3nink000?050,0*40";

#[test]
fn type24_part_a_carries_only_the_name() {
    let vsd = decode_static(T24_PART_A, &mut NmeaStore::new());
    assert_eq!(vsd.mmsi, 271041815);
    assert_eq!(vsd.ais_type, AisClass::ClassB);
    assert_eq!(vsd.name.as_deref(), Some("PROGUY"));
    assert_eq!(vsd.call_sign, None);
    assert_eq!(vsd.ship_cargo_type, None);
    assert_eq!(vsd.equipment_vendor_id, None);
    assert_eq!(vsd.dimension_to_bow, None);
    assert_eq!(vsd.destination, None);
}

#[test]
fn type24_part_b_carries_equipment_and_dimensions() {
    let vsd = decode_static(T24_PART_B, &mut NmeaStore::new());
    assert_eq!(vsd.mmsi, 271041815);
    assert_eq!(vsd.name, None);
    assert_eq!(vsd.ship_cargo_type, Some(60));
    assert_eq!(vsd.equipment_vendor_id.as_deref(), Some("1D00014"));
    assert_eq!(vsd.call_sign.as_deref(), Some("TC6163"));
    assert_eq!(vsd.dimension_to_bow, Some(0));
    assert_eq!(vsd.dimension_to_stern, Some(15));
    assert_eq!(vsd.dimension_to_port, Some(0));
    assert_eq!(vsd.dimension_to_starboard, Some(5));
    assert_eq!(vsd.mothership_mmsi, None);
}

#[test]
fn type24_parts_merge_order_independent() {
    let a = decode_static(T24_PART_A, &mut NmeaStore::new());
    let b = decode_static(T24_PART_B, &mut NmeaStore::new());
    let ab = a.merge(&b);
    let ba = b.merge(&a);
    assert_eq!(ab, ba);
    assert_eq!(ab.name.as_deref(), Some("PROGUY"));
    assert_eq!(ab.call_sign.as_deref(), Some("TC6163"));
    assert_eq!(ab.ship_cargo_type, Some(60));
    assert_eq!(ab.mmsi, 271041815);
}

fn empty_record(mmsi: u32) -> VesselStaticData {
    VesselStaticData {
        own_vessel: false,
        ais_type: AisClass::ClassB,
        mmsi,
        ais_version_indicator: None,
        imo_number: None,
        call_sign: None,
        name: None,
        ship_cargo_type: None,
        equipment_vendor_id: None,
        dimension_to_bow: None,
        dimension_to_stern: None,
        dimension_to_port: None,
        dimension_to_starboard: None,
        position_fix_type: None,
        eta_month: None,
        eta_day: None,
        eta_hour: None,
        eta_minute: None,
        draught_decimeters: None,
        destination: None,
        mothership_mmsi: None,
    }
}

#[test]
fn merge_with_empty_changes_nothing() {
    let x = decode_static(T24_PART_B, &mut NmeaStore::new());
    let merged = x.merge(&empty_record(x.mmsi));
    assert_eq!(merged, x);
}

#[test]
fn merge_is_associative() {
    let a = decode_static(T24_PART_A, &mut NmeaStore::new());
    let b = decode_static(T24_PART_B, &mut NmeaStore::new());
    let mut c = empty_record(a.mmsi);
    c.destination = Some("ISTANBUL".to_string());
    c.eta_month = Some(7);
    assert_eq!(a.merge(&b).merge(&c), a.merge(&b.merge(&c)));
}

#[test]
fn merge_prefers_the_argument_on_conflict() {
    let mut x = empty_record(1);
    x.destination = Some("OSLO".to_string());
    x.eta_day = Some(3);
    let mut y = empty_record(1);
    y.destination = Some("BERGEN".to_string());
    let merged = x.merge(&y);
    assert_eq!(merged.destination.as_deref(), Some("BERGEN"));
    assert_eq!(merged.eta_day, Some(3));
}
