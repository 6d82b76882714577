//! Cross-cutting guarantees of the decoder, proved over its models.

use vstd::prelude::*;
use vstd::arithmetic::power2::lemma2_to64;
use crate::ais::{LAT_SENTINEL, LON_SENTINEL, ais_dispatch_model, spec_lat, spec_lon};
use crate::ais::vdm_t24::{t24a_model, t24b_model};
use crate::bits::{extract_i, extract_u, lemma_extract_i_bound};
use crate::errors::ErrorModel;
use crate::sixbit::{armor_bits, armor_valid};
use crate::store::KeyModel;
use crate::types::{SentenceModel, Station, lemma_merge_order_independent, merged};
use crate::{
    ais_body_model, ais_fragment_model, ais_payload_outcome, checksum_matches, decode_model,
    first_comma_from, frag_key, gnss_kind_of, hex_digit, last_star_at, nmea_checksum,
    parse_dec_model, sentence_body, sentence_given_hex, split_from, xor_upto,
};

verus! {

// ---------------------------------------------------------------------
// Well-formed sentences decode successfully
// ---------------------------------------------------------------------
/// A sentence frame in good shape: checksum gate passed, a six-character
/// header before the first comma.
pub open spec fn well_formed_frame(s: Seq<char>) -> bool {
    &&& checksum_matches(s)
    &&& first_comma_from(sentence_body(s), 0) == 6
}

/// A GNSS sentence the dispatcher routes: `$`, a handled three-letter
/// message identifier.
pub open spec fn well_formed_gnss(s: Seq<char>) -> bool {
    let head = sentence_body(s).subrange(0, 6);
    &&& well_formed_frame(s)
    &&& head[0] == '$'
    &&& gnss_kind_of(head[3], head[4], head[5]) is Some
}

/// An AIS message type with a handler here: 1, 2, 3, 5, 18, 19, or 24
/// with a valid part number.
pub open spec fn handled_message_type(bits: Seq<bool>) -> bool {
    let t = extract_u(bits, 0, 6);
    ||| t == 1
    ||| t == 2
    ||| t == 3
    ||| t == 5
    ||| t == 18
    ||| t == 19
    ||| (t == 24 && extract_u(bits, 38, 2) <= 1)
}

/// The frame of an AIS sentence: `!`, `VDM` or `VDO`, and parseable
/// fragment count and number.
pub open spec fn well_formed_ais_frame(s: Seq<char>) -> bool {
    let head = sentence_body(s).subrange(0, 6);
    let fields = split_from(sentence_body(s), 0);
    &&& well_formed_frame(s)
    &&& head[0] == '!'
    &&& head[3] == 'V'
    &&& head[4] == 'D'
    &&& (head[5] == 'M' || head[5] == 'O')
    &&& fields.len() > 5
    &&& parse_dec_model(fields[2], 255) is Some
}

/// A single-fragment AIS sentence whose payload is armored and whose
/// message type has a handler.
pub open spec fn well_formed_ais_single(s: Seq<char>) -> bool {
    let fields = split_from(sentence_body(s), 0);
    &&& well_formed_ais_frame(s)
    &&& parse_dec_model(fields[1], 255) == Some(1u64)
    &&& armor_valid(fields[5])
    &&& handled_message_type(armor_bits(fields[5]))
}

/// The first half of a two-fragment transmission with a message id,
/// whose partner has not arrived yet: it is buffered and the call
/// reports `Incomplete`, which is a success.
pub open spec fn well_formed_ais_opening_fragment(
    s: Seq<char>,
    pending: Map<KeyModel, Seq<char>>,
) -> bool {
    let head = sentence_body(s).subrange(0, 6);
    let fields = split_from(sentence_body(s), 0);
    let own = head[5] == 'O';
    &&& well_formed_ais_frame(s)
    &&& parse_dec_model(fields[1], 255) == Some(2u64)
    &&& (parse_dec_model(fields[2], 255) == Some(1u64) || parse_dec_model(fields[2], 255) == Some(
        2u64,
    ))
    &&& fields.len() > 3
    &&& parse_dec_model(fields[3], u64::MAX) is Some
    &&& !pending.contains_key(
        frag_key(
            own,
            parse_dec_model(fields[3], u64::MAX)->Some_0,
            if parse_dec_model(fields[2], 255) == Some(1u64) {
                2
            } else {
                1
            },
            fields[4],
        ),
    )
}

/// Every well-formed sentence with a valid (or absent) checksum decodes
/// to `Ok`: a routed GNSS sentence, a decoded AIS record, or a buffered
/// opening fragment.
pub proof fn lemma_well_formed_sentences_decode(s: Seq<char>, pending: Map<KeyModel, Seq<char>>)
    requires
        well_formed_gnss(s) || well_formed_ais_single(s) || well_formed_ais_opening_fragment(
            s,
            pending,
        ),
    ensures
        decode_model(s, pending).0 is Ok,
{
    let body = sentence_body(s);
    let head = body.subrange(0, 6);
    let fields = split_from(body, 0);
    if well_formed_gnss(s) {
    } else {
        let own = head[5] == 'O';
        let station = crate::station_of(head[1], head[2]);
        if well_formed_ais_single(s) {
            assert(decode_model(s, pending) == ais_body_model(body, station, own, pending));
            let t = extract_u(armor_bits(fields[5]), 0, 6);
            assert(ais_payload_outcome(fields[5], station, own) == ais_dispatch_model(
                armor_bits(fields[5]),
                station,
                own,
            ));
            assert(ais_dispatch_model(armor_bits(fields[5]), station, own) is Ok);
        } else {
            assert(decode_model(s, pending) == ais_body_model(body, station, own, pending));
        }
    }
}

// ---------------------------------------------------------------------
// A mutated body character trips the checksum
// ---------------------------------------------------------------------
proof fn lemma_xor_prefix(a: Seq<char>, b: Seq<char>, end: int)
    requires
        end <= a.len(),
        end <= b.len(),
        forall|j: int| 1 <= j < end ==> a[j] == b[j],
    ensures
        xor_upto(a, end) == xor_upto(b, end),
    decreases end,
{
    if end > 1 {
        lemma_xor_prefix(a, b, end - 1);
    }
}

proof fn lemma_xor_update(s: Seq<char>, i: int, c: char, end: int)
    requires
        1 <= i < end <= s.len(),
    ensures
        xor_upto(s.update(i, c), end) == (xor_upto(s, end) ^ ((s[i] as u8) ^ (c as u8))),
    decreases end,
{
    let s2 = s.update(i, c);
    if end == i + 1 {
        lemma_xor_prefix(s2, s, i);
        let x = xor_upto(s, i);
        let a = s[i] as u8;
        let b = c as u8;
        assert((x ^ b) == ((x ^ a) ^ (a ^ b))) by (bit_vector);
    } else {
        lemma_xor_update(s, i, c, end - 1);
        let x = xor_upto(s, end - 1);
        let a = s[i] as u8;
        let b = c as u8;
        let e = s[end - 1] as u8;
        assert(((x ^ (a ^ b)) ^ e) == ((x ^ e) ^ (a ^ b))) by (bit_vector);
    }
}

proof fn lemma_last_star_bounds(s: Seq<char>)
    ensures
        -1 <= last_star_at(s) < s.len(),
        last_star_at(s) >= 0 ==> s[last_star_at(s)] == '*',
    decreases s.len(),
{
    if s.len() == 0 {
    } else if s.last() == '*' {
    } else {
        lemma_last_star_bounds(s.drop_last());
    }
}

/// Rewriting a character strictly before the last `*` leaves the last
/// `*` where it was.
proof fn lemma_last_star_update(s: Seq<char>, i: int, c: char)
    requires
        0 <= i < last_star_at(s),
    ensures
        last_star_at(s.update(i, c)) == last_star_at(s),
    decreases s.len(),
{
    lemma_last_star_bounds(s);
    let s2 = s.update(i, c);
    assert(s2.len() == s.len());
    assert(forall|j: int| 0 <= j < s.len() && j != i ==> s2[j] == s[j]);
    assert(s2[i] == c);
    if s.last() == '*' {
        assert(s2.last() == '*');
    } else {
        assert(s2.last() == s.last());
        assert(s2.drop_last() =~= s.drop_last().update(i, c));
        lemma_last_star_update(s.drop_last(), i, c);
    }
}

/// Distinct values below 16 have distinct hex digits.
proof fn lemma_hex_digit_injective(a: u8, b: u8)
    requires
        a < 16,
        b < 16,
        a != b,
    ensures
        hex_digit(a) != hex_digit(b),
{
}

/// Changing one character of the body of a checksummed sentence, in a
/// way that changes its byte, makes the decoder report a checksum
/// mismatch: the XOR over the body no longer yields the given digits.
pub proof fn lemma_mutation_fails_checksum(
    s: Seq<char>,
    i: int,
    c: char,
    pending: Map<KeyModel, Seq<char>>,
)
    requires
        checksum_matches(s),
        sentence_given_hex(s).len() == 2,
        1 <= i < last_star_at(s),
        (c as u8) != (s[i] as u8),
    ensures
        decode_model(s.update(i, c), pending).0 == Err::<SentenceModel, ErrorModel>(
            ErrorModel::ChecksumMismatch,
        ),
{
    let p = last_star_at(s);
    lemma_last_star_bounds(s);
    let s2 = s.update(i, c);
    lemma_last_star_update(s, i, c);
    assert(sentence_body(s2) =~= sentence_body(s).update(i, c));
    assert(sentence_given_hex(s2) =~= sentence_given_hex(s));
    let body = sentence_body(s);
    let cs = nmea_checksum(body);
    lemma_xor_update(body, i, c, body.len() as int);
    let d = ((body[i] as u8) ^ (c as u8));
    let cs2 = nmea_checksum(sentence_body(s2));
    assert(cs2 == (cs ^ d));
    let a = body[i] as u8;
    let b = c as u8;
    assert(a != b ==> (a ^ b) != 0) by (bit_vector);
    assert(forall|x: u8, y: u8| y != 0 ==> #[trigger] (x ^ y) != x) by (bit_vector);
    assert(cs2 != cs);
    assert((cs / 16 == cs2 / 16 && cs % 16 == cs2 % 16) ==> cs == cs2) by (bit_vector);
    assert(cs / 16 < 16 && cs % 16 < 16 && cs2 / 16 < 16 && cs2 % 16 < 16) by (bit_vector);
    if cs / 16 != cs2 / 16 {
        lemma_hex_digit_injective(cs / 16, cs2 / 16);
    } else {
        lemma_hex_digit_injective(cs % 16, cs2 % 16);
    }
    assert(!checksum_matches(s2));
}

// ---------------------------------------------------------------------
// Position coordinates: sentinel means absent, the rest is bounded
// ---------------------------------------------------------------------
/// A decoded latitude is absent exactly on the sentinel; a present raw
/// value lies in the signed 27-bit range, so it stands for at most
/// about 111 degrees, and for at most 90 degrees exactly when its
/// magnitude is at most 54 000 000.
pub proof fn lemma_latitude_field(bits: Seq<bool>, offset: nat)
    ensures
        (spec_lat(bits, offset) is None) <==> extract_i(bits, offset, 27) == LAT_SENTINEL,
        spec_lat(bits, offset) matches Some(v) ==> -0x4000000 <= v < 0x4000000,
{
    lemma_extract_i_bound(bits, offset, 27);
    lemma2_to64();
}

/// A decoded longitude is absent exactly on the sentinel; a present raw
/// value lies in the signed 28-bit range, and stands for at most 180
/// degrees exactly when its magnitude is at most 108 000 000.
pub proof fn lemma_longitude_field(bits: Seq<bool>, offset: nat)
    ensures
        (spec_lon(bits, offset) is None) <==> extract_i(bits, offset, 28) == LON_SENTINEL,
        spec_lon(bits, offset) matches Some(v) ==> -0x8000000 <= v < 0x8000000,
{
    lemma_extract_i_bound(bits, offset, 28);
    lemma2_to64();
}

/// The coordinates of every position report record follow the sentinel
/// rule: type 1/2/3 reads them at bits 61 and 89, types 18 and 19 at
/// bits 57 and 85.
pub proof fn lemma_position_reports_follow_sentinels(
    bits: Seq<bool>,
    station: Station,
    own_vessel: bool,
)
    ensures
        crate::ais::vdm_t1t2t3::t123_record(bits, station, own_vessel).latitude_min600k
            == spec_lat(bits, 89),
        crate::ais::vdm_t1t2t3::t123_record(bits, station, own_vessel).longitude_min600k
            == spec_lon(bits, 61),
        crate::ais::vdm_t18::t18_record(bits, station, own_vessel).latitude_min600k == spec_lat(
            bits,
            85,
        ),
        crate::ais::vdm_t18::t18_record(bits, station, own_vessel).longitude_min600k == spec_lon(
            bits,
            57,
        ),
        crate::ais::vdm_t19::t19_record(bits, station, own_vessel).latitude_min600k == spec_lat(
            bits,
            85,
        ),
        crate::ais::vdm_t19::t19_record(bits, station, own_vessel).longitude_min600k == spec_lon(
            bits,
            57,
        ),
{
}

// ---------------------------------------------------------------------
// Two-fragment reassembly round trip
// ---------------------------------------------------------------------
/// Feeding fragment 1 and then fragment 2 of a transmission yields
/// exactly what a single-fragment transmission of the concatenated
/// payload would, and leaves the pending map as it was.
pub proof fn lemma_reassembly_round_trip(
    p1: Seq<char>,
    p2: Seq<char>,
    mid: u64,
    channel: Seq<char>,
    station: Station,
    own_vessel: bool,
    pending: Map<KeyModel, Seq<char>>,
)
    requires
        !pending.contains_key(frag_key(own_vessel, mid, 1, channel)),
        !pending.contains_key(frag_key(own_vessel, mid, 2, channel)),
    ensures
        ({
            let (o1, pending1) = ais_fragment_model(
                2,
                1,
                Some(mid),
                channel,
                p1,
                station,
                own_vessel,
                pending,
            );
            let (o2, pending2) = ais_fragment_model(
                2,
                2,
                Some(mid),
                channel,
                p2,
                station,
                own_vessel,
                pending1,
            );
            &&& o1 == Ok::<SentenceModel, ErrorModel>(SentenceModel::Incomplete)
            &&& o2 == ais_payload_outcome(p1 + p2, station, own_vessel)
            &&& o2 == ais_fragment_model(
                1,
                1,
                Some(mid),
                channel,
                p1 + p2,
                station,
                own_vessel,
                pending,
            ).0
            &&& pending2 == pending
        }),
{
    let k1 = frag_key(own_vessel, mid, 1, channel);
    assert(pending.insert(k1, p1).remove(k1) =~= pending);
}

/// The same round trip with the fragments arriving in the other order:
/// fragment 2 is buffered, fragment 1 completes the pair.
pub proof fn lemma_reassembly_round_trip_reversed(
    p1: Seq<char>,
    p2: Seq<char>,
    mid: u64,
    channel: Seq<char>,
    station: Station,
    own_vessel: bool,
    pending: Map<KeyModel, Seq<char>>,
)
    requires
        !pending.contains_key(frag_key(own_vessel, mid, 1, channel)),
        !pending.contains_key(frag_key(own_vessel, mid, 2, channel)),
    ensures
        ({
            let (o1, pending1) = ais_fragment_model(
                2,
                2,
                Some(mid),
                channel,
                p2,
                station,
                own_vessel,
                pending,
            );
            let (o2, pending2) = ais_fragment_model(
                2,
                1,
                Some(mid),
                channel,
                p1,
                station,
                own_vessel,
                pending1,
            );
            &&& o1 == Ok::<SentenceModel, ErrorModel>(SentenceModel::Incomplete)
            &&& o2 == ais_payload_outcome(p1 + p2, station, own_vessel)
            &&& pending2 == pending
        }),
{
    let k2 = frag_key(own_vessel, mid, 2, channel);
    assert(pending.insert(k2, p2).remove(k2) =~= pending);
}

// ---------------------------------------------------------------------
// Type 24 parts merge the same in either order
// ---------------------------------------------------------------------
/// A part A record and a part B record of the same vessel never carry
/// the same field, so merging them is order-independent.
pub proof fn lemma_t24_parts_merge_either_way(bits_a: Seq<bool>, bits_b: Seq<bool>, own_vessel: bool)
    requires
        t24a_model(bits_a, own_vessel).mmsi == t24b_model(bits_b, own_vessel).mmsi,
    ensures
        merged(t24a_model(bits_a, own_vessel), t24b_model(bits_b, own_vessel)) == merged(
            t24b_model(bits_b, own_vessel),
            t24a_model(bits_a, own_vessel),
        ),
{
    lemma_merge_order_independent(t24a_model(bits_a, own_vessel), t24b_model(bits_b, own_vessel));
}

} // verus!
