//! Decoder for NMEA 0183 sentences and AIS binary payloads.
//!
//! Callers feed raw ASCII sentences one at a time to [`decode_sentence`],
//! together with a [`store::NmeaStore`] that buffers the first half of
//! two-fragment AIS transmissions, and receive a typed record, an
//! `Incomplete` marker, or a decode error. GNSS sentence classes are
//! recognized, checksum-checked and routed, but decoded by handlers the
//! caller supplies.

#![verifier::loop_isolation(false)]

use vstd::prelude::*;
use vstd::string::StrSliceExecFns;

pub mod ais;
pub mod bits;
pub mod errors;
pub mod laws;
pub mod sixbit;
pub mod store;
pub mod types;

use crate::ais::{ais_dispatch_model, result_model};
use crate::errors::{AisField, ErrorModel, ParseError};
use crate::sixbit::{armor_bits, armor_valid, chars_to_string, parse_payload};
use crate::store::{KeyModel, NmeaStore, ReassemblyKey};
use crate::types::{GnssKind, NavigationSystem, ParsedSentence, SentenceModel, Station};

verus! {

/// Upper bound on the number of characters of a sentence accepted by the
/// decoder; it keeps every intermediate bit vector far below the capacity
/// at which the underlying bit container would fail to grow.
pub const MAX_SENTENCE_CHARS: usize = usize::MAX / 256;

// ---------------------------------------------------------------------
// Checksum layer
// ---------------------------------------------------------------------
/// XOR of the characters of `s` at positions 1 to `end - 1`, as bytes:
/// the leading `!` or `$` takes no part in the checksum.
pub open spec fn xor_upto(s: Seq<char>, end: int) -> u8
    decreases end,
{
    if end <= 1 {
        0
    } else {
        xor_upto(s, end - 1) ^ (s[end - 1] as u8)
    }
}

/// The XOR-8 checksum of a sentence body.
pub open spec fn nmea_checksum(body: Seq<char>) -> u8 {
    xor_upto(body, body.len() as int)
}

/// Position of the last `*` of the sentence, or `-1` when there is none.
pub open spec fn last_star_at(s: Seq<char>) -> int
    decreases s.len(),
{
    if s.len() == 0 {
        -1
    } else if s.last() == '*' {
        s.len() - 1
    } else {
        last_star_at(s.drop_last())
    }
}

/// The sentence body: everything before the last `*`, or the whole
/// sentence when no `*` is present.
pub open spec fn sentence_body(s: Seq<char>) -> Seq<char> {
    let p = last_star_at(s);
    if p < 0 {
        s
    } else {
        s.subrange(0, p)
    }
}

/// The checksum text given after the last `*`; empty when none is present.
pub open spec fn sentence_given_hex(s: Seq<char>) -> Seq<char> {
    let p = last_star_at(s);
    if p < 0 {
        Seq::empty()
    } else {
        s.subrange(p + 1, s.len() as int)
    }
}

/// The upper-case hex digit of a value below 16.
pub open spec fn hex_digit(n: u8) -> char
    recommends
        n < 16,
{
    if n < 10 {
        ((n + 48) as u8) as char
    } else {
        ((n + 55) as u8) as char
    }
}

/// Whether the sentence passes the checksum gate: no checksum given, or
/// the two upper-case hex digits of the computed XOR, exactly.
pub open spec fn checksum_matches(s: Seq<char>) -> bool {
    let given = sentence_given_hex(s);
    let c = nmea_checksum(sentence_body(s));
    given.len() == 0 || (given.len() == 2 && given[0] == hex_digit(c / 16) && given[1] == hex_digit(
        c % 16,
    ))
}

// ---------------------------------------------------------------------
// Tokenization
// ---------------------------------------------------------------------
/// Position of the first `,` at or after `i`, or `-1` when there is none.
pub open spec fn first_comma_from(s: Seq<char>, i: int) -> int
    decreases s.len() - i,
{
    if i < 0 || i >= s.len() {
        -1
    } else if s[i] == ',' {
        i
    } else {
        first_comma_from(s, i + 1)
    }
}

/// The comma-separated fields of `s` from position `start` on.
pub open spec fn split_from(s: Seq<char>, start: int) -> Seq<Seq<char>>
    recommends
        0 <= start <= s.len(),
    decreases s.len() - start,
{
    let p = first_comma_from(s, start);
    if p < start || p >= s.len() {
        seq![s.subrange(start, s.len() as int)]
    } else {
        seq![s.subrange(start, p)] + split_from(s, p + 1)
    }
}

/// The views of a sequence of character vectors.
pub open spec fn views_of(ts: Seq<Vec<char>>) -> Seq<Seq<char>> {
    Seq::new(ts.len(), |i: int| ts[i]@)
}

// ---------------------------------------------------------------------
// Header classification
// ---------------------------------------------------------------------
/// Navigation system of a `$` sentence, from its two talker characters.
pub open spec fn nav_system_of(c1: char, c2: char) -> NavigationSystem {
    if c1 == 'G' && c2 == 'N' {
        NavigationSystem::Combination
    } else if c1 == 'G' && c2 == 'P' {
        NavigationSystem::Gps
    } else if c1 == 'G' && c2 == 'L' {
        NavigationSystem::Glonass
    } else if c1 == 'G' && c2 == 'A' {
        NavigationSystem::Galileo
    } else if c1 == 'B' && c2 == 'D' {
        NavigationSystem::Beidou
    } else if c1 == 'G' && c2 == 'I' {
        NavigationSystem::Navic
    } else if c1 == 'Q' && c2 == 'Z' {
        NavigationSystem::Qzss
    } else {
        NavigationSystem::Other
    }
}

/// AIS station of a `!` sentence, from its two talker characters.
pub open spec fn station_of(c1: char, c2: char) -> Station {
    if c1 == 'A' && c2 == 'B' {
        Station::BaseAisStation
    } else if c1 == 'A' && c2 == 'D' {
        Station::DependentAisBaseStation
    } else if c1 == 'A' && c2 == 'I' {
        Station::MobileAisStation
    } else if c1 == 'A' && c2 == 'N' {
        Station::AidToNavigationAisStation
    } else if c1 == 'A' && c2 == 'R' {
        Station::AisReceivingStation
    } else if c1 == 'A' && c2 == 'S' {
        Station::LimitedBaseStation
    } else if c1 == 'A' && c2 == 'T' {
        Station::AisTransmittingStation
    } else if c1 == 'A' && c2 == 'X' {
        Station::RepeaterAisStation
    } else {
        Station::Other
    }
}

/// GNSS sentence class of a three-letter message identifier, if handled.
pub open spec fn gnss_kind_of(a: char, b: char, c: char) -> Option<GnssKind> {
    if a == 'G' && b == 'G' && c == 'A' {
        Some(GnssKind::Gga)
    } else if a == 'R' && b == 'M' && c == 'C' {
        Some(GnssKind::Rmc)
    } else if a == 'G' && b == 'S' && c == 'A' {
        Some(GnssKind::Gsa)
    } else if a == 'G' && b == 'S' && c == 'V' {
        Some(GnssKind::Gsv)
    } else if a == 'V' && b == 'T' && c == 'G' {
        Some(GnssKind::Vtg)
    } else if a == 'G' && b == 'L' && c == 'L' {
        Some(GnssKind::Gll)
    } else {
        None
    }
}

// ---------------------------------------------------------------------
// Decimal header fields
// ---------------------------------------------------------------------
/// The decimal value a digit string denotes.
pub open spec fn dec_val(s: Seq<char>) -> nat
    decreases s.len(),
{
    if s.len() == 0 {
        0
    } else {
        dec_val(s.drop_last()) * 10 + ((s.last() as u32 - 48) as nat)
    }
}

/// Every character is an ASCII decimal digit.
pub open spec fn all_digits(s: Seq<char>) -> bool {
    forall|i: int| 0 <= i < s.len() ==> 48 <= (#[trigger] s[i]) as u32 <= 57
}

/// What an integer header field parses to: a nonempty digit string whose
/// value is at most `max`; anything else fails.
pub open spec fn parse_dec_model(s: Seq<char>, max: u64) -> Option<u64> {
    if s.len() > 0 && all_digits(s) && dec_val(s) <= max {
        Some(dec_val(s) as u64)
    } else {
        None
    }
}

// ---------------------------------------------------------------------
// The AIS fragment layer
// ---------------------------------------------------------------------
/// What decoding an armored payload yields.
pub open spec fn ais_payload_outcome(payload: Seq<char>, station: Station, own_vessel: bool)
    -> Result<SentenceModel, ErrorModel> {
    if armor_valid(payload) {
        ais_dispatch_model(armor_bits(payload), station, own_vessel)
    } else {
        Err(ErrorModel::PayloadDecodeFailed)
    }
}

/// The key a fragment of a two-fragment transmission is buffered under.
pub open spec fn frag_key(own_vessel: bool, message_id: u64, number: u8, channel: Seq<char>)
    -> KeyModel {
    KeyModel {
        own_vessel,
        message_id,
        fragment_count: 2,
        fragment_number: number,
        channel,
    }
}

/// The reassembly policy: a single fragment decodes at once; fragment 1
/// or 2 of a pair decodes together with its buffered partner, consuming
/// it, or is buffered itself and yields `Incomplete`; anything else
/// (more fragments, a missing message id) yields `Incomplete` untouched.
pub open spec fn ais_fragment_model(
    frag_count: u8,
    frag_number: u8,
    message_id: Option<u64>,
    channel: Seq<char>,
    payload: Seq<char>,
    station: Station,
    own_vessel: bool,
    pending: Map<KeyModel, Seq<char>>,
) -> (Result<SentenceModel, ErrorModel>, Map<KeyModel, Seq<char>>) {
    if frag_count == 1 {
        (ais_payload_outcome(payload, station, own_vessel), pending)
    } else if frag_count == 2 {
        match message_id {
            None => (Ok(SentenceModel::Incomplete), pending),
            Some(mid) => {
                let k1 = frag_key(own_vessel, mid, 1, channel);
                let k2 = frag_key(own_vessel, mid, 2, channel);
                if frag_number == 1 {
                    if pending.contains_key(k2) {
                        (
                            ais_payload_outcome(payload + pending[k2], station, own_vessel),
                            pending.remove(k2),
                        )
                    } else {
                        (Ok(SentenceModel::Incomplete), pending.insert(k1, payload))
                    }
                } else if frag_number == 2 {
                    if pending.contains_key(k1) {
                        (
                            ais_payload_outcome(pending[k1] + payload, station, own_vessel),
                            pending.remove(k1),
                        )
                    } else {
                        (Ok(SentenceModel::Incomplete), pending.insert(k2, payload))
                    }
                } else {
                    (Ok(SentenceModel::Incomplete), pending)
                }
            },
        }
    } else {
        (Ok(SentenceModel::Incomplete), pending)
    }
}

/// What an AIS (`VDM`/`VDO`) body yields: header fields parsed in order,
/// then the fragment policy. A present fragment count or number that is
/// not a decimal byte fails; absent trailing fields default to zero or
/// empty, as the field loop of the wire format leaves them.
pub open spec fn ais_body_model(
    body: Seq<char>,
    station: Station,
    own_vessel: bool,
    pending: Map<KeyModel, Seq<char>>,
) -> (Result<SentenceModel, ErrorModel>, Map<KeyModel, Seq<char>>) {
    let fields = split_from(body, 0);
    if fields.len() > 1 && parse_dec_model(fields[1], 255) is None {
        (
            Err(ErrorModel::FieldParseFailed { field: AisField::FragmentCount, raw: fields[1] }),
            pending,
        )
    } else if fields.len() > 2 && parse_dec_model(fields[2], 255) is None {
        (
            Err(ErrorModel::FieldParseFailed { field: AisField::FragmentNumber, raw: fields[2] }),
            pending,
        )
    } else {
        let frag_count = if fields.len() > 1 {
            parse_dec_model(fields[1], 255)->Some_0 as u8
        } else {
            0
        };
        let frag_number = if fields.len() > 2 {
            parse_dec_model(fields[2], 255)->Some_0 as u8
        } else {
            0
        };
        let message_id = if fields.len() > 3 {
            parse_dec_model(fields[3], u64::MAX)
        } else {
            None
        };
        let channel = if fields.len() > 4 {
            fields[4]
        } else {
            Seq::empty()
        };
        let payload = if fields.len() > 5 {
            fields[5]
        } else {
            Seq::empty()
        };
        ais_fragment_model(
            frag_count,
            frag_number,
            message_id,
            channel,
            payload,
            station,
            own_vessel,
            pending,
        )
    }
}

/// What one `decode_sentence` call yields, and the pending-fragment map
/// it leaves behind: the checksum gate, then header tokenization and
/// family detection, then GNSS routing or the AIS fragment layer.
pub open spec fn decode_model(s: Seq<char>, pending: Map<KeyModel, Seq<char>>) -> (Result<
    SentenceModel,
    ErrorModel,
>, Map<KeyModel, Seq<char>>) {
    if !checksum_matches(s) {
        (Err(ErrorModel::ChecksumMismatch), pending)
    } else {
        let body = sentence_body(s);
        let p = first_comma_from(body, 0);
        if p < 1 {
            (Err(ErrorModel::InvalidFormat), pending)
        } else {
            let head = body.subrange(0, p);
            if head[0] == '$' {
                if p != 6 {
                    (Err(ErrorModel::InvalidFormat), pending)
                } else {
                    match gnss_kind_of(head[3], head[4], head[5]) {
                        Some(kind) => (
                            Ok(
                                SentenceModel::GnssPending {
                                    kind,
                                    system: nav_system_of(head[1], head[2]),
                                    body,
                                },
                            ),
                            pending,
                        ),
                        None => (Err(ErrorModel::UnsupportedSentence { header: head }), pending),
                    }
                }
            } else if head[0] == '!' {
                if p != 6 {
                    (Err(ErrorModel::InvalidFormat), pending)
                } else if head[3] == 'V' && head[4] == 'D' && (head[5] == 'M' || head[5] == 'O') {
                    ais_body_model(body, station_of(head[1], head[2]), head[5] == 'O', pending)
                } else {
                    (Err(ErrorModel::UnsupportedSentence { header: head }), pending)
                }
            } else {
                (Err(ErrorModel::UnsupportedSentence { header: head }), pending)
            }
        }
    }
}

// ---------------------------------------------------------------------
// Executable helpers
// ---------------------------------------------------------------------
/// The characters of a string slice, in order.
fn str_chars(s: &str) -> (r: Vec<char>)
    ensures
        r@ == s@,
{
    let n = s.unicode_len();
    let mut v: Vec<char> = Vec::new();
    let mut i: usize = 0;
    while i < n
        invariant
            i <= n,
            n == s@.len(),
            v@ == s@.subrange(0, i as int),
        decreases n - i,
    {
        let c = s.get_char(i);
        proof {
            assert(s@.subrange(0, i as int).push(c) =~= s@.subrange(0, i as int + 1));
        }
        v.push(c);
        i = i + 1;
    }
    proof {
        assert(s@.subrange(0, n as int) =~= s@);
    }
    v
}

/// A copy of the characters of `v` at positions `a` to `b`.
fn copy_range(v: &Vec<char>, a: usize, b: usize) -> (r: Vec<char>)
    requires
        a <= b <= v@.len(),
    ensures
        r@ == v@.subrange(a as int, b as int),
{
    let mut r: Vec<char> = Vec::new();
    let mut i: usize = a;
    while i < b
        invariant
            a <= i <= b,
            r@ == v@.subrange(a as int, i as int),
        decreases b - i,
    {
        proof {
            assert(v@.subrange(a as int, i as int).push(v@[i as int]) =~= v@.subrange(
                a as int,
                i as int + 1,
            ));
        }
        r.push(v[i]);
        i = i + 1;
    }
    r
}

/// The concatenation of two character vectors.
fn concat_chars(a: &Vec<char>, b: &Vec<char>) -> (r: Vec<char>)
    ensures
        r@ == a@ + b@,
{
    let mut r = copy_range(a, 0, a.len());
    proof {
        assert(a@.subrange(0, a@.len() as int) =~= a@);
    }
    let mut i: usize = 0;
    while i < b.len()
        invariant
            i <= b@.len(),
            r@ == a@ + b@.subrange(0, i as int),
        decreases b@.len() - i,
    {
        proof {
            assert((a@ + b@.subrange(0, i as int)).push(b@[i as int]) =~= a@ + b@.subrange(
                0,
                i as int + 1,
            ));
        }
        r.push(b[i]);
        i = i + 1;
    }
    proof {
        assert(a@ + b@.subrange(0, b@.len() as int) =~= a@ + b@);
    }
    r
}

/// The last `*` of the sentence, if any.
fn find_last_star(v: &Vec<char>) -> (r: Option<usize>)
    ensures
        match r {
            Some(p) => p == last_star_at(v@) && p < v@.len(),
            None => last_star_at(v@) == -1,
        },
{
    let mut i: usize = v.len();
    proof {
        assert(v@.subrange(0, v@.len() as int) =~= v@);
    }
    while i > 0
        invariant
            i <= v@.len(),
            last_star_at(v@) == last_star_at(v@.subrange(0, i as int)),
        decreases i,
    {
        proof {
            assert(v@.subrange(0, i as int).drop_last() =~= v@.subrange(0, i as int - 1));
        }
        if v[i - 1] == '*' {
            return Some(i - 1);
        }
        i = i - 1;
    }
    None
}

/// The XOR-8 checksum of a sentence body, skipping the leading character.
fn compute_checksum(body: &Vec<char>) -> (r: u8)
    ensures
        r == nmea_checksum(body@),
{
    if body.len() == 0 {
        return 0;
    }
    let mut acc: u8 = 0;
    let mut i: usize = 1;
    while i < body.len()
        invariant
            1 <= i <= body@.len(),
            acc == xor_upto(body@, i as int),
        decreases body@.len() - i,
    {
        acc = acc ^ (#[verifier::truncate] (body[i] as u8));
        i = i + 1;
    }
    acc
}

/// The upper-case hex digit of a value below 16.
fn hex_char(n: u8) -> (r: char)
    requires
        n < 16,
    ensures
        r == hex_digit(n),
{
    if n < 10 {
        (n + 48) as char
    } else {
        (n + 55) as char
    }
}

/// The first `,` at or after `start`, if any.
fn find_comma(v: &Vec<char>, start: usize) -> (r: Option<usize>)
    requires
        start <= v@.len(),
    ensures
        match r {
            Some(p) => p == first_comma_from(v@, start as int) && start <= p < v@.len(),
            None => first_comma_from(v@, start as int) == -1,
        },
{
    let mut i: usize = start;
    while i < v.len()
        invariant
            start <= i <= v@.len(),
            first_comma_from(v@, start as int) == first_comma_from(v@, i as int),
        decreases v@.len() - i,
    {
        if v[i] == ',' {
            return Some(i);
        }
        i = i + 1;
    }
    None
}

/// The comma-separated fields of `body`.
fn split_tokens(body: &Vec<char>) -> (r: Vec<Vec<char>>)
    ensures
        views_of(r@) == split_from(body@, 0),
        forall|i: int| 0 <= i < r@.len() ==> (#[trigger] r@[i])@.len() <= body@.len(),
{
    let mut tokens: Vec<Vec<char>> = Vec::new();
    let mut start: usize = 0;
    let n = body.len();
    loop
        invariant
            n == body@.len(),
            start <= body@.len(),
            split_from(body@, 0) == views_of(tokens@) + split_from(body@, start as int),
            forall|i: int| 0 <= i < tokens@.len() ==> (#[trigger] tokens@[i])@.len()
                <= body@.len(),
        decreases body@.len() - start,
    {
        let ghost done = views_of(tokens@);
        match find_comma(body, start) {
            Some(j) => {
                let tok = copy_range(body, start, j);
                tokens.push(tok);
                proof {
                    assert(views_of(tokens@) =~= done.push(body@.subrange(
                        start as int,
                        j as int,
                    )));
                    assert(views_of(tokens@) + split_from(body@, j as int + 1) =~= done + (seq![
                        body@.subrange(start as int, j as int),
                    ] + split_from(body@, j as int + 1)));
                }
                start = j + 1;
            },
            None => {
                let tok = copy_range(body, start, body.len());
                tokens.push(tok);
                proof {
                    assert(views_of(tokens@) =~= done.push(body@.subrange(
                        start as int,
                        body@.len() as int,
                    )));
                    assert(views_of(tokens@) =~= done + seq![
                        body@.subrange(start as int, body@.len() as int),
                    ]);
                }
                return tokens;
            },
        }
    }
}

/// A prefix of a digit string never exceeds the whole string's value.
proof fn lemma_dec_val_mono(s: Seq<char>, i: int)
    requires
        0 <= i <= s.len(),
    ensures
        dec_val(s.subrange(0, i)) <= dec_val(s),
    decreases s.len(),
{
    if i == s.len() {
        assert(s.subrange(0, i) =~= s);
    } else {
        assert(s.drop_last().subrange(0, i) =~= s.subrange(0, i));
        lemma_dec_val_mono(s.drop_last(), i);
    }
}

/// Parses a decimal integer field of at most `max`.
fn parse_decimal(v: &Vec<char>, max: u64) -> (r: Option<u64>)
    ensures
        r == parse_dec_model(v@, max),
{
    if v.len() == 0 {
        return None;
    }
    let mut acc: u64 = 0;
    let mut i: usize = 0;
    while i < v.len()
        invariant
            i <= v@.len(),
            v@.len() > 0,
            all_digits(v@.subrange(0, i as int)),
            acc == dec_val(v@.subrange(0, i as int)),
            acc <= max,
        decreases v@.len() - i,
    {
        let cu = v[i] as u32;
        if cu < 48 || cu > 57 {
            return None;
        }
        proof {
            assert(v@.subrange(0, i as int + 1).drop_last() =~= v@.subrange(0, i as int));
        }
        let d = (cu - 48) as u64;
        let wide = (acc as u128) * 10 + (d as u128);
        if wide > max as u128 {
            proof {
                lemma_dec_val_mono(v@, i as int + 1);
            }
            return None;
        }
        acc = wide as u64;
        i = i + 1;
    }
    proof {
        assert(v@.subrange(0, v@.len() as int) =~= v@);
    }
    Some(acc)
}

// ---------------------------------------------------------------------
// The AIS path
// ---------------------------------------------------------------------
/// Decodes the body of a `!VDM`/`!VDO` sentence, consulting and updating
/// the reassembly store as the fragment policy directs.
fn decode_ais(body: &Vec<char>, station: Station, own_vessel: bool, nmea_store: &mut NmeaStore)
    -> (r: Result<ParsedSentence, ParseError>)
    requires
        old(nmea_store).wf(),
        body@.len() <= MAX_SENTENCE_CHARS,
    ensures
        final(nmea_store).wf(),
        ({
            let (out, pending) = ais_body_model(body@, station, own_vessel, old(nmea_store)@);
            result_model(r) == out && final(nmea_store)@ == pending
        }),
{
    let tokens = split_tokens(body);
    let ghost fields = split_from(body@, 0);
    let frag_count: u8 = if tokens.len() > 1 {
        match parse_decimal(&tokens[1], 255) {
            Some(x) => x as u8,
            None => {
                return Err(
                    ParseError::FieldParseFailed {
                        field: AisField::FragmentCount,
                        raw: chars_to_string(&tokens[1]),
                    },
                );
            },
        }
    } else {
        0
    };
    let frag_number: u8 = if tokens.len() > 2 {
        match parse_decimal(&tokens[2], 255) {
            Some(x) => x as u8,
            None => {
                return Err(
                    ParseError::FieldParseFailed {
                        field: AisField::FragmentNumber,
                        raw: chars_to_string(&tokens[2]),
                    },
                );
            },
        }
    } else {
        0
    };
    let message_id: Option<u64> = if tokens.len() > 3 {
        parse_decimal(&tokens[3], u64::MAX)
    } else {
        None
    };
    let channel: String = if tokens.len() > 4 {
        chars_to_string(&tokens[4])
    } else {
        String::new()
    };
    let payload: Vec<char> = if tokens.len() > 5 {
        copy_range(&tokens[5], 0, tokens[5].len())
    } else {
        Vec::new()
    };
    proof {
        assert(payload@ == (if fields.len() > 5 {
            fields[5]
        } else {
            Seq::<char>::empty()
        }));
        assert(channel@ == (if fields.len() > 4 {
            fields[4]
        } else {
            Seq::<char>::empty()
        }));
    }
    if frag_count == 1 {
        match parse_payload(&payload) {
            Ok(bv) => crate::ais::dispatch(&bv, station, own_vessel),
            Err(e) => Err(e),
        }
    } else if frag_count == 2 {
        match message_id {
            None => Ok(ParsedSentence::Incomplete),
            Some(mid) => {
                if frag_number == 1 {
                    let key2 = ReassemblyKey {
                        own_vessel,
                        message_id: mid,
                        fragment_count: 2,
                        fragment_number: 2,
                        channel: channel.clone(),
                    };
                    proof {
                        assert(key2@ =~= frag_key(own_vessel, mid, 2, channel@));
                    }
                    match nmea_store.take(&key2) {
                        Some(stored) => {
                            let stored_chars = str_chars(stored.as_str());
                            let combined = concat_chars(&payload, &stored_chars);
                            match parse_payload(&combined) {
                                Ok(bv) => crate::ais::dispatch(&bv, station, own_vessel),
                                Err(e) => Err(e),
                            }
                        },
                        None => {
                            let key1 = ReassemblyKey {
                                own_vessel,
                                message_id: mid,
                                fragment_count: 2,
                                fragment_number: 1,
                                channel,
                            };
                            proof {
                                assert(key1@ =~= frag_key(own_vessel, mid, 1, channel@));
                            }
                            nmea_store.put(key1, chars_to_string(&payload));
                            Ok(ParsedSentence::Incomplete)
                        },
                    }
                } else if frag_number == 2 {
                    let key1 = ReassemblyKey {
                        own_vessel,
                        message_id: mid,
                        fragment_count: 2,
                        fragment_number: 1,
                        channel: channel.clone(),
                    };
                    proof {
                        assert(key1@ =~= frag_key(own_vessel, mid, 1, channel@));
                    }
                    match nmea_store.take(&key1) {
                        Some(stored) => {
                            let stored_chars = str_chars(stored.as_str());
                            let combined = concat_chars(&stored_chars, &payload);
                            match parse_payload(&combined) {
                                Ok(bv) => crate::ais::dispatch(&bv, station, own_vessel),
                                Err(e) => Err(e),
                            }
                        },
                        None => {
                            let key2 = ReassemblyKey {
                                own_vessel,
                                message_id: mid,
                                fragment_count: 2,
                                fragment_number: 2,
                                channel,
                            };
                            proof {
                                assert(key2@ =~= frag_key(own_vessel, mid, 2, channel@));
                            }
                            nmea_store.put(key2, chars_to_string(&payload));
                            Ok(ParsedSentence::Incomplete)
                        },
                    }
                } else {
                    Ok(ParsedSentence::Incomplete)
                }
            },
        }
    } else {
        Ok(ParsedSentence::Incomplete)
    }
}

// ---------------------------------------------------------------------
// The public entry point
// ---------------------------------------------------------------------
/// Decodes one NMEA 0183 sentence: validates and strips the checksum,
/// tokenizes the header, routes GNSS sentences, and decodes AIS payloads,
/// reassembling two-fragment transmissions through the caller's store.
///
/// The result and the store afterwards are exactly what `decode_model`
/// says of the sentence text and the store's prior contents.
pub fn decode_sentence(sentence: &str, nmea_store: &mut NmeaStore) -> (r: Result<
    ParsedSentence,
    ParseError,
>)
    requires
        old(nmea_store).wf(),
        sentence@.len() <= MAX_SENTENCE_CHARS,
    ensures
        final(nmea_store).wf(),
        ({
            let (out, pending) = decode_model(sentence@, old(nmea_store)@);
            result_model(r) == out && final(nmea_store)@ == pending
        }),
{
    let chars = str_chars(sentence);
    let (body, given): (Vec<char>, Vec<char>) = match find_last_star(&chars) {
        Some(p) => (copy_range(&chars, 0, p), copy_range(&chars, p + 1, chars.len())),
        None => (copy_range(&chars, 0, chars.len()), Vec::new()),
    };
    proof {
        assert(chars@.subrange(0, chars@.len() as int) =~= chars@);
        assert(body@ == sentence_body(sentence@));
        assert(given@ == sentence_given_hex(sentence@));
    }
    let cs = compute_checksum(&body);
    let ok: bool = if given.len() == 0 {
        true
    } else if given.len() == 2 {
        let d0 = hex_char(cs / 16);
        let d1 = hex_char(cs % 16);
        given[0] == d0 && given[1] == d1
    } else {
        false
    };
    if !ok {
        return Err(ParseError::ChecksumMismatch);
    }
    let p = match find_comma(&body, 0) {
        Some(p) => p,
        None => {
            return Err(ParseError::InvalidFormat);
        },
    };
    if p < 1 {
        return Err(ParseError::InvalidFormat);
    }
    let c0 = body[0];
    if c0 == '$' {
        if p != 6 {
            return Err(ParseError::InvalidFormat);
        }
        let kind_opt: Option<GnssKind> = {
            let a = body[3];
            let b = body[4];
            let c = body[5];
            if a == 'G' && b == 'G' && c == 'A' {
                Some(GnssKind::Gga)
            } else if a == 'R' && b == 'M' && c == 'C' {
                Some(GnssKind::Rmc)
            } else if a == 'G' && b == 'S' && c == 'A' {
                Some(GnssKind::Gsa)
            } else if a == 'G' && b == 'S' && c == 'V' {
                Some(GnssKind::Gsv)
            } else if a == 'V' && b == 'T' && c == 'G' {
                Some(GnssKind::Vtg)
            } else if a == 'G' && b == 'L' && c == 'L' {
                Some(GnssKind::Gll)
            } else {
                None
            }
        };
        match kind_opt {
            Some(kind) => {
                let c1 = body[1];
                let c2 = body[2];
                let system = if c1 == 'G' && c2 == 'N' {
                    NavigationSystem::Combination
                } else if c1 == 'G' && c2 == 'P' {
                    NavigationSystem::Gps
                } else if c1 == 'G' && c2 == 'L' {
                    NavigationSystem::Glonass
                } else if c1 == 'G' && c2 == 'A' {
                    NavigationSystem::Galileo
                } else if c1 == 'B' && c2 == 'D' {
                    NavigationSystem::Beidou
                } else if c1 == 'G' && c2 == 'I' {
                    NavigationSystem::Navic
                } else if c1 == 'Q' && c2 == 'Z' {
                    NavigationSystem::Qzss
                } else {
                    NavigationSystem::Other
                };
                Ok(ParsedSentence::GnssPending { kind, system, body: chars_to_string(&body) })
            },
            None => Err(
                ParseError::UnsupportedSentence { header: chars_to_string(&copy_range(&body, 0, 6)) },
            ),
        }
    } else if c0 == '!' {
        if p != 6 {
            return Err(ParseError::InvalidFormat);
        }
        if body[3] == 'V' && body[4] == 'D' && (body[5] == 'M' || body[5] == 'O') {
            let own_vessel = body[5] == 'O';
            let c1 = body[1];
            let c2 = body[2];
            let station = if c1 == 'A' && c2 == 'B' {
                Station::BaseAisStation
            } else if c1 == 'A' && c2 == 'D' {
                Station::DependentAisBaseStation
            } else if c1 == 'A' && c2 == 'I' {
                Station::MobileAisStation
            } else if c1 == 'A' && c2 == 'N' {
                Station::AidToNavigationAisStation
            } else if c1 == 'A' && c2 == 'R' {
                Station::AisReceivingStation
            } else if c1 == 'A' && c2 == 'S' {
                Station::LimitedBaseStation
            } else if c1 == 'A' && c2 == 'T' {
                Station::AisTransmittingStation
            } else if c1 == 'A' && c2 == 'X' {
                Station::RepeaterAisStation
            } else {
                Station::Other
            };
            decode_ais(&body, station, own_vessel, nmea_store)
        } else {
            Err(ParseError::UnsupportedSentence { header: chars_to_string(&copy_range(&body, 0, 6)) })
        }
    } else {
        Err(
            ParseError::UnsupportedSentence {
                header: chars_to_string(&copy_range(&body, 0, p)),
            },
        )
    }
}

} // verus!
