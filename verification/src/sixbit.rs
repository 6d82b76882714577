//! Six-bit ASCII armor: AIS payload characters to bits, and packed
//! six-bit text fields back to characters.

use vstd::prelude::*;
use vstd::arithmetic::power2::*;
use crate::bits::{
    PayloadBits, bv_bits, bv_new, bv_push, extract_u, lemma_extract_u_bound, pick_u64,
};
use crate::errors::{ErrorModel, ParseError};

verus! {

/// A character the payload armor accepts: `v = c - 48`, and when `v > 40`
/// also `v - 8`, lands in the six-bit range.
pub open spec fn armor_valid_char(c: char) -> bool {
    48 <= c as u32 <= 119
}

/// The six-bit value an armored character denotes.
pub open spec fn armor_val(c: char) -> nat {
    let v = (c as u32 - 48) as nat;
    if v > 40 {
        (v - 8) as nat
    } else {
        v
    }
}

/// Every character of the payload is an armored character.
pub open spec fn armor_valid(s: Seq<char>) -> bool {
    forall|i: int| 0 <= i < s.len() ==> armor_valid_char(s[i])
}

/// The `w` low bits of `v`, most significant first.
pub open spec fn u_to_bits(v: nat, w: nat) -> Seq<bool> {
    Seq::new(w, |k: int| v / pow2((w - 1 - k) as nat) % 2 == 1)
}

/// The bit stream an armored payload denotes: six bits per character,
/// most significant first, in payload order.
pub open spec fn armor_bits(s: Seq<char>) -> Seq<bool>
    decreases s.len(),
{
    if s.len() == 0 {
        Seq::empty()
    } else {
        u_to_bits(armor_val(s[0]), 6) + armor_bits(s.drop_first())
    }
}

pub proof fn lemma_armor_bits_len(s: Seq<char>)
    ensures
        armor_bits(s).len() == 6 * s.len(),
    decreases s.len(),
{
    if s.len() > 0 {
        lemma_armor_bits_len(s.drop_first());
    }
}

/// The armor of a concatenation is the concatenation of the armors.
pub proof fn lemma_armor_bits_concat(a: Seq<char>, b: Seq<char>)
    ensures
        armor_bits(a + b) == armor_bits(a) + armor_bits(b),
    decreases a.len(),
{
    if a.len() == 0 {
        assert(a + b =~= b);
        assert(armor_bits(a) + armor_bits(b) =~= armor_bits(b));
    } else {
        assert((a + b).drop_first() =~= a.drop_first() + b);
        lemma_armor_bits_concat(a.drop_first(), b);
        assert(armor_bits(a + b) =~= armor_bits(a) + armor_bits(b));
    }
}

/// Converts an armored ASCII payload to its bit vector; fails on any
/// character outside the armor range, leaving nothing decoded.
pub fn parse_payload(payload: &Vec<char>) -> (r: Result<PayloadBits, ParseError>)
    requires
        payload@.len() <= 2 * crate::MAX_SENTENCE_CHARS,
    ensures
        match r {
            Ok(bv) => armor_valid(payload@) && bv_bits(bv) == armor_bits(payload@),
            Err(e) => !armor_valid(payload@) && e@ == ErrorModel::PayloadDecodeFailed,
        },
{
    let mut bv = bv_new();
    let ghost s = payload@;
    let mut i: usize = 0;
    while i < payload.len()
        invariant
            i <= s.len(),
            armor_valid(s.subrange(0, i as int)),
            bv_bits(bv) == armor_bits(s.subrange(0, i as int)),
        decreases s.len() - i,
    {
        proof {
            lemma_armor_bits_len(s.subrange(0, i as int));
        }
        let c = payload[i];
        let cu = c as u32;
        if cu < 48 || cu > 119 {
            return Err(ParseError::PayloadDecodeFailed);
        }
        let mut v = (cu - 48) as u8;
        if v > 40 {
            v = v - 8;
        }
        proof {
            lemma2_to64();
            assert(v == armor_val(c));
        }
        let ghost group = u_to_bits(armor_val(c), 6);
        let mut d: u8 = 32;
        let mut j: usize = 0;
        while j < 6
            invariant
                j <= 6,
                v < 64,
                v == armor_val(c),
                d == pow2((5 - j) as nat) || j == 6,
                bv_bits(bv) == armor_bits(s.subrange(0, i as int)) + group.subrange(0, j as int),
            decreases 6 - j,
        {
            let b = (v / d) % 2 == 1;
            proof {
                assert(group[j as int] == b);
                assert((armor_bits(s.subrange(0, i as int)) + group.subrange(0, j as int)).push(b)
                    =~= armor_bits(s.subrange(0, i as int)) + group.subrange(0, j as int + 1));
            }
            bv_push(&mut bv, b);
            if j < 5 {
                d = d / 2;
                proof {
                    lemma_pow2_unfold((5 - j) as nat);
                }
            }
            j = j + 1;
        }
        proof {
            assert(group.subrange(0, 6) =~= group);
            lemma_armor_bits_concat(s.subrange(0, i as int), seq![c]);
            assert(seq![c].drop_first() =~= Seq::<char>::empty());
            assert(armor_bits(seq![c].drop_first()) == Seq::<bool>::empty());
            assert(armor_bits(seq![c]) == u_to_bits(armor_val(c), 6) + Seq::<bool>::empty());
            assert(armor_bits(seq![c]) =~= group);
            assert(s.subrange(0, i as int) + seq![c] =~= s.subrange(0, i as int + 1));
        }
        i = i + 1;
    }
    proof {
        assert(s.subrange(0, s.len() as int) =~= s);
    }
    Ok(bv)
}

/// Relies on `String`'s `FromIterator` over characters: the collected
/// string holds exactly the characters of the vector, in order.
#[verifier::external_body]
pub fn chars_to_string(v: &Vec<char>) -> (s: String)
    ensures
        s@ == v@,
{
    v.iter().collect()
}

/// The character a six-bit text value denotes: values below 32 map into
/// the upper-case block, the rest stand for themselves.
pub open spec fn sixbit_to_char(v: nat) -> char {
    if v < 32 {
        (v + 64) as char
    } else {
        v as char
    }
}

/// The raw, untrimmed characters of a six-bit text field of `n` characters
/// starting at bit `offset`.
pub open spec fn text_chars(bits: Seq<bool>, offset: nat, n: nat) -> Seq<char> {
    Seq::new(n, |k: int| sixbit_to_char(extract_u(bits, (offset + 6 * k) as nat, 6)))
}

/// Drops trailing `@` padding and trailing spaces; interior padding stays.
pub open spec fn trim_text(s: Seq<char>) -> Seq<char>
    decreases s.len(),
{
    if s.len() > 0 && (s.last() == '@' || s.last() == ' ') {
        trim_text(s.drop_last())
    } else {
        s
    }
}

/// The decoded text field: six-bit characters, trailing padding trimmed.
pub open spec fn field_text(bits: Seq<bool>, offset: nat, n: nat) -> Seq<char> {
    trim_text(text_chars(bits, offset, n))
}

/// Reads an `n`-character six-bit text field starting at bit `offset` and
/// trims trailing `@` and spaces.
pub fn pick_text(bv: &PayloadBits, offset: usize, n: usize) -> (r: Vec<char>)
    requires
        offset + 6 * n <= usize::MAX,
    ensures
        r@ == field_text(bv_bits(*bv), offset as nat, n as nat),
{
    let ghost bits = bv_bits(*bv);
    let ghost raw = text_chars(bits, offset as nat, n as nat);
    let mut v: Vec<char> = Vec::new();
    let mut i: usize = 0;
    while i < n
        invariant
            i <= n,
            v@ == raw.subrange(0, i as int),
        decreases n - i,
    {
        let g = pick_u64(bv, offset + 6 * i, 6) as u8;
        proof {
            lemma_extract_u_bound(bits, (offset + 6 * i) as nat, 6);
            lemma2_to64();
        }
        let c: char = if g < 32 {
            (g + 64) as char
        } else {
            g as char
        };
        proof {
            assert(c == raw[i as int]);
            assert(raw.subrange(0, i as int).push(c) =~= raw.subrange(0, i as int + 1));
        }
        v.push(c);
        i = i + 1;
    }
    proof {
        assert(raw.subrange(0, n as int) =~= raw);
    }
    loop
        invariant
            trim_text(v@) == trim_text(raw),
        decreases v@.len(),
    {
        if v.len() == 0 {
            break;
        }
        let c = v[v.len() - 1];
        if c == '@' || c == ' ' {
            proof {
                assert(v@.drop_last() =~= v@.subrange(0, v@.len() - 1));
            }
            v.pop();
        } else {
            break;
        }
    }
    proof {
        assert(trim_text(v@) == v@);
    }
    v
}

} // verus!
