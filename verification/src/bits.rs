//! Packed bit vectors and the fixed-width field extractor.
//!
//! An AIS payload is decoded into a `bitvec` bit vector; the extractor reads
//! unsigned and signed fields of up to 64 bits, MSB-first. A read that runs
//! past the end of the vector yields zero: transmitters routinely truncate
//! payloads, and upstream sentinel checks absorb the zeros.

use vstd::prelude::*;
use vstd::arithmetic::power2::*;

verus! {

/// The bit container used for AIS payloads; it carries a `bitvec` bit
/// vector, which Verus sees only through `bv_bits` and the wrappers below.
#[verifier::external_body]
pub struct PayloadBits {
    inner: bitvec::vec::BitVec<usize, bitvec::order::Lsb0>,
}

/// The sequence of bits a payload bit vector holds, in order.
pub uninterp spec fn bv_bits(bv: PayloadBits) -> Seq<bool>;

/// Relies on `BitVec::new`: a freshly created bit-vector holds no bits.
#[verifier::external_body]
pub fn bv_new() -> (r: PayloadBits)
    ensures
        bv_bits(r) == Seq::<bool>::empty(),
{
    PayloadBits { inner: bitvec::vec::BitVec::new() }
}

/// Relies on `BitVec::push`: appends one bit at the back; it panics only
/// when the new length would exceed the container's maximum, which the
/// precondition keeps far away.
#[verifier::external_body]
pub fn bv_push(bv: &mut PayloadBits, b: bool)
    requires
        bv_bits(*old(bv)).len() < usize::MAX as nat / 16,
    ensures
        bv_bits(*final(bv)) == bv_bits(*old(bv)).push(b),
{
    bv.inner.push(b);
}

/// Relies on `BitVec::len`: the number of bits held.
#[verifier::external_body]
pub fn bv_len(bv: &PayloadBits) -> (r: usize)
    ensures
        r == bv_bits(*bv).len(),
{
    bv.inner.len()
}

/// Relies on indexing a bit-slice: yields the bit at that position.
#[verifier::external_body]
pub fn bv_get(bv: &PayloadBits, i: usize) -> (r: bool)
    requires
        i < bv_bits(*bv).len(),
    ensures
        r == bv_bits(*bv)[i as int],
{
    bv.inner[i]
}

/// The unsigned integer a bit sequence denotes, first bit most significant.
pub open spec fn bits_to_nat(s: Seq<bool>) -> nat
    decreases s.len(),
{
    if s.len() == 0 {
        0
    } else {
        2 * bits_to_nat(s.drop_last()) + (if s.last() {
            1nat
        } else {
            0nat
        })
    }
}

/// The unsigned field of `width` bits at `offset`; zero when the range
/// runs past the end of the bit sequence.
pub open spec fn extract_u(bits: Seq<bool>, offset: nat, width: nat) -> nat {
    if offset + width <= bits.len() {
        bits_to_nat(bits.subrange(offset as int, (offset + width) as int))
    } else {
        0
    }
}

/// The signed field of `width` bits at `offset`: the unsigned value,
/// sign-extended from bit `width - 1`. Zero when the range runs past the end.
pub open spec fn extract_i(bits: Seq<bool>, offset: nat, width: nat) -> int {
    let u = extract_u(bits, offset, width);
    if width > 0 && u >= pow2((width - 1) as nat) {
        u - pow2(width)
    } else {
        u as int
    }
}

pub proof fn lemma_bits_to_nat_bound(s: Seq<bool>)
    ensures
        bits_to_nat(s) < pow2(s.len()),
    decreases s.len(),
{
    if s.len() == 0 {
        lemma_pow2_pos(0);
    } else {
        lemma_bits_to_nat_bound(s.drop_last());
        lemma_pow2_unfold(s.len());
    }
}

/// Every extracted unsigned field is below `pow2` of its width.
pub proof fn lemma_extract_u_bound(bits: Seq<bool>, offset: nat, width: nat)
    ensures
        extract_u(bits, offset, width) < pow2(width),
{
    if offset + width <= bits.len() {
        lemma_bits_to_nat_bound(bits.subrange(offset as int, (offset + width) as int));
    } else {
        lemma_pow2_pos(width);
    }
}

/// Every extracted signed field lies in the signed range of its width.
pub proof fn lemma_extract_i_bound(bits: Seq<bool>, offset: nat, width: nat)
    requires
        width >= 1,
    ensures
        -(pow2((width - 1) as nat) as int) <= extract_i(bits, offset, width) < pow2(
            (width - 1) as nat,
        ),
{
    lemma_extract_u_bound(bits, offset, width);
    lemma_pow2_unfold(width);
    lemma_pow2_pos((width - 1) as nat);
}

/// 2 to the `e`, computed; `e` below 64.
pub fn pow2_u64(e: usize) -> (r: u64)
    requires
        e < 64,
    ensures
        r == pow2(e as nat),
{
    proof {
        lemma2_to64();
    }
    let mut r: u64 = 1;
    let mut i: usize = 0;
    while i < e
        invariant
            i <= e,
            e < 64,
            r == pow2(i as nat),
        decreases e - i,
    {
        proof {
            lemma_pow2_unfold((i + 1) as nat);
            lemma_pow2_strictly_increases(i as nat + 1, 64);
        }
        r = r * 2;
        i = i + 1;
    }
    r
}

/// Reads `width` bits starting at `offset`, MSB-first, zero-extended;
/// zero when the requested range extends past the end of the vector.
pub fn pick_u64(bv: &PayloadBits, offset: usize, width: usize) -> (r: u64)
    requires
        1 <= width <= 64,
    ensures
        r == extract_u(bv_bits(*bv), offset as nat, width as nat),
{
    let n = bv_len(bv);
    if offset > n || width > n - offset {
        return 0;
    }
    let ghost bits = bv_bits(*bv);
    proof {
        lemma2_to64();
    }
    let mut res: u64 = 0;
    let mut i: usize = 0;
    while i < width
        invariant
            i <= width,
            1 <= width <= 64,
            offset + width <= bits.len(),
            bits == bv_bits(*bv),
            res == bits_to_nat(bits.subrange(offset as int, offset + i)),
            res < pow2(i as nat),
        decreases width - i,
    {
        proof {
            lemma_pow2_unfold(i as nat + 1);
            if i as nat + 1 < 64 {
                lemma_pow2_strictly_increases(i as nat + 1, 64);
            }
            lemma2_to64();
            assert(bits.subrange(offset as int, offset + i + 1).drop_last() =~= bits.subrange(
                offset as int,
                offset + i,
            ));
            assert(bits.subrange(offset as int, offset + i + 1).last() == bits[offset + i]);
        }
        let b = bv_get(bv, offset + i);
        res = res * 2 + (if b {
            1
        } else {
            0
        });
        i = i + 1;
    }
    proof {
        assert(bits.subrange(offset as int, offset + width) =~= bits.subrange(
            offset as int,
            (offset + width) as int,
        ));
    }
    res
}

/// Reads `width` bits starting at `offset` and sign-extends from bit
/// `width - 1`; zero when the range extends past the end of the vector.
pub fn pick_i64(bv: &PayloadBits, offset: usize, width: usize) -> (r: i64)
    requires
        1 <= width <= 64,
    ensures
        r as int == extract_i(bv_bits(*bv), offset as nat, width as nat),
{
    let u = pick_u64(bv, offset, width);
    proof {
        lemma_extract_u_bound(bv_bits(*bv), offset as nat, width as nat);
        lemma2_to64();
        lemma2_to64_rest();
    }
    if width == 64 {
        if u >= 0x8000_0000_0000_0000 {
            if u == 0x8000_0000_0000_0000 {
                i64::MIN
            } else {
                -(((u64::MAX - u) + 1) as i64)
            }
        } else {
            u as i64
        }
    } else {
        let half = pow2_u64(width - 1);
        proof {
            lemma_pow2_unfold(width as nat);
            lemma_pow2_strictly_increases((width - 1) as nat, 63);
            lemma_pow2_strictly_increases(width as nat, 64);
        }
        if u >= half {
            -((2 * half - u) as i64)
        } else {
            u as i64
        }
    }
}

} // verus!
