//! Deriving the reference watermark: a cryptographic digest of the claimed
//! payload, expanded into bits most-significant-bit first and truncated to a
//! fixed length.

use vstd::prelude::*;

use sha2::Digest;
use sha2::Sha256;

verus! {

/// The SHA-256 digest of a byte string: 32 bytes, a pure function of the
/// input. Its value is not modelled here; `sha256` is the only source of it.
pub uninterp spec fn sha256_of(bytes: Seq<u8>) -> Seq<u8>;

/// Relies on sha2::Sha256 through the Digest trait: the 32-byte SHA-256
/// digest of the input bytes, depending on those bytes alone.
#[verifier::external_body]
fn sha256(payload: &[u8]) -> (r: Vec<u8>)
    ensures
        r@ == sha256_of(payload@),
        r@.len() == 32,
{
    let mut hasher = Sha256::new();
    hasher.update(payload);
    hasher.finalize().to_vec()
}

/// Bit `j` of a byte, counting from the most significant: bit 0 is the top
/// bit, bit 7 the bottom one.
pub open spec fn byte_bit(b: u8, j: int) -> u8 {
    (b >> ((7 - j) as u8)) & 1
}

/// A byte string expanded into bits, each byte most-significant-bit first,
/// bytes in order.
pub open spec fn bits_of(bytes: Seq<u8>) -> Seq<u8> {
    Seq::new(bytes.len() * 8, |i: int| byte_bit(bytes[i / 8], i % 8))
}

/// Expands a byte string into its bit sequence, each byte
/// most-significant-bit first, truncated to the first `bit_count` bits.
pub fn expand_bits(bytes: &Vec<u8>, bit_count: usize) -> (r: Vec<u8>)
    requires
        bit_count <= bytes@.len() * 8,
    ensures
        r@ == bits_of(bytes@).take(bit_count as int),
{
    let mut bits: Vec<u8> = Vec::new();
    let mut i: usize = 0;
    while i < bit_count
        invariant
            i <= bit_count,
            bit_count <= bytes@.len() * 8,
            bits@ == bits_of(bytes@).take(i as int),
        decreases bit_count - i,
    {
        assert(i / 8 < bytes@.len() && i % 8 < 8);
        let byte = bytes[i / 8];
        let shift: u8 = (7 - (i % 8)) as u8;
        let bit: u8 = (byte >> shift) & 1;
        bits.push(bit);
        i = i + 1;
        proof {
            assert(bits@ =~= bits_of(bytes@).take(i as int));
        }
    }
    proof {
        assert(bits@ =~= bits_of(bytes@).take(bit_count as int));
    }
    bits
}

/// The reference watermark of a payload: the first 45 bits of the
/// most-significant-bit-first expansion of its SHA-256 digest.
pub open spec fn reference_bits(payload: Seq<u8>) -> Seq<u8> {
    bits_of(sha256_of(payload)).take(45)
}

/// Derivation is deterministic: two results of `derive` for the same payload
/// and the same bit count are the same bit sequence, since each equals one
/// spec expression over the payload alone.
pub proof fn lemma_derive_deterministic(r1: Seq<u8>, r2: Seq<u8>, payload: Seq<u8>, bit_count: int)
    requires
        r1 == bits_of(sha256_of(payload)).take(bit_count),
        r2 == bits_of(sha256_of(payload)).take(bit_count),
    ensures
        r1 == r2,
{
}

/// A shorter derivation is a prefix of a longer one: the first `k` bits of
/// the first `m` bits of a digest expansion are the first `k` bits of it.
pub proof fn lemma_derive_prefix(digest: Seq<u8>, k: int, m: int)
    requires
        0 <= k <= m <= digest.len() * 8,
    ensures
        bits_of(digest).take(m).take(k) == bits_of(digest).take(k),
{
    assert(bits_of(digest).take(m).take(k) =~= bits_of(digest).take(k));
}

/// Derives the reference watermark of a payload: hashes the payload's raw
/// bytes and keeps the first `bit_count` bits of the digest's
/// most-significant-bit-first expansion. Deterministic: the result depends
/// on the payload and the count alone.
pub fn derive(payload: &[u8], bit_count: usize) -> (r: Vec<u8>)
    requires
        bit_count <= 256,
    ensures
        r@ == bits_of(sha256_of(payload@)).take(bit_count as int),
{
    let digest = sha256(payload);
    expand_bits(&digest, bit_count)
}

} // verus!
