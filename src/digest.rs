use vstd::prelude::*;
use sha2::Digest;

verus! {

/// Number of bytes in a SHA-256 digest.
pub const DIGEST_LEN: usize = 32;

/// The SHA-256 digest of a byte sequence.
pub uninterp spec fn sha256_of(m: Seq<u8>) -> Seq<u8>;

/// Relies on `<sha2::Sha256 as Digest>::digest`: the digest depends on the
/// message bytes alone and is 32 bytes long.
#[verifier::external_body]
pub(crate) fn sha256(m: &Vec<u8>) -> (r: Vec<u8>)
    ensures
        r@ == sha256_of(m@),
        r@.len() == DIGEST_LEN,
{
    sha2::Sha256::digest(m.as_slice()).to_vec()
}

/// Lowercase hexadecimal digit for `n < 16`.
pub open spec fn hex_digit(n: u8) -> char {
    if n < 10 {
        (('0' as u8) + n) as char
    } else {
        (('a' as u8) + n - 10) as char
    }
}

/// Lowercase hex text of `b`: two digits per byte, high nibble first.
pub open spec fn hex_lower(b: Seq<u8>) -> Seq<char> {
    Seq::new(
        2 * b.len(),
        |i: int|
            if i % 2 == 0 {
                hex_digit(b[i / 2] / 16)
            } else {
                hex_digit(b[i / 2] % 16)
            },
    )
}

/// Relies on `hex::encode`: two lowercase digits per byte, high nibble first.
#[verifier::external_body]
pub(crate) fn to_hex(b: &Vec<u8>) -> (r: String)
    ensures
        r@ == hex_lower(b@),
{
    hex::encode(b)
}

/// Sum of the bytes of `s`, each read as an unsigned number.
pub open spec fn byte_sum(s: Seq<u8>) -> nat
    decreases s.len(),
{
    if s.len() == 0 {
        0
    } else {
        byte_sum(s.drop_last()) + s.last() as nat
    }
}

/// The byte sum of `s` is at most 255 per byte.
pub proof fn lemma_byte_sum_bound(s: Seq<u8>)
    ensures
        byte_sum(s) <= 255 * s.len(),
    decreases s.len(),
{
    if s.len() > 0 {
        lemma_byte_sum_bound(s.drop_last());
    }
}

/// Sums the bytes of a digest.
pub fn digest_byte_sum(d: &Vec<u8>) -> (r: u64)
    requires
        d@.len() <= DIGEST_LEN,
    ensures
        r == byte_sum(d@),
        r <= 255 * d@.len(),
{
    let mut total: u64 = 0;
    let mut i: usize = 0;
    while i < d.len()
        invariant
            i <= d@.len(),
            d@.len() <= DIGEST_LEN,
            total == byte_sum(d@.take(i as int)),
            total <= 255 * i,
        decreases d@.len() - i,
    {
        assert(d@.take(i as int + 1).drop_last() == d@.take(i as int));
        total = total + d[i] as u64;
        i = i + 1;
    }
    assert(d@.take(d@.len() as int) == d@);
    total
}

} // verus!
