use vstd::prelude::*;
use vstd::arithmetic::div_mod::lemma_small_mod;
use crate::base58::{base58_decode, decode_base58, is_base58};
use crate::digest::{byte_sum, digest_byte_sum, hex_lower, lemma_byte_sum_bound, sha256, sha256_of, to_hex, DIGEST_LEN};
use crate::material::{digest_material, material_of, BLOCKHASH_LEN};

verus! {

/// Largest byte sum of a 32-byte digest (32 * 255).
pub const MAX_DIGEST_SUM: u64 = 8160;

/// Intermediate values of one verification, for an auditor to cross-check.
#[derive(Debug, Clone)]
pub struct VerifyDebug {
    pub decoded_len: usize,
    pub digest_hex: String,
    pub digest_sum_u64: u64,
    pub modulus: u64,
}

/// Outcome of a successful verification.
#[derive(Debug, Clone)]
pub struct VerifyResult {
    pub winning_number: u64,
    pub debug: VerifyDebug,
}

/// Why a verification was refused.
#[derive(Debug, Clone, PartialEq, Eq, Structural)]
pub enum VerifyError {
    /// The modulus is zero.
    InvalidModulus,
    /// The block hash text holds a character outside the base58 alphabet.
    InvalidEncoding,
    /// The block hash decodes to this many bytes instead of 32.
    InvalidLength(usize),
}

/// Mathematical view of a [`VerifyResult`].
pub struct VerifyModel {
    pub winning_number: u64,
    pub decoded_len: usize,
    pub digest_hex: Seq<char>,
    pub digest_sum: u64,
    pub modulus: u64,
}

impl View for VerifyResult {
    type V = VerifyModel;

    open spec fn view(&self) -> VerifyModel {
        VerifyModel {
            winning_number: self.winning_number,
            decoded_len: self.debug.decoded_len,
            digest_hex: self.debug.digest_hex@,
            digest_sum: self.debug.digest_sum_u64,
            modulus: self.debug.modulus,
        }
    }
}

/// View of a verification outcome.
pub open spec fn outcome_view(r: Result<VerifyResult, VerifyError>) -> Result<VerifyModel, VerifyError> {
    match r {
        Ok(v) => Ok(v@),
        Err(e) => Err(e),
    }
}

/// What a verification reports for a given digest, decoded length and modulus.
pub open spec fn model_of_digest(decoded_len: usize, d: Seq<u8>, modulus: u64) -> VerifyModel
    recommends
        modulus > 0,
{
    VerifyModel {
        winning_number: (byte_sum(d) % (modulus as nat)) as u64,
        decoded_len,
        digest_hex: hex_lower(d),
        digest_sum: byte_sum(d) as u64,
        modulus,
    }
}

/// The outcome of verifying `slot`, the base58 text `s` and `modulus`.
pub open spec fn verify_spec(slot: u64, s: Seq<char>, modulus: u64) -> Result<VerifyModel, VerifyError> {
    if modulus == 0 {
        Err(VerifyError::InvalidModulus)
    } else if !is_base58(s) {
        Err(VerifyError::InvalidEncoding)
    } else if base58_decode(s).len() != BLOCKHASH_LEN {
        Err(VerifyError::InvalidLength(base58_decode(s).len() as usize))
    } else {
        Ok(model_of_digest(BLOCKHASH_LEN, sha256_of(material_of(slot, base58_decode(s))), modulus))
    }
}

/// Reduces a digest to the reported result: the winning number is the digest's
/// byte sum modulo `modulus`.
pub fn result_from_digest(decoded_len: usize, digest: &Vec<u8>, modulus: u64) -> (r: VerifyResult)
    requires
        digest@.len() == DIGEST_LEN,
        modulus > 0,
    ensures
        r@ == model_of_digest(decoded_len, digest@, modulus),
        r.debug.digest_hex@.len() == 2 * DIGEST_LEN,
        r.debug.digest_sum_u64 == byte_sum(digest@),
        r.winning_number == r.debug.digest_sum_u64 % modulus,
        r.winning_number < modulus,
        r.debug.digest_sum_u64 <= MAX_DIGEST_SUM,
        modulus > MAX_DIGEST_SUM ==> r.winning_number == r.debug.digest_sum_u64,
{
    let total = digest_byte_sum(digest);
    let winning_number = total % modulus;
    proof {
        if modulus > MAX_DIGEST_SUM {
            lemma_small_mod(total as nat, modulus as nat);
        }
    }
    let digest_hex = to_hex(digest);
    VerifyResult {
        winning_number,
        debug: VerifyDebug { decoded_len, digest_hex, digest_sum_u64: total, modulus },
    }
}

/// Re-derives the winning number for `slot` and the base58 block hash
/// `blockhash_base58`, reduced modulo `range`.
pub fn verify_from_slot_and_blockhash(slot: u64, blockhash_base58: &str, range: u64) -> (r: Result<
    VerifyResult,
    VerifyError,
>)
    ensures
        outcome_view(r) == verify_spec(slot, blockhash_base58@, range),
        range == 0 ==> r == Err::<VerifyResult, VerifyError>(VerifyError::InvalidModulus),
        range > 0 && !is_base58(blockhash_base58@) ==> r == Err::<VerifyResult, VerifyError>(
            VerifyError::InvalidEncoding,
        ),
        range > 0 && is_base58(blockhash_base58@) && base58_decode(blockhash_base58@).len()
            != BLOCKHASH_LEN ==> r == Err::<VerifyResult, VerifyError>(
            VerifyError::InvalidLength(base58_decode(blockhash_base58@).len() as usize),
        ),
        range > 0 && is_base58(blockhash_base58@) && base58_decode(blockhash_base58@).len()
            == BLOCKHASH_LEN ==> r is Ok,
        r matches Ok(v) ==> v.winning_number < range && v.debug.digest_sum_u64 <= MAX_DIGEST_SUM,
        r matches Ok(v) ==> v.debug.digest_hex@.len() == 2 * DIGEST_LEN && v.debug.digest_sum_u64
            == byte_sum(sha256_of(material_of(slot, base58_decode(blockhash_base58@))))
            && v.winning_number == v.debug.digest_sum_u64 % range,
        r matches Ok(v) ==> (range > MAX_DIGEST_SUM ==> v.winning_number == v.debug.digest_sum_u64),
{
    if range == 0 {
        return Err(VerifyError::InvalidModulus);
    }
    let blockhash_bytes = match decode_base58(blockhash_base58) {
        Ok(b) => b,
        Err(_) => {
            return Err(VerifyError::InvalidEncoding);
        },
    };
    if blockhash_bytes.len() != BLOCKHASH_LEN {
        return Err(VerifyError::InvalidLength(blockhash_bytes.len()));
    }
    let material = digest_material(slot, &blockhash_bytes);
    let digest = sha256(&material);
    proof {
        lemma_byte_sum_bound(digest@);
    }
    Ok(result_from_digest(blockhash_bytes.len(), &digest, range))
}

/// For every valid 32-byte block hash and every positive modulus the
/// verification succeeds, and its winning number lies in `[0, modulus)`.
pub proof fn lemma_winning_number_in_range(slot: u64, s: Seq<char>, modulus: u64)
    requires
        modulus > 0,
        is_base58(s),
        base58_decode(s).len() == BLOCKHASH_LEN,
    ensures
        verify_spec(slot, s, modulus) is Ok,
        verify_spec(slot, s, modulus)->Ok_0.winning_number < modulus,
{
}

/// Two verifications of the same slot, block hash and modulus give the same
/// outcome, digest hex and byte sum included.
pub proof fn lemma_verify_deterministic(
    slot: u64,
    s: &str,
    modulus: u64,
    r1: Result<VerifyResult, VerifyError>,
    r2: Result<VerifyResult, VerifyError>,
)
    requires
        outcome_view(r1) == verify_spec(slot, s@, modulus),
        outcome_view(r2) == verify_spec(slot, s@, modulus),
    ensures
        outcome_view(r1) == outcome_view(r2),
        r1 is Ok <==> r2 is Ok,
        r1 matches Ok(v1) ==> (r2 matches Ok(v2) ==> v1.winning_number == v2.winning_number
            && v1.debug.digest_hex@ == v2.debug.digest_hex@ && v1.debug.digest_sum_u64
            == v2.debug.digest_sum_u64),
        r1 matches Err(e1) ==> r2 == Err::<VerifyResult, VerifyError>(e1),
{
}

/// A digest's byte sum, as reported for any 32-byte digest, never exceeds
/// 32 * 255.
pub proof fn lemma_digest_sum_bound(d: Seq<u8>)
    requires
        d.len() == DIGEST_LEN,
    ensures
        byte_sum(d) <= MAX_DIGEST_SUM,
{
    lemma_byte_sum_bound(d);
}

} // verus!
