use vstd::prelude::*;

verus! {

#[verifier::external_type_specification]
#[verifier::external_body]
pub struct ExDecodeError(bs58::decode::Error);

/// Value of a character in the Bitcoin base58 alphabet
/// `123456789ABCDEFGHJKLMNPQRSTUVWXYZabcdefghijkmnopqrstuvwxyz`,
/// or `None` for a character outside it.
pub open spec fn base58_digit(c: char) -> Option<nat> {
    if '1' <= c && c <= '9' {
        Some((c as nat - '1' as nat) as nat)
    } else if 'A' <= c && c <= 'H' {
        Some((c as nat - 'A' as nat + 9) as nat)
    } else if 'J' <= c && c <= 'N' {
        Some((c as nat - 'J' as nat + 17) as nat)
    } else if 'P' <= c && c <= 'Z' {
        Some((c as nat - 'P' as nat + 22) as nat)
    } else if 'a' <= c && c <= 'k' {
        Some((c as nat - 'a' as nat + 33) as nat)
    } else if 'm' <= c && c <= 'z' {
        Some((c as nat - 'm' as nat + 44) as nat)
    } else {
        None
    }
}

/// Every character of `s` belongs to the base58 alphabet.
pub open spec fn is_base58(s: Seq<char>) -> bool {
    forall|i: int| 0 <= i < s.len() ==> (#[trigger] base58_digit(s[i])).is_some()
}

/// The number that `s` writes in base 58, most significant digit first.
pub open spec fn base58_value(s: Seq<char>) -> nat
    decreases s.len(),
{
    if s.len() == 0 {
        0
    } else {
        base58_value(s.drop_last()) * 58 + base58_digit(s.last()).unwrap_or(0)
    }
}

/// Number of leading `'1'` characters (each stands for one zero byte).
pub open spec fn leading_ones(s: Seq<char>) -> nat
    decreases s.len(),
{
    if s.len() > 0 && s[0] == '1' {
        1 + leading_ones(s.drop_first())
    } else {
        0
    }
}

/// The shortest big-endian byte sequence that writes `v` (empty for zero).
pub open spec fn be_bytes(v: nat) -> Seq<u8>
    decreases v,
{
    if v == 0 {
        Seq::empty()
    } else {
        be_bytes(v / 256).push((v % 256) as u8)
    }
}

/// The bytes that a base58 text stands for: one zero byte per leading `'1'`,
/// then the shortest big-endian form of the text's value.
pub open spec fn base58_decode(s: Seq<char>) -> Seq<u8> {
    Seq::new(leading_ones(s), |i: int| 0u8) + be_bytes(base58_value(s))
}

/// Relies on `bs58::decode(..).into_vec()` with the default (Bitcoin) alphabet:
/// it fails exactly when a character lies outside the alphabet (a non-ASCII
/// character included), and otherwise yields one zero byte per leading `'1'`
/// followed by the minimal big-endian bytes of the text's base-58 value.
#[verifier::external_body]
pub(crate) fn decode_base58(s: &str) -> (r: Result<Vec<u8>, bs58::decode::Error>)
    ensures
        r.is_ok() == is_base58(s@),
        r matches Ok(v) ==> v@ == base58_decode(s@),
{
    bs58::decode(s).into_vec()
}

} // verus!
