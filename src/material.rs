use vstd::prelude::*;

verus! {

/// Number of raw bytes in a block hash.
pub const BLOCKHASH_LEN: usize = 32;

/// Number of bytes that encode the slot in the digest material.
pub const SLOT_LEN: usize = 8;

/// The lowest `n` bytes of `v`, least significant first.
pub open spec fn le_bytes(v: nat, n: nat) -> Seq<u8>
    decreases n,
{
    if n == 0 {
        Seq::empty()
    } else {
        seq![(v % 256) as u8] + le_bytes(v / 256, (n - 1) as nat)
    }
}

/// The exact byte sequence that is hashed: slot (little-endian) then hash bytes.
pub open spec fn material_of(slot: u64, hash: Seq<u8>) -> Seq<u8> {
    le_bytes(slot as nat, SLOT_LEN as nat) + hash
}

/// Builds the digest material for `slot` and the raw block hash bytes.
pub fn digest_material(slot: u64, blockhash: &Vec<u8>) -> (r: Vec<u8>)
    requires
        blockhash@.len() == BLOCKHASH_LEN,
    ensures
        r@ == material_of(slot, blockhash@),
        r@.len() == SLOT_LEN + BLOCKHASH_LEN,
{
    let mut out: Vec<u8> = Vec::new();
    let mut rest: u64 = slot;
    let mut i: usize = 0;
    while i < SLOT_LEN
        invariant
            i <= SLOT_LEN,
            out@.len() == i,
            out@ + le_bytes(rest as nat, (SLOT_LEN - i) as nat) == le_bytes(slot as nat, SLOT_LEN as nat),
        decreases SLOT_LEN - i,
    {
        let ghost tail = le_bytes(rest as nat / 256, (SLOT_LEN - i - 1) as nat);
        assert(le_bytes(rest as nat, (SLOT_LEN - i) as nat) == seq![(rest as nat % 256) as u8] + tail);
        out.push((rest % 256) as u8);
        rest = rest / 256;
        i = i + 1;
    }
    proof {
        assert(out@ + le_bytes(rest as nat, 0) == out@);
    }
    let mut j: usize = 0;
    while j < blockhash.len()
        invariant
            j <= blockhash@.len(),
            out@ == le_bytes(slot as nat, SLOT_LEN as nat) + blockhash@.take(j as int),
        decreases blockhash@.len() - j,
    {
        out.push(blockhash[j]);
        assert(blockhash@.take(j as int + 1) == blockhash@.take(j as int).push(blockhash@[j as int]));
        j = j + 1;
    }
    assert(blockhash@.take(blockhash@.len() as int) == blockhash@);
    out
}

} // verus!
