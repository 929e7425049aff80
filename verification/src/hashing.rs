//! The content-addressing primitive: a byte sequence hashed to a fixed
//! 32-byte digest, used uniformly for addresses, transaction ids, Merkle
//! nodes and block hashes.

use vstd::prelude::*;

verus! {

/// Width of every digest, in bytes.
pub const DIGEST_LEN: usize = 32;

/// The digest that blake3 assigns to a byte sequence.
pub uninterp spec fn blake3_of(bytes: Seq<u8>) -> Seq<u8>;

/// A digest is exactly 32 bytes.
pub open spec fn is_digest(s: Seq<u8>) -> bool {
    s.len() == DIGEST_LEN
}

/// The all-zero sentinel digest: the value a digest field holds while the
/// digest over the rest of the record is being computed.
pub open spec fn zero_digest() -> Seq<u8> {
    Seq::new(DIGEST_LEN as nat, |i: int| 0u8)
}

/// Relies on blake3::hash: a 32-byte digest that is a function of the input
/// bytes alone.
#[verifier::external_body]
pub(crate) fn blake3_hash(bytes: &Vec<u8>) -> (r: Vec<u8>)
    ensures
        r@ == blake3_of(bytes@),
        r@.len() == DIGEST_LEN,
{
    blake3::hash(bytes.as_slice()).as_bytes().to_vec()
}

/// Returns the all-zero sentinel digest as a fresh value.
pub fn new_zero_digest() -> (r: Vec<u8>)
    ensures
        r@ == zero_digest(),
{
    let mut r: Vec<u8> = Vec::new();
    let mut i: usize = 0;
    while i < DIGEST_LEN
        invariant
            i <= DIGEST_LEN,
            r@ == zero_digest().take(i as int),
        decreases DIGEST_LEN - i,
    {
        r.push(0u8);
        i = i + 1;
        assert(r@ =~= zero_digest().take(i as int));
    }
    assert(zero_digest().take(DIGEST_LEN as int) =~= zero_digest());
    r
}

} // verus!
