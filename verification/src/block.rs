//! Blocks: content-addressed containers binding a previous block's
//! digest, a batch of records, and positional metadata into a chain
//! link. A block's hash is the digest of its canonical encoding with the
//! hash field held at zero, computed once at construction.

use vstd::prelude::*;
use crate::batch::Txns;
use crate::bytes::{
    append_bytes, append_u128_le, append_u32_le, append_u64_le, lemma_u128_le_injective,
    lemma_u32_le_injective, lemma_u64_le_injective, u128_le, u32_le, u64_le,
};
use crate::hashing::{blake3_hash, blake3_of, is_digest, new_zero_digest, zero_digest, DIGEST_LEN};

verus! {

/// The canonical byte encoding of a block's fields: the two digests, the
/// batch's canonical encoding, then index, timestamp and nonce.
pub open spec fn block_bytes(
    hash: Seq<u8>,
    prev_hash: Seq<u8>,
    batch: Seq<u8>,
    index: u32,
    timestamp: u128,
    nonce: u64,
) -> Seq<u8> {
    hash + prev_hash + batch + u32_le(index) + u128_le(timestamp) + u64_le(nonce)
}

/// A chain link. `prev_hash` and `index` are caller-supplied and not
/// validated against any actual predecessor; the nonce is decorative
/// entropy, not a difficulty target.
pub struct Block {
    pub hash: Vec<u8>,
    pub prev_hash: Vec<u8>,
    pub txns: Txns,
    pub index: u32,
    pub timestamp: u128,
    pub nonce: u64,
}

impl Block {
    /// The digest fields have their fixed widths and the batch is
    /// well-formed.
    pub open spec fn wf(self) -> bool {
        is_digest(self.hash@) && is_digest(self.prev_hash@) && self.txns.wf()
    }

    /// The canonical encoding of this block.
    pub open spec fn encoded(self) -> Seq<u8> {
        block_bytes(self.hash@, self.prev_hash@, self.txns.encoded(), self.index, self.timestamp,
            self.nonce)
    }

    /// The bytes the block hash is computed over: the canonical encoding
    /// with the hash field held at the all-zero sentinel. It covers
    /// whatever the batch's root is at that moment: callers must compute
    /// the root before constructing the block.
    pub open spec fn hash_input(self) -> Seq<u8> {
        block_bytes(zero_digest(), self.prev_hash@, self.txns.encoded(), self.index,
            self.timestamp, self.nonce)
    }

    /// Builds a block and fixes its hash: the digest of its canonical
    /// encoding with the hash held at zero. A single hash attempt always
    /// succeeds; no proof-of-work search occurs.
    pub fn new(prev_hash: Vec<u8>, txns: Txns, index: u32, timestamp: u128, nonce: u64) -> (r:
        Block)
        requires
            is_digest(prev_hash@),
            txns.wf(),
        ensures
            r.wf(),
            r.prev_hash@ == prev_hash@,
            r.txns == txns,
            r.index == index,
            r.timestamp == timestamp,
            r.nonce == nonce,
            r.hash@ == blake3_of(r.hash_input()),
    {
        let mut block = Block {
            hash: new_zero_digest(),
            prev_hash,
            txns,
            index,
            timestamp,
            nonce,
        };
        block.hash();
        block
    }

    /// Recomputes the hash: the digest of the canonical encoding with the
    /// hash field held at zero. Every other field is unchanged.
    pub fn hash(&mut self)
        ensures
            final(self).hash@ == blake3_of(old(self).hash_input()),
            final(self).prev_hash@ == old(self).prev_hash@,
            final(self).txns == old(self).txns,
            final(self).index == old(self).index,
            final(self).timestamp == old(self).timestamp,
            final(self).nonce == old(self).nonce,
            final(self).hash_input() == old(self).hash_input(),
            is_digest(final(self).hash@),
    {
        let zero = new_zero_digest();
        let batch_bytes = self.txns.to_bytes();
        let mut input: Vec<u8> = Vec::new();
        append_bytes(&mut input, &zero);
        append_bytes(&mut input, &self.prev_hash);
        append_bytes(&mut input, &batch_bytes);
        append_u32_le(&mut input, self.index);
        append_u128_le(&mut input, self.timestamp);
        append_u64_le(&mut input, self.nonce);
        self.hash = blake3_hash(&input);
    }

    /// The canonical encoding of the block.
    pub fn to_bytes(&self) -> (r: Vec<u8>)
        ensures
            r@ == self.encoded(),
    {
        let batch_bytes = self.txns.to_bytes();
        let mut out: Vec<u8> = Vec::new();
        append_bytes(&mut out, &self.hash);
        append_bytes(&mut out, &self.prev_hash);
        append_bytes(&mut out, &batch_bytes);
        append_u32_le(&mut out, self.index);
        append_u128_le(&mut out, self.timestamp);
        append_u64_le(&mut out, self.nonce);
        out
    }
}

/// Two well-formed blocks with the same hash-derivation input agree on
/// everything the hash covers: the chain link, the positional metadata,
/// the nonce, and the embedded batch record by record, root included.
/// Any difference in any of them changes the bytes the hash is derived
/// from.
pub proof fn lemma_block_hash_input_injective(a: Block, b: Block)
    requires
        a.wf(),
        b.wf(),
        a.hash_input() == b.hash_input(),
    ensures
        a.prev_hash@ == b.prev_hash@,
        a.index == b.index,
        a.timestamp == b.timestamp,
        a.nonce == b.nonce,
        a.txns.txns@.len() == b.txns.txns@.len(),
        forall|i: int| 0 <= i < a.txns.txns@.len() ==> crate::txn::txn_fields_eq(
            #[trigger] a.txns.txns@[i],
            b.txns.txns@[i],
        ),
        a.txns.merkle_root@ == b.txns.merkle_root@,
{
    lemma_block_bytes_injective(
        zero_digest(),
        a.prev_hash@,
        a.txns.encoded(),
        a.index,
        a.timestamp,
        a.nonce,
        zero_digest(),
        b.prev_hash@,
        b.txns.encoded(),
        b.index,
        b.timestamp,
        b.nonce,
    );
    Txns::lemma_encoded_injective(a.txns, b.txns);
}

/// Where each field of a well-formed block encoding sits. The batch
/// segment's bounds follow its own length.
pub proof fn lemma_block_bytes_segments(
    hash: Seq<u8>,
    prev_hash: Seq<u8>,
    batch: Seq<u8>,
    index: u32,
    timestamp: u128,
    nonce: u64,
)
    requires
        hash.len() == DIGEST_LEN,
        prev_hash.len() == DIGEST_LEN,
    ensures
        block_bytes(hash, prev_hash, batch, index, timestamp, nonce).len() == 92 + batch.len(),
        block_bytes(hash, prev_hash, batch, index, timestamp, nonce).subrange(0, 32) == hash,
        block_bytes(hash, prev_hash, batch, index, timestamp, nonce).subrange(32, 64) == prev_hash,
        block_bytes(hash, prev_hash, batch, index, timestamp, nonce).subrange(
            64,
            64 + batch.len() as int,
        ) == batch,
        block_bytes(hash, prev_hash, batch, index, timestamp, nonce).subrange(
            64 + batch.len() as int,
            68 + batch.len() as int,
        ) == u32_le(index),
        block_bytes(hash, prev_hash, batch, index, timestamp, nonce).subrange(
            68 + batch.len() as int,
            84 + batch.len() as int,
        ) == u128_le(timestamp),
        block_bytes(hash, prev_hash, batch, index, timestamp, nonce).subrange(
            84 + batch.len() as int,
            92 + batch.len() as int,
        ) == u64_le(nonce),
{
    let w = block_bytes(hash, prev_hash, batch, index, timestamp, nonce);
    let n: int = batch.len() as int;
    assert(w.subrange(0, 32) =~= hash);
    assert(w.subrange(32, 64) =~= prev_hash);
    assert(w.subrange(64, 64 + n) =~= batch);
    assert(w.subrange(64 + n, 68 + n) =~= u32_le(index));
    assert(w.subrange(68 + n, 84 + n) =~= u128_le(timestamp));
    assert(w.subrange(84 + n, 92 + n) =~= u64_le(nonce));
}

/// The canonical block encoding is injective on well-formed field tuples,
/// with the batch read as its encoded byte segment: equal bytes force
/// equal fields. Changing any field of a block — its hash, its chain
/// link, its batch's bytes, or its positional metadata — changes its
/// canonical bytes, and with them the hash-derivation input.
pub proof fn lemma_block_bytes_injective(
    a_hash: Seq<u8>,
    a_prev_hash: Seq<u8>,
    a_batch: Seq<u8>,
    a_index: u32,
    a_timestamp: u128,
    a_nonce: u64,
    b_hash: Seq<u8>,
    b_prev_hash: Seq<u8>,
    b_batch: Seq<u8>,
    b_index: u32,
    b_timestamp: u128,
    b_nonce: u64,
)
    requires
        a_hash.len() == DIGEST_LEN,
        a_prev_hash.len() == DIGEST_LEN,
        b_hash.len() == DIGEST_LEN,
        b_prev_hash.len() == DIGEST_LEN,
        block_bytes(a_hash, a_prev_hash, a_batch, a_index, a_timestamp, a_nonce) == block_bytes(
            b_hash,
            b_prev_hash,
            b_batch,
            b_index,
            b_timestamp,
            b_nonce,
        ),
    ensures
        a_hash == b_hash,
        a_prev_hash == b_prev_hash,
        a_batch == b_batch,
        a_index == b_index,
        a_timestamp == b_timestamp,
        a_nonce == b_nonce,
{
    lemma_block_bytes_segments(a_hash, a_prev_hash, a_batch, a_index, a_timestamp, a_nonce);
    lemma_block_bytes_segments(b_hash, b_prev_hash, b_batch, b_index, b_timestamp, b_nonce);
    lemma_u32_le_injective(a_index, b_index);
    lemma_u128_le_injective(a_timestamp, b_timestamp);
    lemma_u64_le_injective(a_nonce, b_nonce);
}

} // verus!
