//! An ordered batch of transaction records committed to a single Merkle
//! root over their ids. Batches are append-only during assembly; the
//! root is the all-zero sentinel until it is explicitly computed.

use vstd::prelude::*;
use crate::bytes::{append_bytes, append_u64_le, copy_bytes, lemma_u64_le_injective, u64_le};
use crate::hashing::{is_digest, new_zero_digest, zero_digest};
use crate::merkle::{calc_merkle_root_r, lemma_views_of_index, merkle_root_spec, views_of};
use crate::txn::{
    lemma_txn_bytes_injective, lemma_txn_bytes_segments, txn_fields_eq, Txn,
};
use crate::{BatchError, Valid};

verus! {

/// The ordered ids of a list of records.
pub open spec fn txn_ids(txns: Seq<Txn>) -> Seq<Seq<u8>> {
    txns.map_values(|t: Txn| t.id@)
}

/// Element-wise reading of `txn_ids`.
pub proof fn lemma_txn_ids_index(txns: Seq<Txn>, i: int)
    requires
        0 <= i < txns.len(),
    ensures
        txn_ids(txns)[i] == txns[i].id@,
{
}

/// The concatenated canonical encodings of a list of records, in order.
pub open spec fn txn_list_bytes(txns: Seq<Txn>) -> Seq<u8>
    decreases txns.len(),
{
    if txns.len() == 0 {
        Seq::empty()
    } else {
        txn_list_bytes(txns.drop_last()) + txns.last().encoded()
    }
}

/// The concatenation can also be read off from the front: the first
/// record's encoding, then the rest.
pub proof fn lemma_txn_list_bytes_first(txns: Seq<Txn>)
    requires
        txns.len() > 0,
    ensures
        txn_list_bytes(txns) == txns[0].encoded() + txn_list_bytes(txns.drop_first()),
    decreases txns.len(),
{
    if txns.len() == 1 {
        assert(txns.drop_last() =~= Seq::<Txn>::empty());
        assert(txns.drop_first() =~= Seq::<Txn>::empty());
        assert(txn_list_bytes(txns) =~= txns[0].encoded() + txn_list_bytes(txns.drop_first()));
    } else {
        lemma_txn_list_bytes_first(txns.drop_last());
        assert(txns.drop_last()[0] == txns[0]);
        assert(txns.drop_last().drop_first() =~= txns.drop_first().drop_last());
        assert(txns.drop_first().last() == txns.last());
        assert(txn_list_bytes(txns.drop_first()) == txn_list_bytes(txns.drop_first().drop_last())
            + txns.last().encoded());
        assert(txn_list_bytes(txns) =~= txns[0].encoded() + txn_list_bytes(txns.drop_first()));
    }
}

/// The concatenated record encodings are injective on equal-length lists
/// of well-formed records: each record's encoding carries its own
/// signature length, so the concatenation splits back unambiguously.
pub proof fn lemma_txn_list_bytes_injective(s1: Seq<Txn>, s2: Seq<Txn>)
    requires
        forall|i: int| 0 <= i < s1.len() ==> (#[trigger] s1[i]).wf(),
        forall|i: int| 0 <= i < s2.len() ==> (#[trigger] s2[i]).wf(),
        s1.len() == s2.len(),
        txn_list_bytes(s1) == txn_list_bytes(s2),
    ensures
        forall|i: int| 0 <= i < s1.len() ==> txn_fields_eq(#[trigger] s1[i], s2[i]),
    decreases s1.len(),
{
    if s1.len() > 0 {
        let t1 = s1[0];
        let t2 = s2[0];
        let w = txn_list_bytes(s1);
        lemma_txn_list_bytes_first(s1);
        lemma_txn_list_bytes_first(s2);
        assert(t1.signature.len() == t1.signature@.len());
        assert(t2.signature.len() == t2.signature@.len());
        lemma_txn_bytes_segments(t1.id@, t1.sender@, t1.recipient@, t1.amount, t1.timestamp,
            t1.signature@);
        lemma_txn_bytes_segments(t2.id@, t2.sender@, t2.recipient@, t2.amount, t2.timestamp,
            t2.signature@);
        let n1 = t1.encoded().len() as int;
        let n2 = t2.encoded().len() as int;
        assert(w.subrange(120, 128) =~= t1.encoded().subrange(120, 128));
        assert(w.subrange(120, 128) =~= t2.encoded().subrange(120, 128));
        lemma_u64_le_injective(t1.signature@.len() as u64, t2.signature@.len() as u64);
        assert(n1 == n2);
        assert(w.subrange(0, n1) =~= t1.encoded());
        assert(w.subrange(0, n2) =~= t2.encoded());
        lemma_txn_bytes_injective(
            t1.id@,
            t1.sender@,
            t1.recipient@,
            t1.amount,
            t1.timestamp,
            t1.signature@,
            t2.id@,
            t2.sender@,
            t2.recipient@,
            t2.amount,
            t2.timestamp,
            t2.signature@,
        );
        assert(txn_list_bytes(s1.drop_first()) =~= w.skip(n1));
        assert(txn_list_bytes(s2.drop_first()) =~= w.skip(n2));
        assert(forall|i: int| 0 <= i < s1.drop_first().len() ==> (#[trigger] s1.drop_first()[
            i]).wf());
        assert(forall|i: int| 0 <= i < s2.drop_first().len() ==> (#[trigger] s2.drop_first()[
            i]).wf());
        lemma_txn_list_bytes_injective(s1.drop_first(), s2.drop_first());
        assert forall|i: int| 0 <= i < s1.len() implies txn_fields_eq(#[trigger] s1[i], s2[i]) by {
            if i > 0 {
                assert(txn_fields_eq(s1.drop_first()[i - 1], s2.drop_first()[i - 1]));
            }
        }
    }
}

/// An ordered sequence of transaction records and their Merkle root.
pub struct Txns {
    pub txns: Vec<Txn>,
    pub merkle_root: Vec<u8>,
}

impl Txns {
    /// The root has digest width and every record is well-formed.
    pub open spec fn wf(self) -> bool {
        &&& is_digest(self.merkle_root@)
        &&& forall|i: int| 0 <= i < self.txns@.len() ==> (#[trigger] self.txns@[i]).wf()
    }

    /// The canonical encoding of the batch: the record count, the records
    /// in order, then the Merkle root.
    pub open spec fn encoded(self) -> Seq<u8> {
        u64_le(self.txns@.len() as u64) + txn_list_bytes(self.txns@) + self.merkle_root@
    }

    /// An empty batch whose root is the all-zero sentinel.
    pub fn new() -> (r: Txns)
        ensures
            r.wf(),
            r.txns@.len() == 0,
            r.merkle_root@ == zero_digest(),
    {
        Txns { txns: Vec::new(), merkle_root: new_zero_digest() }
    }

    /// Appends a record to the ordered sequence. Assembly is append-only:
    /// no removal is offered.
    pub fn add(&mut self, txn: Txn)
        requires
            txn.wf(),
        ensures
            final(self).txns@ == old(self).txns@.push(txn),
            final(self).merkle_root@ == old(self).merkle_root@,
            old(self).wf() ==> final(self).wf(),
    {
        self.txns.push(txn);
    }

    /// Computes the Merkle root of the record ids, in sequence order, and
    /// stores it. A batch with no records is rejected explicitly: the
    /// pairwise reduction is undefined on zero leaves.
    pub fn calc_merkle_root(&mut self) -> (r: Result<(), BatchError>)
        ensures
            final(self).txns@ == old(self).txns@,
            match r {
                Ok(_) => {
                    &&& old(self).txns@.len() > 0
                    &&& final(self).merkle_root@ == merkle_root_spec(txn_ids(old(self).txns@))
                },
                Err(_) => {
                    &&& old(self).txns@.len() == 0
                    &&& final(self).merkle_root@ == old(self).merkle_root@
                },
            },
    {
        if self.txns.len() == 0 {
            return Err(BatchError::Empty);
        }
        let mut leaves: Vec<Vec<u8>> = Vec::new();
        let mut i: usize = 0;
        while i < self.txns.len()
            invariant
                i <= self.txns@.len(),
                views_of(leaves@) == txn_ids(self.txns@).take(i as int),
            decreases self.txns@.len() - i,
        {
            let ghost prev = leaves@;
            leaves.push(copy_bytes(&self.txns[i].id));
            i = i + 1;
            proof {
                assert forall|k: int| 0 <= k < leaves@.len() implies views_of(leaves@)[k]
                    == leaves@[k]@ by {
                    lemma_views_of_index(leaves@, k);
                }
                assert forall|k: int| 0 <= k < prev.len() implies views_of(prev)[k]
                    == prev[k]@ by {
                    lemma_views_of_index(prev, k);
                }
                lemma_txn_ids_index(self.txns@, i - 1);
                assert(views_of(leaves@).len() == leaves@.len());
                assert(views_of(prev).len() == prev.len());
                assert(views_of(leaves@) =~= txn_ids(self.txns@).take(i as int));
            }
        }
        proof {
            assert(txn_ids(self.txns@).take(self.txns@.len() as int) =~= txn_ids(self.txns@));
        }
        let root = calc_merkle_root_r(&leaves);
        self.merkle_root = root;
        Ok(())
    }

    /// The batch-level authenticity check. The design leaves the real
    /// work to its callers: the batch exposes its record sequence so that
    /// every record can be verified independently against its sender's
    /// public key, and performs no check of its own here.
    pub fn verify(&self) -> (r: Valid)
        ensures
            r == Valid::Valid,
    {
        Valid::Valid
    }

    /// The canonical batch encoding is injective on well-formed batches:
    /// equal bytes force the same record count, field-wise equal records
    /// in the same order, and the same Merkle root.
    pub proof fn lemma_encoded_injective(a: Txns, b: Txns)
        requires
            a.wf(),
            b.wf(),
            a.encoded() == b.encoded(),
        ensures
            a.txns@.len() == b.txns@.len(),
            forall|i: int| 0 <= i < a.txns@.len() ==> txn_fields_eq(
                #[trigger] a.txns@[i],
                b.txns@[i],
            ),
            a.merkle_root@ == b.merkle_root@,
    {
        let w = a.encoded();
        let la: int = txn_list_bytes(a.txns@).len() as int;
        let lb: int = txn_list_bytes(b.txns@).len() as int;
        assert(a.txns.len() == a.txns@.len());
        assert(b.txns.len() == b.txns@.len());
        assert(w.len() == 8 + la + 32 && w.len() == 8 + lb + 32);
        assert(w.subrange(0, 8) =~= u64_le(a.txns@.len() as u64));
        assert(w.subrange(0, 8) =~= u64_le(b.txns@.len() as u64));
        lemma_u64_le_injective(a.txns@.len() as u64, b.txns@.len() as u64);
        assert(w.subrange(8, 8 + la) =~= txn_list_bytes(a.txns@));
        assert(w.subrange(8, 8 + lb) =~= txn_list_bytes(b.txns@));
        assert(w.subrange(8 + la, w.len() as int) =~= a.merkle_root@);
        assert(w.subrange(8 + lb, w.len() as int) =~= b.merkle_root@);
        lemma_txn_list_bytes_injective(a.txns@, b.txns@);
    }

    /// The canonical encoding, as the hashing input of a Block.
    pub fn to_bytes(&self) -> (r: Vec<u8>)
        ensures
            r@ == self.encoded(),
    {
        let mut out: Vec<u8> = Vec::new();
        append_u64_le(&mut out, self.txns.len() as u64);
        let mut i: usize = 0;
        while i < self.txns.len()
            invariant
                i <= self.txns@.len(),
                out@ == u64_le(self.txns@.len() as u64) + txn_list_bytes(self.txns@.take(i as int)),
            decreases self.txns@.len() - i,
        {
            let txn_bytes_i = self.txns[i].to_bytes();
            append_bytes(&mut out, &txn_bytes_i);
            i = i + 1;
            proof {
                let taken = self.txns@.take(i as int);
                assert(taken.drop_last() =~= self.txns@.take(i as int - 1));
                assert(taken.last() == self.txns@[i as int - 1]);
            }
        }
        proof {
            assert(self.txns@.take(self.txns@.len() as int) =~= self.txns@);
        }
        append_bytes(&mut out, &self.merkle_root);
        out
    }
}

} // verus!
