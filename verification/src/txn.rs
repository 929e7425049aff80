//! Signed, content-addressed value-transfer records between two
//! addresses. A record's id is the digest of its canonical encoding with
//! the id field held at zero, fixed at construction; its detached
//! signature covers the canonical encoding with the signature field
//! omitted entirely.

use vstd::prelude::*;
use crate::bytes::{
    append_bytes, append_u128_le, append_u64_le, lemma_u128_le_injective, lemma_u64_le_injective,
    u128_le, u64_le,
};
use crate::hashing::{blake3_hash, blake3_of, is_digest, new_zero_digest, zero_digest, DIGEST_LEN};
use crate::keys::{
    ed_sign, ed_signature_of, ed_verifies, ed_verify, Keypair, PUBLIC_KEY_LEN,
};
use crate::user::User;
use crate::Valid;

verus! {

/// The canonical byte encoding of a transaction's fields: the three
/// digests, then amount and timestamp, then the signature prefixed by
/// its length.
pub open spec fn txn_bytes(
    id: Seq<u8>,
    sender: Seq<u8>,
    recipient: Seq<u8>,
    amount: u64,
    timestamp: u128,
    signature: Seq<u8>,
) -> Seq<u8> {
    id + sender + recipient + u64_le(amount) + u128_le(timestamp)
        + u64_le(signature.len() as u64) + signature
}

/// The canonical encoding with the signature field omitted entirely:
/// what a detached signature is computed over and checked against.
pub open spec fn txn_signing_bytes(
    id: Seq<u8>,
    sender: Seq<u8>,
    recipient: Seq<u8>,
    amount: u64,
    timestamp: u128,
) -> Seq<u8> {
    id + sender + recipient + u64_le(amount) + u128_le(timestamp)
}

/// A value-transfer assertion: content-addressed by `id`, between two
/// Identity addresses, carrying a detached signature that is empty until
/// the record is signed.
pub struct Txn {
    pub id: Vec<u8>,
    pub sender: Vec<u8>,
    pub recipient: Vec<u8>,
    pub amount: u64,
    pub timestamp: u128,
    pub signature: Vec<u8>,
}

impl Txn {
    /// The digest fields have their fixed widths.
    pub open spec fn wf(self) -> bool {
        is_digest(self.id@) && is_digest(self.sender@) && is_digest(self.recipient@)
    }

    /// The canonical encoding of this record.
    pub open spec fn encoded(self) -> Seq<u8> {
        txn_bytes(self.id@, self.sender@, self.recipient@, self.amount, self.timestamp,
            self.signature@)
    }

    /// The bytes the id digest is computed over: the canonical encoding
    /// with the id field held at the all-zero sentinel. The signature is
    /// included as whatever it is at hash time; since the id is fixed at
    /// construction, before signing, that is the empty signature.
    pub open spec fn id_input(self) -> Seq<u8> {
        txn_bytes(zero_digest(), self.sender@, self.recipient@, self.amount, self.timestamp,
            self.signature@)
    }

    /// The bytes the detached signature covers: signature field omitted.
    pub open spec fn signing_input(self) -> Seq<u8> {
        txn_signing_bytes(self.id@, self.sender@, self.recipient@, self.amount, self.timestamp)
    }

    /// What verification returns for this record under a given public
    /// key: `Valid` exactly when the key has the Ed25519 width and the
    /// stored signature verifies over the signature-omitted encoding.
    pub open spec fn verify_spec(self, key: Seq<u8>) -> Valid {
        if key.len() == PUBLIC_KEY_LEN && ed_verifies(key, self.signing_input(), self.signature@) {
            Valid::Valid
        } else {
            Valid::Invalid
        }
    }

    /// Builds an unsigned record between two Identities and fixes its id:
    /// the digest of its canonical encoding with the id held at zero and
    /// the signature still empty.
    pub fn new(sender: &User, recipient: &User, amount: u64, timestamp: u128) -> (r: Txn)
        requires
            sender.wf(),
            recipient.wf(),
        ensures
            r.wf(),
            r.sender@ == sender.address@,
            r.recipient@ == recipient.address@,
            r.amount == amount,
            r.timestamp == timestamp,
            r.signature@ == Seq::<u8>::empty(),
            r.id@ == blake3_of(r.id_input()),
    {
        let mut txn = Txn {
            id: new_zero_digest(),
            sender: crate::bytes::copy_bytes(&sender.address),
            recipient: crate::bytes::copy_bytes(&recipient.address),
            amount,
            timestamp,
            signature: Vec::new(),
        };
        txn.hash();
        txn
    }

    /// Recomputes the id: the digest of the canonical encoding with the
    /// id field held at zero. Every other field is unchanged.
    pub fn hash(&mut self)
        ensures
            final(self).id@ == blake3_of(old(self).id_input()),
            final(self).sender@ == old(self).sender@,
            final(self).recipient@ == old(self).recipient@,
            final(self).amount == old(self).amount,
            final(self).timestamp == old(self).timestamp,
            final(self).signature@ == old(self).signature@,
            final(self).id_input() == old(self).id_input(),
            is_digest(final(self).id@),
    {
        let zero = new_zero_digest();
        let bytes = encode_txn_fields(
            &zero,
            &self.sender,
            &self.recipient,
            self.amount,
            self.timestamp,
            &self.signature,
        );
        self.id = blake3_hash(&bytes);
    }

    /// The canonical encoding, as the hashing input of containers.
    pub fn to_bytes(&self) -> (r: Vec<u8>)
        ensures
            r@ == self.encoded(),
    {
        encode_txn_fields(
            &self.id,
            &self.sender,
            &self.recipient,
            self.amount,
            self.timestamp,
            &self.signature,
        )
    }

    /// The signature-omitted encoding: the signing and verification input.
    pub fn to_signing_bytes(&self) -> (r: Vec<u8>)
        ensures
            r@ == self.signing_input(),
    {
        let mut out: Vec<u8> = Vec::new();
        append_bytes(&mut out, &self.id);
        append_bytes(&mut out, &self.sender);
        append_bytes(&mut out, &self.recipient);
        append_u64_le(&mut out, self.amount);
        append_u128_le(&mut out, self.timestamp);
        out
    }

    /// Signs the record in place: stores the Ed25519 signature over the
    /// signature-omitted encoding. The id is not recomputed. A record
    /// signed with a consistent keypair verifies under its public half.
    pub fn sign(&mut self, key: &Keypair)
        requires
            key.wf(),
        ensures
            final(self).id@ == old(self).id@,
            final(self).sender@ == old(self).sender@,
            final(self).recipient@ == old(self).recipient@,
            final(self).amount == old(self).amount,
            final(self).timestamp == old(self).timestamp,
            final(self).signature@ == ed_signature_of(key.secret@, old(self).signing_input()),
            final(self).signing_input() == old(self).signing_input(),
            final(self).wf() <==> old(self).wf(),
            key.consistent() ==> final(self).verify_spec(key.public@) == Valid::Valid,
    {
        let msg = self.to_signing_bytes();
        self.signature = ed_sign(&key.secret, &msg);
    }

    /// Checks the stored signature over the signature-omitted encoding
    /// under the given public key. A malformed signature or key is a
    /// normal `Invalid` outcome, never a fault.
    pub fn verify(&self, key: &Vec<u8>) -> (r: Valid)
        ensures
            r == self.verify_spec(key@),
    {
        if key.len() != PUBLIC_KEY_LEN {
            return Valid::Invalid;
        }
        let msg = self.to_signing_bytes();
        if ed_verify(key, &msg, &self.signature) {
            Valid::Valid
        } else {
            Valid::Invalid
        }
    }
}

/// Field-wise agreement of two records, up to the mathematical views of
/// their byte fields.
pub open spec fn txn_fields_eq(a: Txn, b: Txn) -> bool {
    &&& a.id@ == b.id@
    &&& a.sender@ == b.sender@
    &&& a.recipient@ == b.recipient@
    &&& a.amount == b.amount
    &&& a.timestamp == b.timestamp
    &&& a.signature@ == b.signature@
}

/// Encoding is a function of the fields alone: two records that agree
/// field-wise have identical canonical bytes, identical id-derivation
/// inputs, and therefore identical derived ids.
pub proof fn lemma_txn_encoding_deterministic(a: Txn, b: Txn)
    requires
        txn_fields_eq(a, b),
    ensures
        a.encoded() == b.encoded(),
        a.id_input() == b.id_input(),
        blake3_of(a.id_input()) == blake3_of(b.id_input()),
{
}

/// Two well-formed records with the same id-derivation input agree on
/// every field the id covers: any difference in sender, recipient,
/// amount, timestamp or hash-time signature changes the bytes the id is
/// derived from.
pub proof fn lemma_txn_id_input_injective(a: Txn, b: Txn)
    requires
        a.wf(),
        b.wf(),
        a.id_input() == b.id_input(),
    ensures
        a.sender@ == b.sender@,
        a.recipient@ == b.recipient@,
        a.amount == b.amount,
        a.timestamp == b.timestamp,
        a.signature@ == b.signature@,
{
    lemma_txn_bytes_injective(
        zero_digest(),
        a.sender@,
        a.recipient@,
        a.amount,
        a.timestamp,
        a.signature@,
        zero_digest(),
        b.sender@,
        b.recipient@,
        b.amount,
        b.timestamp,
        b.signature@,
    );
}

/// Two well-formed records with the same signature-omitted encoding
/// agree on every field a signature covers: mutating the id, the
/// parties, the amount or the timestamp of a signed record changes the
/// bytes its stored signature is checked against.
pub proof fn lemma_txn_signing_bytes_injective(a: Txn, b: Txn)
    requires
        a.wf(),
        b.wf(),
        a.signing_input() == b.signing_input(),
    ensures
        a.id@ == b.id@,
        a.sender@ == b.sender@,
        a.recipient@ == b.recipient@,
        a.amount == b.amount,
        a.timestamp == b.timestamp,
{
    let wa = a.signing_input();
    let wb = b.signing_input();
    assert(wa.subrange(0, 32) =~= a.id@);
    assert(wa.subrange(32, 64) =~= a.sender@);
    assert(wa.subrange(64, 96) =~= a.recipient@);
    assert(wa.subrange(96, 104) =~= u64_le(a.amount));
    assert(wa.subrange(104, 120) =~= u128_le(a.timestamp));
    assert(wb.subrange(0, 32) =~= b.id@);
    assert(wb.subrange(32, 64) =~= b.sender@);
    assert(wb.subrange(64, 96) =~= b.recipient@);
    assert(wb.subrange(96, 104) =~= u64_le(b.amount));
    assert(wb.subrange(104, 120) =~= u128_le(b.timestamp));
    lemma_u64_le_injective(a.amount, b.amount);
    lemma_u128_le_injective(a.timestamp, b.timestamp);
}

/// Serializes transaction fields in canonical order.
fn encode_txn_fields(
    id: &Vec<u8>,
    sender: &Vec<u8>,
    recipient: &Vec<u8>,
    amount: u64,
    timestamp: u128,
    signature: &Vec<u8>,
) -> (r: Vec<u8>)
    ensures
        r@ == txn_bytes(id@, sender@, recipient@, amount, timestamp, signature@),
{
    let mut out: Vec<u8> = Vec::new();
    append_bytes(&mut out, id);
    append_bytes(&mut out, sender);
    append_bytes(&mut out, recipient);
    append_u64_le(&mut out, amount);
    append_u128_le(&mut out, timestamp);
    append_u64_le(&mut out, signature.len() as u64);
    append_bytes(&mut out, signature);
    out
}

/// Where each field of a well-formed transaction encoding sits.
pub proof fn lemma_txn_bytes_segments(
    id: Seq<u8>,
    sender: Seq<u8>,
    recipient: Seq<u8>,
    amount: u64,
    timestamp: u128,
    signature: Seq<u8>,
)
    requires
        id.len() == DIGEST_LEN,
        sender.len() == DIGEST_LEN,
        recipient.len() == DIGEST_LEN,
    ensures
        txn_bytes(id, sender, recipient, amount, timestamp, signature).len() == 128
            + signature.len(),
        txn_bytes(id, sender, recipient, amount, timestamp, signature).subrange(0, 32) == id,
        txn_bytes(id, sender, recipient, amount, timestamp, signature).subrange(32, 64) == sender,
        txn_bytes(id, sender, recipient, amount, timestamp, signature).subrange(64, 96)
            == recipient,
        txn_bytes(id, sender, recipient, amount, timestamp, signature).subrange(96, 104)
            == u64_le(amount),
        txn_bytes(id, sender, recipient, amount, timestamp, signature).subrange(104, 120)
            == u128_le(timestamp),
        txn_bytes(id, sender, recipient, amount, timestamp, signature).subrange(120, 128)
            == u64_le(signature.len() as u64),
        txn_bytes(id, sender, recipient, amount, timestamp, signature).skip(128) == signature,
{
    let w = txn_bytes(id, sender, recipient, amount, timestamp, signature);
    assert(w.subrange(0, 32) =~= id);
    assert(w.subrange(32, 64) =~= sender);
    assert(w.subrange(64, 96) =~= recipient);
    assert(w.subrange(96, 104) =~= u64_le(amount));
    assert(w.subrange(104, 120) =~= u128_le(timestamp));
    assert(w.subrange(120, 128) =~= u64_le(signature.len() as u64));
    assert(w.skip(128) =~= signature);
}

/// The canonical transaction encoding is injective on well-formed field
/// tuples: equal bytes force equal fields. Changing any single field of
/// a record therefore changes its canonical bytes, and with them the
/// id-derivation input.
pub proof fn lemma_txn_bytes_injective(
    a_id: Seq<u8>,
    a_sender: Seq<u8>,
    a_recipient: Seq<u8>,
    a_amount: u64,
    a_timestamp: u128,
    a_signature: Seq<u8>,
    b_id: Seq<u8>,
    b_sender: Seq<u8>,
    b_recipient: Seq<u8>,
    b_amount: u64,
    b_timestamp: u128,
    b_signature: Seq<u8>,
)
    requires
        a_id.len() == DIGEST_LEN,
        a_sender.len() == DIGEST_LEN,
        a_recipient.len() == DIGEST_LEN,
        b_id.len() == DIGEST_LEN,
        b_sender.len() == DIGEST_LEN,
        b_recipient.len() == DIGEST_LEN,
        txn_bytes(a_id, a_sender, a_recipient, a_amount, a_timestamp, a_signature) == txn_bytes(
            b_id,
            b_sender,
            b_recipient,
            b_amount,
            b_timestamp,
            b_signature,
        ),
    ensures
        a_id == b_id,
        a_sender == b_sender,
        a_recipient == b_recipient,
        a_amount == b_amount,
        a_timestamp == b_timestamp,
        a_signature == b_signature,
{
    lemma_txn_bytes_segments(a_id, a_sender, a_recipient, a_amount, a_timestamp, a_signature);
    lemma_txn_bytes_segments(b_id, b_sender, b_recipient, b_amount, b_timestamp, b_signature);
    lemma_u64_le_injective(a_amount, b_amount);
    lemma_u128_le_injective(a_timestamp, b_timestamp);
}

} // verus!
