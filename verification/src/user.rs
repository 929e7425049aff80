//! Identities: a participant bound to a keypair, addressed by the digest
//! of its own canonical encoding with the address field held at the
//! all-zero sentinel.

use vstd::prelude::*;
use crate::bytes::{
    append_bytes, append_u128_le, append_u64_le, bytes_range, lemma_u128_from_le_round_trip,
    lemma_u128_le_injective, lemma_u64_from_le_round_trip, lemma_u64_le_injective,
    lemma_u64_le_round_trip, read_u128_le, read_u64_le, u128_le, u64_le,
};
use crate::hashing::{blake3_hash, blake3_of, is_digest, new_zero_digest, zero_digest, DIGEST_LEN};
use crate::keys::{ed_generate_secret, ed_public_key, ed_public_of, PUBLIC_KEY_LEN};
use crate::DecodeError;

verus! {

/// The canonical byte encoding of an Identity's fields: address, then
/// timestamp, nonce and public key, then the external id prefixed by its
/// length. Fixed-width fields keep every offset constant, so any field
/// difference changes the bytes.
pub open spec fn user_bytes(
    address: Seq<u8>,
    timestamp: u128,
    nonce: u64,
    public_key: Seq<u8>,
    uid: Seq<u8>,
) -> Seq<u8> {
    address + u128_le(timestamp) + u64_le(nonce) + public_key + u64_le(uid.len() as u64) + uid
}

/// Byte offsets of the fixed-width prefix of a user encoding.
pub open spec fn user_fixed_len() -> int {
    96
}

/// A participant: a derived address, creation metadata, the public half
/// of its keypair, and an external identifier. The private key is never
/// part of the value.
pub struct User {
    pub address: Vec<u8>,
    pub timestamp: u128,
    pub nonce: u64,
    pub public_key: Vec<u8>,
    pub uid: Vec<u8>,
}

impl User {
    /// The digest fields have their fixed widths.
    pub open spec fn wf(self) -> bool {
        is_digest(self.address@) && self.public_key@.len() == PUBLIC_KEY_LEN
    }

    /// The canonical encoding of this Identity.
    pub open spec fn encoded(self) -> Seq<u8> {
        user_bytes(self.address@, self.timestamp, self.nonce, self.public_key@, self.uid@)
    }

    /// The bytes the address digest is computed over: the canonical
    /// encoding with the address field held at the all-zero sentinel.
    pub open spec fn address_input(self) -> Seq<u8> {
        user_bytes(zero_digest(), self.timestamp, self.nonce, self.public_key@, self.uid@)
    }

    /// The address is the digest of everything except itself.
    pub open spec fn address_derived(self) -> bool {
        self.address@ == blake3_of(self.address_input())
    }

    /// Builds an Identity from its plain parts and derives its address.
    pub fn new(uid: Vec<u8>, timestamp: u128, nonce: u64, public_key: Vec<u8>) -> (r: User)
        requires
            public_key@.len() == PUBLIC_KEY_LEN,
        ensures
            r.wf(),
            r.address_derived(),
            r.timestamp == timestamp,
            r.nonce == nonce,
            r.public_key@ == public_key@,
            r.uid@ == uid@,
    {
        let mut user = User {
            address: new_zero_digest(),
            timestamp,
            nonce,
            public_key,
            uid,
        };
        user.hash();
        user
    }

    /// Generates a fresh keypair, builds the Identity around its public
    /// half, and hands the 32-byte secret key back to the caller, who is
    /// responsible for storing it durably.
    pub fn generate(uid: Vec<u8>, timestamp: u128, nonce: u64) -> (r: (User, Vec<u8>))
        ensures
            r.0.wf(),
            r.0.address_derived(),
            r.0.timestamp == timestamp,
            r.0.nonce == nonce,
            r.0.uid@ == uid@,
            r.1@.len() == crate::keys::SECRET_KEY_LEN,
            r.0.public_key@ == ed_public_of(r.1@),
    {
        let secret = ed_generate_secret();
        let public = ed_public_key(&secret);
        let user = User::new(uid, timestamp, nonce, public);
        (user, secret)
    }

    /// Recomputes the address: the digest of the canonical encoding with
    /// the address field held at zero. Every other field is unchanged.
    pub fn hash(&mut self)
        ensures
            final(self).address@ == blake3_of(old(self).address_input()),
            final(self).wf() <==> old(self).public_key@.len() == PUBLIC_KEY_LEN,
            final(self).timestamp == old(self).timestamp,
            final(self).nonce == old(self).nonce,
            final(self).public_key@ == old(self).public_key@,
            final(self).uid@ == old(self).uid@,
            final(self).address_input() == old(self).address_input(),
    {
        let zero = new_zero_digest();
        let bytes = encode_user_fields(&zero, self.timestamp, self.nonce, &self.public_key, &self.uid);
        self.address = blake3_hash(&bytes);
    }

    /// The canonical encoding, as the hashing and storage input.
    pub fn to_bytes(&self) -> (r: Vec<u8>)
        ensures
            r@ == self.encoded(),
    {
        encode_user_fields(&self.address, self.timestamp, self.nonce, &self.public_key, &self.uid)
    }
}

/// Serializes user fields in canonical order.
fn encode_user_fields(
    address: &Vec<u8>,
    timestamp: u128,
    nonce: u64,
    public_key: &Vec<u8>,
    uid: &Vec<u8>,
) -> (r: Vec<u8>)
    ensures
        r@ == user_bytes(address@, timestamp, nonce, public_key@, uid@),
{
    let mut out: Vec<u8> = Vec::new();
    append_bytes(&mut out, address);
    append_u128_le(&mut out, timestamp);
    append_u64_le(&mut out, nonce);
    append_bytes(&mut out, public_key);
    append_u64_le(&mut out, uid.len() as u64);
    append_bytes(&mut out, uid);
    out
}

/// Where each field of a well-formed user encoding sits.
pub proof fn lemma_user_bytes_segments(
    address: Seq<u8>,
    timestamp: u128,
    nonce: u64,
    public_key: Seq<u8>,
    uid: Seq<u8>,
)
    requires
        address.len() == DIGEST_LEN,
        public_key.len() == PUBLIC_KEY_LEN,
    ensures
        user_bytes(address, timestamp, nonce, public_key, uid).len() == user_fixed_len()
            + uid.len(),
        user_bytes(address, timestamp, nonce, public_key, uid).subrange(0, 32) == address,
        user_bytes(address, timestamp, nonce, public_key, uid).subrange(32, 48) == u128_le(
            timestamp,
        ),
        user_bytes(address, timestamp, nonce, public_key, uid).subrange(48, 56) == u64_le(nonce),
        user_bytes(address, timestamp, nonce, public_key, uid).subrange(56, 88) == public_key,
        user_bytes(address, timestamp, nonce, public_key, uid).subrange(88, 96) == u64_le(
            uid.len() as u64,
        ),
        user_bytes(address, timestamp, nonce, public_key, uid).skip(96) == uid,
{
    let w = user_bytes(address, timestamp, nonce, public_key, uid);
    assert(w.subrange(0, 32) =~= address);
    assert(w.subrange(32, 48) =~= u128_le(timestamp));
    assert(w.subrange(48, 56) =~= u64_le(nonce));
    assert(w.subrange(56, 88) =~= public_key);
    assert(w.subrange(88, 96) =~= u64_le(uid.len() as u64));
    assert(w.skip(96) =~= uid);
}

/// The canonical user encoding is injective: two well-formed field tuples
/// with the same bytes are the same tuple. Any single field difference
/// therefore changes the encoding, and with it the derived address input.
pub proof fn lemma_user_bytes_injective(
    a_address: Seq<u8>,
    a_timestamp: u128,
    a_nonce: u64,
    a_public_key: Seq<u8>,
    a_uid: Seq<u8>,
    b_address: Seq<u8>,
    b_timestamp: u128,
    b_nonce: u64,
    b_public_key: Seq<u8>,
    b_uid: Seq<u8>,
)
    requires
        a_address.len() == DIGEST_LEN,
        a_public_key.len() == PUBLIC_KEY_LEN,
        b_address.len() == DIGEST_LEN,
        b_public_key.len() == PUBLIC_KEY_LEN,
        user_bytes(a_address, a_timestamp, a_nonce, a_public_key, a_uid) == user_bytes(
            b_address,
            b_timestamp,
            b_nonce,
            b_public_key,
            b_uid,
        ),
    ensures
        a_address == b_address,
        a_timestamp == b_timestamp,
        a_nonce == b_nonce,
        a_public_key == b_public_key,
        a_uid == b_uid,
{
    lemma_user_bytes_segments(a_address, a_timestamp, a_nonce, a_public_key, a_uid);
    lemma_user_bytes_segments(b_address, b_timestamp, b_nonce, b_public_key, b_uid);
    lemma_u128_le_injective(a_timestamp, b_timestamp);
    lemma_u64_le_injective(a_nonce, b_nonce);
}

/// Encoding is a function of the fields alone: two Identities that agree
/// field-wise have identical canonical bytes, identical
/// address-derivation inputs, and therefore identical derived addresses.
pub proof fn lemma_user_encoding_deterministic(a: User, b: User)
    requires
        a.address@ == b.address@,
        a.timestamp == b.timestamp,
        a.nonce == b.nonce,
        a.public_key@ == b.public_key@,
        a.uid@ == b.uid@,
    ensures
        a.encoded() == b.encoded(),
        a.address_input() == b.address_input(),
        blake3_of(a.address_input()) == blake3_of(b.address_input()),
{
}

/// Two well-formed Identities with the same address-derivation input
/// agree on every field the address covers: any difference in external
/// id, nonce, timestamp or public key changes the bytes the address is
/// derived from.
pub proof fn lemma_user_address_input_injective(a: User, b: User)
    requires
        a.wf(),
        b.wf(),
        a.address_input() == b.address_input(),
    ensures
        a.timestamp == b.timestamp,
        a.nonce == b.nonce,
        a.public_key@ == b.public_key@,
        a.uid@ == b.uid@,
{
    lemma_user_bytes_injective(
        zero_digest(),
        a.timestamp,
        a.nonce,
        a.public_key@,
        a.uid@,
        zero_digest(),
        b.timestamp,
        b.nonce,
        b.public_key@,
        b.uid@,
    );
}

/// Decodes a canonically encoded Identity. Succeeds exactly on the byte
/// strings that some well-formed Identity encodes to, and then returns
/// that Identity; anything else is corrupted or foreign data.
pub fn decode_user(bytes: &Vec<u8>) -> (r: Result<User, DecodeError>)
    ensures
        match r {
            Ok(u) => u.wf() && u.encoded() == bytes@,
            Err(_) => forall|u: User| u.wf() ==> u.encoded() != bytes@,
        },
{
    if bytes.len() < 96 {
        proof {
            assert forall|u: User| u.wf() implies u.encoded() != bytes@ by {
                lemma_user_bytes_segments(
                    u.address@,
                    u.timestamp,
                    u.nonce,
                    u.public_key@,
                    u.uid@,
                );
            }
        }
        return Err(DecodeError::Malformed);
    }
    let uid_words = read_u64_le(bytes, 88);
    if uid_words != (bytes.len() - 96) as u64 {
        proof {
            assert forall|u: User| u.wf() implies u.encoded() != bytes@ by {
                if u.encoded() == bytes@ {
                    lemma_user_bytes_segments(
                        u.address@,
                        u.timestamp,
                        u.nonce,
                        u.public_key@,
                        u.uid@,
                    );
                    assert(u.uid.len() == u.uid@.len());
                    assert(bytes@.subrange(88, 96) == u64_le(u.uid@.len() as u64));
                    lemma_u64_le_round_trip(u.uid@.len() as u64);
                    assert(uid_words == u.uid@.len() as u64);
                    assert(u.uid@.len() == bytes@.len() - 96);
                }
            }
        }
        return Err(DecodeError::Malformed);
    }
    let address = bytes_range(bytes, 0, 32);
    let timestamp = read_u128_le(bytes, 32);
    let nonce = read_u64_le(bytes, 48);
    let public_key = bytes_range(bytes, 56, 88);
    let uid = bytes_range(bytes, 96, bytes.len());
    let user = User { address, timestamp, nonce, public_key, uid };
    proof {
        lemma_u128_from_le_round_trip(bytes@.subrange(32, 48));
        lemma_u64_from_le_round_trip(bytes@.subrange(48, 56));
        lemma_u64_from_le_round_trip(bytes@.subrange(88, 96));
        assert(user.uid@.len() == bytes@.len() - 96);
        assert(u64_le(user.uid@.len() as u64) == bytes@.subrange(88, 96));
        assert(user.encoded() =~= bytes@);
    }
    Ok(user)
}

} // verus!
