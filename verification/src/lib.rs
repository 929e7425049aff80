//! A minimal cryptographic ledger primitive set: identities bound to
//! keypairs, signed value-transfer records, batches of records committed
//! under a Merkle root, and blocks chained by content hash.
//!
//! Every entity is content-addressed through one canonical byte encoding:
//! a deterministic serialization whose digest binds the entity to its
//! fields, and whose signature-excluded form is what a record's detached
//! signature covers.

use vstd::prelude::*;

pub mod bytes;
pub mod hashing;
pub mod keys;
pub mod user;
pub mod txn;
pub mod merkle;
pub mod batch;
pub mod block;
pub mod chain;

verus! {

/// The outcome of a signature or structure check. A mismatching or
/// malformed signature is a normal, representable outcome, never a fault.
#[derive(Debug, PartialEq, Eq, Structural)]
pub enum Valid {
    Valid,
    Invalid,
}

/// Stored bytes failed canonical decoding: corrupted or foreign data,
/// fatal for the operation that read them.
#[derive(Debug, PartialEq, Eq, Structural)]
pub enum DecodeError {
    Malformed,
}

/// A Merkle root was asked of a batch with no records: the pairwise
/// reduction is undefined on zero leaves and is rejected explicitly.
#[derive(Debug, PartialEq, Eq, Structural)]
pub enum BatchError {
    Empty,
}

} // verus!
