//! The Merkle reduction: an ordered list of digests committed to a single
//! root by pairwise hash-concatenation, duplicating the last node of an
//! odd level so that every node stays at the same tree depth.

use vstd::prelude::*;
use crate::hashing::{blake3_hash, blake3_of};
use crate::bytes::{append_bytes, copy_bytes};

verus! {

/// The mathematical view of a list of byte vectors.
pub open spec fn views_of(s: Seq<Vec<u8>>) -> Seq<Seq<u8>> {
    s.map_values(|v: Vec<u8>| v@)
}

/// Element-wise reading of `views_of`.
pub proof fn lemma_views_of_index(s: Seq<Vec<u8>>, i: int)
    requires
        0 <= i < s.len(),
    ensures
        views_of(s)[i] == s[i]@,
{
}

/// One Merkle node from an adjacent pair: the digest of their
/// concatenated bytes.
pub open spec fn merkle_combine(a: Seq<u8>, b: Seq<u8>) -> Seq<u8> {
    blake3_of(a + b)
}

/// One level of the reduction on an even-length list: each adjacent pair
/// combined, in order.
pub open spec fn merkle_level(leaves: Seq<Seq<u8>>) -> Seq<Seq<u8>>
    decreases leaves.len(),
{
    if leaves.len() < 2 {
        Seq::empty()
    } else {
        merkle_level(leaves.drop_last().drop_last()).push(
            merkle_combine(leaves[leaves.len() - 2], leaves[leaves.len() - 1]),
        )
    }
}

/// A level halves the node count, rounding down.
pub proof fn lemma_merkle_level_len(leaves: Seq<Seq<u8>>)
    ensures
        merkle_level(leaves).len() == leaves.len() / 2,
    decreases leaves.len(),
{
    if leaves.len() >= 2 {
        lemma_merkle_level_len(leaves.drop_last().drop_last());
    }
}

/// The level a list reduces through: the list itself if already even,
/// else the list with its last node duplicated.
pub open spec fn merkle_padded(leaves: Seq<Seq<u8>>) -> Seq<Seq<u8>> {
    if leaves.len() % 2 == 1 {
        leaves.push(leaves.last())
    } else {
        leaves
    }
}

/// The root of the reduction: a single leaf is its own root; otherwise
/// pad to an even count, combine adjacent pairs, and recurse.
pub open spec fn merkle_root_spec(leaves: Seq<Seq<u8>>) -> Seq<u8>
    decreases leaves.len(),
    when leaves.len() >= 1
    via merkle_root_spec_decreases
{
    if leaves.len() == 1 {
        leaves[0]
    } else {
        merkle_root_spec(merkle_level(merkle_padded(leaves)))
    }
}

#[via_fn]
proof fn merkle_root_spec_decreases(leaves: Seq<Seq<u8>>) {
    if leaves.len() >= 2 {
        lemma_merkle_level_len(merkle_padded(leaves));
    }
}

/// Reduces a non-empty list of leaf digests to its Merkle root.
pub fn calc_merkle_root_r(leaves: &Vec<Vec<u8>>) -> (r: Vec<u8>)
    requires
        leaves@.len() >= 1,
    ensures
        r@ == merkle_root_spec(views_of(leaves@)),
    decreases leaves@.len(),
{
    let ghost leaf_views = views_of(leaves@);
    if leaves.len() == 1 {
        return copy_bytes(&leaves[0]);
    }
    let mut padded: Vec<Vec<u8>> = Vec::new();
    let mut j: usize = 0;
    while j < leaves.len()
        invariant
            j <= leaves@.len(),
            views_of(padded@) == leaf_views.take(j as int),
            leaf_views == views_of(leaves@),
        decreases leaves@.len() - j,
    {
        let ghost prev = padded@;
        padded.push(copy_bytes(&leaves[j]));
        j = j + 1;
        proof {
            assert forall|k: int| 0 <= k < padded@.len() implies views_of(padded@)[k]
                == padded@[k]@ by {
                lemma_views_of_index(padded@, k);
            }
            assert forall|k: int| 0 <= k < prev.len() implies views_of(prev)[k] == prev[k]@ by {
                lemma_views_of_index(prev, k);
            }
            lemma_views_of_index(leaves@, j - 1);
            assert(views_of(padded@).len() == padded@.len());
            assert(views_of(prev).len() == prev.len());
            assert(views_of(leaves@).len() == leaves@.len());
            assert(views_of(padded@) =~= leaf_views.take(j as int));
        }
    }
    assert(leaf_views.take(leaf_views.len() as int) =~= leaf_views);
    if padded.len() % 2 == 1 {
        let last = copy_bytes(&padded[padded.len() - 1]);
        padded.push(last);
        assert(views_of(padded@) =~= merkle_padded(leaf_views));
    } else {
        assert(views_of(padded@) =~= merkle_padded(leaf_views));
    }
    let ghost padded_views = merkle_padded(leaf_views);
    let mut branches: Vec<Vec<u8>> = Vec::new();
    let mut i: usize = 0;
    while i < padded.len()
        invariant
            i <= padded@.len(),
            i % 2 == 0,
            padded@.len() % 2 == 0,
            padded@.len() >= 2,
            views_of(padded@) == padded_views,
            views_of(branches@) == merkle_level(padded_views.take(i as int)),
        decreases padded@.len() - i,
    {
        let mut concat = copy_bytes(&padded[i]);
        append_bytes(&mut concat, &padded[i + 1]);
        let node = blake3_hash(&concat);
        branches.push(node);
        i = i + 2;
        proof {
            let taken = padded_views.take(i as int);
            assert(taken.drop_last().drop_last() =~= padded_views.take(i as int - 2));
            assert(views_of(branches@) =~= merkle_level(taken));
        }
    }
    assert(padded_views.take(padded_views.len() as int) =~= padded_views);
    proof {
        lemma_merkle_level_len(padded_views);
    }
    calc_merkle_root_r(&branches)
}

/// The root of a single leaf is that leaf itself.
pub proof fn lemma_merkle_single(a: Seq<u8>)
    ensures
        merkle_root_spec(seq![a]) == a,
{
}

/// The root of three leaves under the duplicate-last rule: the first pair
/// combined, the lone third leaf combined with its own copy, and the two
/// results combined.
pub proof fn lemma_merkle_three(a: Seq<u8>, b: Seq<u8>, c: Seq<u8>)
    ensures
        merkle_root_spec(seq![a, b, c]) == merkle_combine(merkle_combine(a, b), merkle_combine(c, c)),
{
    let leaves = seq![a, b, c];
    let quad = seq![a, b, c, c];
    let pair = seq![merkle_combine(a, b), merkle_combine(c, c)];
    let root = seq![merkle_combine(merkle_combine(a, b), merkle_combine(c, c))];
    assert(merkle_padded(leaves) =~= quad);
    assert(quad.drop_last().drop_last() =~= seq![a, b]);
    assert(seq![a, b].drop_last().drop_last() =~= Seq::<Seq<u8>>::empty());
    assert(merkle_level(Seq::<Seq<u8>>::empty()) =~= Seq::<Seq<u8>>::empty());
    assert(merkle_level(seq![a, b]) =~= seq![merkle_combine(a, b)]);
    assert(merkle_level(quad) =~= merkle_level(seq![a, b]).push(merkle_combine(c, c)));
    assert(merkle_level(quad) =~= pair);
    assert(merkle_padded(pair) == pair);
    assert(pair.drop_last().drop_last() =~= Seq::<Seq<u8>>::empty());
    assert(merkle_level(pair) =~= root);
    assert(merkle_root_spec(leaves) == merkle_root_spec(pair));
    assert(merkle_root_spec(pair) == merkle_root_spec(root));
    assert(merkle_root_spec(root) == root[0]);
}

} // verus!
