//! The chain: an ordered, append-only sequence of blocks. No structural
//! validation is performed on append; any real consistency guarantee
//! belongs to a surrounding layer.

use vstd::prelude::*;
use crate::block::Block;
use crate::Valid;

verus! {

/// An ordered sequence of blocks with a creation timestamp.
pub struct Blockchain {
    pub blocks: Vec<Block>,
    pub timestamp: u128,
}

impl Blockchain {
    /// Every held block is well-formed.
    pub open spec fn wf(self) -> bool {
        forall|i: int| 0 <= i < self.blocks@.len() ==> (#[trigger] self.blocks@[i]).wf()
    }

    /// An empty chain.
    pub fn new(timestamp: u128) -> (r: Blockchain)
        ensures
            r.wf(),
            r.blocks@.len() == 0,
            r.timestamp == timestamp,
    {
        Blockchain { blocks: Vec::new(), timestamp }
    }

    /// Appends a block unconditionally: blocks stay retrievable in
    /// insertion order. Deliberately, no check relates the block's
    /// `prev_hash` to the current tail's hash, nor its `index` to the
    /// chain position.
    pub fn add_block(&mut self, block: Block)
        ensures
            final(self).blocks@ == old(self).blocks@.push(block),
            final(self).timestamp == old(self).timestamp,
            old(self).wf() && block.wf() ==> final(self).wf(),
    {
        self.blocks.push(block);
    }

    /// The chain-level check. The design performs no structural
    /// validation: the blocks are exposed so that their hashes and
    /// records can be re-derived and compared independently.
    pub fn verify(&self) -> (r: Valid)
        ensures
            r == Valid::Valid,
    {
        Valid::Valid
    }
}

} // verus!
