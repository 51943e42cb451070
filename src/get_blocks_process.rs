//! Answering a peer's request for blocks by hash.
use vstd::prelude::*;
use crate::block::Block;
use crate::hash::H256;
use crate::snapshot::{Snapshot, spec_block};

verus! {

/// The stored blocks among the first `k` requested hashes, in request order;
/// hashes of unknown blocks are passed over.
pub open spec fn blocks_to_send(s: Snapshot, hashes: Seq<H256>, k: nat) -> Seq<Block>
    decreases k,
{
    if k == 0 {
        seq![]
    } else {
        let prev = blocks_to_send(s, hashes, (k - 1) as nat);
        match spec_block(s, hashes[k - 1]@) {
            Some(b) => prev.push(b),
            None => prev,
        }
    }
}

/// A peer's request for the blocks with the given hashes.
pub struct GetBlocksProcess {
    pub block_hashes: Vec<H256>,
}

impl GetBlocksProcess {
    pub fn new(block_hashes: Vec<H256>) -> (r: Self)
        ensures
            r.block_hashes@ == block_hashes@,
    {
        GetBlocksProcess { block_hashes }
    }

    /// The blocks to send back, in request order.
    pub fn execute<'a>(&self, snapshot: &'a Snapshot) -> (r: Vec<&'a Block>)
        ensures
            r@.map_values(|b: &Block| *b) == blocks_to_send(*snapshot, self.block_hashes@, self.block_hashes@.len()),
    {
        let mut out: Vec<&'a Block> = Vec::new();
        let mut k: usize = 0;
        while k < self.block_hashes.len()
            invariant
                0 <= k <= self.block_hashes@.len(),
                out@.map_values(|b: &Block| *b) == blocks_to_send(*snapshot, self.block_hashes@, k as nat),
            decreases self.block_hashes@.len() - k,
        {
            let ghost prev = out@;
            match snapshot.get_block(&self.block_hashes[k]) {
                Some(b) => {
                    out.push(b);
                    assert(out@.map_values(|b: &Block| *b) =~= prev.map_values(|b: &Block| *b).push(*b));
                },
                None => {},
            }
            k = k + 1;
        }
        out
    }
}

} // verus!
