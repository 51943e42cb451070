//! Block verification: the header first, then the transactions root, then
//! the two-level transactions root when the block carries witnesses.
use vstd::prelude::*;
use crate::block::{Block, carries_witnesses, witness_hashes_of};
use crate::error::Error;
use crate::header_verifier::{ChainProvider, HeaderResolver, HeaderVerifier, PowEngine};
use crate::merkle::{cbmt_root, transactions_root_of};

verus! {

/// Whether the block's header commits to its transactions (and, when it
/// carries witnesses, to the two-level root over them).
pub open spec fn roots_valid(b: Block) -> bool {
    &&& b.txs_root_spec() == b.header.txs_commit@
    &&& (carries_witnesses(b.transactions@) ==> b.header.transactions_root@ == transactions_root_of(
        b.txs_root_spec(),
        cbmt_root(witness_hashes_of(b.transactions@)),
    ))
}

/// The checks that follow a header check with result `header_result`.
pub fn check_block(block: &Block, header_result: Result<(), Error>) -> (r: Result<(), Error>)
    ensures
        header_result is Err ==> r == header_result,
        header_result is Ok ==> (r is Ok <==> roots_valid(*block)),
        header_result is Ok && block.txs_root_spec() != block.header.txs_commit@ ==> (r matches Err(
            Error::InvalidTransactionsRoot(exp, act),
        ) && exp@ == block.header.txs_commit@ && act@ == block.txs_root_spec()),
        header_result is Ok && block.txs_root_spec() == block.header.txs_commit@ && !roots_valid(*block) ==> (r matches Err(
            Error::InvalidTransactionsRoot(exp, act),
        ) && exp@ == block.header.transactions_root@ && act@ == transactions_root_of(
            block.txs_root_spec(),
            cbmt_root(witness_hashes_of(block.transactions@)),
        )),
{
    if header_result.is_err() {
        return header_result;
    }
    let t = block.check_txs_root();
    if t.is_err() {
        return t;
    }
    block.check_transactions_root()
}

pub struct BlockVerifier<P: PowEngine, C: ChainProvider + Clone> {
    pub header_verifier: HeaderVerifier<P, C>,
}

impl<P: PowEngine, C: ChainProvider + Clone> BlockVerifier<P, C> {
    pub fn new(header_verifier: HeaderVerifier<P, C>) -> (r: Self)
        ensures
            r.header_verifier == header_verifier,
    {
        BlockVerifier { header_verifier }
    }

    /// Verifies the header through `target` against the clock reading `now`,
    /// then the block's roots.
    pub fn verify<T: HeaderResolver>(&self, target: &T, block: &Block, now: u64) -> (r: Result<(), Error>)
        ensures
            r is Ok ==> roots_valid(*block),
            r is Err && roots_valid(*block) ==> !(r->Err_0 is InvalidTransactionsRoot),
    {
        let h = self.header_verifier.verify(target, now);
        check_block(block, h)
    }
}

} // verus!
