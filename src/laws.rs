//! Properties that relate several queries or inputs, proved from the
//! contracts' spec functions.
use vstd::prelude::*;
use crate::block::{Block, tx_hashes_of};
use crate::block_verifier::roots_valid;
use crate::chain::{
    CellOutputWithOutPoint, Inconsistency, InvalidParams, PAGE_SIZE, RpcError, cells_by_lock_hash, scan_cells,
    tx_cells,
};
use crate::economic::{BlockReward, economic_state_spec};
use crate::hash::H256;
use crate::merkle::cbmt_root;
use crate::snapshot::{Snapshot, spec_block, spec_block_hash, spec_block_number, spec_tx_info};
use crate::tx_proof::{
    buildable, collect_indices, lemma_collect_step, lemma_collect_zero, lemma_sorted_single, proof_target,
    sorted_positions,
};

verus! {

/// A block whose header commits to a transactions root other than the one of
/// its transactions fails the roots check; in particular a block that passed,
/// with one transaction replaced so that the CBMT root changes and the header
/// kept, no longer passes.
pub proof fn lemma_changed_leaf_rejected(b: Block, b2: Block, i: int)
    requires
        roots_valid(b),
        b2.header == b.header,
        b2.transactions@.len() == b.transactions@.len(),
        0 <= i < b.transactions@.len(),
        forall|j: int| 0 <= j < b.transactions@.len() && j != i ==> b2.transactions@[j] == b.transactions@[j],
        cbmt_root(tx_hashes_of(b2.transactions@)) != cbmt_root(tx_hashes_of(b.transactions@)),
    ensures
        !roots_valid(b2),
        b2.txs_root_spec() != b2.header.txs_commit@,
{
}

/// A scan with `from == to` looks at block `from` alone.
pub proof fn lemma_single_block_scan(s: Snapshot, lock: Seq<u8>, n: u64)
    ensures
        cells_by_lock_hash(s, lock, n, n) == match spec_block_hash(s, n) {
            None => Ok(seq![]),
            Some(h) => match spec_block(s, h@) {
                None => Err(RpcError::ChainIndexIsInconsistent(Inconsistency::BlockMissing { number: n, hash: h })),
                Some(b) => Ok(tx_cells(s, b.transactions@, h, lock, b.transactions@.len() as int)),
            },
        },
{
    assert(scan_cells(s, lock, n, 0) == Ok::<Seq<CellOutputWithOutPoint>, RpcError>(seq![]));
    match spec_block_hash(s, n) {
        None => {},
        Some(h) => match spec_block(s, h@) {
            None => {},
            Some(b) => {
                let c = tx_cells(s, b.transactions@, h, lock, b.transactions@.len() as int);
                assert(Seq::<CellOutputWithOutPoint>::empty() + c =~= c);
            },
        },
    }
}

/// A range spanning exactly `PAGE_SIZE` is scanned; one block more is
/// rejected as too large.
pub proof fn lemma_page_size_bound(s: Snapshot, lock: Seq<u8>, from: u64)
    requires
        from + PAGE_SIZE + 1 <= u64::MAX,
    ensures
        cells_by_lock_hash(s, lock, from, (from + PAGE_SIZE) as u64) == scan_cells(s, lock, from, (PAGE_SIZE + 1) as nat),
        cells_by_lock_hash(s, lock, from, (from + PAGE_SIZE + 1) as u64) == Err::<Seq<CellOutputWithOutPoint>, RpcError>(
            RpcError::InvalidParams(InvalidParams::RangeTooLarge { span: (PAGE_SIZE + 1) as u64 }),
        ),
{
}

/// Two transactions committed in different blocks get no proof together.
pub proof fn lemma_different_blocks_rejected(s: Snapshot, h1: H256, h2: H256, block_hash: Option<H256>)
    requires
        spec_tx_info(s, h1@) is Some,
        spec_tx_info(s, h2@) is Some,
        spec_tx_info(s, h1@)->Some_0.block_hash@ != spec_tx_info(s, h2@)->Some_0.block_hash@,
    ensures
        proof_target(s, seq![h1, h2], block_hash) == Err::<(H256, Seq<u32>), RpcError>(
            RpcError::InvalidParams(InvalidParams::NotAllTransactionsInRetrievedBlock),
        ),
{
    let hs = seq![h1, h2];
    assert(hs.len() == 2 && hs[0] == h1 && hs[1] == h2);
    let info1 = spec_tx_info(s, h1@)->Some_0;
    lemma_collect_zero(s, hs);
    let empty = Seq::<u32>::empty();
    assert(!empty.contains(info1.index as u32));
    lemma_collect_step(s, hs, 0, None, empty);
    let c1 = collect_indices(s, hs, 1);
    assert(c1 == Ok::<(Option<H256>, Seq<u32>), RpcError>((Some(info1.block_hash), empty.push(info1.index as u32))));
    lemma_collect_step(s, hs, 1, Some(info1.block_hash), empty.push(info1.index as u32));
    let err = Err::<(Option<H256>, Seq<u32>), RpcError>(
        RpcError::InvalidParams(InvalidParams::NotAllTransactionsInRetrievedBlock),
    );
    assert(collect_indices(s, hs, 2) == err);
}

/// The block a committed transaction's info names.
pub open spec fn committed_block(s: Snapshot, h: H256) -> Block {
    spec_block(s, spec_tx_info(s, h@)->Some_0.block_hash@)->Some_0
}

/// The position a committed transaction's info names.
pub open spec fn committed_index(s: Snapshot, h: H256) -> u64 {
    spec_tx_info(s, h@)->Some_0.index
}

/// Whether `h` is committed and the snapshot's indexes agree on it: its info
/// names a stored block whose transaction at the named position is `h`.
pub open spec fn consistently_committed(s: Snapshot, h: H256) -> bool {
    &&& spec_tx_info(s, h@) is Some
    &&& spec_block(s, spec_tx_info(s, h@)->Some_0.block_hash@) is Some
    &&& committed_index(s, h) < committed_block(s, h).transactions@.len()
    &&& committed_block(s, h).transactions@[committed_index(s, h) as int].hash == h
    &&& 2 * committed_block(s, h).transactions@.len() <= u32::MAX
}

/// For one committed transaction whose indexes agree, a proof is built, over
/// its block and its position alone.
pub proof fn lemma_single_transaction_proof(s: Snapshot, h: H256)
    requires
        consistently_committed(s, h),
    ensures
        proof_target(s, seq![h], None) == Ok::<(H256, Seq<u32>), RpcError>(
            (spec_tx_info(s, h@)->Some_0.block_hash, seq![committed_index(s, h) as u32]),
        ),
        sorted_positions(seq![committed_index(s, h) as u32]) == seq![committed_index(s, h) as u32],
        buildable(committed_block(s, h), seq![committed_index(s, h) as u32]),
{
    broadcast use vstd::seq_lib::group_to_multiset_ensures;

    let hs = seq![h];
    let info = spec_tx_info(s, h@)->Some_0;
    let b = committed_block(s, h);
    let n = b.transactions@.len();
    let i = info.index as u32;
    assert(hs.len() == 1 && hs[0] == h);
    lemma_collect_zero(s, hs);
    let empty = Seq::<u32>::empty();
    lemma_collect_step(s, hs, 0, None, empty);
    assert(empty.push(i) =~= seq![i]);
    assert(seq![i].no_duplicates());
    lemma_sorted_single(i);
}

/// The genesis block has no economic state.
pub proof fn lemma_genesis_no_economic_state(s: Snapshot, hash: H256, reward: Option<BlockReward>)
    requires
        spec_block_number(s, hash@) == Some(0u64),
    ensures
        economic_state_spec(s, hash, reward) is None,
{
}

/// A block is not finalized, and has no economic state, while the tip is
/// less than `finalization_delay_length` blocks past it.
pub proof fn lemma_unfinalized_no_economic_state(s: Snapshot, hash: H256, reward: Option<BlockReward>)
    requires
        spec_block_number(s, hash@) is Some,
        (s.tip.number as int) < spec_block_number(s, hash@)->Some_0 + s.consensus.finalization_delay_length,
    ensures
        economic_state_spec(s, hash, reward) is None,
{
}

} // verus!
